//! The two managed executables: where their builds are published, what
//! their archives hold, and how their settings become update targets.

use vstd::prelude::*;
use crate::archive::{extract, is_extraction_result, ArchiveKind, ExtractedBinary, ExtractionError};
use crate::platform::{arch_token, os_token, Host, Platform, PlatformCaps};
use crate::release::{
    archive_url, is_version, redirect_version, resolve_redirect, versioned_archive_url,
    RedirectReply, ReleaseDescriptor, ResolutionError,
};
use crate::install::{initial, Installer};
use crate::types::{clone_paths, texts, Config, MihomoCoreUpdate};
use crate::download::DownloadReply;
use crate::staging::is_temp_dir_name;
use crate::update::{
    choose_from_releases, download_and_extract, idle, is_choice, is_download_result,
    listed_choice, ChosenArchive, Strategy, StrategyView, TargetView, UpdateError, UpdateRun,
    UpdateTarget,
};

verus! {

/// The address that redirects to the page of the latest release of the core.
pub const SINGBOX_LATEST_URL: &'static str = "https://github.com/SagerNet/sing-box/releases/latest";

/// Below this address the archives of the core are published, one
/// directory for each version.
pub const SINGBOX_DOWNLOAD_BASE: &'static str =
    "https://github.com/SagerNet/sing-box/releases/download/";

/// The address of the archive of the core in version `version` for the
/// platform with the native names `os` and `arch`. The file name carries the
/// version without its leading `v`s.
pub open spec fn singbox_download_url(version: Seq<char>, os: Seq<char>, arch: Seq<char>) -> Seq<char> {
    versioned_archive_url(
        SINGBOX_DOWNLOAD_BASE@,
        "sing-box"@,
        version,
        os_token(os),
        arch_token(arch),
    )
}

/// The update target that the settings of the core describe: installed at
/// one path, its version found by redirect.
pub open spec fn singbox_target(config: Config) -> TargetView {
    TargetView {
        name: "sing-box"@,
        enabled: config.singbox_core_update.enabled,
        include_prerelease: config.singbox_core_update.check_prerelease,
        install_paths: seq![config.singbox_core_update.install_path@],
        strategy: StrategyView::Redirect {
            latest_url: SINGBOX_LATEST_URL@,
            download_base: SINGBOX_DOWNLOAD_BASE@,
        },
        temp_prefix: "singbox"@,
    }
}

/// Updates the core executable, `sing-box`.
#[derive(Clone, Copy, Debug)]
pub struct CoreUpdater;

impl CoreUpdater {
    /// An updater of the core.
    pub fn new() -> (updater: Self) {
        CoreUpdater
    }

    /// Reads the latest version out of the answer to a request for
    /// `SINGBOX_LATEST_URL` that follows no redirect.
    pub fn get_latest_version(&self, reply: &RedirectReply) -> (version: Result<
        String,
        ResolutionError,
    >)
        ensures
            is_version(version, redirect_version(*reply)),
    {
        resolve_redirect(reply)
    }

    /// The address of the archive of version `version` for the platform
    /// with the native names `os` and `arch`.
    pub fn get_download_url(&self, version: &str, os: &str, arch: &str) -> (url: String)
        ensures
            url@ == singbox_download_url(version@, os@, arch@),
    {
        let platform = Platform::identify(os, arch);
        archive_url(SINGBOX_DOWNLOAD_BASE, "sing-box", version, &platform)
    }

    /// Takes the executable out of the downloaded archive of the core: the
    /// first entry of the tar archive inside the gzip stream `data` that is
    /// called `sing-box`, with the platform's executable suffix.
    pub fn extract_tar_gz(&self, data: &[u8], caps: &PlatformCaps) -> (result: Result<
        ExtractedBinary,
        ExtractionError,
    >)
        ensures
            is_extraction_result(
                result,
                ArchiveKind::TarGz,
                data@,
                "sing-box"@ + caps.executable_suffix@,
                caps.posix_permissions,
            ),
    {
        let name = caps.executable_name("sing-box");
        extract(data, ArchiveKind::TarGz, name.as_str(), caps)
    }

    /// Takes the executable out of the answer to the request for the
    /// archive of the core. The address of that archive is made up from the
    /// version: where the answer says that nothing stands there, no build
    /// is published for the platform, and the result is `NoMatchingAsset`.
    /// A failed download and a failed extraction are told apart from that
    /// and from each other.
    pub fn download_and_extract(&self, reply: DownloadReply, caps: &PlatformCaps) -> (result: Result<
        ExtractedBinary,
        UpdateError,
    >)
        ensures
            is_download_result(
                result,
                reply,
                true,
                ArchiveKind::TarGz,
                "sing-box"@ + caps.executable_suffix@,
                caps.posix_permissions,
            ),
    {
        let name = caps.executable_name("sing-box");
        download_and_extract(reply, true, ArchiveKind::TarGz, name.as_str(), caps)
    }

    /// Begins the installation of the extracted executable at `source` to
    /// `dest`.
    pub fn install_file(&self, source: &str, dest: &str, caps: &PlatformCaps) -> (installer: Installer)
        ensures
            installer@ == initial(source@, dest@, caps.posix_permissions),
    {
        Installer::new(source, dest, caps.posix_permissions)
    }

    /// The update target that the settings of the core describe.
    pub fn target(&self, config: &Config) -> (target: UpdateTarget)
        ensures
            target@ == singbox_target(*config),
    {
        let mut install_paths: Vec<String> = Vec::new();
        install_paths.push(config.singbox_core_update.install_path.clone());
        assert(texts(install_paths@) =~= seq![config.singbox_core_update.install_path@]);
        UpdateTarget {
            name: "sing-box".to_owned(),
            enabled: config.singbox_core_update.enabled,
            include_prerelease: config.singbox_core_update.check_prerelease,
            install_paths,
            strategy: Strategy::Redirect {
                latest_url: SINGBOX_LATEST_URL.to_owned(),
                download_base: SINGBOX_DOWNLOAD_BASE.to_owned(),
            },
            temp_prefix: "singbox".to_owned(),
        }
    }

    /// Begins an update of the core on `host` as `config` describes it.
    pub fn run_all(&self, config: &Config, host: &Host) -> (run: UpdateRun)
        ensures
            run@ == idle(
                singbox_target(*config),
                host.platform.os@,
                host.platform.arch@,
                host.caps.executable_suffix@,
                host.caps.posix_permissions,
                run@.directory,
            ),
            is_temp_dir_name(run@.directory, "singbox"@),
    {
        UpdateRun::new(&self.target(config), host)
    }
}

/// The address of the list of releases of the alternative core.
pub const MIHOMO_RELEASES_URL: &'static str =
    "https://api.github.com/repos/MetaCubeX/mihomo/releases";

/// The update target that the settings of the alternative core describe:
/// installed at every configured path, its version found in the list of
/// releases, its builds single compressed files as well as archives.
pub open spec fn mihomo_target(settings: MihomoCoreUpdate) -> TargetView {
    TargetView {
        name: "mihomo"@,
        enabled: settings.enabled,
        include_prerelease: settings.check_prerelease,
        install_paths: texts(settings.install_paths@),
        strategy: StrategyView::Listing { releases_url: MIHOMO_RELEASES_URL@, accept_gz: true },
        temp_prefix: "mihomo"@,
    }
}

/// Updates the alternative core executable, `mihomo`.
#[derive(Clone, Copy, Debug)]
pub struct MihomoUpdater;

impl MihomoUpdater {
    /// An updater of the alternative core.
    pub fn new() -> (updater: Self) {
        MihomoUpdater
    }

    /// The archive to download for the platform with the native names `os`
    /// and `arch`, out of the newest-first list of releases of the
    /// alternative core: the first asset that is a build for the platform,
    /// of the first release that is stable, or of the first release of all
    /// where `check_prerelease` is set.
    pub fn get_download_url(
        &self,
        check_prerelease: bool,
        releases: &Vec<ReleaseDescriptor>,
        os: &str,
        arch: &str,
    ) -> (result: Result<ChosenArchive, UpdateError>)
        ensures
            is_choice(
                result,
                listed_choice(releases@, check_prerelease, os_token(os@), arch_token(arch@), true),
            ),
    {
        let platform = Platform::identify(os, arch);
        choose_from_releases(releases, check_prerelease, &platform, true)
    }

    /// Takes the executable out of the downloaded build: the whole payload
    /// of the gzip stream `data`, to be written as `mihomo`, with the
    /// platform's executable suffix.
    pub fn extract_gz(&self, data: &[u8], caps: &PlatformCaps) -> (result: Result<
        ExtractedBinary,
        ExtractionError,
    >)
        ensures
            is_extraction_result(
                result,
                ArchiveKind::Gz,
                data@,
                "mihomo"@ + caps.executable_suffix@,
                caps.posix_permissions,
            ),
    {
        let name = caps.executable_name("mihomo");
        extract(data, ArchiveKind::Gz, name.as_str(), caps)
    }

    /// Takes the executable out of the answer to the request for a build of
    /// the alternative core that comes in a container of kind `kind`. A
    /// failed download and a failed extraction are told apart.
    pub fn download_and_extract(
        &self,
        reply: DownloadReply,
        kind: ArchiveKind,
        caps: &PlatformCaps,
    ) -> (result: Result<ExtractedBinary, UpdateError>)
        ensures
            is_download_result(
                result,
                reply,
                false,
                kind,
                "mihomo"@ + caps.executable_suffix@,
                caps.posix_permissions,
            ),
    {
        let name = caps.executable_name("mihomo");
        download_and_extract(reply, false, kind, name.as_str(), caps)
    }

    /// Begins the installation of the extracted executable at `source` to
    /// `dest`.
    pub fn install_file(&self, source: &str, dest: &str, caps: &PlatformCaps) -> (installer: Installer)
        ensures
            installer@ == initial(source@, dest@, caps.posix_permissions),
    {
        Installer::new(source, dest, caps.posix_permissions)
    }

    /// The update target that the settings of the alternative core
    /// describe.
    pub fn target(&self, config: &MihomoCoreUpdate) -> (target: UpdateTarget)
        ensures
            target@ == mihomo_target(*config),
    {
        UpdateTarget {
            name: "mihomo".to_owned(),
            enabled: config.enabled,
            include_prerelease: config.check_prerelease,
            install_paths: clone_paths(&config.install_paths),
            strategy: Strategy::Listing {
                releases_url: MIHOMO_RELEASES_URL.to_owned(),
                accept_gz: true,
            },
            temp_prefix: "mihomo".to_owned(),
        }
    }

    /// Begins an update of the alternative core on `host` as `config`
    /// describes it.
    pub fn run_all(&self, config: &MihomoCoreUpdate, host: &Host) -> (run: UpdateRun)
        ensures
            run@ == idle(
                mihomo_target(*config),
                host.platform.os@,
                host.platform.arch@,
                host.caps.executable_suffix@,
                host.caps.posix_permissions,
                run@.directory,
            ),
            is_temp_dir_name(run@.directory, "mihomo"@),
    {
        UpdateRun::new(&self.target(config), host)
    }
}

} // verus!
