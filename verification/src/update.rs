//! The update of one managed executable, from the first request to the last
//! install path.
//!
//! A run resolves the version, selects the asset, takes the executable out
//! of the downloaded archive and installs it at every configured path. The
//! run makes every decision; the caller sends the requests and touches the
//! files that the run asks for, and hands back what came of it. A failed
//! stage ends the run, but a failed install path does not keep the
//! remaining paths from being tried.

use vstd::prelude::*;
use crate::archive::{
    executable_mode, extract, extraction, is_extraction_result, ArchiveKind, ExtractedBinary,
    ExtractionError,
};
use crate::install::{
    advanced, initial, lemma_advance_makes_progress, outcome_of, request_of, steps_left,
    FsRequest, FsRequestView, InstallOutcome, InstallOutcomeView, InstallPhase, Installer,
    InstallerView,
};
use crate::platform::{Host, Platform, PlatformCaps};
use crate::download::{
    answers_not_found, download_result, downloaded, is_not_found, DownloadError, DownloadReply,
};
use crate::release::{
    announced_kind, archive_url, asset_matches, chosen_asset, eligible, first_eligible,
    lemma_chosen_asset, lemma_first_eligible, listing_resolution, redirect_version,
    resolve_listing, resolve_redirect, select_asset, select_release, versioned_archive_url,
    ListingReply, RedirectReply, ReleaseDescriptor, ResolutionError,
};
use crate::staging::{is_temp_dir_name, temp_dir_name};
use crate::types::{clone_paths, texts};

verus! {

/// How the version to install is found, and where.
#[derive(Debug, PartialEq, Eq)]
pub enum Strategy {
    /// By the redirect that `latest_url` answers with; the archive of a
    /// version is then found below `download_base`.
    Redirect { latest_url: String, download_base: String },
    /// By the first eligible entry of the list of releases at
    /// `releases_url`, among whose assets the archive is selected; with
    /// `accept_gz` a single compressed file counts as an archive.
    Listing { releases_url: String, accept_gz: bool },
}

/// The mathematical content of a `Strategy`.
pub ghost enum StrategyView {
    Redirect { latest_url: Seq<char>, download_base: Seq<char> },
    Listing { releases_url: Seq<char>, accept_gz: bool },
}

impl View for Strategy {
    type V = StrategyView;

    open spec fn view(&self) -> StrategyView {
        match self {
            Strategy::Redirect { latest_url, download_base } => StrategyView::Redirect {
                latest_url: latest_url@,
                download_base: download_base@,
            },
            Strategy::Listing { releases_url, accept_gz } => StrategyView::Listing {
                releases_url: releases_url@,
                accept_gz: *accept_gz,
            },
        }
    }
}

impl Clone for Strategy {
    fn clone(&self) -> (copy: Self)
        ensures
            copy@ == self@,
    {
        match self {
            Strategy::Redirect { latest_url, download_base } => Strategy::Redirect {
                latest_url: latest_url.clone(),
                download_base: download_base.clone(),
            },
            Strategy::Listing { releases_url, accept_gz } => Strategy::Listing {
                releases_url: releases_url.clone(),
                accept_gz: *accept_gz,
            },
        }
    }
}

/// One executable that is kept up to date.
#[derive(Debug)]
pub struct UpdateTarget {
    /// The executable's own name, without a platform's suffix.
    pub name: String,
    /// Whether it is updated at all.
    pub enabled: bool,
    /// Whether prereleases count as candidates.
    pub include_prerelease: bool,
    /// Where it is installed, in the order to install it.
    pub install_paths: Vec<String>,
    /// How its version is found.
    pub strategy: Strategy,
    /// What the names of its temporary directories begin with.
    pub temp_prefix: String,
}

/// The mathematical content of an `UpdateTarget`.
pub ghost struct TargetView {
    pub name: Seq<char>,
    pub enabled: bool,
    pub include_prerelease: bool,
    pub install_paths: Seq<Seq<char>>,
    pub strategy: StrategyView,
    pub temp_prefix: Seq<char>,
}

impl View for UpdateTarget {
    type V = TargetView;

    open spec fn view(&self) -> TargetView {
        TargetView {
            name: self.name@,
            enabled: self.enabled,
            include_prerelease: self.include_prerelease,
            install_paths: texts(self.install_paths@),
            strategy: self.strategy@,
            temp_prefix: self.temp_prefix@,
        }
    }
}

impl Clone for UpdateTarget {
    fn clone(&self) -> (copy: Self)
        ensures
            copy@ == self@,
    {
        UpdateTarget {
            name: self.name.clone(),
            enabled: self.enabled,
            include_prerelease: self.include_prerelease,
            install_paths: clone_paths(&self.install_paths),
            strategy: self.strategy.clone(),
            temp_prefix: self.temp_prefix.clone(),
        }
    }
}

/// Why a run ended before anything was installed.
#[derive(Clone, Copy, Debug, PartialEq, Eq, Structural)]
pub enum UpdateError {
    /// No version could be determined.
    Resolution(ResolutionError),
    /// The release has no build for this platform.
    NoMatchingAsset,
    /// The archive could not be downloaded.
    Download(DownloadError),
    /// The executable could not be taken out of the archive.
    Extraction(ExtractionError),
    /// The executable could not be written to the temporary directory.
    Staging,
}

/// The bytes of the archive that a download brought, or why there are
/// none.
///
/// Where the address was made up from a version (`templated`) and the
/// answer says that nothing stands there, no build is published for the
/// platform: that is `NoMatchingAsset`, not a failed download. Every other
/// failure is the failure of the download.
pub open spec fn archive_bytes(reply: DownloadReply, templated: bool) -> Result<Seq<u8>, UpdateError> {
    match download_result(reply) {
        Ok(bytes) => Ok(bytes),
        Err(e) => if templated && is_not_found(reply) {
            Err(UpdateError::NoMatchingAsset)
        } else {
            Err(UpdateError::Download(e))
        },
    }
}

/// Whether `result` is what downloading an archive and extracting the file
/// called `expected` from it gives: the extraction result for the bytes
/// that the download brought, and the reason why it brought none otherwise.
pub open spec fn is_download_result(
    result: Result<ExtractedBinary, UpdateError>,
    reply: DownloadReply,
    templated: bool,
    kind: ArchiveKind,
    expected: Seq<char>,
    posix_permissions: bool,
) -> bool {
    match archive_bytes(reply, templated) {
        Err(e) => result == Err::<ExtractedBinary, UpdateError>(e),
        Ok(bytes) => match result {
            Ok(binary) => is_extraction_result(Ok(binary), kind, bytes, expected, posix_permissions),
            Err(UpdateError::Extraction(e)) => is_extraction_result(
                Err(e),
                kind,
                bytes,
                expected,
                posix_permissions,
            ),
            Err(_) => false,
        },
    }
}

/// Takes the file called `expected` out of the archive that the answer to
/// a download holds. `templated` says that the address of the archive was
/// made up from a version, not taken from a list of assets. A missing
/// build, a failed download and a failed extraction are told apart.
pub fn download_and_extract(
    reply: DownloadReply,
    templated: bool,
    kind: ArchiveKind,
    expected: &str,
    caps: &PlatformCaps,
) -> (result: Result<ExtractedBinary, UpdateError>)
    ensures
        is_download_result(result, reply, templated, kind, expected@, caps.posix_permissions),
{
    let missing = templated && answers_not_found(&reply);
    match downloaded(reply) {
        Err(e) => if missing {
            Err(UpdateError::NoMatchingAsset)
        } else {
            Err(UpdateError::Download(e))
        },
        Ok(bytes) => match extract(bytes.as_slice(), kind, expected, caps) {
            Ok(binary) => Ok(binary),
            Err(e) => Err(UpdateError::Extraction(e)),
        },
    }
}

/// The stage that a failure belongs to: no version is a failure of
/// resolving, no build for the platform one of selecting, everything else
/// one of extracting.
pub open spec fn failed_stage(error: UpdateError) -> Stage {
    match error {
        UpdateError::Resolution(_) => Stage::Resolving,
        UpdateError::NoMatchingAsset => Stage::Selecting,
        _ => Stage::Extracting,
    }
}

/// The archive chosen for a platform out of a release.
#[derive(Debug)]
pub struct ChosenArchive {
    /// The version tag of the release.
    pub version: String,
    /// Where to download the archive.
    pub url: String,
    /// The container it comes in.
    pub kind: ArchiveKind,
}

/// The mathematical content of a `ChosenArchive`.
pub ghost struct ChosenArchiveView {
    pub version: Seq<char>,
    pub url: Seq<char>,
    pub kind: ArchiveKind,
}

impl View for ChosenArchive {
    type V = ChosenArchiveView;

    open spec fn view(&self) -> ChosenArchiveView {
        ChosenArchiveView { version: self.version@, url: self.url@, kind: self.kind }
    }
}

/// The archive of `release` for the platform `os`-`arch`: the first of its
/// assets, in list order, that is a build for the platform. There is none
/// where the release has no such asset.
pub open spec fn release_choice(
    release: ReleaseDescriptor,
    os: Seq<char>,
    arch: Seq<char>,
    accept_gz: bool,
) -> Option<ChosenArchiveView> {
    match chosen_asset(release.assets@, os, arch, accept_gz) {
        None => None,
        Some(j) => match announced_kind(release.assets[j].name@, accept_gz) {
            Some(kind) => Some(
                ChosenArchiveView { version: release.tag@, url: release.assets[j].url@, kind },
            ),
            None => None,
        },
    }
}

/// Picks the archive of `release` for `platform`.
pub fn choose_archive(release: &ReleaseDescriptor, platform: &Platform, accept_gz: bool) -> (chosen: Option<
    ChosenArchive,
>)
    ensures
        match chosen {
            Some(archive) => release_choice(*release, platform.os@, platform.arch@, accept_gz)
                == Some(archive@),
            None => release_choice(*release, platform.os@, platform.arch@, accept_gz) is None,
        },
{
    match select_asset(release, platform, accept_gz) {
        None => None,
        Some(found) => Some(
            ChosenArchive {
                version: release.tag.clone(),
                url: release.assets[found.index].url.clone(),
                kind: found.kind,
            },
        ),
    }
}

/// The archive to download for the platform `os`-`arch` out of a
/// newest-first list of releases: the first matching asset of the first
/// release that passes the prerelease filter.
///
/// Where no release passes the filter there is no version to install;
/// where the release that passes first has no build for the platform, that
/// is `NoMatchingAsset`. Older releases are not looked at.
pub open spec fn listed_choice(
    releases: Seq<ReleaseDescriptor>,
    include_prerelease: bool,
    os: Seq<char>,
    arch: Seq<char>,
    accept_gz: bool,
) -> Result<ChosenArchiveView, UpdateError> {
    match first_eligible(releases, include_prerelease) {
        None => Err(UpdateError::Resolution(ResolutionError::NoEligibleRelease)),
        Some(i) => match release_choice(releases[i], os, arch, accept_gz) {
            Some(archive) => Ok(archive),
            None => Err(UpdateError::NoMatchingAsset),
        },
    }
}

/// Whether `result` is the archive `expected`, or fails as `expected`
/// does.
pub open spec fn is_choice(
    result: Result<ChosenArchive, UpdateError>,
    expected: Result<ChosenArchiveView, UpdateError>,
) -> bool {
    match result {
        Ok(archive) => expected == Ok::<ChosenArchiveView, UpdateError>(archive@),
        Err(e) => expected == Err::<ChosenArchiveView, UpdateError>(e),
    }
}

/// Picks the archive to download for `platform` out of a newest-first list
/// of releases.
pub fn choose_from_releases(
    releases: &Vec<ReleaseDescriptor>,
    include_prerelease: bool,
    platform: &Platform,
    accept_gz: bool,
) -> (result: Result<ChosenArchive, UpdateError>)
    ensures
        is_choice(
            result,
            listed_choice(releases@, include_prerelease, platform.os@, platform.arch@, accept_gz),
        ),
{
    match select_release(releases, include_prerelease) {
        None => Err(UpdateError::Resolution(ResolutionError::NoEligibleRelease)),
        Some(i) => {
            proof {
                lemma_first_eligible(releases@, include_prerelease);
            }
            match choose_archive(&releases[i], platform, accept_gz) {
                Some(archive) => Ok(archive),
                None => Err(UpdateError::NoMatchingAsset),
            }
        },
    }
}

/// The release chosen is the newest that passes the prerelease filter, the
/// first of the list where prereleases are included, and the archive
/// chosen is its first asset that is a build for the platform. The choice
/// fails for want of a version exactly where no release passes the filter,
/// and for want of a build exactly where that release has no matching
/// asset; it fails in no other way.
pub proof fn lemma_listed_choice(
    releases: Seq<ReleaseDescriptor>,
    include_prerelease: bool,
    os: Seq<char>,
    arch: Seq<char>,
    accept_gz: bool,
)
    ensures
        match listed_choice(releases, include_prerelease, os, arch, accept_gz) {
            Ok(archive) => {
                let i = first_eligible(releases, include_prerelease)->0;
                let j = chosen_asset(releases[i].assets@, os, arch, accept_gz)->0;
                &&& 0 <= i < releases.len()
                &&& eligible(releases[i].prerelease, include_prerelease)
                &&& forall|k: int|
                    0 <= k < i ==> !eligible(#[trigger] releases[k].prerelease, include_prerelease)
                &&& include_prerelease ==> i == 0
                &&& !include_prerelease ==> !releases[i].prerelease
                &&& archive.version == releases[i].tag@
                &&& 0 <= j < releases[i].assets.len()
                &&& archive.url == releases[i].assets[j].url@
                &&& asset_matches(releases[i].assets[j].name@, os, arch, accept_gz)
                &&& Some(archive.kind) == announced_kind(releases[i].assets[j].name@, accept_gz)
                &&& forall|k: int|
                    0 <= k < j ==> !asset_matches(
                        #[trigger] releases[i].assets[k].name@,
                        os,
                        arch,
                        accept_gz,
                    )
            },
            Err(UpdateError::Resolution(e)) => {
                &&& e == ResolutionError::NoEligibleRelease
                &&& forall|k: int|
                    0 <= k < releases.len() ==> !eligible(
                        #[trigger] releases[k].prerelease,
                        include_prerelease,
                    )
            },
            Err(UpdateError::NoMatchingAsset) => {
                let i = first_eligible(releases, include_prerelease)->0;
                &&& first_eligible(releases, include_prerelease) is Some
                &&& forall|k: int|
                    0 <= k < releases[i].assets.len() ==> !asset_matches(
                        #[trigger] releases[i].assets[k].name@,
                        os,
                        arch,
                        accept_gz,
                    )
            },
            Err(_) => false,
        },
{
    lemma_first_eligible(releases, include_prerelease);
    match first_eligible(releases, include_prerelease) {
        Some(i) => {
            lemma_chosen_asset(releases[i].assets@, os, arch, accept_gz);
        },
        None => {},
    }
}

/// Where a run stands.
#[derive(Clone, Copy, Debug, PartialEq, Eq, Structural)]
pub enum Stage {
    /// Not begun.
    Idle,
    /// The version is being determined.
    Resolving,
    /// The asset for this platform is being picked. A run passes through
    /// this stage without asking for anything.
    Selecting,
    /// The archive is being downloaded, and the executable taken out of it
    /// and written to the temporary directory.
    Extracting,
    /// The executable is being installed, one path after the other.
    Installing,
    /// Ended: the target is disabled, or every path has been tried.
    Done,
    /// Ended by the failure of a stage.
    Failed,
}

/// The failure that ended a run, with the stage it happened in.
#[derive(Clone, Copy, Debug, PartialEq, Eq, Structural)]
pub struct StageFailure {
    /// The stage that failed.
    pub stage: Stage,
    /// Why it failed.
    pub error: UpdateError,
}

/// What the caller hands back to a run.
#[derive(Debug)]
pub enum Event {
    /// The run is to begin.
    Start,
    /// The answer to `FetchRedirect`.
    Redirected(RedirectReply),
    /// The answer to `FetchListing`.
    Listed(ListingReply),
    /// The answer to `Download`.
    Downloaded(DownloadReply),
    /// The answer to `Stage`: the path of the file written, or `None` where
    /// it could not be written.
    Staged(Option<String>),
    /// The answer to `File`: to `Exists`, whether a file is there; to any
    /// other step, whether it succeeded.
    Answered(bool),
}

/// What a run asks the caller to do next.
#[derive(Debug)]
pub enum Command {
    /// Request `url` without following redirects, and hand back the
    /// `Location` header of the answer.
    FetchRedirect { url: String },
    /// Request the list of releases at `url`.
    FetchListing { url: String },
    /// Download the archive at `url`.
    Download { url: String },
    /// Write `binary` into a fresh directory called `directory` below the
    /// system's place for temporary files, with its mode where it has one.
    Stage { directory: String, binary: ExtractedBinary },
    /// Perform a file-system step of an installation.
    File(FsRequest),
    /// Delete the directory called `directory` below the system's place for
    /// temporary files, if it exists; the run is over.
    CleanUp { directory: String },
    /// Nothing: the run is over, or the event does not belong to its stage.
    Nothing,
}

/// The mathematical content of a `Command`.
pub ghost enum CommandView {
    FetchRedirect { url: Seq<char> },
    FetchListing { url: Seq<char> },
    Download { url: Seq<char> },
    Stage { directory: Seq<char>, file_name: Seq<char>, content: Seq<u8>, mode: Option<u32> },
    File(FsRequestView),
    CleanUp { directory: Seq<char> },
    Nothing,
}

impl View for Command {
    type V = CommandView;

    open spec fn view(&self) -> CommandView {
        match self {
            Command::FetchRedirect { url } => CommandView::FetchRedirect { url: url@ },
            Command::FetchListing { url } => CommandView::FetchListing { url: url@ },
            Command::Download { url } => CommandView::Download { url: url@ },
            Command::Stage { directory, binary } => CommandView::Stage {
                directory: directory@,
                file_name: binary.file_name@,
                content: binary.content@,
                mode: binary.mode,
            },
            Command::File(request) => CommandView::File(request@),
            Command::CleanUp { directory } => CommandView::CleanUp { directory: directory@ },
            Command::Nothing => CommandView::Nothing,
        }
    }
}

/// The archive that a run has selected.
pub ghost struct SelectionView {
    pub url: Seq<char>,
    pub kind: ArchiveKind,
}

/// The mathematical content of an `UpdateRun`.
pub ghost struct RunView {
    /// The target that is updated.
    pub target: TargetView,
    /// The operating-system token of the platform that it is updated for.
    pub os: Seq<char>,
    /// The architecture token of that platform.
    pub arch: Seq<char>,
    /// The executable suffix of that platform.
    pub suffix: Seq<char>,
    /// Whether files carry permission bits there.
    pub posix_permissions: bool,
    /// The name of the temporary directory of this run.
    pub directory: Seq<char>,
    /// Where the run stands.
    pub stage: Stage,
    /// The version resolved.
    pub version: Option<Seq<char>>,
    /// The archive selected.
    pub selection: Option<SelectionView>,
    /// Whether the executable has been taken out of the archive.
    pub extracted: bool,
    /// The path of the executable in the temporary directory.
    pub staged: Option<Seq<char>>,
    /// The installation at the current install path.
    pub installer: Option<InstallerView>,
    /// The outcomes at the install paths tried so far.
    pub outcomes: Seq<InstallOutcomeView>,
    /// Whether the run ended at once because the target is disabled.
    pub skipped: bool,
    /// The failure that ended the run.
    pub failure: Option<StageFailure>,
}

/// A run that has not begun.
pub open spec fn idle(
    target: TargetView,
    os: Seq<char>,
    arch: Seq<char>,
    suffix: Seq<char>,
    posix_permissions: bool,
    directory: Seq<char>,
) -> RunView {
    RunView {
        target,
        os,
        arch,
        suffix,
        posix_permissions,
        directory,
        stage: Stage::Idle,
        version: None,
        selection: None,
        extracted: false,
        staged: None,
        installer: None,
        outcomes: Seq::empty(),
        skipped: false,
        failure: None,
    }
}

/// The file name of the executable of a run on its platform.
pub open spec fn executable_name(v: RunView) -> Seq<char> {
    v.target.name + v.suffix
}

/// The run ended by `error` in `stage`; nothing more is asked for.
pub open spec fn failing(v: RunView, stage: Stage, error: UpdateError) -> (RunView, CommandView) {
    (
        RunView { stage: Stage::Failed, failure: Some(StageFailure { stage, error }), ..v },
        CommandView::Nothing,
    )
}

/// The beginning of a run: a disabled target is done at once, skipped; for
/// an enabled one the version is asked for, as its strategy says.
pub open spec fn begun(v: RunView) -> (RunView, CommandView) {
    if !v.target.enabled {
        (
            RunView { stage: Stage::Done, skipped: true, ..v },
            CommandView::CleanUp { directory: v.directory },
        )
    } else {
        (
            RunView { stage: Stage::Resolving, ..v },
            match v.target.strategy {
                StrategyView::Redirect { latest_url, .. } => CommandView::FetchRedirect {
                    url: latest_url,
                },
                StrategyView::Listing { releases_url, .. } => CommandView::FetchListing {
                    url: releases_url,
                },
            },
        )
    }
}

/// The run that has resolved `version` and selected the archive at `url`:
/// the archive is asked for.
pub open spec fn selected(v: RunView, version: Seq<char>, url: Seq<char>, kind: ArchiveKind) -> (
    RunView,
    CommandView,
) {
    (
        RunView {
            stage: Stage::Extracting,
            version: Some(version),
            selection: Some(SelectionView { url, kind }),
            ..v
        },
        CommandView::Download { url },
    )
}

/// The run after the answer to its request for the latest release: the
/// version is the one that the redirect names, and its archive, a tar
/// archive in a gzip stream, stands below the download base.
pub open spec fn redirected(v: RunView, reply: RedirectReply) -> (RunView, CommandView) {
    match v.target.strategy {
        StrategyView::Redirect { download_base, .. } => match redirect_version(reply) {
            Err(e) => failing(v, Stage::Resolving, UpdateError::Resolution(e)),
            Ok(version) => selected(
                v,
                version,
                versioned_archive_url(download_base, v.target.name, version, v.os, v.arch),
                ArchiveKind::TarGz,
            ),
        },
        StrategyView::Listing { .. } => (v, CommandView::Nothing),
    }
}

/// The releases that an answer lists.
pub open spec fn listed(reply: ListingReply) -> Seq<ReleaseDescriptor> {
    match reply {
        ListingReply::Answered { releases: Some(list), .. } => list@,
        _ => Seq::empty(),
    }
}

/// The run after the answer to its request for the list of releases: the
/// release is the first that passes the prerelease filter, and its archive
/// the first asset that is a build for the platform. A release without
/// such an asset ends the run in `Selecting`, with `NoMatchingAsset`.
pub open spec fn listing_taken(v: RunView, reply: ListingReply) -> (RunView, CommandView) {
    match v.target.strategy {
        StrategyView::Listing { accept_gz, .. } => match listing_resolution(
            reply,
            v.target.include_prerelease,
        ) {
            Err(e) => failing(v, Stage::Resolving, UpdateError::Resolution(e)),
            Ok(i) => match release_choice(listed(reply)[i], v.os, v.arch, accept_gz) {
                None => failing(v, Stage::Selecting, UpdateError::NoMatchingAsset),
                Some(archive) => selected(v, archive.version, archive.url, archive.kind),
            },
        },
        StrategyView::Redirect { .. } => (v, CommandView::Nothing),
    }
}

/// The run after the answer to its request for the archive: the executable
/// is taken out of the archive and handed over to be written into the
/// temporary directory. A failed download and a failed extraction end the
/// run in `Extracting`. Where the address of the archive was made up from
/// the version and nothing stands there, no build is published for the
/// platform: the run ends in `Selecting`, with `NoMatchingAsset`.
pub open spec fn archive_taken(v: RunView, reply: DownloadReply) -> (RunView, CommandView) {
    match v.selection {
        Some(selection) => if v.extracted {
            (v, CommandView::Nothing)
        } else {
            match archive_bytes(reply, v.target.strategy is Redirect) {
                Err(e) => failing(v, failed_stage(e), e),
                Ok(bytes) => match extraction(selection.kind, bytes, executable_name(v)) {
                    Err(e) => failing(v, Stage::Extracting, UpdateError::Extraction(e)),
                    Ok(content) => (
                        RunView { extracted: true, ..v },
                        CommandView::Stage {
                            directory: v.directory,
                            file_name: executable_name(v),
                            content,
                            mode: executable_mode(v.posix_permissions),
                        },
                    ),
                },
            }
        },
        None => (v, CommandView::Nothing),
    }
}

/// The path of the executable to install.
pub open spec fn source_of(v: RunView) -> Seq<char> {
    match v.staged {
        Some(path) => path,
        None => Seq::empty(),
    }
}

/// The run turning to the install path that comes next: its installation
/// begins; where no path is left, the run is done and the temporary
/// directory is to be deleted.
pub open spec fn next_path(v: RunView) -> (RunView, CommandView) {
    if v.outcomes.len() < v.target.install_paths.len() {
        let destination = v.target.install_paths[v.outcomes.len() as int];
        (
            RunView {
                stage: Stage::Installing,
                installer: Some(initial(source_of(v), destination, v.posix_permissions)),
                ..v
            },
            CommandView::File(FsRequestView::CreateParentDirs { of: destination }),
        )
    } else {
        (
            RunView { stage: Stage::Done, installer: None, ..v },
            CommandView::CleanUp { directory: v.directory },
        )
    }
}

/// The run after the answer to its request to write the executable into
/// the temporary directory: the installation at the first path begins.
/// Where the executable could not be written, the run ends, and what there
/// is of the temporary directory is to be deleted.
pub open spec fn staging_done(v: RunView, path: Option<String>) -> (RunView, CommandView) {
    if v.extracted && v.staged is None {
        match path {
            Some(file) => next_path(RunView { staged: Some(file@), ..v }),
            None => (
                failing(v, Stage::Extracting, UpdateError::Staging).0,
                CommandView::CleanUp { directory: v.directory },
            ),
        }
    } else {
        (v, CommandView::Nothing)
    }
}

/// The run after the answer to a file-system step: the installation at the
/// current path goes on; where it has ended, well or not, its outcome is
/// recorded and the run turns to the next path.
pub open spec fn answered(v: RunView, positive: bool) -> (RunView, CommandView) {
    match v.installer {
        None => (v, CommandView::Nothing),
        Some(installer) => {
            let after = advanced(installer, positive);
            match request_of(after) {
                Some(request) => (
                    RunView { installer: Some(after), ..v },
                    CommandView::File(request),
                ),
                None => match outcome_of(after) {
                    Some(outcome) => next_path(
                        RunView { outcomes: v.outcomes.push(outcome), installer: None, ..v },
                    ),
                    None => (v, CommandView::Nothing),
                },
            }
        },
    }
}

/// The run after `event`, and what it asks for.
///
/// An event that does not belong to the stage of the run changes nothing
/// and asks for nothing.
pub open spec fn stepped(v: RunView, event: Event) -> (RunView, CommandView) {
    match (v.stage, event) {
        (Stage::Idle, Event::Start) => begun(v),
        (Stage::Resolving, Event::Redirected(reply)) => redirected(v, reply),
        (Stage::Resolving, Event::Listed(reply)) => listing_taken(v, reply),
        (Stage::Extracting, Event::Downloaded(reply)) => archive_taken(v, reply),
        (Stage::Extracting, Event::Staged(path)) => staging_done(v, path),
        (Stage::Installing, Event::Answered(positive)) => answered(v, positive),
        _ => (v, CommandView::Nothing),
    }
}

/// The content of each outcome of `outcomes`, in order.
pub open spec fn outcome_views(outcomes: Seq<InstallOutcome>) -> Seq<InstallOutcomeView> {
    Seq::new(outcomes.len(), |i: int| outcomes[i]@)
}

/// How many of `outcomes` report an installed file.
pub open spec fn installed_count(outcomes: Seq<InstallOutcomeView>) -> nat
    decreases outcomes.len(),
{
    if outcomes.len() == 0 {
        0
    } else {
        installed_count(outcomes.drop_last()) + if outcomes.last().installed {
            1nat
        } else {
            0nat
        }
    }
}

/// What a run that is over amounts to.
#[derive(Clone, Copy, Debug, PartialEq, Eq, Structural)]
pub struct UpdateSummary {
    /// Whether nothing was done because the target is disabled.
    pub skipped: bool,
    /// The failure of the stage that ended the run, where one did.
    pub failure: Option<StageFailure>,
    /// At how many paths the executable was installed.
    pub installed: usize,
    /// At how many paths the installation failed.
    pub failed: usize,
}

/// What a run in state `v` amounts to, once it is over.
pub open spec fn summary_of(v: RunView) -> Option<UpdateSummary> {
    if v.stage == Stage::Done || v.stage == Stage::Failed {
        Some(
            UpdateSummary {
                skipped: v.skipped,
                failure: v.failure,
                installed: installed_count(v.outcomes) as usize,
                failed: (v.outcomes.len() - installed_count(v.outcomes)) as usize,
            },
        )
    } else {
        None
    }
}

/// The archive that a run has selected.
struct Selection {
    url: String,
    kind: ArchiveKind,
}

/// The update of one target, from the first request to the last install
/// path.
pub struct UpdateRun {
    target: UpdateTarget,
    platform: Platform,
    caps: PlatformCaps,
    directory: String,
    stage: Stage,
    version: Option<String>,
    selection: Option<Selection>,
    extracted: bool,
    staged: Option<String>,
    installer: Option<Installer>,
    outcomes: Vec<InstallOutcome>,
    skipped: bool,
    failure: Option<StageFailure>,
}

impl View for UpdateRun {
    type V = RunView;

    closed spec fn view(&self) -> RunView {
        RunView {
            target: self.target@,
            os: self.platform.os@,
            arch: self.platform.arch@,
            suffix: self.caps.executable_suffix@,
            posix_permissions: self.caps.posix_permissions,
            directory: self.directory@,
            stage: self.stage,
            version: match self.version {
                Some(version) => Some(version@),
                None => None,
            },
            selection: match self.selection {
                Some(selection) => Some(SelectionView { url: selection.url@, kind: selection.kind }),
                None => None,
            },
            extracted: self.extracted,
            staged: match self.staged {
                Some(path) => Some(path@),
                None => None,
            },
            installer: match self.installer {
                Some(installer) => Some(installer@),
                None => None,
            },
            outcomes: outcome_views(self.outcomes@),
            skipped: self.skipped,
            failure: self.failure,
        }
    }
}

impl UpdateRun {
    /// A run for `target` on `host` that has not begun. The name of its
    /// temporary directory is drawn here.
    pub fn new(target: &UpdateTarget, host: &Host) -> (run: UpdateRun)
        ensures
            run@ == idle(
                target@,
                host.platform.os@,
                host.platform.arch@,
                host.caps.executable_suffix@,
                host.caps.posix_permissions,
                run@.directory,
            ),
            is_temp_dir_name(run@.directory, target.temp_prefix@),
    {
        let run = UpdateRun {
            target: target.clone(),
            platform: host.platform.clone(),
            caps: host.caps.clone(),
            directory: temp_dir_name(target.temp_prefix.as_str()),
            stage: Stage::Idle,
            version: None,
            selection: None,
            extracted: false,
            staged: None,
            installer: None,
            outcomes: Vec::new(),
            skipped: false,
            failure: None,
        };
        assert(outcome_views(run.outcomes@) =~= Seq::empty());
        run
    }

    /// Where the run stands.
    pub fn stage(&self) -> (stage: Stage)
        ensures
            stage == self@.stage,
    {
        self.stage
    }

    /// Whether the run ended at once because the target is disabled.
    pub fn skipped(&self) -> (skipped: bool)
        ensures
            skipped == self@.skipped,
    {
        self.skipped
    }

    /// The failure that ended the run, where one did.
    pub fn failure(&self) -> (failure: Option<StageFailure>)
        ensures
            failure == self@.failure,
    {
        self.failure
    }

    /// The version resolved, once it is.
    pub fn version(&self) -> (version: Option<&String>)
        ensures
            match version {
                Some(tag) => self@.version == Some(tag@),
                None => self@.version is None,
            },
    {
        self.version.as_ref()
    }

    /// The name of the temporary directory of this run.
    pub fn directory(&self) -> (directory: &String)
        ensures
            directory@ == self@.directory,
    {
        &self.directory
    }

    /// The outcomes recorded so far, one for each path tried, in order.
    pub fn outcomes(&self) -> (outcomes: &Vec<InstallOutcome>)
        ensures
            outcome_views(outcomes@) == self@.outcomes,
    {
        &self.outcomes
    }

    /// Ends the run with `error` in `stage`.
    fn fail(&mut self, stage: Stage, error: UpdateError) -> (command: Command)
        ensures
            final(self)@ == failing(old(self)@, stage, error).0,
            command@ == failing(old(self)@, stage, error).1,
    {
        self.failure = Some(StageFailure { stage, error });
        self.stage = Stage::Failed;
        Command::Nothing
    }

    /// Begins the run.
    fn begin(&mut self) -> (command: Command)
        ensures
            final(self)@ == begun(old(self)@).0,
            command@ == begun(old(self)@).1,
    {
        if !self.target.enabled {
            self.skipped = true;
            self.stage = Stage::Done;
            Command::CleanUp { directory: self.directory.clone() }
        } else {
            self.stage = Stage::Resolving;
            match &self.target.strategy {
                Strategy::Redirect { latest_url, .. } => Command::FetchRedirect {
                    url: latest_url.clone(),
                },
                Strategy::Listing { releases_url, .. } => Command::FetchListing {
                    url: releases_url.clone(),
                },
            }
        }
    }

    /// Records the version resolved and the archive selected, and asks for
    /// the archive.
    fn select(&mut self, version: String, url: String, kind: ArchiveKind) -> (command: Command)
        ensures
            final(self)@ == selected(old(self)@, version@, url@, kind).0,
            command@ == selected(old(self)@, version@, url@, kind).1,
    {
        let command = Command::Download { url: url.clone() };
        self.version = Some(version);
        self.selection = Some(Selection { url, kind });
        self.stage = Stage::Extracting;
        command
    }

    /// Takes the answer to the request for the latest release.
    fn take_redirect(&mut self, reply: RedirectReply) -> (command: Command)
        ensures
            final(self)@ == redirected(old(self)@, reply).0,
            command@ == redirected(old(self)@, reply).1,
    {
        let base = match &self.target.strategy {
            Strategy::Redirect { download_base, .. } => download_base.clone(),
            Strategy::Listing { .. } => {
                return Command::Nothing;
            },
        };
        match resolve_redirect(&reply) {
            Err(e) => self.fail(Stage::Resolving, UpdateError::Resolution(e)),
            Ok(version) => {
                let url = archive_url(
                    base.as_str(),
                    self.target.name.as_str(),
                    version.as_str(),
                    &self.platform,
                );
                self.select(version, url, ArchiveKind::TarGz)
            },
        }
    }

    /// Takes the answer to the request for the list of releases.
    fn take_listing(&mut self, reply: ListingReply) -> (command: Command)
        ensures
            final(self)@ == listing_taken(old(self)@, reply).0,
            command@ == listing_taken(old(self)@, reply).1,
    {
        let accept_gz = match &self.target.strategy {
            Strategy::Listing { accept_gz, .. } => *accept_gz,
            Strategy::Redirect { .. } => {
                return Command::Nothing;
            },
        };
        match resolve_listing(&reply, self.target.include_prerelease) {
            Err(e) => self.fail(Stage::Resolving, UpdateError::Resolution(e)),
            Ok(i) => match &reply {
                ListingReply::Answered { releases: Some(list), .. } => {
                    match choose_archive(&list[i], &self.platform, accept_gz) {
                        None => self.fail(Stage::Selecting, UpdateError::NoMatchingAsset),
                        Some(archive) => self.select(archive.version, archive.url, archive.kind),
                    }
                },
                _ => Command::Nothing,
            },
        }
    }

    /// Takes the answer to the request for the archive.
    fn take_archive(&mut self, reply: DownloadReply) -> (command: Command)
        ensures
            final(self)@ == archive_taken(old(self)@, reply).0,
            command@ == archive_taken(old(self)@, reply).1,
    {
        let kind = match &self.selection {
            Some(selection) => selection.kind,
            None => {
                return Command::Nothing;
            },
        };
        if self.extracted {
            return Command::Nothing;
        }
        let templated = match &self.target.strategy {
            Strategy::Redirect { .. } => true,
            Strategy::Listing { .. } => false,
        };
        let name = self.caps.executable_name(self.target.name.as_str());
        match download_and_extract(reply, templated, kind, name.as_str(), &self.caps) {
            Err(e) => {
                let stage = match e {
                    UpdateError::Resolution(_) => Stage::Resolving,
                    UpdateError::NoMatchingAsset => Stage::Selecting,
                    _ => Stage::Extracting,
                };
                self.fail(stage, e)
            },
            Ok(binary) => {
                self.extracted = true;
                Command::Stage { directory: self.directory.clone(), binary }
            },
        }
    }

    /// Turns to the install path that comes next.
    fn turn_to_next_path(&mut self) -> (command: Command)
        ensures
            final(self)@ == next_path(old(self)@).0,
            command@ == next_path(old(self)@).1,
    {
        if self.outcomes.len() < self.target.install_paths.len() {
            proof {
                reveal_strlit("");
            }
            let installer = Installer::new(
                match &self.staged {
                    Some(path) => path.as_str(),
                    None => "",
                },
                self.target.install_paths[self.outcomes.len()].as_str(),
                self.caps.posix_permissions,
            );
            let of = self.target.install_paths[self.outcomes.len()].clone();
            assert(installer@.source =~= source_of(self@));
            self.installer = Some(installer);
            self.stage = Stage::Installing;
            Command::File(FsRequest::CreateParentDirs { of })
        } else {
            self.installer = None;
            self.stage = Stage::Done;
            Command::CleanUp { directory: self.directory.clone() }
        }
    }

    /// Takes the answer to the request to write the executable into the
    /// temporary directory.
    fn take_staging(&mut self, path: Option<String>) -> (command: Command)
        ensures
            final(self)@ == staging_done(old(self)@, path).0,
            command@ == staging_done(old(self)@, path).1,
    {
        if self.extracted && self.staged.is_none() {
            match path {
                Some(file) => {
                    self.staged = Some(file);
                    self.turn_to_next_path()
                },
                None => {
                    self.failure = Some(
                        StageFailure { stage: Stage::Extracting, error: UpdateError::Staging },
                    );
                    self.stage = Stage::Failed;
                    Command::CleanUp { directory: self.directory.clone() }
                },
            }
        } else {
            Command::Nothing
        }
    }

    /// Takes the answer to a file-system step.
    fn take_answer(&mut self, positive: bool) -> (command: Command)
        ensures
            final(self)@ == answered(old(self)@, positive).0,
            command@ == answered(old(self)@, positive).1,
    {
        match self.installer.take() {
            None => Command::Nothing,
            Some(mut installer) => {
                installer.advance(positive);
                match installer.request() {
                    Some(request) => {
                        self.installer = Some(installer);
                        Command::File(request)
                    },
                    None => match installer.outcome() {
                        Some(outcome) => {
                            let ghost recorded = outcome@;
                            self.outcomes.push(outcome);
                            assert(outcome_views(self.outcomes@) =~= old(self)@.outcomes.push(
                                recorded,
                            ));
                            self.turn_to_next_path()
                        },
                        None => Command::Nothing,
                    },
                }
            },
        }
    }

    /// Takes what came of the last command and answers with what is to be
    /// done next.
    pub fn step(&mut self, event: Event) -> (command: Command)
        ensures
            final(self)@ == stepped(old(self)@, event).0,
            command@ == stepped(old(self)@, event).1,
    {
        match (self.stage, event) {
            (Stage::Idle, Event::Start) => self.begin(),
            (Stage::Resolving, Event::Redirected(reply)) => self.take_redirect(reply),
            (Stage::Resolving, Event::Listed(reply)) => self.take_listing(reply),
            (Stage::Extracting, Event::Downloaded(reply)) => self.take_archive(reply),
            (Stage::Extracting, Event::Staged(path)) => self.take_staging(path),
            (Stage::Installing, Event::Answered(positive)) => self.take_answer(positive),
            _ => Command::Nothing,
        }
    }

    /// What the run amounts to, once it is over: `None` while it is not.
    pub fn summary(&self) -> (summary: Option<UpdateSummary>)
        ensures
            summary == summary_of(self@),
    {
        match self.stage {
            Stage::Done | Stage::Failed => {},
            _ => {
                return None;
            },
        }
        let ghost views = outcome_views(self.outcomes@);
        let mut installed: usize = 0;
        let mut i: usize = 0;
        while i < self.outcomes.len()
            invariant
                i <= self.outcomes.len(),
                views == outcome_views(self.outcomes@),
                installed == installed_count(views.take(i as int)),
                installed <= i,
            decreases self.outcomes.len() - i,
        {
            assert(views.take(i + 1).drop_last() =~= views.take(i as int));
            if self.outcomes[i].installed {
                installed += 1;
            }
            i += 1;
        }
        assert(views.take(i as int) =~= views);
        Some(
            UpdateSummary {
                skipped: self.skipped,
                failure: self.failure,
                installed,
                failed: self.outcomes.len() - installed,
            },
        )
    }
}

/// No more files are counted as installed than outcomes were recorded.
proof fn lemma_installed_count_bound(outcomes: Seq<InstallOutcomeView>)
    ensures
        installed_count(outcomes) <= outcomes.len(),
    decreases outcomes.len(),
{
    if outcomes.len() > 0 {
        lemma_installed_count_bound(outcomes.drop_last());
    }
}

/// The summary counts every path tried exactly once, as installed or as
/// failed.
pub proof fn lemma_summary_counts_every_outcome(v: RunView)
    requires
        v.outcomes.len() <= usize::MAX,
    ensures
        summary_of(v) matches Some(summary) ==> summary.installed + summary.failed
            == v.outcomes.len(),
{
    lemma_installed_count_bound(v.outcomes);
}

/// A disabled target is skipped: its run is done at the start, and neither
/// a request nor a file-system step is ever asked for.
pub proof fn lemma_disabled_target_is_skipped(v: RunView)
    requires
        v.stage == Stage::Idle,
        !v.target.enabled,
    ensures
        stepped(v, Event::Start).0 == (RunView { stage: Stage::Done, skipped: true, ..v }),
        stepped(v, Event::Start).1 == (CommandView::CleanUp { directory: v.directory }),
{
}

/// A run that is over stays as it is, whatever is handed to it, and asks
/// for nothing more.
pub proof fn lemma_ended_run_is_final(v: RunView, event: Event)
    requires
        v.stage == Stage::Done || v.stage == Stage::Failed,
    ensures
        stepped(v, event) == (v, CommandView::Nothing),
{
}

/// A run is done only by way of the clean-up: whatever brings a run to
/// `Done` asks for its temporary directory to be deleted.
pub proof fn lemma_done_cleans_up(v: RunView, event: Event)
    requires
        v.stage != Stage::Done,
        stepped(v, event).0.stage == Stage::Done,
    ensures
        stepped(v, event).1 == (CommandView::CleanUp { directory: v.directory }),
{
}

/// A missing build is told apart from a failed request: a run ends with
/// `NoMatchingAsset` exactly where the list of releases was obtained and
/// read, a release passes the prerelease filter, and none of its assets is
/// a build for the platform. It then ends in `Selecting`.
pub proof fn lemma_no_build_is_told_apart(v: RunView, reply: ListingReply)
    requires
        v.stage == Stage::Resolving,
        v.failure is None,
        v.target.strategy is Listing,
    ensures
        ({
            let after = stepped(v, Event::Listed(reply)).0;
            let resolved = listing_resolution(reply, v.target.include_prerelease);
            let accept_gz = v.target.strategy->accept_gz;
            &&& (after.failure matches Some(failure) && failure.error == UpdateError::NoMatchingAsset)
                <==> (resolved matches Ok(i) && chosen_asset(
                listed(reply)[i].assets@,
                v.os,
                v.arch,
                accept_gz,
            ) is None)
            &&& (after.failure matches Some(failure) && failure.error == UpdateError::NoMatchingAsset)
                ==> after.failure == Some(
                StageFailure { stage: Stage::Selecting, error: UpdateError::NoMatchingAsset },
            ) && after.stage == Stage::Failed
        }),
{
    let resolved = listing_resolution(reply, v.target.include_prerelease);
    let accept_gz = v.target.strategy->accept_gz;
    match resolved {
        Ok(i) => {
            lemma_chosen_asset(listed(reply)[i].assets@, v.os, v.arch, accept_gz);
        },
        Err(_) => {},
    }
}

/// A missing build is told apart from a failed download. Where the address
/// of an archive was made up from a version, the download fails with
/// `NoMatchingAsset` exactly where the answer says that nothing stands
/// there; a request without an answer fails with `Unreachable`, whatever
/// the address. Where the address was taken from a list of assets, no
/// answer is read as a missing build.
pub proof fn lemma_missing_build_is_no_failed_download(reply: DownloadReply, templated: bool)
    ensures
        archive_bytes(reply, templated) == Err::<Seq<u8>, UpdateError>(UpdateError::NoMatchingAsset)
            <==> templated && is_not_found(reply),
        reply is Unreachable ==> archive_bytes(reply, templated) == Err::<Seq<u8>, UpdateError>(
            UpdateError::Download(DownloadError::Unreachable),
        ),
        is_not_found(reply) ==> archive_bytes(reply, templated) is Err,
{
}

/// A run that finds its version by redirect ends with `NoMatchingAsset`,
/// in `Selecting`, exactly where the answer to its request for the archive
/// says that nothing stands at the address; a request without an answer
/// ends it with `Unreachable`, in `Extracting`. Either way nothing is taken
/// out, nothing is handed over to be written, and nothing more is asked
/// for.
pub proof fn lemma_missing_build_ends_the_run(v: RunView, reply: DownloadReply)
    requires
        v.stage == Stage::Extracting,
        v.target.strategy is Redirect,
        v.selection is Some,
        !v.extracted,
        v.failure is None,
    ensures
        ({
            let (after, command) = stepped(v, Event::Downloaded(reply));
            let missing = StageFailure { stage: Stage::Selecting, error: UpdateError::NoMatchingAsset };
            let unanswered = StageFailure {
                stage: Stage::Extracting,
                error: UpdateError::Download(DownloadError::Unreachable),
            };
            &&& (after.failure matches Some(failure) && failure.error == UpdateError::NoMatchingAsset)
                <==> is_not_found(reply)
            &&& is_not_found(reply) ==> after == (RunView {
                stage: Stage::Failed,
                failure: Some(missing),
                ..v
            }) && command == CommandView::Nothing
            &&& reply is Unreachable ==> after == (RunView {
                stage: Stage::Failed,
                failure: Some(unanswered),
                ..v
            }) && command == CommandView::Nothing
        }),
{
    lemma_missing_build_is_no_failed_download(reply, true);
}

/// Whether a run is in the middle of the installation at one of its paths.
pub open spec fn installing(v: RunView) -> bool {
    &&& v.stage == Stage::Installing
    &&& v.installer matches Some(installer) && installer.phase != InstallPhase::Finished
    &&& v.outcomes.len() < v.target.install_paths.len()
}

/// The installation at every path has five steps at most.
pub open spec fn steps_per_path() -> nat {
    5
}

/// How many file-system steps a run may still ask for.
pub open spec fn steps_ahead(v: RunView) -> nat {
    if installing(v) {
        (steps_per_path() * (v.target.install_paths.len() - v.outcomes.len() - 1) + steps_left(
            v.installer->0.phase,
        )) as nat
    } else {
        0
    }
}

/// Writing the executable into the temporary directory is followed by the
/// installation at the first path, or, where no path is configured, by the
/// end of the run.
pub proof fn lemma_staging_begins_installing(v: RunView, path: String)
    requires
        v.stage == Stage::Extracting,
        v.extracted,
        v.staged is None,
        v.outcomes.len() == 0,
    ensures
        ({
            let after = stepped(v, Event::Staged(Some(path))).0;
            &&& after.staged == Some(path@)
            &&& after.failure == v.failure
            &&& if v.target.install_paths.len() > 0 {
                installing(after) && after.installer == Some(
                    initial(path@, v.target.install_paths[0], v.posix_permissions),
                )
            } else {
                after.stage == Stage::Done
            }
        }),
{
}

/// Install paths are independent. Whatever the answer to a file-system
/// step, the run does not fail: it goes on with the installation at the
/// current path, or it records the outcome of that path, well or not, and
/// turns to the next path, or it is done after the last. Each answer
/// brings it closer to its end.
pub proof fn lemma_failed_path_does_not_fail_the_run(v: RunView, positive: bool)
    requires
        installing(v),
    ensures
        ({
            let (after, command) = stepped(v, Event::Answered(positive));
            let ended = advanced(v.installer->0, positive);
            &&& after.failure == v.failure
            &&& after.target == v.target
            &&& after.staged == v.staged
            &&& installing(after) || after.stage == Stage::Done
            &&& steps_ahead(after) < steps_ahead(v)
            &&& request_of(ended) is Some ==> after.outcomes == v.outcomes && after.installer
                == Some(ended)
            &&& request_of(ended) is None ==> {
                &&& after.outcomes == v.outcomes.push(outcome_of(ended)->0)
                &&& after.outcomes.len() < v.target.install_paths.len() ==> {
                    &&& after.installer == Some(
                        initial(
                            source_of(v),
                            v.target.install_paths[after.outcomes.len() as int],
                            v.posix_permissions,
                        ),
                    )
                    &&& command == CommandView::File(
                        FsRequestView::CreateParentDirs {
                            of: v.target.install_paths[after.outcomes.len() as int],
                        },
                    )
                }
                &&& after.outcomes.len() == v.target.install_paths.len() ==> {
                    &&& after.stage == Stage::Done
                    &&& command == CommandView::CleanUp { directory: v.directory }
                }
            }
        }),
{
    lemma_advance_makes_progress(v.installer->0, positive);
    let remaining = v.target.install_paths.len() - v.outcomes.len() - 1;
    assert(steps_per_path() * remaining >= steps_per_path() * (remaining - 1)) by (nonlinear_arith)
        requires
            remaining >= 0,
    ;
}

/// The run after each of `answers` to its file-system steps, in order.
pub open spec fn answered_all(v: RunView, answers: Seq<bool>) -> RunView
    decreases answers.len(),
{
    if answers.len() == 0 {
        v
    } else {
        answered_all(stepped(v, Event::Answered(answers[0])).0, answers.drop_first())
    }
}

/// Every install path is tried: however the file-system steps go, once
/// enough of them are answered the run is done, not failed, with one
/// outcome for each path.
pub proof fn lemma_every_path_is_tried(v: RunView, answers: Seq<bool>)
    requires
        installing(v),
        answers.len() >= steps_ahead(v),
    ensures
        answered_all(v, answers).stage == Stage::Done,
        answered_all(v, answers).outcomes.len() == v.target.install_paths.len(),
        answered_all(v, answers).failure == v.failure,
    decreases answers.len(),
{
    lemma_failed_path_does_not_fail_the_run(v, answers[0]);
    let after = stepped(v, Event::Answered(answers[0])).0;
    if installing(after) {
        lemma_every_path_is_tried(after, answers.drop_first());
    } else {
        lemma_done_stays(after, answers.drop_first());
    }
}

/// Answers handed to a run that is done change nothing.
proof fn lemma_done_stays(v: RunView, answers: Seq<bool>)
    requires
        v.stage == Stage::Done,
    ensures
        answered_all(v, answers) == v,
    decreases answers.len(),
{
    if answers.len() > 0 {
        lemma_done_stays(v, answers.drop_first());
    }
}

} // verus!
