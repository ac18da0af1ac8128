use std::collections::HashMap;
use std::io::Write;

use singbox_manager::install::{FailedStep, FsRequest};
use singbox_manager::platform::Host;
use singbox_manager::release::{Asset, ListingReply, RedirectReply, ReleaseDescriptor};
use singbox_manager::types::{Config, MihomoCoreUpdate};
use singbox_manager::download::DownloadReply;
use singbox_manager::update::{Command, Event, Stage, StageFailure, UpdateError, UpdateRun, UpdateSummary};
use singbox_manager::updater::{CoreUpdater, MihomoUpdater, MIHOMO_RELEASES_URL, SINGBOX_LATEST_URL};

/// An in-memory stand-in for the network and the file system.
struct World {
    /// `Location` headers by address.
    redirects: HashMap<String, Vec<u8>>,
    /// Lists of releases by address, each as tag, prerelease flag and asset
    /// names with addresses.
    listings: HashMap<String, Vec<(String, bool, Vec<(String, String)>)>>,
    /// Bodies by address.
    bodies: HashMap<String, Vec<u8>>,
    /// Files by path.
    files: HashMap<String, Vec<u8>>,
    /// Permission bits by path.
    modes: HashMap<String, u32>,
    /// Directories below which nothing can be created.
    read_only_dirs: Vec<String>,
    /// The requests sent, in order.
    requests: Vec<String>,
}

impl World {
    fn new() -> World {
        World {
            redirects: HashMap::new(),
            listings: HashMap::new(),
            bodies: HashMap::new(),
            files: HashMap::new(),
            modes: HashMap::new(),
            read_only_dirs: Vec::new(),
            requests: Vec::new(),
        }
    }

    fn parent(path: &str) -> &str {
        match path.rfind('/') {
            Some(at) => &path[..at],
            None => "",
        }
    }

    fn file_step(&mut self, request: &FsRequest) -> bool {
        match request {
            FsRequest::CreateParentDirs { of } => {
                !self.read_only_dirs.iter().any(|dir| World::parent(of).starts_with(dir.as_str()))
            }
            FsRequest::Exists { path } => self.files.contains_key(path),
            FsRequest::Rename { from, to } => match self.files.remove(from) {
                Some(content) => {
                    self.files.insert(to.clone(), content);
                    true
                }
                None => false,
            },
            FsRequest::Copy { from, to } => match self.files.get(from).cloned() {
                Some(content) => {
                    self.files.insert(to.clone(), content);
                    true
                }
                None => false,
            },
            FsRequest::SetMode { path, mode } => {
                self.modes.insert(path.clone(), *mode);
                true
            }
        }
    }

    /// Does what `command` asks for; `None` once the run is over.
    fn perform(&mut self, command: Command) -> Option<Event> {
        match command {
            Command::FetchRedirect { url } => {
                self.requests.push(format!("HEAD {}", url));
                Some(Event::Redirected(RedirectReply::Answered {
                    location: self.redirects.get(&url).cloned(),
                }))
            }
            Command::FetchListing { url } => {
                self.requests.push(format!("LIST {}", url));
                Some(Event::Listed(match self.listings.get(&url) {
                    None => ListingReply::Answered { status: 404, releases: None },
                    Some(releases) => ListingReply::Answered {
                        status: 200,
                        releases: Some(
                            releases
                                .iter()
                                .map(|(tag, prerelease, assets)| ReleaseDescriptor {
                                    tag: tag.clone(),
                                    prerelease: *prerelease,
                                    assets: assets
                                        .iter()
                                        .map(|(name, url)| Asset { name: name.clone(), url: url.clone() })
                                        .collect(),
                                })
                                .collect(),
                        ),
                    },
                }))
            }
            Command::Download { url } => {
                self.requests.push(format!("GET {}", url));
                Some(Event::Downloaded(match self.bodies.get(&url) {
                    None => DownloadReply::Answered { status: 404, body: Some(b"Not Found".to_vec()) },
                    Some(body) => DownloadReply::Answered { status: 200, body: Some(body.clone()) },
                }))
            }
            Command::Stage { directory, binary } => {
                let path = format!("/tmp/{}/{}", directory, binary.file_name);
                self.files.insert(path.clone(), binary.content);
                if let Some(mode) = binary.mode {
                    self.modes.insert(path.clone(), mode);
                }
                Some(Event::Staged(Some(path)))
            }
            Command::File(request) => Some(Event::Answered(self.file_step(&request))),
            Command::CleanUp { directory } => {
                let prefix = format!("/tmp/{}/", directory);
                self.files.retain(|path, _| !path.starts_with(&prefix));
                self.modes.retain(|path, _| !path.starts_with(&prefix));
                None
            }
            Command::Nothing => None,
        }
    }

    fn carry_out(&mut self, run: &mut UpdateRun) {
        let mut command = run.step(Event::Start);
        while let Some(event) = self.perform(command) {
            command = run.step(event);
        }
    }
}

fn gzip(data: &[u8]) -> Vec<u8> {
    let mut encoder = flate2::write::GzEncoder::new(Vec::new(), flate2::Compression::default());
    encoder.write_all(data).unwrap();
    encoder.finish().unwrap()
}

fn tar_gz(entries: &[(&str, &[u8])]) -> Vec<u8> {
    let mut builder = tar::Builder::new(Vec::new());
    for (path, data) in entries {
        let mut header = tar::Header::new_gnu();
        header.set_size(data.len() as u64);
        header.set_mode(0o644);
        header.set_cksum();
        builder.append_data(&mut header, path, *data).unwrap();
    }
    gzip(&builder.into_inner().unwrap())
}

fn zip(entries: &[(&str, &[u8])]) -> Vec<u8> {
    let mut writer = zip::ZipWriter::new(std::io::Cursor::new(Vec::new()));
    for (name, data) in entries {
        writer.start_file(*name, zip::write::FileOptions::default()).unwrap();
        writer.write_all(data).unwrap();
    }
    writer.finish().unwrap().into_inner()
}

fn mihomo_settings(paths: &[&str]) -> MihomoCoreUpdate {
    MihomoCoreUpdate {
        enabled: true,
        check_prerelease: false,
        install_paths: paths.iter().map(|p| p.to_string()).collect(),
    }
}

fn mihomo_world(asset: &str, body: Vec<u8>) -> World {
    let mut world = World::new();
    world.listings.insert(
        MIHOMO_RELEASES_URL.to_string(),
        vec![
            ("Prerelease-Alpha".to_string(), true, Vec::new()),
            (
                "v1.19.0".to_string(),
                false,
                vec![
                    ("mihomo-darwin-arm64-v1.19.0.gz".to_string(), "https://dl/darwin".to_string()),
                    (asset.to_string(), "https://dl/linux".to_string()),
                ],
            ),
        ],
    );
    world.bodies.insert("https://dl/linux".to_string(), body);
    world
}

#[test]
fn three_paths_with_the_second_parent_not_creatable() {
    let host = Host::identify("linux", "x86_64", "unix");
    let mut world = mihomo_world("mihomo-linux-amd64-v1.19.0.gz", gzip(b"new build"));
    world.files.insert("/srv/bin/mihomo".to_string(), b"old build".to_vec());
    world.read_only_dirs.push("/root".to_string());
    let settings = mihomo_settings(&["/usr/local/bin/mihomo", "/root/bin/mihomo", "/srv/bin/mihomo"]);
    let mut run = MihomoUpdater::new().run_all(&settings, &host);

    world.carry_out(&mut run);

    assert_eq!(run.stage(), Stage::Done);
    assert_eq!(
        run.summary(),
        Some(UpdateSummary { skipped: false, failure: None, installed: 2, failed: 1 })
    );
    assert_eq!(world.files["/usr/local/bin/mihomo"], b"new build");
    assert!(!world.files.contains_key("/root/bin/mihomo"));
    assert_eq!(world.files["/srv/bin/mihomo"], b"new build");
    assert_eq!(world.files["/srv/bin/mihomo.bak"], b"old build");
    assert!(!world.files.contains_key("/usr/local/bin/mihomo.bak"));
    assert_eq!(world.files.len(), 3);
    let outcomes = run.outcomes();
    assert!(outcomes[0].installed && !outcomes[0].backup_created);
    assert!(!outcomes[1].installed);
    assert_eq!(outcomes[1].failure, Some(FailedStep::CreateDirectory));
    assert_eq!(outcomes[1].destination, "/root/bin/mihomo");
    assert!(outcomes[2].installed && outcomes[2].backup_created);
    assert_eq!(world.modes.get("/usr/local/bin/mihomo"), Some(&0o755));
    assert_eq!(world.modes.get("/srv/bin/mihomo"), Some(&0o755));
    assert_eq!(world.modes.get("/root/bin/mihomo"), None);
    assert_eq!(
        world.requests,
        vec![format!("LIST {}", MIHOMO_RELEASES_URL), "GET https://dl/linux".to_string()]
    );
}

#[test]
fn alternative_core_in_a_zip_with_a_nested_path() {
    let host = Host::identify("linux", "x86_64", "unix");
    let archive = zip(&[("build/linux/LICENSE", b"MIT"), ("build/linux/mihomo", b"zipped build")]);
    let mut world = mihomo_world("mihomo-linux-amd64-v1.19.0.zip", archive);
    let mut run = MihomoUpdater::new().run_all(&mihomo_settings(&["/opt/mihomo"]), &host);
    world.carry_out(&mut run);
    assert_eq!(run.stage(), Stage::Done);
    assert_eq!(run.version().unwrap(), "v1.19.0");
    assert_eq!(world.files["/opt/mihomo"], b"zipped build");
    assert_eq!(world.modes["/opt/mihomo"], 0o755);
    assert_eq!(world.files.len(), 1);
}

#[test]
fn alternative_core_without_a_build_for_the_platform() {
    let host = Host::identify("freebsd", "riscv64", "unix");
    let mut world = mihomo_world("mihomo-linux-amd64-v1.19.0.gz", gzip(b"new build"));
    let mut run = MihomoUpdater::new().run_all(&mihomo_settings(&["/opt/mihomo"]), &host);
    world.carry_out(&mut run);
    assert_eq!(run.stage(), Stage::Failed);
    assert_eq!(
        run.failure(),
        Some(StageFailure { stage: Stage::Selecting, error: UpdateError::NoMatchingAsset })
    );
    assert!(world.files.is_empty());
    assert_eq!(world.requests, vec![format!("LIST {}", MIHOMO_RELEASES_URL)]);
}

#[test]
fn core_from_redirect_to_installation() {
    let host = Host::identify("linux", "aarch64", "unix");
    let mut world = World::new();
    world.redirects.insert(
        SINGBOX_LATEST_URL.to_string(),
        b"https://github.com/SagerNet/sing-box/releases/tag/v1.12.12".to_vec(),
    );
    let url = "https://github.com/SagerNet/sing-box/releases/download/v1.12.12/sing-box-1.12.12-linux-arm64.tar.gz";
    world.bodies.insert(
        url.to_string(),
        tar_gz(&[
            ("sing-box-1.12.12-linux-arm64/LICENSE", b"GPL"),
            ("sing-box-1.12.12-linux-arm64/sing-box", b"sing-box 1.12.12"),
        ]),
    );
    world.files.insert("/usr/local/bin/sing-box".to_string(), b"sing-box 1.11".to_vec());
    let mut run = CoreUpdater::new().run_all(&Config::default(false), &host);

    world.carry_out(&mut run);

    assert_eq!(run.stage(), Stage::Done);
    assert_eq!(run.version().unwrap(), "v1.12.12");
    assert_eq!(world.files["/usr/local/bin/sing-box"], b"sing-box 1.12.12");
    assert_eq!(world.files["/usr/local/bin/sing-box.bak"], b"sing-box 1.11");
    assert_eq!(world.files.len(), 2);
    assert_eq!(
        world.requests,
        vec![format!("HEAD {}", SINGBOX_LATEST_URL), format!("GET {}", url)]
    );
    assert_eq!(
        run.summary(),
        Some(UpdateSummary { skipped: false, failure: None, installed: 1, failed: 0 })
    );
}

#[test]
fn core_whose_archive_is_missing_upstream() {
    let host = Host::identify("linux", "x86_64", "unix");
    let mut world = World::new();
    world.redirects.insert(SINGBOX_LATEST_URL.to_string(), b"/SagerNet/sing-box/releases/tag/v9".to_vec());
    world.files.insert("/usr/local/bin/sing-box".to_string(), b"kept".to_vec());
    let mut run = CoreUpdater::new().run_all(&Config::default(false), &host);
    world.carry_out(&mut run);
    assert_eq!(run.stage(), Stage::Failed);
    assert_eq!(
        run.failure(),
        Some(StageFailure { stage: Stage::Selecting, error: UpdateError::NoMatchingAsset })
    );
    assert_eq!(world.files["/usr/local/bin/sing-box"], b"kept");
    assert_eq!(world.files.len(), 1);
}

#[test]
fn one_failing_target_does_not_keep_the_other_from_updating() {
    let host = Host::identify("linux", "x86_64", "unix");
    let mut world = mihomo_world("mihomo-linux-amd64-v1.19.0.gz", gzip(b"new build"));
    let mut config = Config::default(false);
    config.mihomo_core_update = Some(mihomo_settings(&["/opt/mihomo"]));
    let mut core = CoreUpdater::new().run_all(&config, &host);
    let mut alternative =
        MihomoUpdater::new().run_all(config.mihomo_core_update.as_ref().unwrap(), &host);
    world.carry_out(&mut core);
    world.carry_out(&mut alternative);
    assert_eq!(core.stage(), Stage::Failed);
    assert_eq!(alternative.stage(), Stage::Done);
    assert_eq!(world.files["/opt/mihomo"], b"new build");
}
