//! Installing an extracted executable at one destination.
//!
//! The installer decides which file-system step comes next and what the
//! answers add up to; the caller performs each step and reports how it went.
//! A failed step ends the installation at that destination.

use vstd::prelude::*;
use crate::archive::EXECUTABLE_MODE;

verus! {

/// Where an installation stands.
#[derive(Clone, Copy, Debug, PartialEq, Eq, Structural)]
pub enum InstallPhase {
    /// The destination's parent directory is to be created.
    EnsureParent,
    /// It is to be found out whether a file stands at the destination.
    Probe,
    /// The file at the destination is to be renamed to its backup path.
    Backup,
    /// The new file is to be copied to the destination.
    Copy,
    /// The destination is to be made executable.
    SetMode,
    /// Nothing is left to do.
    Finished,
}

/// A file-system step that the caller is asked to perform.
#[derive(Debug)]
pub enum FsRequest {
    /// Create the parent directory of `of`, with all its ancestors, unless
    /// it exists.
    CreateParentDirs { of: String },
    /// Find out whether a file stands at `path`.
    Exists { path: String },
    /// Rename `from` to `to` in one step, replacing `to` if it exists.
    Rename { from: String, to: String },
    /// Copy the bytes of `from` to `to`.
    Copy { from: String, to: String },
    /// Set the permission bits of `path` to `mode`.
    SetMode { path: String, mode: u32 },
}

/// The mathematical content of an `FsRequest`.
pub ghost enum FsRequestView {
    CreateParentDirs { of: Seq<char> },
    Exists { path: Seq<char> },
    Rename { from: Seq<char>, to: Seq<char> },
    Copy { from: Seq<char>, to: Seq<char> },
    SetMode { path: Seq<char>, mode: u32 },
}

impl View for FsRequest {
    type V = FsRequestView;

    open spec fn view(&self) -> FsRequestView {
        match self {
            FsRequest::CreateParentDirs { of } => FsRequestView::CreateParentDirs { of: of@ },
            FsRequest::Exists { path } => FsRequestView::Exists { path: path@ },
            FsRequest::Rename { from, to } => FsRequestView::Rename { from: from@, to: to@ },
            FsRequest::Copy { from, to } => FsRequestView::Copy { from: from@, to: to@ },
            FsRequest::SetMode { path, mode } => FsRequestView::SetMode { path: path@, mode: *mode },
        }
    }
}

/// The mathematical content of an `Installer`.
pub ghost struct InstallerView {
    pub source: Seq<char>,
    pub destination: Seq<char>,
    pub posix_permissions: bool,
    pub phase: InstallPhase,
    pub backup_created: bool,
    pub failed_at: Option<InstallPhase>,
}

/// The sibling path that takes the file found at `destination`.
pub open spec fn backup_path(destination: Seq<char>) -> Seq<char> {
    destination + ".bak"@
}

/// An installation that has not begun.
pub open spec fn initial(source: Seq<char>, destination: Seq<char>, posix_permissions: bool) -> InstallerView {
    InstallerView {
        source,
        destination,
        posix_permissions,
        phase: InstallPhase::EnsureParent,
        backup_created: false,
        failed_at: None,
    }
}

/// The step that an installation asks for next; none once it is finished.
pub open spec fn request_of(v: InstallerView) -> Option<FsRequestView> {
    match v.phase {
        InstallPhase::EnsureParent => Some(FsRequestView::CreateParentDirs { of: v.destination }),
        InstallPhase::Probe => Some(FsRequestView::Exists { path: v.destination }),
        InstallPhase::Backup => Some(
            FsRequestView::Rename { from: v.destination, to: backup_path(v.destination) },
        ),
        InstallPhase::Copy => Some(FsRequestView::Copy { from: v.source, to: v.destination }),
        InstallPhase::SetMode => Some(
            FsRequestView::SetMode { path: v.destination, mode: EXECUTABLE_MODE },
        ),
        InstallPhase::Finished => None,
    }
}

/// The installation after the answer to its request.
///
/// To `Exists` the answer says whether a file is there: only then is it
/// backed up. To every other request the answer says whether the step
/// succeeded: a failed step finishes the installation and is recorded.
pub open spec fn advanced(v: InstallerView, positive: bool) -> InstallerView {
    match v.phase {
        InstallPhase::Finished => v,
        InstallPhase::Probe => InstallerView {
            phase: if positive {
                InstallPhase::Backup
            } else {
                InstallPhase::Copy
            },
            ..v
        },
        _ => if !positive {
            InstallerView { phase: InstallPhase::Finished, failed_at: Some(v.phase), ..v }
        } else {
            match v.phase {
                InstallPhase::EnsureParent => InstallerView { phase: InstallPhase::Probe, ..v },
                InstallPhase::Backup => InstallerView {
                    phase: InstallPhase::Copy,
                    backup_created: true,
                    ..v
                },
                InstallPhase::Copy => InstallerView {
                    phase: if v.posix_permissions {
                        InstallPhase::SetMode
                    } else {
                        InstallPhase::Finished
                    },
                    ..v
                },
                _ => InstallerView { phase: InstallPhase::Finished, ..v },
            }
        },
    }
}

/// The step at which an installation failed.
#[derive(Clone, Copy, Debug, PartialEq, Eq, Structural)]
pub enum FailedStep {
    /// The parent directory could not be created.
    CreateDirectory,
    /// The existing file could not be renamed to its backup path.
    Backup,
    /// The new file could not be copied to the destination.
    Copy,
    /// The destination could not be made executable.
    SetPermissions,
}

/// The failure that ending in `phase` stands for.
pub open spec fn failed_step(phase: InstallPhase) -> FailedStep {
    match phase {
        InstallPhase::EnsureParent => FailedStep::CreateDirectory,
        InstallPhase::Backup => FailedStep::Backup,
        InstallPhase::SetMode => FailedStep::SetPermissions,
        _ => FailedStep::Copy,
    }
}

/// How the installation at one destination ended.
#[derive(Debug)]
pub struct InstallOutcome {
    /// The destination this outcome is about.
    pub destination: String,
    /// Whether the new file stands at the destination, executable where the
    /// platform asks for it.
    pub installed: bool,
    /// Whether the file that stood at the destination before was renamed to
    /// the backup path.
    pub backup_created: bool,
    /// The step that failed, where one did.
    pub failure: Option<FailedStep>,
}

/// The mathematical content of an `InstallOutcome`.
pub ghost struct InstallOutcomeView {
    pub destination: Seq<char>,
    pub installed: bool,
    pub backup_created: bool,
    pub failure: Option<FailedStep>,
}

impl View for InstallOutcome {
    type V = InstallOutcomeView;

    open spec fn view(&self) -> InstallOutcomeView {
        InstallOutcomeView {
            destination: self.destination@,
            installed: self.installed,
            backup_created: self.backup_created,
            failure: self.failure,
        }
    }
}

/// What a finished installation reports; nothing before it is finished.
pub open spec fn outcome_of(v: InstallerView) -> Option<InstallOutcomeView> {
    if v.phase == InstallPhase::Finished {
        Some(
            InstallOutcomeView {
                destination: v.destination,
                installed: v.failed_at is None,
                backup_created: v.backup_created,
                failure: match v.failed_at {
                    Some(phase) => Some(failed_step(phase)),
                    None => None,
                },
            },
        )
    } else {
        None
    }
}

/// The installation of one file at one destination, step by step.
pub struct Installer {
    source: String,
    destination: String,
    posix_permissions: bool,
    phase: InstallPhase,
    backup_created: bool,
    failed_at: Option<InstallPhase>,
}

impl View for Installer {
    type V = InstallerView;

    closed spec fn view(&self) -> InstallerView {
        InstallerView {
            source: self.source@,
            destination: self.destination@,
            posix_permissions: self.posix_permissions,
            phase: self.phase,
            backup_created: self.backup_created,
            failed_at: self.failed_at,
        }
    }
}

impl Installer {
    /// Begins the installation of the file at `source` to `destination`.
    /// With `posix_permissions` the destination is made executable at the
    /// end.
    pub fn new(source: &str, destination: &str, posix_permissions: bool) -> (installer: Installer)
        ensures
            installer@ == initial(source@, destination@, posix_permissions),
    {
        Installer {
            source: source.to_owned(),
            destination: destination.to_owned(),
            posix_permissions,
            phase: InstallPhase::EnsureParent,
            backup_created: false,
            failed_at: None,
        }
    }

    /// Where the installation stands.
    pub fn phase(&self) -> (phase: InstallPhase)
        ensures
            phase == self@.phase,
    {
        self.phase
    }

    /// The path that takes the file found at the destination.
    pub fn backup_destination(&self) -> (path: String)
        ensures
            path@ == backup_path(self@.destination),
    {
        let mut path = self.destination.clone();
        path.append(".bak");
        path
    }

    /// The step to perform next, or `None` once the installation is
    /// finished.
    pub fn request(&self) -> (request: Option<FsRequest>)
        ensures
            match request {
                Some(r) => request_of(self@) == Some(r@),
                None => request_of(self@) is None,
            },
    {
        match self.phase {
            InstallPhase::EnsureParent => Some(
                FsRequest::CreateParentDirs { of: self.destination.clone() },
            ),
            InstallPhase::Probe => Some(FsRequest::Exists { path: self.destination.clone() }),
            InstallPhase::Backup => Some(
                FsRequest::Rename { from: self.destination.clone(), to: self.backup_destination() },
            ),
            InstallPhase::Copy => Some(
                FsRequest::Copy { from: self.source.clone(), to: self.destination.clone() },
            ),
            InstallPhase::SetMode => Some(
                FsRequest::SetMode { path: self.destination.clone(), mode: EXECUTABLE_MODE },
            ),
            InstallPhase::Finished => None,
        }
    }

    /// Takes the answer to the step last asked for: for `Exists`, whether a
    /// file is there; for any other step, whether it succeeded.
    pub fn advance(&mut self, positive: bool)
        ensures
            final(self)@ == advanced(old(self)@, positive),
    {
        match self.phase {
            InstallPhase::Finished => {},
            InstallPhase::Probe => {
                self.phase = if positive {
                    InstallPhase::Backup
                } else {
                    InstallPhase::Copy
                };
            },
            InstallPhase::EnsureParent => {
                if positive {
                    self.phase = InstallPhase::Probe;
                } else {
                    self.failed_at = Some(InstallPhase::EnsureParent);
                    self.phase = InstallPhase::Finished;
                }
            },
            InstallPhase::Backup => {
                if positive {
                    self.backup_created = true;
                    self.phase = InstallPhase::Copy;
                } else {
                    self.failed_at = Some(InstallPhase::Backup);
                    self.phase = InstallPhase::Finished;
                }
            },
            InstallPhase::Copy => {
                if positive {
                    self.phase = if self.posix_permissions {
                        InstallPhase::SetMode
                    } else {
                        InstallPhase::Finished
                    };
                } else {
                    self.failed_at = Some(InstallPhase::Copy);
                    self.phase = InstallPhase::Finished;
                }
            },
            InstallPhase::SetMode => {
                if !positive {
                    self.failed_at = Some(InstallPhase::SetMode);
                }
                self.phase = InstallPhase::Finished;
            },
        }
    }

    /// What the installation reports, once it is finished.
    pub fn outcome(&self) -> (outcome: Option<InstallOutcome>)
        ensures
            match outcome {
                Some(o) => outcome_of(self@) == Some(o@),
                None => outcome_of(self@) is None,
            },
    {
        match self.phase {
            InstallPhase::Finished => Some(
                InstallOutcome {
                    destination: self.destination.clone(),
                    installed: self.failed_at.is_none(),
                    backup_created: self.backup_created,
                    failure: match self.failed_at {
                        None => None,
                        Some(InstallPhase::EnsureParent) => Some(FailedStep::CreateDirectory),
                        Some(InstallPhase::Backup) => Some(FailedStep::Backup),
                        Some(InstallPhase::SetMode) => Some(FailedStep::SetPermissions),
                        Some(_) => Some(FailedStep::Copy),
                    },
                },
            ),
            _ => None,
        }
    }
}

/// How many steps an installation in `phase` has at most before it.
pub open spec fn steps_left(phase: InstallPhase) -> nat {
    match phase {
        InstallPhase::EnsureParent => 5,
        InstallPhase::Probe => 4,
        InstallPhase::Backup => 3,
        InstallPhase::Copy => 2,
        InstallPhase::SetMode => 1,
        InstallPhase::Finished => 0,
    }
}

/// A failed step ends the installation: nothing more is asked for, and the
/// outcome names the step and the destination.
pub proof fn lemma_failed_step_ends_installation(v: InstallerView)
    requires
        v.phase != InstallPhase::Finished,
        v.phase != InstallPhase::Probe,
    ensures
        request_of(advanced(v, false)) is None,
        outcome_of(advanced(v, false)) == Some(
            InstallOutcomeView {
                destination: v.destination,
                installed: false,
                backup_created: v.backup_created,
                failure: Some(failed_step(v.phase)),
            },
        ),
{
}

/// Every answer brings an unfinished installation closer to its end.
pub proof fn lemma_advance_makes_progress(v: InstallerView, positive: bool)
    requires
        v.phase != InstallPhase::Finished,
    ensures
        steps_left(advanced(v, positive).phase) < steps_left(v.phase),
{
}

/// The files of a file system, by path.
pub type Files = Map<Seq<char>, Seq<u8>>;

/// The files after a step on `files` that succeeds.
pub open spec fn performed(files: Files, request: FsRequestView) -> Files {
    match request {
        FsRequestView::Rename { from, to } => files.remove(from).insert(to, files[from]),
        FsRequestView::Copy { from, to } => files.insert(to, files[from]),
        _ => files,
    }
}

/// The answer to a step on `files` that succeeds.
pub open spec fn answer(files: Files, request: FsRequestView) -> bool {
    match request {
        FsRequestView::Exists { path } => files.dom().contains(path),
        _ => true,
    }
}

/// An installation carried to its end on `files`, every step succeeding:
/// how it ends, and the files it leaves.
pub open spec fn carried_out(v: InstallerView, files: Files) -> (InstallerView, Files)
    decreases steps_left(v.phase),
{
    match request_of(v) {
        None => (v, files),
        Some(request) => carried_out(
            advanced(v, answer(files, request)),
            performed(files, request),
        ),
    }
}

/// `path` names a file after exactly if it did before, with the same content.
pub open spec fn unchanged_at(before: Files, after: Files, path: Seq<char>) -> bool {
    &&& after.dom().contains(path) == before.dom().contains(path)
    &&& before.dom().contains(path) ==> after[path] == before[path]
}

/// Installing over an existing file keeps that file's content at the backup
/// path and puts the new content at the destination; installing where no
/// file stood leaves the backup path as it was. No other path changes.
///
/// The source must be a file other than the destination and its backup path.
pub proof fn lemma_install_keeps_backup(
    files: Files,
    source: Seq<char>,
    destination: Seq<char>,
    posix_permissions: bool,
)
    requires
        files.dom().contains(source),
        source != destination,
        source != backup_path(destination),
    ensures
        ({
            let (end, after) = carried_out(initial(source, destination, posix_permissions), files);
            let backup = backup_path(destination);
            &&& outcome_of(end) == Some(
                InstallOutcomeView {
                    destination,
                    installed: true,
                    backup_created: files.dom().contains(destination),
                    failure: None,
                },
            )
            &&& after.dom().contains(destination)
            &&& after[destination] == files[source]
            &&& files.dom().contains(destination) ==> after.dom().contains(backup) && after[backup]
                == files[destination]
            &&& !files.dom().contains(destination) ==> unchanged_at(files, after, backup)
            &&& forall|path: Seq<char>|
                path != destination && path != backup ==> unchanged_at(files, after, path)
        }),
{
    reveal_strlit(".bak");
    let backup = backup_path(destination);
    assert(backup.len() == destination.len() + 4);
    assert(backup != destination);
    let start = initial(source, destination, posix_permissions);
    let probing = advanced(start, true);
    let found = files.dom().contains(destination);
    let probed = advanced(probing, found);
    reveal_with_fuel(carried_out, 6);
    if found {
        let renamed = performed(files, request_of(probed)->0);
        let copying = advanced(probed, true);
        let copied = performed(renamed, request_of(copying)->0);
        assert(copied[destination] == files[source]);
        assert(copied[backup] == files[destination]);
    } else {
        let copied = performed(files, request_of(probed)->0);
        assert(copied[destination] == files[source]);
    }
}

} // verus!
