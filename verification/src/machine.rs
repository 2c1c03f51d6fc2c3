//! The install/update sequence as a state machine.
//!
//! The library decides, the surrounding program acts: each step hands the
//! machine the outcome of the last action as an [`Event`] and receives the
//! next [`Phase`] and the next [`Action`] to perform.  The machine owns
//! every ordering and failure-handling rule of the sequence — when the
//! cached archive is reused, when the old install is backed up, what a
//! failed backup rename or a refused confirmation leads to — while the
//! program only probes, downloads, renames, extracts, spawns and reports.

use vstd::prelude::*;

verus! {

/// Why the sequence failed.
#[derive(Clone, Copy, PartialEq, Eq, Structural, Debug)]
pub enum ErrorKind {
    /// The archive download failed.
    DownloadFailed,
    /// The backup rename failed and the operator declined to continue.
    BackupFailed,
    /// The install directory could not be created.
    CreateDirFailed,
    /// The archive could not be decompressed and unpacked.
    ExtractFailed,
    /// Promoting the extracted entries failed.
    PromoteFailed,
}

/// Where the sequence stands.
#[derive(Clone, Copy, PartialEq, Eq, Structural, Debug)]
pub enum Phase {
    /// Waiting to hear whether a staged archive is already present.
    QueryStaging,
    /// Waiting for the outcome of the archive download.
    AwaitDownload,
    /// Waiting to hear whether the install directory exists.
    QueryInstall,
    /// Waiting for the best-effort removal of a stale backup.
    AwaitRemoveStale,
    /// Waiting for the rename of the install directory to its backup name.
    AwaitRename,
    /// The rename failed; waiting for the operator's leave to go on
    /// without a backup.
    AwaitBackupConsent,
    /// Waiting for the creation of the fresh install directory.
    AwaitCreate,
    /// Waiting for the archive to unpack into the extraction directory.
    AwaitExtract,
    /// Waiting for the extracted entries to be promoted.
    AwaitPromote,
    /// Waiting for the operator's answer on running the setup script.
    AwaitScriptConsent,
    /// Waiting for the setup script to be spawned.
    AwaitSpawn,
    /// Waiting to hear whether the extraction directory is left over.
    QueryTmp,
    /// Waiting for the removal of the extraction directory.
    AwaitRemoveTmp,
    /// The sequence finished.
    Done,
    /// The sequence failed.
    Failed(ErrorKind),
}

/// What the world reported back.
#[derive(Clone, Copy, PartialEq, Eq, Structural, Debug)]
pub enum Event {
    /// Whether the staged archive file is present.
    StagingProbed { found: bool },
    /// Whether the archive download succeeded.
    Downloaded { ok: bool },
    /// Whether the install directory exists.
    InstallProbed { found: bool },
    /// Whether the stale backup removal succeeded (ignored either way).
    StaleBackupRemoved { ok: bool },
    /// Whether the rename of the install directory to its backup name
    /// succeeded.
    RenamedToBackup { ok: bool },
    /// The operator's answer on continuing without a backup.
    ConsentAnswered { yes: bool },
    /// Whether the fresh install directory was created.
    TargetCreated { ok: bool },
    /// Whether the archive unpacked into the extraction directory.
    Unpacked { ok: bool },
    /// Whether every promoted entry was renamed into place.
    PromotionDone { ok: bool },
    /// The operator's answer on running the setup script.
    ScriptAnswered { yes: bool },
    /// Whether the setup script was spawned (failure is not fatal).
    ScriptSpawned { ok: bool },
    /// Whether the extraction directory is left over.
    TmpProbed { found: bool },
    /// Whether the extraction directory removal succeeded (ignored
    /// either way).
    TmpRemoved { ok: bool },
}

/// What the surrounding program is asked to do next.
#[derive(Clone, Copy, PartialEq, Eq, Structural, Debug)]
pub enum Action {
    /// Check for the staged archive file.
    ProbeStaging,
    /// Download the archive to the staging path.
    Download,
    /// Check for the install directory.
    ProbeInstall,
    /// Remove a stale backup directory, best effort.
    RemoveStaleBackup,
    /// Rename the install directory to its backup name.
    RenameToBackup,
    /// Ask the operator whether to continue without a backup.
    AskContinueWithoutBackup,
    /// Create the fresh install directory.
    CreateTarget,
    /// Decompress and unpack the staged archive into the extraction
    /// directory.
    ExtractArchive,
    /// List the extraction directory and promote the planned entries.
    PromoteEntries,
    /// Ask the operator whether to run the setup script.
    AskRunScript,
    /// Spawn the setup script without waiting for it.
    SpawnScript,
    /// Check for a leftover extraction directory.
    ProbeTmp,
    /// Remove the extraction directory, best effort.
    RemoveTmp,
    /// Nothing: the sequence is over.
    Stop,
}

/// The total used for download progress reporting: the advertised
/// content length, or a one-byte sentinel when none (or zero) is
/// advertised, so that progress is never a division by zero.
pub fn progress_total(advertised: Option<u64>) -> (r: u64)
    ensures
        r == (match advertised {
            Option::Some(n) => if n == 0 {
                1u64
            } else {
                n
            },
            Option::None => 1u64,
        }),
        r > 0,
{
    match advertised {
        Option::Some(n) => if n == 0 {
            1
        } else {
            n
        },
        Option::None => 1,
    }
}

/// The phase the machine starts in.
pub fn initial_phase() -> (p: Phase)
    ensures
        p == Phase::QueryStaging,
{
    Phase::QueryStaging
}

/// The first action of every run.
pub fn initial_action() -> (a: Action)
    ensures
        a == Action::ProbeStaging,
{
    Action::ProbeStaging
}

/// The phase that follows `ph` on `ev`, with `clean` the force-clean
/// flag.  An event the phase does not expect changes nothing.
pub open spec fn next_phase(clean: bool, ph: Phase, ev: Event) -> Phase {
    match (ph, ev) {
        (Phase::QueryStaging, Event::StagingProbed { found }) => if !found || clean {
            Phase::AwaitDownload
        } else {
            Phase::QueryInstall
        },
        (Phase::AwaitDownload, Event::Downloaded { ok }) => if ok {
            Phase::QueryInstall
        } else {
            Phase::Failed(ErrorKind::DownloadFailed)
        },
        (Phase::QueryInstall, Event::InstallProbed { found }) => if found {
            Phase::AwaitRemoveStale
        } else {
            Phase::AwaitCreate
        },
        (Phase::AwaitRemoveStale, Event::StaleBackupRemoved { .. }) => Phase::AwaitRename,
        (Phase::AwaitRename, Event::RenamedToBackup { ok }) => if ok {
            Phase::AwaitCreate
        } else {
            Phase::AwaitBackupConsent
        },
        (Phase::AwaitBackupConsent, Event::ConsentAnswered { yes }) => if yes {
            Phase::AwaitCreate
        } else {
            Phase::Failed(ErrorKind::BackupFailed)
        },
        (Phase::AwaitCreate, Event::TargetCreated { ok }) => if ok {
            Phase::AwaitExtract
        } else {
            Phase::Failed(ErrorKind::CreateDirFailed)
        },
        (Phase::AwaitExtract, Event::Unpacked { ok }) => if ok {
            Phase::AwaitPromote
        } else {
            Phase::Failed(ErrorKind::ExtractFailed)
        },
        (Phase::AwaitPromote, Event::PromotionDone { ok }) => if ok {
            Phase::AwaitScriptConsent
        } else {
            Phase::Failed(ErrorKind::PromoteFailed)
        },
        (Phase::AwaitScriptConsent, Event::ScriptAnswered { yes }) => if yes {
            Phase::AwaitSpawn
        } else {
            Phase::QueryTmp
        },
        (Phase::AwaitSpawn, Event::ScriptSpawned { .. }) => Phase::QueryTmp,
        (Phase::QueryTmp, Event::TmpProbed { found }) => if found {
            Phase::AwaitRemoveTmp
        } else {
            Phase::Done
        },
        (Phase::AwaitRemoveTmp, Event::TmpRemoved { .. }) => Phase::Done,
        _ => ph,
    }
}

/// The action owed after taking `ev` in `ph`.
pub open spec fn action_of(clean: bool, ph: Phase, ev: Event) -> Action {
    match next_phase(clean, ph, ev) {
        Phase::QueryStaging => Action::ProbeStaging,
        Phase::AwaitDownload => Action::Download,
        Phase::QueryInstall => Action::ProbeInstall,
        Phase::AwaitRemoveStale => Action::RemoveStaleBackup,
        Phase::AwaitRename => Action::RenameToBackup,
        Phase::AwaitBackupConsent => Action::AskContinueWithoutBackup,
        Phase::AwaitCreate => Action::CreateTarget,
        Phase::AwaitExtract => Action::ExtractArchive,
        Phase::AwaitPromote => Action::PromoteEntries,
        Phase::AwaitScriptConsent => Action::AskRunScript,
        Phase::AwaitSpawn => Action::SpawnScript,
        Phase::QueryTmp => Action::ProbeTmp,
        Phase::AwaitRemoveTmp => Action::RemoveTmp,
        Phase::Done => Action::Stop,
        Phase::Failed(_) => Action::Stop,
    }
}

/// Takes one step: consumes the outcome of the last action and returns
/// the next phase with the action it owes.
pub fn step(clean: bool, ph: Phase, ev: Event) -> (r: (Phase, Action))
    ensures
        r.0 == next_phase(clean, ph, ev),
        r.1 == action_of(clean, ph, ev),
{
    let next = match (ph, ev) {
        (Phase::QueryStaging, Event::StagingProbed { found }) => if !found || clean {
            Phase::AwaitDownload
        } else {
            Phase::QueryInstall
        },
        (Phase::AwaitDownload, Event::Downloaded { ok }) => if ok {
            Phase::QueryInstall
        } else {
            Phase::Failed(ErrorKind::DownloadFailed)
        },
        (Phase::QueryInstall, Event::InstallProbed { found }) => if found {
            Phase::AwaitRemoveStale
        } else {
            Phase::AwaitCreate
        },
        (Phase::AwaitRemoveStale, Event::StaleBackupRemoved { .. }) => Phase::AwaitRename,
        (Phase::AwaitRename, Event::RenamedToBackup { ok }) => if ok {
            Phase::AwaitCreate
        } else {
            Phase::AwaitBackupConsent
        },
        (Phase::AwaitBackupConsent, Event::ConsentAnswered { yes }) => if yes {
            Phase::AwaitCreate
        } else {
            Phase::Failed(ErrorKind::BackupFailed)
        },
        (Phase::AwaitCreate, Event::TargetCreated { ok }) => if ok {
            Phase::AwaitExtract
        } else {
            Phase::Failed(ErrorKind::CreateDirFailed)
        },
        (Phase::AwaitExtract, Event::Unpacked { ok }) => if ok {
            Phase::AwaitPromote
        } else {
            Phase::Failed(ErrorKind::ExtractFailed)
        },
        (Phase::AwaitPromote, Event::PromotionDone { ok }) => if ok {
            Phase::AwaitScriptConsent
        } else {
            Phase::Failed(ErrorKind::PromoteFailed)
        },
        (Phase::AwaitScriptConsent, Event::ScriptAnswered { yes }) => if yes {
            Phase::AwaitSpawn
        } else {
            Phase::QueryTmp
        },
        (Phase::AwaitSpawn, Event::ScriptSpawned { .. }) => Phase::QueryTmp,
        (Phase::QueryTmp, Event::TmpProbed { found }) => if found {
            Phase::AwaitRemoveTmp
        } else {
            Phase::Done
        },
        (Phase::AwaitRemoveTmp, Event::TmpRemoved { .. }) => Phase::Done,
        _ => ph,
    };
    let act = match next {
        Phase::QueryStaging => Action::ProbeStaging,
        Phase::AwaitDownload => Action::Download,
        Phase::QueryInstall => Action::ProbeInstall,
        Phase::AwaitRemoveStale => Action::RemoveStaleBackup,
        Phase::AwaitRename => Action::RenameToBackup,
        Phase::AwaitBackupConsent => Action::AskContinueWithoutBackup,
        Phase::AwaitCreate => Action::CreateTarget,
        Phase::AwaitExtract => Action::ExtractArchive,
        Phase::AwaitPromote => Action::PromoteEntries,
        Phase::AwaitScriptConsent => Action::AskRunScript,
        Phase::AwaitSpawn => Action::SpawnScript,
        Phase::QueryTmp => Action::ProbeTmp,
        Phase::AwaitRemoveTmp => Action::RemoveTmp,
        Phase::Done => Action::Stop,
        Phase::Failed(_) => Action::Stop,
    };
    (next, act)
}

/// Whether the sequence is over, well or badly.
pub fn is_terminal(ph: Phase) -> (r: bool)
    ensures
        r == (ph == Phase::Done || ph is Failed),
{
    match ph {
        Phase::Done => true,
        Phase::Failed(_) => true,
        _ => false,
    }
}

} // verus!
