//! A model of what the install/update sequence does to the filesystem,
//! and the guarantees proved over it.
//!
//! Four locations matter to a run: the install directory, its backup, the
//! extraction directory and the staged archive file.  Each is a [`Slot`]
//! holding a [`Tree`], a name for one concrete directory tree or file:
//! trees present before the run keep their identity, so equality of
//! `Tree` values states that a location holds exactly the bytes another
//! held.  [`fs_next`] says how each reported outcome changes the
//! locations; a failed step that can leave a location half-written sets
//! it to [`Slot::Unknown`], which nothing later relies on.
//!
//! Over this model, [`lemma_first_install`], [`lemma_update`],
//! [`lemma_backup_declined`] and [`lemma_cached_archive_no_download`]
//! state the promises of the sequence as a whole, for every
//! interleaving of outcomes the machine accepts.  The setup script the
//! tool may spawn at the end is a detached process outside the model.

use vstd::prelude::*;
use crate::machine::{Action, ErrorKind, Event, Phase, action_of, next_phase};

verus! {

/// One concrete directory tree or file, named by where it came from.
pub ghost enum Tree {
    /// A tree that was already there before the run, with an identity.
    Prior(int),
    /// The archive the download step wrote.
    Archive,
    /// The empty directory the create step made.
    Fresh,
    /// The tree the archive unpacked to.
    Extracted,
    /// The install tree after promotion.
    Promoted,
    /// What the extraction directory keeps once its directories moved
    /// out: the ignored top-level files.
    Residue,
}

/// What one filesystem location holds.
pub ghost enum Slot {
    /// Nothing is there.
    Absent,
    /// Exactly this tree is there.
    Holds(Tree),
    /// A failed step left the location in an unspecified state.
    Unknown,
}

/// The four locations a run touches.
pub ghost struct FsModel {
    /// The install directory.
    pub install: Slot,
    /// The backup directory beside it.
    pub backup: Slot,
    /// The extraction directory beside it.
    pub tmp: Slot,
    /// The staged archive file.
    pub staging: Slot,
}

/// No location is in an unspecified state.
pub open spec fn wf(fs: FsModel) -> bool {
    !(fs.install is Unknown) && !(fs.backup is Unknown) && !(fs.tmp is Unknown)
        && !(fs.staging is Unknown)
}

/// What a probe may truthfully answer about a location.
pub open spec fn probe_ok(s: Slot, found: bool) -> bool {
    match s {
        Slot::Absent => !found,
        Slot::Holds(_) => found,
        Slot::Unknown => true,
    }
}

/// How the outcome reported by `ev`, taken in phase `ph`, changes the
/// locations.  An event the phase does not expect changes nothing.
pub open spec fn fs_next(ph: Phase, ev: Event, fs: FsModel) -> FsModel {
    match (ph, ev) {
        (Phase::AwaitDownload, Event::Downloaded { ok }) => if ok {
            FsModel { staging: Slot::Holds(Tree::Archive), ..fs }
        } else {
            FsModel { staging: Slot::Unknown, ..fs }
        },
        (Phase::AwaitRemoveStale, Event::StaleBackupRemoved { ok }) => if ok {
            FsModel { backup: Slot::Absent, ..fs }
        } else {
            FsModel {
                backup: match fs.backup {
                    Slot::Absent => Slot::Absent,
                    _ => Slot::Unknown,
                },
                ..fs
            }
        },
        (Phase::AwaitRename, Event::RenamedToBackup { ok }) => if ok {
            FsModel { backup: fs.install, install: Slot::Absent, ..fs }
        } else {
            fs
        },
        (Phase::AwaitCreate, Event::TargetCreated { ok }) => if ok {
            FsModel { install: Slot::Holds(Tree::Fresh), ..fs }
        } else {
            fs
        },
        (Phase::AwaitExtract, Event::Unpacked { ok }) => if ok {
            FsModel { tmp: Slot::Holds(Tree::Extracted), ..fs }
        } else {
            FsModel { tmp: Slot::Unknown, ..fs }
        },
        (Phase::AwaitPromote, Event::PromotionDone { ok }) => if ok {
            FsModel { install: Slot::Holds(Tree::Promoted), tmp: Slot::Holds(Tree::Residue), ..fs }
        } else {
            FsModel { install: Slot::Unknown, tmp: Slot::Unknown, ..fs }
        },
        (Phase::AwaitRemoveTmp, Event::TmpRemoved { ok }) => if ok {
            FsModel { tmp: Slot::Absent, ..fs }
        } else {
            FsModel {
                tmp: match fs.tmp {
                    Slot::Absent => Slot::Absent,
                    _ => Slot::Unknown,
                },
                ..fs
            }
        },
        _ => fs,
    }
}

/// What the filesystem forces of an outcome: probes answer truthfully,
/// and creating the install directory only succeeds where none is.
pub open spec fn consistent_step(fs: FsModel, ph: Phase, ev: Event) -> bool {
    match (ph, ev) {
        (Phase::QueryStaging, Event::StagingProbed { found }) => probe_ok(fs.staging, found),
        (Phase::QueryInstall, Event::InstallProbed { found }) => probe_ok(fs.install, found),
        (Phase::QueryTmp, Event::TmpProbed { found }) => probe_ok(fs.tmp, found),
        (Phase::AwaitCreate, Event::TargetCreated { ok }) => ok ==> !(fs.install is Holds),
        _ => true,
    }
}

/// The phase and locations after taking the events of `evs` in order.
pub open spec fn run(clean: bool, ph: Phase, fs: FsModel, evs: Seq<Event>) -> (Phase, FsModel)
    decreases evs.len(),
{
    if evs.len() == 0 {
        (ph, fs)
    } else {
        run(
            clean,
            next_phase(clean, ph, evs[0]),
            fs_next(ph, evs[0], fs),
            evs.drop_first(),
        )
    }
}

/// Whether every outcome along the run is one the filesystem could
/// truthfully report.
pub open spec fn valid_run(clean: bool, ph: Phase, fs: FsModel, evs: Seq<Event>) -> bool
    decreases evs.len(),
{
    evs.len() == 0 || (consistent_step(fs, ph, evs[0]) && valid_run(
        clean,
        next_phase(clean, ph, evs[0]),
        fs_next(ph, evs[0], fs),
        evs.drop_first(),
    ))
}

/// Whether the outcome `ev` reports is a success.  Probes and the
/// operator's answers count as successes either way.
pub open spec fn ev_ok(ev: Event) -> bool {
    match ev {
        Event::Downloaded { ok } => ok,
        Event::StaleBackupRemoved { ok } => ok,
        Event::RenamedToBackup { ok } => ok,
        Event::TargetCreated { ok } => ok,
        Event::Unpacked { ok } => ok,
        Event::PromotionDone { ok } => ok,
        Event::ScriptSpawned { ok } => ok,
        Event::TmpRemoved { ok } => ok,
        _ => true,
    }
}

/// Every step of the run succeeded.
pub open spec fn all_ok(evs: Seq<Event>) -> bool {
    forall|i: int| 0 <= i < evs.len() ==> ev_ok(#[trigger] evs[i])
}

/// Where the backup may stand, against the initial locations: untouched
/// when there was no install to back up, else holding exactly the old
/// install tree.
pub open spec fn backup_cases(fs0: FsModel, fs: FsModel) -> bool {
    (fs0.install is Absent && fs.backup == fs0.backup) || (fs0.install is Holds
        && fs.backup == fs0.install)
}

/// The invariant of an all-successes run that started in
/// `Phase::QueryStaging` on the locations `fs0`.
pub open spec fn inv_ok(fs0: FsModel, ph: Phase, fs: FsModel) -> bool {
    match ph {
        Phase::QueryStaging => fs == fs0,
        Phase::AwaitDownload => fs.install == fs0.install && fs.backup == fs0.backup && fs.tmp
            == fs0.tmp,
        Phase::QueryInstall => fs.install == fs0.install && fs.backup == fs0.backup && fs.tmp
            == fs0.tmp && fs.staging is Holds,
        Phase::AwaitRemoveStale => fs.install == fs0.install && fs0.install is Holds && fs.backup
            == fs0.backup && fs.tmp == fs0.tmp && fs.staging is Holds,
        Phase::AwaitRename => fs.install == fs0.install && fs0.install is Holds && fs.backup
            is Absent && fs.tmp == fs0.tmp && fs.staging is Holds,
        Phase::AwaitBackupConsent => false,
        Phase::AwaitCreate => fs.install is Absent && fs.tmp == fs0.tmp && fs.staging is Holds
            && backup_cases(fs0, fs),
        Phase::AwaitExtract => fs.install == Slot::Holds(Tree::Fresh) && fs.tmp == fs0.tmp
            && fs.staging is Holds && backup_cases(fs0, fs),
        Phase::AwaitPromote => fs.install == Slot::Holds(Tree::Fresh) && fs.tmp == Slot::Holds(
            Tree::Extracted,
        ) && fs.staging is Holds && backup_cases(fs0, fs),
        Phase::AwaitScriptConsent => fs.install == Slot::Holds(Tree::Promoted) && fs.tmp
            == Slot::Holds(Tree::Residue) && fs.staging is Holds && backup_cases(fs0, fs),
        Phase::AwaitSpawn => fs.install == Slot::Holds(Tree::Promoted) && fs.tmp == Slot::Holds(
            Tree::Residue,
        ) && fs.staging is Holds && backup_cases(fs0, fs),
        Phase::QueryTmp => fs.install == Slot::Holds(Tree::Promoted) && fs.tmp == Slot::Holds(
            Tree::Residue,
        ) && fs.staging is Holds && backup_cases(fs0, fs),
        Phase::AwaitRemoveTmp => fs.install == Slot::Holds(Tree::Promoted) && fs.tmp
            == Slot::Holds(Tree::Residue) && fs.staging is Holds && backup_cases(fs0, fs),
        Phase::Done => fs.install == Slot::Holds(Tree::Promoted) && fs.tmp is Absent
            && fs.staging is Holds && backup_cases(fs0, fs),
        Phase::Failed(_) => false,
    }
}

proof fn lemma_inv_ok_run(clean: bool, fs0: FsModel, ph: Phase, fs: FsModel, evs: Seq<Event>)
    requires
        wf(fs0),
        inv_ok(fs0, ph, fs),
        valid_run(clean, ph, fs, evs),
        all_ok(evs),
    ensures
        inv_ok(fs0, run(clean, ph, fs, evs).0, run(clean, ph, fs, evs).1),
    decreases evs.len(),
{
    if evs.len() > 0 {
        let ph1 = next_phase(clean, ph, evs[0]);
        let fs1 = fs_next(ph, evs[0], fs);
        assert(ev_ok(evs[0]));
        assert(inv_ok(fs0, ph1, fs1));
        assert forall|i: int| 0 <= i < evs.drop_first().len() implies ev_ok(
            #[trigger] evs.drop_first()[i],
        ) by {
            assert(evs.drop_first()[i] == evs[i + 1]);
        }
        lemma_inv_ok_run(clean, fs0, ph1, fs1, evs.drop_first());
    }
}

/// A first install: where no install directory existed, a completed run
/// in which every step succeeded leaves the promoted tree as the install
/// directory, touches no backup, removes the extraction directory and
/// retains the staged archive.
pub proof fn lemma_first_install(clean: bool, fs0: FsModel, evs: Seq<Event>)
    requires
        wf(fs0),
        fs0.install is Absent,
        valid_run(clean, Phase::QueryStaging, fs0, evs),
        all_ok(evs),
        run(clean, Phase::QueryStaging, fs0, evs).0 == Phase::Done,
    ensures
        run(clean, Phase::QueryStaging, fs0, evs).1.install == Slot::Holds(Tree::Promoted),
        run(clean, Phase::QueryStaging, fs0, evs).1.backup == fs0.backup,
        run(clean, Phase::QueryStaging, fs0, evs).1.tmp is Absent,
        run(clean, Phase::QueryStaging, fs0, evs).1.staging is Holds,
{
    lemma_inv_ok_run(clean, fs0, Phase::QueryStaging, fs0, evs);
}

/// An update: where an install directory existed, a completed run in
/// which every step succeeded leaves the promoted tree as the install
/// directory, the backup directory holding exactly the tree the install
/// directory held before the run, no extraction directory, and the
/// staged archive retained.
pub proof fn lemma_update(clean: bool, fs0: FsModel, evs: Seq<Event>)
    requires
        wf(fs0),
        fs0.install is Holds,
        valid_run(clean, Phase::QueryStaging, fs0, evs),
        all_ok(evs),
        run(clean, Phase::QueryStaging, fs0, evs).0 == Phase::Done,
    ensures
        run(clean, Phase::QueryStaging, fs0, evs).1.install == Slot::Holds(Tree::Promoted),
        run(clean, Phase::QueryStaging, fs0, evs).1.backup == fs0.install,
        run(clean, Phase::QueryStaging, fs0, evs).1.tmp is Absent,
        run(clean, Phase::QueryStaging, fs0, evs).1.staging is Holds,
{
    lemma_inv_ok_run(clean, fs0, Phase::QueryStaging, fs0, evs);
}

/// The update guarantee is not vacuous: one concrete run — archive not
/// yet staged, an install present, every step succeeding — satisfies
/// every premise of [`lemma_update`] and ends with the old install tree
/// in the backup.
pub proof fn lemma_update_run_witness()
    ensures
        exists|fs0: FsModel, evs: Seq<Event>|
            wf(fs0) && (fs0.install is Holds) && valid_run(false, Phase::QueryStaging, fs0, evs)
                && #[trigger] run(false, Phase::QueryStaging, fs0, evs).0 == Phase::Done && run(
                false,
                Phase::QueryStaging,
                fs0,
                evs,
            ).1.backup == fs0.install,
{
    let fs0 = FsModel {
        install: Slot::Holds(Tree::Prior(0)),
        backup: Slot::Absent,
        tmp: Slot::Absent,
        staging: Slot::Absent,
    };
    let evs: Seq<Event> = seq![
        Event::StagingProbed { found: false },
        Event::Downloaded { ok: true },
        Event::InstallProbed { found: true },
        Event::StaleBackupRemoved { ok: true },
        Event::RenamedToBackup { ok: true },
        Event::TargetCreated { ok: true },
        Event::Unpacked { ok: true },
        Event::PromotionDone { ok: true },
        Event::ScriptAnswered { yes: false },
        Event::TmpProbed { found: true },
        Event::TmpRemoved { ok: true },
    ];
    reveal_with_fuel(valid_run, 13);
    reveal_with_fuel(run, 13);
    assert(valid_run(false, Phase::QueryStaging, fs0, evs));
    assert(run(false, Phase::QueryStaging, fs0, evs).0 == Phase::Done);
    assert(run(false, Phase::QueryStaging, fs0, evs).1.backup == fs0.install);
}

/// The install and extraction directories stand as they began.
pub open spec fn untouched(fs0: FsModel, fs: FsModel) -> bool {
    fs.install == fs0.install && fs.tmp == fs0.tmp
}

/// The invariant behind the declined-backup guarantee: up to and
/// including the backup steps nothing has touched the install or
/// extraction directories, and the backup-refused failure keeps that.
pub open spec fn inv_untouched(fs0: FsModel, ph: Phase, fs: FsModel) -> bool {
    match ph {
        Phase::QueryStaging => untouched(fs0, fs),
        Phase::AwaitDownload => untouched(fs0, fs),
        Phase::QueryInstall => untouched(fs0, fs),
        Phase::AwaitRemoveStale => untouched(fs0, fs),
        Phase::AwaitRename => untouched(fs0, fs),
        Phase::AwaitBackupConsent => untouched(fs0, fs),
        Phase::Failed(e) => e == ErrorKind::BackupFailed ==> untouched(fs0, fs),
        _ => true,
    }
}

proof fn lemma_inv_untouched_run(
    clean: bool,
    fs0: FsModel,
    ph: Phase,
    fs: FsModel,
    evs: Seq<Event>,
)
    requires
        inv_untouched(fs0, ph, fs),
    ensures
        inv_untouched(fs0, run(clean, ph, fs, evs).0, run(clean, ph, fs, evs).1),
    decreases evs.len(),
{
    if evs.len() > 0 {
        let ph1 = next_phase(clean, ph, evs[0]);
        let fs1 = fs_next(ph, evs[0], fs);
        assert(inv_untouched(fs0, ph1, fs1));
        lemma_inv_untouched_run(clean, fs0, ph1, fs1, evs.drop_first());
    }
}

/// A declined backup aborts cleanly: when a run ends with the
/// backup-refused failure, the install directory stands exactly as it
/// began and no extraction directory was created.
pub proof fn lemma_backup_declined(clean: bool, fs0: FsModel, evs: Seq<Event>)
    requires
        run(clean, Phase::QueryStaging, fs0, evs).0 == Phase::Failed(ErrorKind::BackupFailed),
    ensures
        run(clean, Phase::QueryStaging, fs0, evs).1.install == fs0.install,
        run(clean, Phase::QueryStaging, fs0, evs).1.tmp == fs0.tmp,
{
    lemma_inv_untouched_run(clean, fs0, Phase::QueryStaging, fs0, evs);
}

/// The actions a run asks for, in order.
pub open spec fn actions_of_run(clean: bool, ph: Phase, evs: Seq<Event>) -> Seq<Action>
    decreases evs.len(),
{
    if evs.len() == 0 {
        Seq::empty()
    } else {
        seq![action_of(clean, ph, evs[0])] + actions_of_run(
            clean,
            next_phase(clean, ph, evs[0]),
            evs.drop_first(),
        )
    }
}

proof fn lemma_no_download_aux(clean: bool, ph: Phase, fs: FsModel, evs: Seq<Event>)
    requires
        !clean,
        valid_run(clean, ph, fs, evs),
        (ph == Phase::QueryStaging && fs.staging is Holds) || (ph != Phase::QueryStaging && ph
            != Phase::AwaitDownload),
    ensures
        !actions_of_run(clean, ph, evs).contains(Action::Download),
    decreases evs.len(),
{
    if evs.len() > 0 {
        let ph1 = next_phase(clean, ph, evs[0]);
        let fs1 = fs_next(ph, evs[0], fs);
        assert(ph1 != Phase::AwaitDownload);
        assert((ph1 == Phase::QueryStaging && fs1.staging is Holds) || (ph1
            != Phase::QueryStaging && ph1 != Phase::AwaitDownload));
        lemma_no_download_aux(clean, ph1, fs1, evs.drop_first());
        let head = action_of(clean, ph, evs[0]);
        let tail = actions_of_run(clean, ph1, evs.drop_first());
        assert(head != Action::Download);
        assert forall|i: int|
            0 <= i < actions_of_run(clean, ph, evs).len() implies #[trigger] actions_of_run(
            clean,
            ph,
            evs,
        )[i] != Action::Download by {
            if i == 0 {
                assert(actions_of_run(clean, ph, evs)[0] == head);
            } else {
                assert(actions_of_run(clean, ph, evs)[i] == tail[i - 1]);
                assert(!tail.contains(Action::Download));
            }
        }
    }
}

/// A staged archive is reused: with the archive file already present and
/// the force-clean flag off, no run ever asks for the archive download.
pub proof fn lemma_cached_archive_no_download(clean: bool, fs0: FsModel, evs: Seq<Event>)
    requires
        !clean,
        fs0.staging is Holds,
        valid_run(clean, Phase::QueryStaging, fs0, evs),
    ensures
        !actions_of_run(clean, Phase::QueryStaging, evs).contains(Action::Download),
{
    lemma_no_download_aux(clean, Phase::QueryStaging, fs0, evs);
}

} // verus!
