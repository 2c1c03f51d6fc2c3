use playdate_sdk_updater::machine::{
    initial_action, initial_phase, is_terminal, progress_total, step, Action, ErrorKind, Event,
    Phase,
};
use playdate_sdk_updater::promote::{promote_plan, Entry};

/// Feeds the machine one event and returns the next phase, checking the
/// action it asks for.
fn expect_step(clean: bool, ph: Phase, ev: Event, want_action: Action) -> Phase {
    let (next, action) = step(clean, ph, ev);
    assert_eq!(action, want_action);
    next
}

#[test]
fn first_install_runs_to_done() {
    // No staged archive, no previous install: download, create, extract,
    // promote, run the script, clean up.
    let clean = false;
    let ph = initial_phase();
    assert_eq!(initial_action(), Action::ProbeStaging);
    let ph = expect_step(clean, ph, Event::StagingProbed { found: false }, Action::Download);
    let ph = expect_step(clean, ph, Event::Downloaded { ok: true }, Action::ProbeInstall);
    let ph = expect_step(clean, ph, Event::InstallProbed { found: false }, Action::CreateTarget);
    let ph = expect_step(clean, ph, Event::TargetCreated { ok: true }, Action::ExtractArchive);
    let ph = expect_step(clean, ph, Event::Unpacked { ok: true }, Action::PromoteEntries);
    let ph = expect_step(clean, ph, Event::PromotionDone { ok: true }, Action::AskRunScript);
    let ph = expect_step(clean, ph, Event::ScriptAnswered { yes: true }, Action::SpawnScript);
    let ph = expect_step(clean, ph, Event::ScriptSpawned { ok: true }, Action::ProbeTmp);
    let ph = expect_step(clean, ph, Event::TmpProbed { found: true }, Action::RemoveTmp);
    let ph = expect_step(clean, ph, Event::TmpRemoved { ok: true }, Action::Stop);
    assert_eq!(ph, Phase::Done);
    assert!(is_terminal(ph));
}

#[test]
fn update_backs_up_before_replacing() {
    // A previous install exists: the stale backup is removed and the
    // install directory is renamed away before anything is created.
    let clean = false;
    let ph = initial_phase();
    let ph = expect_step(clean, ph, Event::StagingProbed { found: false }, Action::Download);
    let ph = expect_step(clean, ph, Event::Downloaded { ok: true }, Action::ProbeInstall);
    let ph = expect_step(
        clean,
        ph,
        Event::InstallProbed { found: true },
        Action::RemoveStaleBackup,
    );
    let ph = expect_step(
        clean,
        ph,
        Event::StaleBackupRemoved { ok: true },
        Action::RenameToBackup,
    );
    let ph = expect_step(clean, ph, Event::RenamedToBackup { ok: true }, Action::CreateTarget);
    let ph = expect_step(clean, ph, Event::TargetCreated { ok: true }, Action::ExtractArchive);
    let ph = expect_step(clean, ph, Event::Unpacked { ok: true }, Action::PromoteEntries);
    let ph = expect_step(clean, ph, Event::PromotionDone { ok: true }, Action::AskRunScript);
    let ph = expect_step(clean, ph, Event::ScriptAnswered { yes: false }, Action::ProbeTmp);
    let ph = expect_step(clean, ph, Event::TmpProbed { found: true }, Action::RemoveTmp);
    let ph = expect_step(clean, ph, Event::TmpRemoved { ok: true }, Action::Stop);
    assert_eq!(ph, Phase::Done);
}

#[test]
fn declined_backup_aborts_untouched() {
    // The rename fails and the operator refuses to continue: the run ends
    // with the backup failure before anything was created or extracted.
    let clean = false;
    let ph = initial_phase();
    let ph = expect_step(clean, ph, Event::StagingProbed { found: true }, Action::ProbeInstall);
    let ph = expect_step(
        clean,
        ph,
        Event::InstallProbed { found: true },
        Action::RemoveStaleBackup,
    );
    let ph = expect_step(
        clean,
        ph,
        Event::StaleBackupRemoved { ok: true },
        Action::RenameToBackup,
    );
    let ph = expect_step(
        clean,
        ph,
        Event::RenamedToBackup { ok: false },
        Action::AskContinueWithoutBackup,
    );
    let ph = expect_step(clean, ph, Event::ConsentAnswered { yes: false }, Action::Stop);
    assert_eq!(ph, Phase::Failed(ErrorKind::BackupFailed));
    assert!(is_terminal(ph));
}

#[test]
fn accepted_risk_continues_without_backup() {
    let clean = false;
    let (ph, _) = step(clean, Phase::AwaitBackupConsent, Event::ConsentAnswered { yes: true });
    assert_eq!(ph, Phase::AwaitCreate);
}

#[test]
fn staged_archive_skips_download() {
    // An archive is already staged and the force-clean flag is off: the
    // machine goes straight to the install probe, never asking for a
    // download.
    let clean = false;
    let ph = initial_phase();
    let (ph, action) = step(clean, ph, Event::StagingProbed { found: true });
    assert_eq!(action, Action::ProbeInstall);
    assert_eq!(ph, Phase::QueryInstall);
}

#[test]
fn force_clean_redownloads() {
    let clean = true;
    let ph = initial_phase();
    let (ph, action) = step(clean, ph, Event::StagingProbed { found: true });
    assert_eq!(action, Action::Download);
    assert_eq!(ph, Phase::AwaitDownload);
}

#[test]
fn failures_are_fatal_at_each_step() {
    let clean = false;
    let (ph, a) = step(clean, Phase::AwaitDownload, Event::Downloaded { ok: false });
    assert_eq!(ph, Phase::Failed(ErrorKind::DownloadFailed));
    assert_eq!(a, Action::Stop);
    let (ph, _) = step(clean, Phase::AwaitCreate, Event::TargetCreated { ok: false });
    assert_eq!(ph, Phase::Failed(ErrorKind::CreateDirFailed));
    let (ph, _) = step(clean, Phase::AwaitExtract, Event::Unpacked { ok: false });
    assert_eq!(ph, Phase::Failed(ErrorKind::ExtractFailed));
    let (ph, _) = step(clean, Phase::AwaitPromote, Event::PromotionDone { ok: false });
    assert_eq!(ph, Phase::Failed(ErrorKind::PromoteFailed));
}

#[test]
fn spawn_failure_is_not_fatal() {
    let clean = false;
    let (ph, action) = step(clean, Phase::AwaitSpawn, Event::ScriptSpawned { ok: false });
    assert_eq!(ph, Phase::QueryTmp);
    assert_eq!(action, Action::ProbeTmp);
}

#[test]
fn stale_backup_removal_failure_is_ignored() {
    let clean = false;
    let (ph, action) = step(
        clean,
        Phase::AwaitRemoveStale,
        Event::StaleBackupRemoved { ok: false },
    );
    assert_eq!(ph, Phase::AwaitRename);
    assert_eq!(action, Action::RenameToBackup);
}

#[test]
fn no_leftover_tmp_finishes_directly() {
    let clean = false;
    let (ph, action) = step(clean, Phase::QueryTmp, Event::TmpProbed { found: false });
    assert_eq!(ph, Phase::Done);
    assert_eq!(action, Action::Stop);
}

#[test]
fn unexpected_event_changes_nothing() {
    let clean = false;
    let (ph, _) = step(clean, Phase::QueryStaging, Event::TmpRemoved { ok: true });
    assert_eq!(ph, Phase::QueryStaging);
    let (ph, _) = step(clean, Phase::Done, Event::Downloaded { ok: true });
    assert_eq!(ph, Phase::Done);
}

#[test]
fn progress_total_uses_sentinel_for_unknown_length() {
    assert_eq!(progress_total(None), 1);
    assert_eq!(progress_total(Some(0)), 1);
    assert_eq!(progress_total(Some(1)), 1);
    assert_eq!(progress_total(Some(123_456_789)), 123_456_789);
}

#[test]
fn promotion_takes_directories_and_ignores_files() {
    // One payload directory and one stray top-level file: only the
    // directory is promoted.
    let entries = vec![
        Entry { name: b"PlaydateSDK-2.7.6".to_vec(), is_dir: true },
        Entry { name: b"readme.txt".to_vec(), is_dir: false },
    ];
    let plan = promote_plan(&entries);
    assert_eq!(plan, vec![0]);
}

#[test]
fn promotion_of_files_only_is_empty() {
    let entries = vec![
        Entry { name: b"a.txt".to_vec(), is_dir: false },
        Entry { name: b"b.txt".to_vec(), is_dir: false },
    ];
    assert_eq!(promote_plan(&entries), Vec::<usize>::new());
}

#[test]
fn promotion_keeps_listing_order() {
    let entries = vec![
        Entry { name: b"x".to_vec(), is_dir: true },
        Entry { name: b"note".to_vec(), is_dir: false },
        Entry { name: b"y".to_vec(), is_dir: true },
        Entry { name: b"z".to_vec(), is_dir: true },
    ];
    assert_eq!(promote_plan(&entries), vec![0, 2, 3]);
}

#[test]
fn promotion_of_nothing_is_empty() {
    let entries: Vec<Entry> = Vec::new();
    assert_eq!(promote_plan(&entries), Vec::<usize>::new());
}
