use rs_shield::operation_outcomes::RunKind;
use rs_shield::screen_runs::{ScreenRun, StartAction};

#[test]
fn a_second_start_while_running_does_nothing() {
    let idle = ScreenRun::idle("Ready");
    let (running, action) = idle.on_start("Starting...");
    assert!(running.running);
    assert_eq!((running.done, running.total), (0, 1));
    assert_eq!(running.status, "Starting...");
    assert_eq!(action, Some(StartAction::Launch));

    let (again, action) = running.on_start("Starting again");
    assert_eq!(action, None);
    assert!(again.running);
    assert_eq!(again.status, "Starting...");
}

#[test]
fn progress_reports_by_screen() {
    let (mut run, _) = ScreenRun::idle("Ready").on_start("go");
    run.on_progress(RunKind::Backup, 3, 10, "copying".to_string());
    assert_eq!((run.done, run.total), (3, 10));
    assert_eq!(run.status, "copying");
    run.on_progress(RunKind::Backup, 5, 0, "still".to_string());
    assert_eq!((run.done, run.total), (3, 10));
    run.on_progress(RunKind::Restore, 4, 0, "r".to_string());
    assert_eq!((run.done, run.total), (4, 1));
    run.on_progress(RunKind::Verify, 4, 0, "v".to_string());
    assert_eq!((run.done, run.total), (0, 1));
    assert!(run.running);
}

#[test]
fn finishing_and_cancelling() {
    let (mut run, _) = ScreenRun::idle("Ready").on_start("go");
    run.on_progress(RunKind::Verify, 1, 4, "v".to_string());
    run.on_cancel(RunKind::Verify);
    assert!(!run.running);
    assert_eq!((run.done, run.total), (1, 4));
    assert_eq!(run.status, "⏹️ Verificação cancelada pelo usuário");
    assert!(run.shows_progress());

    let (mut run, _) = ScreenRun::idle("Ready").on_start("go");
    assert!(run.shows_progress());
    run.on_finish(true, "Done".to_string());
    assert!(!run.running);
    assert_eq!((run.done, run.total), (1, 1));
    let (mut run, _) = run.on_start("again");
    run.on_finish(false, "Erro".to_string());
    assert_eq!((run.done, run.total), (0, 1));
    assert!(!run.shows_progress());
}

#[test]
fn integrity_check_needs_a_folder() {
    let idle = ScreenRun::idle("🔍 Select a backup folder");
    let (same, action) = idle.on_integrity_start("");
    assert_eq!(action, None);
    assert!(!same.running);
    assert_eq!(same.status, "❌ Select a backup folder");
    let (checking, action) = idle.on_integrity_start("/backups/b1");
    assert_eq!(action, Some(StartAction::Launch));
    assert!(checking.running);
    assert_eq!(checking.status, "🔍 Checking backup structure...");
    let (again, action) = checking.on_integrity_start("/backups/b1");
    assert_eq!(action, None);
    assert!(again.running);
}
