use rs_shield::realtime_sync::{on_backup_result, on_sync_result, SyncCounters, SyncEvent};

#[test]
fn growth_asks_for_a_backup_and_is_recorded() {
    let mut counters = SyncCounters::start(10);
    let mut history: Vec<SyncEvent> = Vec::new();
    let (backup, notice) = on_sync_result(&mut counters, &mut history, Ok(13), "10:00:00".to_string(), true);
    assert!(backup);
    let notice = notice.unwrap();
    assert_eq!(notice.title, "📄 Files Synchronized");
    assert_eq!(notice.message, "3 file(s) successfully synchronized");
    assert_eq!((counters.last_count, counters.files_changed), (13, 3));
    assert_eq!(history.len(), 1);
    assert_eq!(history[0].event_type, "file_synced");
    assert_eq!(history[0].details, "3 file(s) synchronized");
    assert_eq!(history[0].timestamp, "10:00:00");

    let (status, notice) = on_backup_result(&mut counters, &mut history, Ok("bk-1".to_string()), "10:00:01".to_string(), false);
    assert_eq!(status.as_deref(), Some("✅ bk-1"));
    assert!(notice.is_none());
    assert_eq!(counters.backups_created, 1);
    assert_eq!(history[1].event_type, "backup_created");
}

#[test]
fn no_growth_changes_nothing() {
    let mut counters = SyncCounters::start(10);
    let mut history: Vec<SyncEvent> = Vec::new();
    let (backup, notice) = on_sync_result(&mut counters, &mut history, Ok(10), "t".to_string(), true);
    assert!(!backup);
    assert!(notice.is_none());
    let (backup, _) = on_sync_result(&mut counters, &mut history, Ok(7), "t".to_string(), true);
    assert!(!backup);
    assert_eq!((counters.last_count, counters.files_changed, counters.sync_errors), (10, 0, 0));
    assert!(history.is_empty());
}

#[test]
fn failures_are_counted_and_recorded() {
    let mut counters = SyncCounters::start(0);
    let mut history: Vec<SyncEvent> = Vec::new();
    let (backup, notice) = on_sync_result(&mut counters, &mut history, Err("disk gone".to_string()), "t1".to_string(), true);
    assert!(!backup);
    assert_eq!(notice.unwrap().message, "Synchronization failed: disk gone");
    assert_eq!(history[0].details, "Synchronization error: disk gone");
    let (status, notice) = on_backup_result(&mut counters, &mut history, Err(()), "t2".to_string(), true);
    assert!(status.is_none());
    assert_eq!(notice.unwrap().title, "❌ Backup Error");
    assert_eq!(counters.sync_errors, 2);
    assert_eq!(history[1].details, "Failed to create backup");
}

#[test]
fn history_stays_bounded_in_the_monitor() {
    let mut counters = SyncCounters::start(0);
    let mut history: Vec<SyncEvent> = Vec::new();
    for n in 1..=30usize {
        on_sync_result(&mut counters, &mut history, Ok(n), format!("{n}"), false);
    }
    assert_eq!(history.len(), 20);
    assert_eq!(history[19].timestamp, "30");
    assert_eq!(history[0].timestamp, "11");
}
