use rs_shield::realtime_sync::{PatternAdd, add_ignore_pattern, backup_created_event, backup_failed_event, default_ignore_patterns, files_synced_event, initial_sync_failure, pattern_add_message, pattern_removed_message, sync_failed_event, test_pattern};
use rs_shield::diagnostics::{count_with_status, DiagnosticInfo, DiagnosticStatus};
use rs_shield::realtime_sync::{
    check_monitor_setup, notification_icon, notification_status, push_history_event,
    webhook_target, SetupIssue, SyncCounters, SyncEvent, HISTORY_LIMIT,
};

fn event(n: usize) -> SyncEvent {
    SyncEvent { timestamp: format!("{n}"), event_type: "file_synced".into(), details: String::new() }
}

#[test]
fn history_keeps_last_twenty() {
    let mut h = Vec::new();
    for n in 0..25 {
        push_history_event(&mut h, event(n));
        assert!(h.len() <= HISTORY_LIMIT);
        assert_eq!(h.last().unwrap().timestamp, format!("{n}"));
    }
    assert_eq!(h.len(), 20);
    assert_eq!(h[0].timestamp, "5");
}

#[test]
fn setup_is_checked_in_order() {
    assert_eq!(check_monitor_setup(true, true, true, true), Some(SetupIssue::MissingSource));
    assert_eq!(check_monitor_setup(false, true, true, true), Some(SetupIssue::MissingDestination));
    assert_eq!(check_monitor_setup(false, false, true, true), Some(SetupIssue::MissingBackupFolder));
    assert_eq!(check_monitor_setup(false, false, false, true), Some(SetupIssue::MissingPassword));
    assert_eq!(check_monitor_setup(false, false, false, false), None);
}

#[test]
fn counters_follow_sync_passes() {
    let mut c = SyncCounters::start(10);
    assert_eq!(c.record_sync(10), None);
    assert_eq!(c.record_sync(7), None);
    assert_eq!(c.last_count, 10);
    assert_eq!(c.record_sync(13), Some(3));
    assert_eq!((c.last_count, c.files_changed), (13, 3));
    c.record_backup(true);
    c.record_backup(false);
    c.record_sync_error();
    assert_eq!((c.backups_created, c.sync_errors), (1, 2));
}

#[test]
fn notification_kinds() {
    assert_eq!(notification_icon("success"), "dialog-information");
    assert_eq!(notification_icon("error"), "dialog-error");
    assert_eq!(notification_icon("warning"), "dialog-warning");
    assert_eq!(notification_icon("info"), "dialog-information");
    assert_eq!(notification_icon("other"), "dialog-information");
    assert_eq!(notification_status("success"), "success");
    assert_eq!(notification_status("error"), "error");
    assert_eq!(notification_status("warning"), "warning");
    assert_eq!(notification_status("info"), "info");
    assert_eq!(notification_status("x"), "info");
    assert_eq!(webhook_target(true, "http://h").as_deref(), Some("http://h"));
    assert_eq!(webhook_target(false, "http://h"), None);
}

#[test]
fn diagnostics_display() {
    assert_eq!(DiagnosticStatus::Healthy.color(), "emerald");
    assert_eq!(DiagnosticStatus::Warning.color(), "yellow");
    assert_eq!(DiagnosticStatus::Critical.color(), "red");
    assert_eq!(DiagnosticStatus::Healthy.icon(), "✅");
    assert_eq!(DiagnosticStatus::Warning.icon(), "⚠️");
    assert_eq!(DiagnosticStatus::Critical.icon(), "❌");
    let mk = |s| DiagnosticInfo { category: "c".into(), status: s, message: "m".into(), details: None };
    let checks = vec![mk(DiagnosticStatus::Healthy), mk(DiagnosticStatus::Warning), mk(DiagnosticStatus::Healthy)];
    assert_eq!(count_with_status(&checks, DiagnosticStatus::Healthy), 2);
    assert_eq!(count_with_status(&checks, DiagnosticStatus::Warning), 1);
    assert_eq!(count_with_status(&checks, DiagnosticStatus::Critical), 0);
}

#[test]
fn ignore_pattern_editor() {
    let mut p = default_ignore_patterns();
    assert_eq!(p.len(), 7);
    assert_eq!(p[0], ".*\\.tmp$");
    assert_eq!(add_ignore_pattern(&mut p, "  build "), PatternAdd::Added);
    assert_eq!(p.last().unwrap(), "build");
    assert_eq!(add_ignore_pattern(&mut p, "build"), PatternAdd::AlreadyPresent);
    assert_eq!(add_ignore_pattern(&mut p, "   "), PatternAdd::Empty);
    assert_eq!(p.len(), 8);
    assert_eq!(pattern_add_message(PatternAdd::Added), "✅ Pattern added successfully");
    assert_eq!(pattern_add_message(PatternAdd::AlreadyPresent), "❌ Pattern already exists");
    assert_eq!(pattern_add_message(PatternAdd::Empty), "❌ Enter a valid pattern");
    assert_eq!(pattern_removed_message("target"), "✅ Pattern 'target' removed");
}

#[test]
fn pattern_tester() {
    let p = default_ignore_patterns();
    assert_eq!(test_pattern(&p, "  "), "❌ Enter a file path to test");
    assert_eq!(test_pattern(&p, "src/main.rs"), "✅ 'src/main.rs' would NOT be ignored");
    assert_eq!(test_pattern(&p, " a/x.tmp "), "🚫 'a/x.tmp' would be ignored by: .*\\.tmp$");
    assert_eq!(test_pattern(&p, "node_modules/.git/x.swp"), "🚫 'node_modules/.git/x.swp' would be ignored by: .*\\.swp$, .git, node_modules");
    let bad = vec!["(".to_string(), "x".to_string()];
    assert_eq!(test_pattern(&bad, "x"), "🚫 'x' would be ignored by: x");
}

#[test]
fn monitoring_events() {
    let (e, n) = files_synced_event("10:00:00".to_string(), 3);
    assert_eq!((e.event_type.as_str(), e.details.as_str()), ("file_synced", "3 file(s) synchronized"));
    assert_eq!((n.title.as_str(), n.message.as_str(), n.kind.as_str()), ("📄 Files Synchronized", "3 file(s) successfully synchronized", "success"));
    let (status, e, n) = backup_created_event("t".to_string(), "bk-1");
    assert_eq!(status, "✅ bk-1");
    assert_eq!(e.details, "Automatic backup created successfully");
    assert_eq!(n.message, "Backup 'bk-1' created successfully and encrypted");
    let (e, n) = backup_failed_event("t".to_string());
    assert_eq!((e.event_type.as_str(), n.kind.as_str()), ("error", "error"));
    let (e, n) = sync_failed_event("t".to_string(), "io");
    assert_eq!(e.details, "Synchronization error: io");
    assert_eq!(n.message, "Synchronization failed: io");
    assert_eq!(initial_sync_failure(Some("x")), "❌ Initial sync error: x");
    assert_eq!(initial_sync_failure(None), "❌ Timeout exceeded (30s) - folder with too many files?");
}

#[test]
fn diagnostics_run_reports_five_checks() {
    let checks = rs_shield::diagnostics::run_diagnostics();
    assert_eq!(checks.len(), 5);
    assert_eq!(checks[3].category, "FIDO2");
    assert_eq!(checks[3].status, DiagnosticStatus::Warning);
    assert_eq!(count_with_status(&checks, DiagnosticStatus::Healthy), 4);
    assert_eq!(checks[4].details, Some("Time: 2 hours ago | 1,234 files | 12 GB".to_string()));
}
