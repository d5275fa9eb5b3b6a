use rs_shield::operations_helpers::{
    record_backup_operation, record_prune_operation, record_restore_operation,
    record_schedule_operation, record_verify_operation,
};

#[test]
fn backup_record() {
    let r = record_backup_operation("success".into(), 12, 30, "1.5 MB".into(), "/s".into(), "/d".into());
    assert_eq!(r.operation_type, "Backup");
    assert_eq!(r.status, "success");
    assert_eq!((r.files_processed, r.files_skipped, r.files_with_errors, r.duration_secs), (12, 0, 0, 30));
    assert_eq!(r.size_info, "1.5 MB");
    assert_eq!(r.source.as_deref(), Some("/s"));
    assert_eq!(r.destination.as_deref(), Some("/d"));
}

#[test]
fn restore_and_verify_records() {
    let r = record_restore_operation("ok".into(), 3, 4, "/b".into(), "/t".into());
    assert_eq!((r.operation_type.as_str(), r.size_info.as_str()), ("Restore", "N/A"));
    assert_eq!(r.destination.as_deref(), Some("/t"));
    let v = record_verify_operation("failed".into(), 10, 2, 5, "/b".into());
    assert_eq!(v.operation_type, "Verify");
    assert_eq!((v.files_processed, v.files_with_errors), (10, 2));
    assert_eq!(v.source.as_deref(), Some("/b"));
    assert_eq!(v.destination, None);
}

#[test]
fn prune_record_tells_space_freed() {
    let r = record_prune_operation("success".into(), 4, 9, "200 MB".into(), "/b".into());
    assert_eq!(r.operation_type, "Prune");
    assert_eq!(r.files_processed, 4);
    assert_eq!(r.size_info, "Liberado: 200 MB");
}

#[test]
fn schedule_records() {
    let ok = record_schedule_operation(true, None, None);
    assert_eq!((ok.status.as_str(), ok.files_with_errors, ok.duration_secs), ("success", 0, 0));
    let failed = record_schedule_operation(false, Some("no \"cron\"".into()), Some(2));
    assert_eq!(failed.status, "failed: Some(\"no \\\"cron\\\"\")");
    assert_eq!((failed.files_with_errors, failed.duration_secs), (1, 2));
    let failed = record_schedule_operation(false, None, None);
    assert_eq!(failed.status, "failed: None");
    assert_eq!(failed.files_with_errors, 0);
    let plain = record_schedule_operation(false, Some("crontab missing".into()), None);
    assert_eq!(plain.status, "failed: Some(\"crontab missing\")");
}
