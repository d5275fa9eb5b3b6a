use rs_shield::cli_commands::{
    backup_run_options, check_export_format, chooses_s3, desktop_schedule_command,
    encryption_password, healthcheck_target, password_file_content, prune_announcement,
    recovery_code_line, recovery_codes_document, restore_target, s3_settings_entries,
    s3_settings_file, s3_summary_lines, schedule_lines, server_token_check, should_copy,
    snapshot_manifest_path, stored_token, verify_mode, Fido2Command, WatchTotals,
};

#[test]
fn storage_path_choice() {
    let with = Fido2Command::List { storage: Some("/tmp/c.json".to_string()) };
    assert_eq!(with.get_storage_path(Some("/home/a/.rs-shield/x.json".to_string())), "/tmp/c.json");
    let without = Fido2Command::Delete { user_id: "u".to_string(), storage: None };
    assert_eq!(without.get_storage_path(Some("/d.json".to_string())), "/d.json");
    assert_eq!(without.get_storage_path(None), ".rs-shield/fido2_credentials.json");
}

#[test]
fn recovery_codes() {
    assert_eq!(check_export_format("text"), Ok(()));
    assert_eq!(check_export_format("json"), Ok(()));
    assert_eq!(check_export_format("xml"), Err("❌ Invalid format. Use 'text' or 'json'".to_string()));
    assert_eq!(recovery_code_line(1, "AAAA-BBBB"), " 1. AAAA-BBBB");
    assert_eq!(recovery_code_line(10, "C"), "10. C");
    assert_eq!(recovery_code_line(3, "x"), format!("{:2}. {}", 3, "x"));
    let codes = vec!["A1".to_string(), "B2".to_string()];
    assert_eq!(
        recovery_codes_document("ana", "2024-01-02 03:04:05", &codes),
        "RS Shield - Recovery Codes\nUser: ana\nGenerated: 2024-01-02 03:04:05\n════════════════════════════════════════\n\nA1\nB2"
    );
}

#[test]
fn config_command_pieces() {
    assert_eq!(password_file_content("pw", "pw"), Ok("hashed:pw".to_string()));
    assert_eq!(password_file_content("pw", "px"), Err("❌ Passwords do not match".to_string()));
    let entries = s3_settings_entries(&"bk".to_string(), &"us-east-1".to_string(), &None, &Some("AK".to_string()), &None);
    assert_eq!(
        entries,
        vec![("bucket".to_string(), "bk".to_string()), ("region".to_string(), "us-east-1".to_string()), ("access_key".to_string(), "AK".to_string())]
    );
    let text = s3_settings_file(&"bk".to_string(), &"us-east-1".to_string(), &None, &Some("AK".to_string()), &None);
    let table: toml::Table = toml::from_str(&text).unwrap();
    assert_eq!(table.get("access_key").and_then(|v| v.as_str()), Some("AK"));
    assert_eq!(table.get("bucket").and_then(|v| v.as_str()), Some("bk"));
    assert_eq!(table.len(), 3);
    assert_eq!(
        s3_summary_lines(&text),
        Some(vec!["\n📦 S3 Configuration:".to_string(), "   Bucket: bk".to_string(), "   Region: us-east-1".to_string()])
    );
    assert_eq!(s3_summary_lines("= nope"), None);
}

#[test]
fn token_checks() {
    assert_eq!(stored_token("  abc.def \n"), Ok("abc.def".to_string()));
    assert_eq!(stored_token(" \n"), Err("❌ Invalid authentication token".to_string()));
    assert_eq!(server_token_check(Some(200), "t".to_string()), Ok("t".to_string()));
    assert_eq!(
        server_token_check(Some(401), "t".to_string()),
        Err("❌ Session revoked or expired on server. Please login again.".to_string())
    );
    assert_eq!(server_token_check(None, "t".to_string()), Ok("t".to_string()));
}

#[test]
fn backup_options() {
    assert!(chooses_s3(" 1\n"));
    assert!(!chooses_s3("2"));
    let o = backup_run_options(None, false, true, None, Some(8), true, true);
    assert_eq!(o.mode, "incremental");
    assert!(o.resume);
    assert_eq!(o.compression_override, Some(0));
    assert_eq!(o.threads, Some(8));
    assert!(o.announce_threads);
    assert!(!o.verify_after);
    let p = backup_run_options(Some("full"), true, false, Some(4), Some(8), true, false);
    assert_eq!((p.mode.as_str(), p.resume, p.compression_override, p.threads, p.announce_threads, p.verify_after), ("full", false, None, Some(4), false, true));
}

#[test]
fn restore_verify_prune_schedule() {
    assert_eq!(restore_target(None, "/home/a"), "/home/a_restored");
    assert_eq!(restore_target(Some("/t"), "/home/a"), "/t");
    assert_eq!(verify_mode(true, true), (true, Some("Using quick verification (--quick takes precedence)".to_string())));
    assert_eq!(verify_mode(false, true).1, Some("Using fast verification mode (hash only, no decryption)".to_string()));
    assert_eq!(verify_mode(false, false), (false, None));
    assert_eq!(prune_announcement(10, true), "DRY RUN MODE: Would keep last 10 backups");
    assert_eq!(prune_announcement(7, false), "🧹 Keeping last 7 backups...");
    assert_eq!(
        schedule_lines("cron", "/usr/bin/rsb", "/p/a.toml"),
        vec![
            "# Add this line to your crontab (crontab -e):".to_string(),
            "0 3 * * * \"/usr/bin/rsb\" backup \"/p/a.toml\" --key \"YOUR_PASSWORD\"".to_string()
        ]
    );
    assert_eq!(schedule_lines("systemd", "e", "c")[1], "[Service]\nType=oneshot\nExecStart=\"e\" backup \"c\" --key \"YOUR_PASSWORD\"");
    assert_eq!(schedule_lines("launchd", "e", "c"), vec!["Unknown format. Use 'cron' or 'systemd'.".to_string()]);
    assert_eq!(desktop_schedule_command("cron", "/bin/rsb-cli", "/p/a.toml", ""), "0 3 * * * /bin/rsb-cli backup /p/a.toml");
    assert_eq!(
        desktop_schedule_command("systemd", "rsb-cli", "a.toml", "k1"),
        "[Service]\nType=oneshot\nExecStart=rsb-cli backup a.toml --key \"k1\""
    );
    assert_eq!(snapshot_manifest_path("2024-01-01"), "snapshots/2024-01-01.toml");
}

#[test]
fn watch_and_healthchecks() {
    assert_eq!(healthcheck_target(&Some("https://hc.io/x".to_string()), "/start"), Some("https://hc.io/x/start".to_string()));
    assert_eq!(healthcheck_target(&None, "/fail"), None);
    assert!(should_copy(false, Some(1), Some(5)));
    assert!(should_copy(true, Some(6), Some(5)));
    assert!(!should_copy(true, Some(5), Some(5)));
    assert!(!should_copy(true, None, Some(5)));
    let mut w = WatchTotals::new();
    w.record(3, true);
    w.record(0, true);
    w.record(2, false);
    assert_eq!((w.total_changes, w.backups), (5, 1));
    assert_eq!(w.summary(), "📊 Total: 5 changes detected, 1 backups created");
}

#[test]
fn new_profile_password() {
    assert_eq!(encryption_password(false, Some("x".to_string()), None), Ok(None));
    assert_eq!(encryption_password(true, Some("x".to_string()), None), Ok(Some("x".to_string())));
    assert_eq!(encryption_password(true, None, Some(("a".to_string(), "a".to_string()))), Ok(Some("a".to_string())));
    assert_eq!(encryption_password(true, None, Some(("a".to_string(), "b".to_string()))), Err("Passwords do not match".to_string()));
}
