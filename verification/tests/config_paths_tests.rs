use rs_shield::config_paths::{
    backup_location, config_read_message, destination_from_config, resolve_config_or_backup,
    BackupLocation, ConfigReadError, DirEntryInfo,
};

fn entry(path: &str, is_file: bool) -> DirEntryInfo {
    let name = path.rsplit('/').next().unwrap().to_string();
    DirEntryInfo { path: path.to_string(), is_file, file_name: Some(name) }
}

#[test]
fn backup_option_wins() {
    let none: Vec<DirEntryInfo> = vec![];
    assert_eq!(resolve_config_or_backup(Some("c.toml"), true, Some("/bk"), true, &none), Ok(("/bk".to_string(), true)));
    assert_eq!(
        resolve_config_or_backup(None, false, Some("/bk"), false, &none),
        Err("❌ Error: Backup path not found: /bk".to_string())
    );
    assert_eq!(resolve_config_or_backup(Some("c.toml"), true, None, false, &none), Ok(("c.toml".to_string(), false)));
    assert_eq!(
        resolve_config_or_backup(Some("c.toml"), false, None, false, &none),
        Err("❌ Error: Configuration file not found: c.toml".to_string())
    );
}

#[test]
fn profile_is_discovered() {
    let one = vec![entry("./a.txt", true), entry("./p.toml", true), entry("./d.toml", false)];
    assert_eq!(resolve_config_or_backup(None, false, None, false, &one), Ok(("./p.toml".to_string(), false)));
    let two = vec![entry("./p.toml", true), entry("./q.toml", true)];
    assert_eq!(
        resolve_config_or_backup(None, false, None, false, &two),
        Err("❌ Error: Multiple .toml files found in current directory. Please specify --config".to_string())
    );
    let err = resolve_config_or_backup(None, false, None, false, &vec![]).unwrap_err();
    assert!(err.starts_with("❌ Error: Either --config or --backup is required"));
    assert!(err.ends_with("• rsb backup --config my-backup.toml"));
}

#[test]
fn destination_is_read_from_the_profile() {
    assert_eq!(destination_from_config("destination_path = \"/mnt/b\"\n").ok(), Some("/mnt/b".to_string()));
    assert_eq!(destination_from_config("destination = \"/mnt/c\"\n").ok(), Some("/mnt/c".to_string()));
    assert!(matches!(destination_from_config("destination_path = 3\ndestination = \"/x\""), Err(ConfigReadError::NoDestination)));
    assert!(matches!(destination_from_config("source_path = \"/s\""), Err(ConfigReadError::NoDestination)));
    let bad = destination_from_config("= broken").unwrap_err();
    assert!(matches!(bad, ConfigReadError::Unparsable(_)));
    assert!(config_read_message(&bad, true).starts_with("Failed to parse config.toml: "));
    assert_eq!(config_read_message(&bad, false), "Failed to parse config.toml");
    assert_eq!(
        config_read_message(&ConfigReadError::NoDestination, true),
        "'destination_path' not found in config.toml"
    );
}

#[test]
fn snapshot_commands_find_the_backup() {
    let entries = vec!["./notes.txt".to_string(), "./.toml".to_string(), "./b.toml".to_string(), "./c.toml".to_string()];
    assert!(matches!(backup_location(None, Some("/bk"), &entries), BackupLocation::Folder(f) if f == "/bk"));
    assert!(matches!(backup_location(Some("x.toml"), None, &entries), BackupLocation::Profile(p) if p == "x.toml"));
    assert!(matches!(backup_location(None, None, &entries), BackupLocation::Profile(p) if p == "./b.toml"));
    assert!(matches!(backup_location(None, None, &vec!["a".to_string()]), BackupLocation::NotFound));
}
