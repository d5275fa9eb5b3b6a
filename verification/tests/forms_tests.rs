use rs_shield::operation_forms::{
    backup_request, fill_placeholder, new_profile, prune_request, restore_request, verify_config,
    BackupForm, FormError, NewProfileError, NewProfileForm, RestoreForm, S3Form,
};
use rs_shield::profile_loader::{join_lines, Config, ProfileData};
use rs_shield::text_lines::{non_empty, pattern_lines, trim_text};

fn s3(bucket: &str) -> S3Form {
    S3Form {
        bucket: bucket.to_string(),
        region: "eu-west-1".to_string(),
        endpoint: String::new(),
        access_key: "AK".to_string(),
        secret_key: String::new(),
    }
}

fn backup_form(source: &str, dest: &str, bucket: &str) -> BackupForm {
    BackupForm {
        source_path: source.to_string(),
        destination_path: dest.to_string(),
        key: String::new(),
        exclude_patterns: "  *.tmp \n\n node_modules\r\n".to_string(),
        encrypt_patterns: "*.key".to_string(),
        backup_mode: "full".to_string(),
        pause_on_low_battery: "20".to_string(),
        pause_on_high_cpu: "abc".to_string(),
        compression_level: "300".to_string(),
        s3: s3(bucket),
    }
}

#[test]
fn pattern_lines_trim_and_drop_empty() {
    assert_eq!(pattern_lines("  *.tmp \n\n node_modules\r\n"), vec!["*.tmp", "node_modules"]);
    assert_eq!(pattern_lines(""), Vec::<String>::new());
    assert_eq!(pattern_lines("a\n\t\nb"), vec!["a", "b"]);
    assert_eq!(trim_text("\u{3000} x y \n"), "x y");
    assert_eq!(non_empty(""), None);
    assert_eq!(non_empty("a"), Some("a".to_string()));
}

#[test]
fn backup_form_becomes_config() {
    let req = backup_request(&backup_form("/src", "/dst", "")).ok().unwrap();
    let c = req.config;
    assert_eq!(c.source_path, "/src");
    assert_eq!(c.destination_path, "/dst");
    assert_eq!(c.exclude_patterns, vec!["*.tmp", "node_modules"]);
    assert_eq!(c.encrypt_patterns, Some(vec!["*.key".to_string()]));
    assert_eq!(c.backup_mode, "full");
    assert_eq!(c.pause_on_low_battery, Some(20));
    assert_eq!(c.pause_on_high_cpu, None);
    assert_eq!(c.compression_level, None);
    assert_eq!(c.encryption_key, None);
    assert!(c.s3.is_none() && c.s3_bucket.is_none());
    assert_eq!(c.s3_region, Some("eu-west-1".to_string()));
    assert_eq!(req.key, None);
}

#[test]
fn backup_form_with_bucket_has_s3_section() {
    let mut form = backup_form("/src", "", "bk");
    form.key = "secret".to_string();
    let req = backup_request(&form).ok().unwrap();
    let s = req.config.s3.unwrap();
    assert_eq!(s.bucket, Some("bk".to_string()));
    assert_eq!(s.endpoint, None);
    assert_eq!(s.access_key, Some("AK".to_string()));
    assert_eq!(s.secret_key, None);
    assert_eq!(req.key, Some("secret".to_string()));
}

#[test]
fn backup_form_needs_paths() {
    assert_eq!(backup_request(&backup_form("", "/dst", "")).err(), Some(FormError::MissingPaths));
    assert_eq!(backup_request(&backup_form("/src", "", "")).err(), Some(FormError::MissingPaths));
}

#[test]
fn verify_form() {
    let c = verify_config("/bkp", "k", &s3("")).ok().unwrap();
    assert_eq!(c.source_path, "dummy");
    assert_eq!(c.destination_path, "/bkp");
    assert_eq!(c.encryption_key, Some("k".to_string()));
    assert_eq!(c.backup_mode, "incremental");
    assert_eq!(c.compression_level, Some(3));
    assert_eq!(verify_config("", "", &s3("")).err(), Some(FormError::MissingBackupLocation));
    assert!(verify_config("", "", &s3("b")).is_ok());
}

#[test]
fn restore_form() {
    let form = RestoreForm {
        backup_path: "/bkp".to_string(),
        restore_to: String::new(),
        snapshot_id: String::new(),
        key: String::new(),
        exclude_patterns: "x".to_string(),
        backup_mode: "incremental".to_string(),
        s3: s3(""),
    };
    assert_eq!(restore_request(&form).err(), Some(FormError::MissingRestoreTarget));
    let form2 = RestoreForm { restore_to: "/out".to_string(), backup_path: String::new(), ..form };
    assert_eq!(restore_request(&form2).err(), Some(FormError::MissingBackupLocation));
    let form3 = RestoreForm { backup_path: "/bkp".to_string(), snapshot_id: "s1".to_string(), ..form2 };
    let req = restore_request(&form3).ok().unwrap();
    assert_eq!(req.snapshot, Some("s1".to_string()));
    assert_eq!(req.target, "/out");
    assert_eq!(req.config.exclude_patterns, vec!["x"]);
    assert_eq!(req.config.encryption_key, None);
}

#[test]
fn prune_form() {
    let req = prune_request("/repo", "12", "", &s3("")).ok().unwrap();
    assert_eq!(req.retention_days, 12);
    assert_eq!(req.config.source_path, "");
    assert_eq!(req.config.compression_level, None);
    assert_eq!(prune_request("/repo", "x", "", &s3("")).ok().unwrap().retention_days, 30);
    assert_eq!(prune_request("", "1", "", &s3("")).err(), Some(FormError::MissingPaths));
}

#[test]
fn create_profile_form() {
    let form = NewProfileForm {
        name: "docs".to_string(),
        source_path: "/home/a".to_string(),
        destination_path: "/mnt/b".to_string(),
        exclude_patterns: "*.tmp\nnode_modules\n.git".to_string(),
        use_s3: true,
        s3: S3Form {
            bucket: "bk".to_string(),
            region: String::new(),
            endpoint: "http://minio".to_string(),
            access_key: "A".to_string(),
            secret_key: "S".to_string(),
        },
    };
    let p = new_profile(&form).ok().unwrap();
    assert_eq!(p.file_name, "docs.toml");
    assert!(p.save_credentials);
    assert_eq!(p.config.exclude_patterns, vec!["*.tmp", "node_modules", ".git"]);
    assert_eq!(p.config.pause_on_low_battery, Some(20));
    assert_eq!(p.config.pause_on_high_cpu, Some(20));
    assert_eq!(p.config.compression_level, Some(3));
    let s = p.config.s3.unwrap();
    assert_eq!(s.region, None);
    assert_eq!(s.endpoint, Some("http://minio".to_string()));
    assert_eq!(s.access_key, None);
    let no_name = NewProfileForm { name: String::new(), ..new_form() };
    assert_eq!(new_profile(&no_name).err(), Some(NewProfileError::NameRequired));
    let no_src = NewProfileForm { source_path: String::new(), ..new_form() };
    assert_eq!(new_profile(&no_src).err(), Some(NewProfileError::SourceRequired));
    let no_dst = NewProfileForm { destination_path: String::new(), ..new_form() };
    assert_eq!(new_profile(&no_dst).err(), Some(NewProfileError::DestinationRequired));
    let no_s3 = new_profile(&new_form()).ok().unwrap();
    assert!(no_s3.config.s3.is_none());
    assert!(!no_s3.save_credentials);
}

fn new_form() -> NewProfileForm {
    NewProfileForm {
        name: "n".to_string(),
        source_path: "/s".to_string(),
        destination_path: "/d".to_string(),
        exclude_patterns: String::new(),
        use_s3: false,
        s3: s3(""),
    }
}

#[test]
fn placeholder_is_filled() {
    assert_eq!(fill_placeholder("Perfil '{0}' criado", "docs"), "Perfil 'docs' criado");
    assert_eq!(fill_placeholder("{0}-{0}", "x"), "x-x");
    assert_eq!(fill_placeholder("none", "x"), "none");
}

#[test]
fn loaded_profile_runs_with_its_settings() {
    let cfg = Config {
        source_path: "/s".to_string(),
        destination_path: "/d".to_string(),
        exclude_patterns: vec!["*.tmp".to_string(), "node_modules".to_string()],
        encryption_key: None,
        backup_mode: "incremental".to_string(),
        s3_bucket: None,
        s3_region: None,
        s3_endpoint: None,
        s3: None,
        encrypt_patterns: Some(vec!["*.pem".to_string()]),
        pause_on_low_battery: Some(15),
        pause_on_high_cpu: None,
        compression_level: Some(9),
    };
    let data = ProfileData::from(cfg);
    let form = BackupForm {
        source_path: data.source_path.clone(),
        destination_path: data.destination_path.clone(),
        key: data.encryption_key.clone(),
        exclude_patterns: data.exclude_patterns.clone(),
        encrypt_patterns: data.encrypt_patterns.clone(),
        backup_mode: data.backup_mode.clone(),
        pause_on_low_battery: data.pause_on_low_battery.clone(),
        pause_on_high_cpu: data.pause_on_high_cpu.clone(),
        compression_level: data.compression_level.clone(),
        s3: s3(""),
    };
    let c = backup_request(&form).ok().unwrap().config;
    assert_eq!(c.exclude_patterns, vec!["*.tmp", "node_modules"]);
    assert_eq!(c.encrypt_patterns, Some(vec!["*.pem".to_string()]));
    assert_eq!(c.pause_on_low_battery, Some(15));
    assert_eq!(c.pause_on_high_cpu, None);
    assert_eq!(c.compression_level, Some(9));
    assert_eq!(pattern_lines(&join_lines(&vec!["a".to_string(), "b c".to_string()])), vec!["a", "b c"]);
}
