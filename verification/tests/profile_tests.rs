use rs_shield::app_preferences::{
    language_from_choice, theme_from_choice, uses_dark_mode, AppPreferences, Language, Theme,
};
use rs_shield::profile_loader::{
    env_template, expand_home, join_lines, render_template, Config, EnvPiece, ProfileData,
    S3Config,
};

fn expand(path: &str, env: &[(&str, &str)]) -> String {
    let pieces = env_template(path);
    let values: Vec<Option<String>> = pieces
        .iter()
        .map(|p| match p {
            EnvPiece::Braced(n) | EnvPiece::Plain(n) => env
                .iter()
                .find(|(k, _)| k == n)
                .map(|(_, v)| v.to_string()),
            EnvPiece::Literal(_) => None,
        })
        .collect();
    render_template(&pieces, &values)
}

#[test]
fn env_variables_are_expanded() {
    let env = [("HOME", "/home/ana"), ("DIR", "docs")];
    assert_eq!(expand("$HOME/backup", &env), "/home/ana/backup");
    assert_eq!(expand("${HOME}/x/${DIR}", &env), "/home/ana/x/docs");
    assert_eq!(expand("$DIR_2/a", &env), "$DIR_2/a");
    assert_eq!(expand("${NOPE}/a", &env), "${NOPE}/a");
    assert_eq!(expand("cost: $5", &env), "cost: $5");
    assert_eq!(expand("a$/b", &env), "a$/b");
    assert_eq!(expand("end$", &env), "end$");
    assert_eq!(expand("${HOME", &env), "/home/ana");
    assert_eq!(expand("${UNSET", &env), "${UNSET}");
    assert_eq!(expand("/plain/path", &env), "/plain/path");
}

#[test]
fn home_is_expanded() {
    assert_eq!(expand_home("~/data", Some("/home/ana")), "/home/ana/data");
    assert_eq!(expand_home("~", Some("/h")), "/h");
    assert_eq!(expand_home("/x/~", Some("/h")), "/x/~");
    assert_eq!(expand_home("~/data", None), "~/data");
}

#[test]
fn lines_are_joined() {
    assert_eq!(join_lines(&vec![]), "");
    assert_eq!(join_lines(&vec!["a".to_string()]), "a");
    assert_eq!(join_lines(&vec!["a".to_string(), "b".to_string(), "".to_string()]), "a\nb\n");
}

fn config() -> Config {
    Config {
        source_path: "/src".to_string(),
        destination_path: "/dst".to_string(),
        exclude_patterns: vec!["*.tmp".to_string(), ".git".to_string()],
        encryption_key: None,
        backup_mode: "full".to_string(),
        s3_bucket: Some("top-bucket".to_string()),
        s3_region: Some("eu".to_string()),
        s3_endpoint: None,
        s3: Some(S3Config {
            bucket: Some("inner-bucket".to_string()),
            region: None,
            endpoint: None,
            access_key: Some("AK".to_string()),
            secret_key: None,
        }),
        encrypt_patterns: Some(vec!["*.pdf".to_string()]),
        pause_on_low_battery: Some(20),
        pause_on_high_cpu: None,
        compression_level: Some(3),
    }
}

#[test]
fn profile_data_from_config() {
    let d = ProfileData::from(config());
    assert_eq!(d.source_path, "/src");
    assert_eq!(d.destination_path, "/dst");
    assert_eq!(d.exclude_patterns, "*.tmp\n.git");
    assert_eq!(d.encryption_key, "");
    assert_eq!(d.backup_mode, "full");
    assert_eq!(d.s3_bucket, "inner-bucket");
    assert_eq!(d.s3_region, "eu");
    assert_eq!(d.s3_endpoint, "");
    assert_eq!(d.s3_access_key, "AK");
    assert_eq!(d.s3_secret_key, "");
    assert_eq!(d.encrypt_patterns, "*.pdf");
    assert_eq!(d.pause_on_low_battery, "20");
    assert_eq!(d.pause_on_high_cpu, "");
    assert_eq!(d.compression_level, "3");
}

#[test]
fn profile_data_without_s3_section() {
    let mut c = config();
    c.s3 = None;
    c.encrypt_patterns = None;
    let d = ProfileData::from(c);
    assert_eq!(d.s3_bucket, "top-bucket");
    assert_eq!(d.s3_access_key, "");
    assert_eq!(d.encrypt_patterns, "");
}

#[test]
fn preferences_defaults_and_form() {
    let p = AppPreferences::defaults(&vec!["node_modules".to_string(), "*.tmp".to_string()]);
    assert_eq!(p.language, Language::Pt);
    assert_eq!(p.theme, Theme::System);
    assert_eq!(p.exclude_patterns, "node_modules\n*.tmp");
    assert_eq!(p.encrypt_patterns, "*.pdf\n*.docx\nprivate/");
    assert_eq!(p.backup_mode, "incremental");
    assert_eq!((p.pause_on_low_battery, p.pause_on_high_cpu, p.compression_level), (20, 90, 3));
    let q = AppPreferences::from_settings(
        Language::En,
        Theme::Dark,
        "x".to_string(),
        "y".to_string(),
        "full".to_string(),
        "15",
        "300",
        "+7",
    );
    assert_eq!((q.pause_on_low_battery, q.pause_on_high_cpu, q.compression_level), (15, 90, 7));
    let q = AppPreferences::from_settings(
        Language::Pt, Theme::Light, String::new(), String::new(), String::new(), "", "abc", "255",
    );
    assert_eq!((q.pause_on_low_battery, q.pause_on_high_cpu, q.compression_level), (20, 90, 255));
}

#[test]
fn settings_choices() {
    assert_eq!(language_from_choice("en"), Language::En);
    assert_eq!(language_from_choice("pt"), Language::Pt);
    assert_eq!(language_from_choice("EN"), Language::Pt);
    assert_eq!(theme_from_choice("light"), Theme::Light);
    assert_eq!(theme_from_choice("dark"), Theme::Dark);
    assert_eq!(theme_from_choice("system"), Theme::System);
    assert_eq!(theme_from_choice(""), Theme::System);
    assert!(uses_dark_mode(Theme::Dark, false));
    assert!(!uses_dark_mode(Theme::Light, true));
    assert!(uses_dark_mode(Theme::System, true));
    assert!(!uses_dark_mode(Theme::System, false));
}
