use rs_shield::retention::{calculate_retention_backups, determine_keep_count, retention_fits};

#[test]
fn retention_presets() {
    assert_eq!(calculate_retention_backups("7d"), 7);
    assert_eq!(calculate_retention_backups("14d"), 14);
    assert_eq!(calculate_retention_backups("30d"), 30);
    assert_eq!(calculate_retention_backups("60d"), 60);
    assert_eq!(calculate_retention_backups("90d"), 90);
    assert_eq!(calculate_retention_backups("6m"), 26);
    assert_eq!(calculate_retention_backups("1y"), 52);
    assert_eq!(calculate_retention_backups("2y"), 104);
    assert_eq!(calculate_retention_backups("3y"), 156);
    assert_eq!(calculate_retention_backups("5y"), 260);
}

#[test]
fn retention_custom_patterns() {
    assert_eq!(calculate_retention_backups("45d"), 45);
    assert_eq!(calculate_retention_backups("+45d"), 45);
    assert_eq!(calculate_retention_backups("12m"), 51);
    assert_eq!(calculate_retention_backups("0m"), 1);
    assert_eq!(calculate_retention_backups("4y"), 208);
    assert_eq!(calculate_retention_backups("0d"), 0);
}

#[test]
fn retention_unknown_patterns_keep_ten() {
    assert_eq!(calculate_retention_backups(""), 10);
    assert_eq!(calculate_retention_backups("d"), 10);
    assert_eq!(calculate_retention_backups("-3d"), 10);
    assert_eq!(calculate_retention_backups("3w"), 10);
    assert_eq!(calculate_retention_backups("forever"), 10);
}

#[test]
fn keep_count_choices() {
    assert_eq!(determine_keep_count(Some(3), Some("1y")), 3);
    assert_eq!(determine_keep_count(None, Some("15")), 15);
    assert_eq!(determine_keep_count(None, Some("30d")), 30);
    assert_eq!(determine_keep_count(None, Some("huh")), 10);
    assert_eq!(determine_keep_count(None, None), 10);
}

#[test]
fn retention_counts_that_fit() {
    assert!(retention_fits("30d"));
    assert!(retention_fits("6m"));
    assert!(retention_fits("12m"));
    assert!(retention_fits("5y"));
    assert!(retention_fits("weekly"));
    assert!(retention_fits("10"));
    let huge_months = format!("{}m", usize::MAX / 30 + 1);
    assert!(!retention_fits(&huge_months));
    let huge_years = format!("{}y", usize::MAX / 52 + 1);
    assert!(!retention_fits(&huge_years));
    let largest_months = format!("{}m", usize::MAX / 30);
    assert!(retention_fits(&largest_months));
}

#[test]
fn plain_number_policies_keep_that_many() {
    assert_eq!(calculate_retention_backups("15"), 15);
    assert_eq!(calculate_retention_backups("+7"), 7);
    assert_eq!(calculate_retention_backups("0"), 0);
    assert_eq!(calculate_retention_backups("365"), 365);
    assert_eq!(calculate_retention_backups("1 5"), 10);
}
