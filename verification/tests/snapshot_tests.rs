use rs_shield::snapshot_cmd::{
    checked_total_size, diff_manifests, manifest_total_size, truncate, FileEntry,
};

fn entry(path: &str, hash: &str, size: Option<u64>) -> FileEntry {
    FileEntry { path: path.to_string(), hash: hash.to_string(), stored_size: size }
}

#[test]
fn truncate_short_and_long() {
    assert_eq!(truncate("snapshot-1", 24), "snapshot-1");
    assert_eq!(truncate("abcdef", 6), "abcdef");
    assert_eq!(truncate("abcdefg", 6), "abcdef…");
    assert_eq!(truncate("", 0), "");
}

#[test]
fn truncate_counts_bytes() {
    // "é" takes two bytes: "aé" is three bytes long.
    assert_eq!(truncate("aéb", 3), "aé…");
    assert_eq!(truncate("aé", 3), "aé");
}

#[test]
fn diff_finds_changes() {
    let from = vec![entry("a", "1", Some(10)), entry("b", "2", Some(20)), entry("c", "3", None)];
    let to = vec![entry("a", "1", Some(10)), entry("b", "9", Some(25)), entry("d", "4", Some(5))];
    let d = diff_manifests(&from, &to);
    assert_eq!(d.added, vec![("d".to_string(), 5)]);
    assert_eq!(d.removed, vec![("c".to_string(), 0)]);
    assert_eq!(d.modified, vec![("b".to_string(), 20, 25)]);
}

#[test]
fn diff_of_same_snapshot_is_empty() {
    let m = vec![entry("a", "1", Some(10)), entry("b", "2", None)];
    let d = diff_manifests(&m, &m);
    assert!(d.added.is_empty() && d.removed.is_empty() && d.modified.is_empty());
}

#[test]
fn diff_reversed_swaps_added_and_removed() {
    let a = vec![entry("x", "1", Some(1))];
    let b = vec![entry("y", "2", Some(2))];
    assert_eq!(diff_manifests(&a, &b).added, diff_manifests(&b, &a).removed);
    assert_eq!(diff_manifests(&a, &b).removed, diff_manifests(&b, &a).added);
}

#[test]
fn total_sizes() {
    assert_eq!(manifest_total_size(&vec![]), 0);
    let m = vec![entry("a", "1", Some(10)), entry("b", "2", None), entry("c", "3", Some(5))];
    assert_eq!(manifest_total_size(&m), 15);
}

#[test]
fn checked_total_size_sums_or_refuses() {
    let m = vec![entry("a", "1", Some(10)), entry("b", "2", None), entry("c", "3", Some(5))];
    assert_eq!(checked_total_size(&m), Some(15));
    assert_eq!(checked_total_size(&Vec::new()), Some(0));
    let big = vec![entry("a", "1", Some(u64::MAX)), entry("b", "2", Some(1))];
    assert_eq!(checked_total_size(&big), None);
    let exact = vec![entry("a", "1", Some(u64::MAX - 1)), entry("b", "2", Some(1))];
    assert_eq!(checked_total_size(&exact), Some(u64::MAX));
}
