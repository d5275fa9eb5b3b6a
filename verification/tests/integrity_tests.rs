use rs_shield::backup_integrity::{assess_integrity, count_encrypted, integrity_status_line};

fn files(v: &[&str]) -> Vec<String> {
    v.iter().map(|s| s.to_string()).collect()
}

#[test]
fn valid_backup_report() {
    let data = files(&["/b/data/a.enc", "/b/data/plain", "/b/data/x"]);
    let st = assess_integrity("/b", true, true, 2, &data);
    assert!(st.is_valid);
    assert_eq!(st.encrypted_files_count, 1);
    assert_eq!(st.data_files_count, 2);
    assert!(st.issues.is_empty() && st.suggestions.is_empty());
    assert_eq!(
        st.status,
        "✅ Integrity Report\n📁 /b\nSnapshots: 2\nNormal Files: 2\nEncrypted Files: 1\n✅ Your backup is ready to be restored on another computer!"
    );
    assert_eq!(integrity_status_line(true), "✅ Verification completed successfully!");
}

#[test]
fn missing_directories_and_snapshots() {
    let st = assess_integrity("/b", false, false, 0, &files(&["/b/data/enc1"]));
    assert!(!st.is_valid);
    assert_eq!(st.status, "❌ Backup is invalid or incomplete");
    assert_eq!(st.data_files_count, 0);
    assert_eq!(st.encrypted_files_count, 0);
    assert_eq!(
        st.issues,
        vec!["❌ 'snapshots/' directory not found", "❌ 'data/' directory not found", "⚠️ No snapshots found"]
    );
    assert_eq!(
        st.suggestions,
        vec![
            "Verify that the entire folder was copied",
            "Re-copy the complete backup from the original computer",
            "The backup may be corrupted or incomplete"
        ]
    );
    assert_eq!(integrity_status_line(false), "❌ Verification completed with issues");
}

#[test]
fn no_snapshots_is_invalid() {
    let st = assess_integrity("/b", true, true, 0, &files(&[]));
    assert!(!st.is_valid);
    assert_eq!(st.issues, vec!["⚠️ No snapshots found"]);
    assert_eq!(count_encrypted(&files(&["a.enc", "b.encrypted", "c", "/enc/d"])), 3);
}
