use rs_shield::auth::middleware::security_headers;
use rs_shield::auth::sessions::{bind_address, server_origin};
use rs_shield::snapshot_listing::{
    size_change, snapshot_deleted_line, snapshot_id, snapshot_manifests, snapshots_found_line,
    unreadable_row,
};

#[test]
fn manifests_newest_first() {
    let paths = vec![
        "snapshots/2024-01-01.toml".to_string(),
        "snapshots/notes.txt".to_string(),
        "snapshots/2024-03-05.toml".to_string(),
        "snapshots/2023-12-31.toml".to_string(),
    ];
    assert_eq!(
        snapshot_manifests(&paths),
        vec!["snapshots/2024-03-05.toml", "snapshots/2024-01-01.toml", "snapshots/2023-12-31.toml"]
    );
    assert!(snapshot_manifests(&vec!["a.txt".to_string()]).is_empty());
}

#[test]
fn snapshot_rows() {
    assert_eq!(snapshot_id("snapshots/2024-01-01.toml"), "2024-01-01");
    assert_eq!(snapshot_id("snapshots/.toml"), ".toml");
    assert_eq!(snapshot_id(""), "");
    assert_eq!(unreadable_row("2024-01-01", true), format!("{:<25} [Empty Manifest]", "2024-01-01"));
    let long = "abcdefghijklmnopqrstuvwxyz0123";
    assert_eq!(unreadable_row(long, false), format!("{:<25} [Encrypted/Invalid]", format!("{}…", &long[..24])));
    assert_eq!(snapshots_found_line(3), "3 Snapshots found");
    assert_eq!(size_change(10, 25), ("+", 15));
    assert_eq!(size_change(10, 10), ("+", 0));
    assert_eq!(size_change(25, 10), ("", 15));
    assert_eq!(snapshot_deleted_line("s1"), "✅ Snapshot deleted: s1");
}

#[test]
fn server_addresses_and_headers() {
    assert_eq!(server_origin(3000), "http://localhost:3000");
    assert_eq!(bind_address(8080), "127.0.0.1:8080");
    let h = security_headers();
    assert_eq!(h.len(), 5);
    assert_eq!(h[0], ("Strict-Transport-Security", "max-age=31536000; includeSubDomains; preload"));
    assert_eq!(h[2], ("X-Frame-Options", "DENY"));
    assert_eq!(h[4], ("Referrer-Policy", "no-referrer-when-downgrade"));
}
