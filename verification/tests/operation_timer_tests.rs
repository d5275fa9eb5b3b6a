use rs_shield::operation_timer::{format_duration, format_duration_secs};
use std::time::Duration;

#[test]
fn test_format_duration() {
    assert_eq!(format_duration(Duration::from_secs(30)), "30s");
    assert_eq!(format_duration(Duration::from_secs(90)), "1m 30s");
    assert_eq!(format_duration(Duration::from_secs(3600)), "1h");
    assert_eq!(format_duration(Duration::from_secs(3661)), "1h 1m");
}

#[test]
fn duration_edges() {
    assert_eq!(format_duration_secs(0), "0s");
    assert_eq!(format_duration_secs(59), "59s");
    assert_eq!(format_duration_secs(60), "1m");
    assert_eq!(format_duration_secs(3599), "59m 59s");
    assert_eq!(format_duration_secs(7260), "2h 1m");
    assert_eq!(format_duration_secs(86400), "24h");
    // Fractions of a second are dropped.
    assert_eq!(format_duration(Duration::from_millis(1999)), "1s");
}

#[test]
fn short_durations_end_in_seconds() {
    for s in 0..60u64 {
        assert!(format_duration_secs(s).ends_with('s'));
    }
}

#[test]
fn hours_drop_seconds() {
    for s in [3600u64, 3659, 3725, 7199, 90061] {
        assert_eq!(format_duration_secs(s), format_duration_secs(s - s % 60));
    }
    assert_eq!(format_duration(Duration::from_millis(3_725_900)), "1h 2m");
}
