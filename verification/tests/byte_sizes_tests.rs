use rs_shield::byte_sizes::{format_bytes, human_bytes};

fn float_human_bytes(bytes: u64) -> String {
    const KB: f64 = 1024.0;
    const MB: f64 = KB * 1024.0;
    const GB: f64 = MB * 1024.0;
    const TB: f64 = GB * 1024.0;
    let b = bytes as f64;
    if b >= TB {
        format!("{:.2} TB", b / TB)
    } else if b >= GB {
        format!("{:.2} GB", b / GB)
    } else if b >= MB {
        format!("{:.2} MB", b / MB)
    } else if b >= KB {
        format!("{:.2} KB", b / KB)
    } else {
        format!("{} B", bytes)
    }
}

fn float_format_bytes(bytes: u64) -> String {
    const KB: f64 = 1024.0;
    const MB: f64 = KB * 1024.0;
    const GB: f64 = MB * 1024.0;
    let b = bytes as f64;
    if b >= GB {
        format!("{:.2} GB", b / GB)
    } else if b >= MB {
        format!("{:.2} MB", b / MB)
    } else if b >= KB {
        format!("{:.2} KB", b / KB)
    } else {
        format!("{} B", bytes)
    }
}

fn samples() -> Vec<u64> {
    let mut v = vec![
        0, 1, 512, 1023, 1024, 1025, 1152, 1280, 1536, 2048, 10_000, 1_048_575, 1_048_576,
        1_179_648, 5_000_000, 1_073_741_823, 1_073_741_824, 1_207_959_552, 1_099_511_627_775,
        1_099_511_627_776, 1_236_950_581_248, (1 << 53) - 1, 1 << 53, (1 << 53) + 1, (1 << 60) + 12345,
        u64::MAX - 1, u64::MAX,
    ];
    let mut x: u64 = 0x2545_F491_4F6C_DD1D;
    for shift in [0u32, 8, 16, 24, 32, 40, 48, 56] {
        for _ in 0..400 {
            x ^= x << 13;
            x ^= x >> 7;
            x ^= x << 17;
            v.push(x >> shift);
        }
    }
    for k in 0..4000u64 {
        v.push(k * 128);
        v.push((1 << 20) + k * 131_072 / 16);
    }
    v
}

#[test]
fn sizes_match_float_formatting() {
    for b in samples() {
        assert_eq!(human_bytes(b), float_human_bytes(b), "human_bytes({b})");
        assert_eq!(format_bytes(b), float_format_bytes(b), "format_bytes({b})");
    }
}

#[test]
fn size_examples() {
    assert_eq!(human_bytes(0), "0 B");
    assert_eq!(human_bytes(1536), "1.50 KB");
    assert_eq!(human_bytes(1_099_511_627_776), "1.00 TB");
    assert_eq!(format_bytes(1_099_511_627_776), "1024.00 GB");
    assert_eq!(human_bytes(5 * 1_048_576), "5.00 MB");
}
