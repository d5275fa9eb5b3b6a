use rs_shield::numeric::{decimal_string, parse_u8, parse_usize};
use rs_shield::text_lines::{is_white_space, trim_text};

#[test]
fn parsing_follows_str_parse() {
    for s in ["0", "+0", "007", "42", "+", "", "-1", "1 ", " 1", "1_000", "18446744073709551615", "18446744073709551616", "99999999999999999999999"] {
        assert_eq!(parse_usize(s), s.parse::<usize>().ok(), "input {s:?}");
        assert_eq!(parse_u8(s), s.parse::<u8>().ok(), "input {s:?}");
    }
    assert_eq!(parse_u8("255"), Some(255));
    assert_eq!(parse_u8("256"), None);
}

#[test]
fn decimal_text() {
    for n in [0u64, 7, 10, 99, 100, 12345, u64::MAX] {
        assert_eq!(decimal_string(n), n.to_string());
    }
}

#[test]
fn white_space_is_std_white_space() {
    for code in 0u32..=0x10FFFF {
        if let Some(c) = char::from_u32(code) {
            assert_eq!(is_white_space(c), c.is_whitespace(), "U+{code:04X}");
        }
    }
    assert_eq!(trim_text(" a "), "a");
    assert_eq!(trim_text("\u{3000}\tx y\u{85}\u{2029}"), "x y");
}
