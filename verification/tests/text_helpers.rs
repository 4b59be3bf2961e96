use hypaper::text::{format_decimal, pad_right_str, parse_u32, str_eq, trim_str};

#[test]
fn trim_matches_std() {
    let samples = [
        "", "  ", "a", " a ", "\t\n x y \r\n", "\u{a0}abc\u{3000}", "\u{2009}z\u{2028}",
        "no-trim", "\u{200b}keep\u{200b}",
    ];
    for s in samples {
        assert_eq!(trim_str(s), s.trim(), "trim of {s:?}");
    }
}

#[test]
fn parse_u32_matches_std() {
    let samples = [
        "0", "42", "+42", "-1", "", "+", "4294967295", "4294967296", "0004294967295",
        "99999999999999999999", "12a", " 1", "١٢", "+-1",
    ];
    for s in samples {
        assert_eq!(parse_u32(s), s.parse::<u32>().ok(), "parse of {s:?}");
    }
}

#[test]
fn format_decimal_matches_display() {
    for n in [0u64, 7, 10, 99, 100, 12345, u64::MAX] {
        assert_eq!(format_decimal(n), n.to_string());
    }
}

#[test]
fn pad_right_matches_format_width() {
    assert_eq!(pad_right_str("daemon:", 16), format!("{:<16}", "daemon:"));
    assert_eq!(pad_right_str("a-very-long-label-here", 16), "a-very-long-label-here");
    assert_eq!(pad_right_str("", 3), "   ");
}

#[test]
fn str_eq_compares_characters() {
    assert!(str_eq("abc", "abc"));
    assert!(!str_eq("abc", "abd"));
    assert!(!str_eq("abc", "ab"));
    assert!(str_eq("", ""));
}
