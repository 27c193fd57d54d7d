use checkup::text::{i64_to_string, is_blank, parse_u16, parse_u64, parse_usize};

#[test]
fn parses_like_str_parse() {
    assert_eq!(parse_u64("0"), Some(0));
    assert_eq!(parse_u64("+42"), Some(42));
    assert_eq!(parse_u64("007"), Some(7));
    assert_eq!(parse_u64("18446744073709551615"), Some(u64::MAX));
    assert_eq!(parse_u64("18446744073709551616"), None);
    assert_eq!(parse_u64(""), None);
    assert_eq!(parse_u64("+"), None);
    assert_eq!(parse_u64("-1"), None);
    assert_eq!(parse_u64(" 1"), None);
    assert_eq!(parse_u64("1a"), None);
    assert_eq!(parse_u16("65535"), Some(65535));
    assert_eq!(parse_u16("65536"), None);
    assert_eq!(parse_usize("5"), Some(5));
    for s in ["", "+", "12", "+12", "99999999999999999999", "-3", "٣"] {
        assert_eq!(parse_u64(s), s.parse::<u64>().ok());
    }
}

#[test]
fn renders_like_display() {
    for n in [0i64, 7, 10, -1, 1234567890, i64::MAX, i64::MIN] {
        assert_eq!(i64_to_string(n), n.to_string());
    }
}

#[test]
fn blank_is_unicode_whitespace() {
    assert!(is_blank(""));
    assert!(is_blank(" \t\r\n\u{a0}\u{2003}"));
    assert!(!is_blank(" x "));
}
