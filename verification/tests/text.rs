use webboard::text::{
    contains_char, decimal_string, parse_decimal, same_text, starts_with, strip_prefix,
};

#[test]
fn numbers_are_written_in_base_ten() {
    assert_eq!(decimal_string(0), "0");
    assert_eq!(decimal_string(7), "7");
    assert_eq!(decimal_string(10), "10");
    assert_eq!(decimal_string(3000), "3000");
    assert_eq!(decimal_string(1234567890), "1234567890");
    assert_eq!(decimal_string(u64::MAX), "18446744073709551615");
    for n in 0..2000u64 {
        assert_eq!(decimal_string(n), n.to_string());
    }
}

#[test]
fn numbers_are_read_in_base_ten() {
    assert_eq!(parse_decimal("0", 10), Some(0));
    assert_eq!(parse_decimal("10", 10), Some(10));
    assert_eq!(parse_decimal("11", 10), None);
    assert_eq!(parse_decimal("+7", 10), Some(7));
    assert_eq!(parse_decimal("007", 10), Some(7));
    assert_eq!(parse_decimal("0000000000000000000000000000001", 1), Some(1));
    assert_eq!(parse_decimal("65535", 65535), Some(65535));
    assert_eq!(parse_decimal("65536", 65535), None);
    assert_eq!(
        parse_decimal("18446744073709551615", u64::MAX),
        Some(u64::MAX)
    );
    assert_eq!(parse_decimal("18446744073709551616", u64::MAX), None);
    assert_eq!(parse_decimal("99999999999999999999999", u64::MAX), None);
    for text in ["", "+", "-", "-1", "++1", "1+", " 1", "1 ", "1_000", "0x10", "1.0", "\u{661}"] {
        assert_eq!(parse_decimal(text, u64::MAX), None, "{:?}", text);
    }
}

#[test]
fn reading_agrees_with_the_standard_library() {
    let texts = [
        "0", "1", "+1", "-0", "+0", "00", "3000", "65535", "65536", "70000", "", "+", "a", "1a",
        "٣", "1e3", "0.5", " 3000", "3000\n", "+00065535", "١٢",
    ];
    for text in texts {
        assert_eq!(
            parse_decimal(text, u16::MAX as u64),
            text.parse::<u16>().ok().map(|n| n as u64),
            "{:?}",
            text
        );
        assert_eq!(
            parse_decimal(text, u64::MAX),
            text.parse::<u64>().ok(),
            "{:?}",
            text
        );
    }
}

#[test]
fn what_was_written_is_read_back() {
    for n in [0u64, 9, 10, 99, 100, 12345, u32::MAX as u64, u64::MAX] {
        assert_eq!(parse_decimal(&decimal_string(n), u64::MAX), Some(n));
    }
}

#[test]
fn strings_are_searched_by_their_characters() {
    assert!(contains_char("a@b", '@'));
    assert!(contains_char("@", '@'));
    assert!(!contains_char("", '@'));
    assert!(!contains_char("ab", '@'));
    assert!(contains_char("h\u{e9}llo", '\u{e9}'));
    assert!(!contains_char("h\u{e9}llo", 'e'));

    assert!(starts_with("rpc.x", "rpc."));
    assert!(starts_with("rpc.", "rpc."));
    assert!(starts_with("anything", ""));
    assert!(!starts_with("rpc", "rpc."));
    assert!(!starts_with("xrpc.", "rpc."));
    assert!(!starts_with("", "rpc."));

    assert!(same_text("", ""));
    assert!(same_text("2.0", "2.0"));
    assert!(!same_text("2.0", "2.1"));
    assert!(!same_text("2.0", "2.00"));
    assert!(!same_text("\u{e9}", "e"));

    assert_eq!(strip_prefix("Bearer abc", "Bearer "), Some("abc"));
    assert_eq!(strip_prefix("\u{e9}\u{e9}x", "\u{e9}"), Some("\u{e9}x"));
    assert_eq!(strip_prefix("abc", "abc"), Some(""));
    assert_eq!(strip_prefix("abc", "b"), None);
}
