use webshell::text::{
    contains_char, has_prefix, is_blank, parse_decimal, str_eq, suffix_from, u64_to_dec,
};

#[test]
fn string_equality_is_by_characters() {
    assert!(str_eq("abc", "abc"));
    assert!(!str_eq("abc", "abd"));
    assert!(!str_eq("abc", "abcd"));
    assert!(str_eq("", ""));
}

#[test]
fn prefixes() {
    assert!(has_prefix("--profile=foo", "--profile="));
    assert!(!has_prefix("--profile", "--profile="));
    assert!(has_prefix("anything", ""));
    assert_eq!(suffix_from("--profile=foo", 10), "foo");
}

#[test]
fn blank_and_contains() {
    assert!(is_blank(""));
    assert!(is_blank(" \t\r\n"));
    assert!(!is_blank(" x "));
    assert!(contains_char("pic.jpg", '.'));
    assert!(!contains_char("pic", '.'));
}

#[test]
fn decimal_rendering() {
    assert_eq!(u64_to_dec(0), "0");
    assert_eq!(u64_to_dec(7), "7");
    assert_eq!(u64_to_dec(40), "40");
    assert_eq!(u64_to_dec(18446744073709551615), "18446744073709551615");
}

#[test]
fn decimal_parsing() {
    assert_eq!(parse_decimal("0"), Some(0));
    assert_eq!(parse_decimal("304"), Some(304));
    assert_eq!(parse_decimal("instance"), None);
    assert_eq!(parse_decimal(""), None);
    assert_eq!(parse_decimal("12x"), None);
    assert_eq!(parse_decimal("-3"), None);
    // nineteen digits are the most that are accepted
    assert_eq!(parse_decimal("9999999999999999999"), Some(9999999999999999999));
    assert_eq!(parse_decimal("10000000000000000000"), None);
}

#[test]
fn rendering_and_parsing_round_trip() {
    for n in [0u64, 1, 9, 10, 99, 100, 12345, 987654321] {
        assert_eq!(parse_decimal(&u64_to_dec(n)), Some(n));
    }
}
