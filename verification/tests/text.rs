use bookkar::text::{
    byte_prefix, contains, decimal_string, signed_decimal_string, starts_with, str_equal, strip_prefix,
    strip_prefix_or_self,
};

#[test]
fn decimal_rendering() {
    assert_eq!(decimal_string(0), "0");
    assert_eq!(decimal_string(9), "9");
    assert_eq!(decimal_string(10), "10");
    assert_eq!(decimal_string(1234567890), "1234567890");
    assert_eq!(decimal_string(u64::MAX), "18446744073709551615");
    assert_eq!(signed_decimal_string(-42), "-42");
    assert_eq!(signed_decimal_string(i64::MIN), "-9223372036854775808");
    assert_eq!(signed_decimal_string(i64::MAX), "9223372036854775807");
}

#[test]
fn comparisons_and_prefixes() {
    assert!(str_equal("abc", "abc"));
    assert!(!str_equal("abc", "abd"));
    assert!(!str_equal("abc", "ab"));
    assert!(starts_with("PNR:123", "PNR:"));
    assert!(!starts_with("PN", "PNR:"));
    assert_eq!(strip_prefix("ERROR:bad", "ERROR:"), Some("bad"));
    assert_eq!(strip_prefix("bad", "ERROR:"), None);
    assert_eq!(strip_prefix_or_self("tk_x", "tk_"), "x");
    assert_eq!(strip_prefix_or_self("x", "tk_"), "x");
    assert!(contains("https://site/eticket/train-search", "train-search"));
    assert!(!contains("https://site/", "train-search"));
    assert!(contains("abc", ""));
}

#[test]
fn utf8_byte_prefix() {
    assert_eq!(byte_prefix("0f9c2d1e-aaaa", 8), "0f9c2d1e");
    assert_eq!(byte_prefix("éééé-rest", 8), "éééé");
    assert_eq!(byte_prefix("ab€def", 8), "ab€def");
}

#[test]
fn digits_are_appended_one_by_one() {
    let mut s = String::from("₹");
    bookkar::text::append_decimal(&mut s, 250);
    assert_eq!(s, "₹250");
    let mut t = String::from("x");
    bookkar::text::append_two_digit(&mut t, 7);
    assert_eq!(t, "x07");
}

