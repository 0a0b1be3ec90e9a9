use core_providers::helper::text::{i64_text, starts_with, u64_text};

#[test]
fn u64_text_writes_decimal() {
    assert_eq!(u64_text(0), "0");
    assert_eq!(u64_text(7), "7");
    assert_eq!(u64_text(10), "10");
    assert_eq!(u64_text(218620), "218620");
    assert_eq!(u64_text(1234567890), "1234567890");
    assert_eq!(u64_text(u64::MAX), "18446744073709551615");
}

#[test]
fn i64_text_writes_the_sign() {
    assert_eq!(i64_text(0), "0");
    assert_eq!(i64_text(53461), "53461");
    assert_eq!(i64_text(-1), "-1");
    assert_eq!(i64_text(-120), "-120");
    assert_eq!(i64_text(i64::MAX), "9223372036854775807");
    assert_eq!(i64_text(i64::MIN), "-9223372036854775808");
}

#[test]
fn starts_with_tells_a_prefix() {
    assert!(starts_with("https://example.net/a.png", "https://"));
    assert!(!starts_with("https://example.net/a.png", "http://"));
    assert!(starts_with("http://example.net", "http://"));
    assert!(!starts_with("http:/", "http://"));
    assert!(starts_with("anything", ""));
    assert!(starts_with("", ""));
    assert!(!starts_with("", "a"));
    assert!(starts_with("same", "same"));
}
