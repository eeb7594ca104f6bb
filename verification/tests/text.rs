use paygate::text::{decimal_string, is_quotable, join, json_string, MAX_DECIMAL_LEN};

#[test]
fn decimal_string_writes_zero() {
    assert_eq!(decimal_string(0), "0");
}

#[test]
fn decimal_string_writes_single_digits() {
    assert_eq!(decimal_string(7), "7");
    assert_eq!(decimal_string(9), "9");
}

#[test]
fn decimal_string_writes_round_numbers() {
    assert_eq!(decimal_string(10), "10");
    assert_eq!(decimal_string(1000), "1000");
    assert_eq!(decimal_string(300_000), "300000");
}

#[test]
fn decimal_string_writes_the_largest_number() {
    assert_eq!(decimal_string(u64::MAX), "18446744073709551615");
}

#[test]
fn decimal_string_agrees_with_the_standard_library() {
    let mut n: u64 = 1;
    for _ in 0..40 {
        assert_eq!(decimal_string(n), n.to_string());
        n = n.wrapping_mul(37).wrapping_add(11);
    }
}

#[test]
fn join_keeps_the_order() {
    assert_eq!(join("ab", "cd"), "abcd");
    assert_eq!(join("", "cd"), "cd");
    assert_eq!(join("ab", ""), "ab");
}

#[test]
fn json_string_quotes_plain_text() {
    assert_eq!(json_string("exact"), "\"exact\"");
    assert_eq!(json_string(""), "\"\"");
}

#[test]
fn json_string_escapes_quotes_and_controls() {
    assert_eq!(json_string("a\"b"), "\"a\\\"b\"");
    assert_eq!(json_string("a\\b"), "\"a\\\\b\"");
    assert_eq!(json_string("line\nbreak"), "\"line\\nbreak\"");
    assert_eq!(json_string("\u{1}"), "\"\\u0001\"");
}

#[test]
fn longest_decimal_text_has_twenty_digits() {
    assert_eq!(MAX_DECIMAL_LEN, 20);
    assert_eq!(decimal_string(u64::MAX).len(), 20);
    assert_eq!(decimal_string(9_999_999_999_999_999_999u64).len(), 19);
}

#[test]
fn ordinary_text_is_quotable() {
    assert!(is_quotable(""));
    assert!(is_quotable("exact"));
    assert!(is_quotable(&"\u{1}".repeat(100_000)));
    assert_eq!(json_string(&"\u{1}".repeat(1000)).len(), 6002);
}
