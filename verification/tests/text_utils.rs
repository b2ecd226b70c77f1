//! Tests of the verified text building blocks.

use powerline_rs::modules::nice_duration;
use powerline_rs::text::{
    dec_string_u64, find_char, find_sub, parse_u32_prefix, split_on_char, str_eq, str_starts_with,
    trim_str,
};

#[test]
fn decimal_rendering() {
    assert_eq!(dec_string_u64(0), "0");
    assert_eq!(dec_string_u64(7), "7");
    assert_eq!(dec_string_u64(10), "10");
    assert_eq!(dec_string_u64(255), "255");
    assert_eq!(dec_string_u64(1000), "1000");
    assert_eq!(dec_string_u64(18446744073709551615), "18446744073709551615");
}

#[test]
fn digit_prefix_parsing() {
    assert_eq!(parse_u32_prefix("123"), Some(123));
    assert_eq!(parse_u32_prefix("42, behind 3]"), Some(42));
    assert_eq!(parse_u32_prefix(""), None);
    assert_eq!(parse_u32_prefix("x1"), None);
    assert_eq!(parse_u32_prefix("0"), Some(0));
    assert_eq!(parse_u32_prefix("4294967295"), Some(4294967295));
    assert_eq!(parse_u32_prefix("4294967296"), None);
}

#[test]
fn char_and_substring_search() {
    assert_eq!(find_char("a/b/c", '/'), Some(1));
    assert_eq!(find_char("abc", '/'), None);
    assert_eq!(find_sub("main...origin/main", "..."), Some(4));
    assert_eq!(find_sub("v1.2...o", "..."), Some(4));
    assert_eq!(find_sub("abc", "..."), None);
    assert_eq!(find_sub("abc", ""), Some(0));
}

#[test]
fn splitting() {
    let parts = split_on_char("a/bb//c", '/');
    assert_eq!(parts, vec!["a", "bb", "", "c"]);
    assert_eq!(split_on_char("", '/'), vec![""]);
    assert_eq!(split_on_char("abc", '/'), vec!["abc"]);
    assert_eq!(split_on_char("x\ny\n", '\n'), vec!["x", "y", ""]);
}

#[test]
fn prefix_and_equality() {
    assert!(str_starts_with("java=17", "java="));
    assert!(!str_starts_with("ava=17", "java="));
    assert!(str_starts_with("abc", ""));
    assert!(str_eq("same", "same"));
    assert!(!str_eq("same", "sane"));
    assert!(!str_eq("same", "sameness"));
}

#[test]
fn trimming() {
    assert_eq!(trim_str("  3.12\n"), "3.12");
    assert_eq!(trim_str("\t x \r\n"), "x");
    assert_eq!(trim_str("plain"), "plain");
    assert_eq!(trim_str("   \n"), "");
    assert_eq!(trim_str(""), "");
}

#[test]
fn duration_rendering() {
    assert_eq!(nice_duration(65000), "1m5s");
    assert_eq!(nice_duration(61000), "1m1s");
    assert_eq!(nice_duration(60000), "60.00s");
    assert_eq!(nice_duration(1500), "1.50s");
    assert_eq!(nice_duration(1987), "1.98s");
    assert_eq!(nice_duration(500), "500ms");
    assert_eq!(nice_duration(2), "2ms");
    assert_eq!(nice_duration(1), "1\u{b5}s");
    assert_eq!(nice_duration(0), "0\u{b5}s");
}
