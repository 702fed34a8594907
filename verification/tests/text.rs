use conformance_harness::text::{
    chars_of, decimal_string, signed_decimal_string, str_contains, str_ends_with,
};

#[test]
fn chars_come_in_order() {
    assert_eq!(chars_of(""), Vec::<char>::new());
    assert_eq!(chars_of("a.rs"), vec!['a', '.', 'r', 's']);
    assert_eq!(chars_of("né"), vec!['n', 'é']);
}

#[test]
fn contains_finds_a_pattern_anywhere() {
    assert!(str_contains("xfail", "xfail"));
    assert!(str_contains("// xfail-test", "xfail"));
    assert!(str_contains("fn main() {} // xfail", "xfail"));
    assert!(str_contains("xxfail", "xfail"));
    assert!(str_contains("xfaxfail", "xfail"));
    assert!(str_contains("anything", ""));
    assert!(str_contains("", ""));
}

#[test]
fn contains_rejects_what_is_not_there() {
    assert!(!str_contains("", "xfail"));
    assert!(!str_contains("xfai", "xfail"));
    assert!(!str_contains("x fail", "xfail"));
    assert!(!str_contains("XFAIL", "xfail"));
    assert!(!str_contains("liafx", "xfail"));
}

#[test]
fn ends_with_looks_at_the_end_only() {
    assert!(str_ends_with("tests/compile-pass/a.rs", ".rs"));
    assert!(str_ends_with(".rs", ".rs"));
    assert!(str_ends_with("a", ""));
    assert!(!str_ends_with("rs", ".rs"));
    assert!(!str_ends_with("a.rs.bak", ".rs"));
    assert!(!str_ends_with("a.RS", ".rs"));
    assert!(!str_ends_with("", ".rs"));
}

#[test]
fn decimal_numerals() {
    assert_eq!(decimal_string(0), "0");
    assert_eq!(decimal_string(7), "7");
    assert_eq!(decimal_string(10), "10");
    assert_eq!(decimal_string(109), "109");
    assert_eq!(decimal_string(1234567890), "1234567890");
    assert_eq!(decimal_string(u64::MAX), "18446744073709551615");
}

#[test]
fn signed_decimal_numerals() {
    assert_eq!(signed_decimal_string(0), "0");
    assert_eq!(signed_decimal_string(1), "1");
    assert_eq!(signed_decimal_string(-1), "-1");
    assert_eq!(signed_decimal_string(101), "101");
    assert_eq!(signed_decimal_string(i32::MAX), "2147483647");
    assert_eq!(signed_decimal_string(i32::MIN), "-2147483648");
}
