use amp_monitor::text::{contains_str, i64_dec, starts_with_str, str_eq, trim_str, u64_dec};

#[test]
fn decimal_rendering_of_unsigned_values() {
    assert_eq!(u64_dec(0), "0");
    assert_eq!(u64_dec(7), "7");
    assert_eq!(u64_dec(150), "150");
    assert_eq!(u64_dec(1234567890123), "1234567890123");
    assert_eq!(u64_dec(u64::MAX), "18446744073709551615");
}

#[test]
fn decimal_rendering_of_signed_values() {
    assert_eq!(i64_dec(0), "0");
    assert_eq!(i64_dec(1700000000123), "1700000000123");
    assert_eq!(i64_dec(-42), "-42");
    assert_eq!(i64_dec(i64::MIN), "-9223372036854775808");
    assert_eq!(i64_dec(i64::MAX), "9223372036854775807");
}

#[test]
fn trimming_strips_whitespace_from_both_ends() {
    assert_eq!(trim_str("  null\n"), "null");
    assert_eq!(trim_str("null"), "null");
    assert_eq!(trim_str("\t a b \r\n"), "a b");
    assert_eq!(trim_str("   "), "");
    assert_eq!(trim_str(""), "");
    assert_eq!(trim_str("\u{00a0}x\u{3000}"), "x");
}

#[test]
fn prefix_and_substring_checks() {
    assert!(starts_with_str("station1/amp/power", "station1/amp/"));
    assert!(!starts_with_str("station1/amp", "station1/amp/"));
    assert!(starts_with_str("abc", ""));
    assert!(contains_str("matrigs/0/n/alarm", "/n/"));
    assert!(!contains_str("station1/amp/power", "/n/"));
    assert!(contains_str("x/n/", "/n/"));
    assert!(!contains_str("/n", "/n/"));
}

#[test]
fn string_equality_compares_contents() {
    assert!(str_eq("power", "power"));
    assert!(!str_eq("power", "powe"));
    assert!(str_eq("", ""));
}
