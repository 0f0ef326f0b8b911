//! Decimal text.

use vbench::text::{i64_to_decimal, parse_u64, str_eq, u64_to_decimal};

#[test]
fn decimal_matches_display() {
    for n in [0u64, 7, 10, 99, 100, 12345, u64::MAX] {
        assert_eq!(u64_to_decimal(n), n.to_string());
    }
    for v in [0i64, -1, 42, -9000, i64::MIN, i64::MAX] {
        assert_eq!(i64_to_decimal(v), v.to_string());
    }
}

#[test]
fn parse_matches_std() {
    for s in ["0", "42", "+42", "", "+", "-1", "18446744073709551615", "18446744073709551616", "12a", " 1", "007"] {
        assert_eq!(parse_u64(s), s.parse::<u64>().ok(), "{s:?}");
    }
}

#[test]
fn parse_reads_back_printed_numbers() {
    for n in [0u64, 1, 255, 1_000_000, u64::MAX] {
        assert_eq!(parse_u64(&u64_to_decimal(n)), Some(n));
    }
}

#[test]
fn strings_compare_by_characters() {
    assert!(str_eq("abc", "abc"));
    assert!(!str_eq("abc", "abd"));
    assert!(!str_eq("abc", "ab"));
}
