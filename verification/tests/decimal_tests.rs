use tagged_pointer::decimal::{i64_to_decimal, u64_to_decimal};

#[test]
fn test_decimal_zero() {
    assert_eq!(u64_to_decimal(0), "0");
}

#[test]
fn test_decimal_digits() {
    assert_eq!(u64_to_decimal(7), "7");
    assert_eq!(u64_to_decimal(10), "10");
    assert_eq!(u64_to_decimal(1234567890), "1234567890");
    assert_eq!(u64_to_decimal(u64::MAX), "18446744073709551615");
}

#[test]
fn test_decimal_signed() {
    assert_eq!(i64_to_decimal(-42), "-42");
    assert_eq!(i64_to_decimal(42), "42");
    assert_eq!(i64_to_decimal(0), "0");
    assert_eq!(i64_to_decimal(-1), "-1");
}
