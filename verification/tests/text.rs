use onx::text::{decimal_i64, decimal_u64};

#[test]
fn decimal_u64_renders_digits_without_leading_zeros() {
    assert_eq!(decimal_u64(0), "0");
    assert_eq!(decimal_u64(7), "7");
    assert_eq!(decimal_u64(100), "100");
    assert_eq!(decimal_u64(1234567890), "1234567890");
    assert_eq!(decimal_u64(u64::MAX), "18446744073709551615");
}

#[test]
fn decimal_i64_renders_the_sign_of_negative_numbers() {
    assert_eq!(decimal_i64(0), "0");
    assert_eq!(decimal_i64(-42), "-42");
    assert_eq!(decimal_i64(42), "42");
    assert_eq!(decimal_i64(i64::MIN), "-9223372036854775808");
    assert_eq!(decimal_i64(i64::MAX), "9223372036854775807");
}
