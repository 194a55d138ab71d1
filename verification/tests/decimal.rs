use rcc::decimal::{isize_to_string, u64_to_string};

#[test]
fn renders_unsigned_decimals() {
    assert_eq!(u64_to_string(0), "0");
    assert_eq!(u64_to_string(7), "7");
    assert_eq!(u64_to_string(1234567890), "1234567890");
    assert_eq!(u64_to_string(u64::MAX), "18446744073709551615");
}

#[test]
fn renders_signed_decimals() {
    assert_eq!(isize_to_string(0), "0");
    assert_eq!(isize_to_string(42), "42");
    assert_eq!(isize_to_string(-8), "-8");
    assert_eq!(isize_to_string(isize::MIN), "-9223372036854775808");
}
