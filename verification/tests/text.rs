use hsa::text::{format_decimal, format_hex, format_signed};

#[test]
fn decimal_of_zero_is_one_digit() {
    assert_eq!(format_decimal(0), "0");
}

#[test]
fn decimal_of_largest_number() {
    assert_eq!(format_decimal(u64::MAX), "18446744073709551615");
}

#[test]
fn hex_is_lower_case_without_prefix() {
    assert_eq!(format_hex(0), "0");
    assert_eq!(format_hex(0x1402), "1402");
    assert_eq!(format_hex(0xdead_beef), "deadbeef");
    assert_eq!(format_hex(u64::MAX), "ffffffffffffffff");
}

#[test]
fn signed_decimal_has_a_minus_sign() {
    assert_eq!(format_signed(-1), "-1");
    assert_eq!(format_signed(0), "0");
    assert_eq!(format_signed(i64::MIN), "-9223372036854775808");
    assert_eq!(format_signed(i64::MAX), "9223372036854775807");
}
