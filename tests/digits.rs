use names::digits::{decimal_text, zero_padded_text};

#[test]
fn decimal_values() {
    assert_eq!(decimal_text(0), "0");
    assert_eq!(decimal_text(7), "7");
    assert_eq!(decimal_text(405), "405");
    assert_eq!(decimal_text(u64::MAX), "18446744073709551615");
}

#[test]
fn zero_padded_values() {
    assert_eq!(zero_padded_text(5, 2), "05");
    assert_eq!(zero_padded_text(42, 2), "42");
    assert_eq!(zero_padded_text(123, 2), "123");
    assert_eq!(zero_padded_text(0, 4), "0000");
    assert_eq!(zero_padded_text(9, 0), "9");
}
