use uniffi_core::text::{decimal_text, signed_decimal_text};
use uniffi_core::{check_remaining, DecodeError};

#[test]
fn check_remaining_reports_underflow() {
    let window = [1u8, 2, 3];
    assert_eq!(
        check_remaining(&window, 4),
        Err(DecodeError::BufferUnderflow { remaining: 3, needed: 4 })
    );
}

#[test]
fn check_remaining_accepts_exact_length() {
    let window = [1u8, 2, 3];
    assert_eq!(check_remaining(&window, 3), Ok(()));
}

#[test]
fn check_remaining_of_nothing_always_succeeds() {
    let window = [1u8, 2, 3];
    assert_eq!(check_remaining(&window, 0), Ok(()));
    assert_eq!(check_remaining(&[], 0), Ok(()));
}

#[test]
fn underflow_says_how_many_bytes_were_missing() {
    let window = [1u8, 2, 3];
    assert_eq!(
        check_remaining(&window, 4).unwrap_err().message(),
        "not enough bytes remaining in buffer (3 < 4)"
    );
    assert_eq!(
        DecodeError::BufferUnderflow { remaining: 0, needed: 1234567890 }.message(),
        "not enough bytes remaining in buffer (0 < 1234567890)"
    );
    assert_eq!(
        DecodeError::BufferUnderflow { remaining: 10, needed: usize::MAX }.message(),
        format!("not enough bytes remaining in buffer (10 < {})", usize::MAX)
    );
}

#[test]
fn each_decode_error_has_its_text() {
    assert_eq!(
        DecodeError::TrailingData { remaining: 1 }.message(),
        "junk data left in buffer after lifting"
    );
    assert_eq!(
        DecodeError::InvalidBoolean { byte: 2 }.message(),
        "unexpected byte for Boolean"
    );
    assert_eq!(
        DecodeError::InvalidOptionTag { tag: 2 }.message(),
        "unexpected tag byte for Option"
    );
    assert_eq!(
        DecodeError::NegativeLength { length: -1 }.message(),
        "negative length in buffer (-1)"
    );
    assert_eq!(
        DecodeError::NegativeLength { length: i32::MIN }.message(),
        "negative length in buffer (-2147483648)"
    );
    assert_eq!(DecodeError::InvalidUtf8.message(), "invalid utf-8 sequence in buffer");
}

#[test]
fn numbers_in_decimal() {
    assert_eq!(decimal_text(0), "0");
    assert_eq!(decimal_text(9), "9");
    assert_eq!(decimal_text(10), "10");
    assert_eq!(decimal_text(907), "907");
    assert_eq!(decimal_text(u64::MAX), "18446744073709551615");
    assert_eq!(signed_decimal_text(0), "0");
    assert_eq!(signed_decimal_text(-45), "-45");
    assert_eq!(signed_decimal_text(i64::MIN), "-9223372036854775808");
    assert_eq!(signed_decimal_text(i64::MAX), "9223372036854775807");
}
