use uniffi_core::{
    lower_anyhow_error_or_panic, lower_downcast, FfiConverter, LoweringDefect, UniFfiTag,
};

#[test]
fn declared_error_is_lowered() {
    let err = anyhow::Error::msg(0x0102u32);
    assert_eq!(
        lower_anyhow_error_or_panic::<UniFfiTag, u32>(err, "code"),
        Ok(0x0102u32)
    );
}

#[test]
fn declared_error_is_lowered_to_a_buffer() {
    let err = anyhow::Error::msg("boom".to_string());
    let lowered = lower_anyhow_error_or_panic::<UniFfiTag, String>(err, "failure").unwrap();
    assert_eq!(lowered.destroy_into_vec(), b"boom".to_vec());
}

#[test]
fn error_of_another_type_is_a_defect() {
    let err = anyhow::Error::msg("not a number");
    assert_eq!(
        lower_anyhow_error_or_panic::<UniFfiTag, u32>(err, "code"),
        Err(LoweringDefect::WrongType {
            message: "Failed to convert arg 'code': not a number".to_string()
        })
    );
}

#[test]
fn outcome_of_a_downcast_is_lowered() {
    assert_eq!(lower_downcast::<UniFfiTag, bool>(Ok(true), "flag"), Ok(1));
    assert_eq!(
        lower_downcast::<UniFfiTag, bool>(Err("oh no".to_string()), "flag"),
        Err(LoweringDefect::WrongType {
            message: "Failed to convert arg 'flag': oh no".to_string()
        })
    );
}

#[test]
fn error_too_large_for_a_buffer_is_a_defect() {
    let huge = String::from_utf8(vec![0u8; 0x8000_0000]).unwrap();
    assert!(!<String as FfiConverter<UniFfiTag>>::can_lower(&huge));
    assert_eq!(<String as FfiConverter<UniFfiTag>>::encoded_len(&huge), None);
    let outcome = lower_downcast::<UniFfiTag, String>(Ok(huge), "failure");
    assert_eq!(outcome.unwrap_err(), LoweringDefect::NotLowerable);
}
