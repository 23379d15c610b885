use std::time::{Duration, SystemTime};
use uniffi_core::{
    lower_into_rust_buffer, try_lift_from_rust_buffer, DecodeError, FfiConverter, RustBuffer,
    Timestamp, UniFfiTag,
};

struct FirstTag;
struct SecondTag;

fn written<T: FfiConverter<UniFfiTag>>(value: T) -> Vec<u8> {
    let mut buf = Vec::new();
    T::write(value, &mut buf);
    buf
}

#[test]
fn timestamp_roundtrip_post_epoch() {
    let expected = SystemTime::UNIX_EPOCH + Duration::new(100, 100);
    let lowered = <Timestamp as FfiConverter<UniFfiTag>>::lower(
        Timestamp::from_system_time(expected).expect("Failed to lower!"),
    );
    let result = <Timestamp as FfiConverter<UniFfiTag>>::try_lift(lowered)
        .expect("Failed to lift!")
        .to_system_time()
        .expect("Failed to lift!");
    assert_eq!(expected, result)
}

#[test]
fn timestamp_roundtrip_pre_epoch() {
    let expected = SystemTime::UNIX_EPOCH - Duration::new(100, 100);
    let lowered = <Timestamp as FfiConverter<UniFfiTag>>::lower(
        Timestamp::from_system_time(expected).expect("Failed to lower!"),
    );
    let result = <Timestamp as FfiConverter<UniFfiTag>>::try_lift(lowered)
        .expect("Failed to lift!")
        .to_system_time()
        .expect("Failed to lift!");
    assert_eq!(
        expected, result,
        "Expected results after lowering and lifting to be equal"
    )
}

#[test]
fn timestamp_wire_form() {
    let after = Timestamp::from_system_time(SystemTime::UNIX_EPOCH + Duration::new(100, 100));
    assert_eq!(after, Some(Timestamp { seconds: 100, nanos: 100 }));
    let before = Timestamp::from_system_time(SystemTime::UNIX_EPOCH - Duration::new(100, 100));
    assert_eq!(before, Some(Timestamp { seconds: -100, nanos: 100 }));
    assert_eq!(
        written(Timestamp { seconds: -2, nanos: 0x0102_0304 }),
        vec![0xff, 0xff, 0xff, 0xff, 0xff, 0xff, 0xff, 0xfe, 1, 2, 3, 4]
    );
}

#[test]
fn timestamp_with_a_second_of_nanoseconds_is_no_system_time() {
    let odd = Timestamp { seconds: 1, nanos: 1_000_000_000 };
    assert_eq!(odd.to_system_time(), None);
    let lifted = <Timestamp as FfiConverter<UniFfiTag>>::try_lift(
        <Timestamp as FfiConverter<UniFfiTag>>::lower(odd),
    );
    assert_eq!(lifted, Ok(odd));
}

#[test]
fn timestamp_just_before_the_epoch_loses_its_sign() {
    let time = SystemTime::UNIX_EPOCH - Duration::new(0, 500);
    let wire = Timestamp::from_system_time(time).unwrap();
    assert_eq!(wire, Timestamp { seconds: 0, nanos: 500 });
    assert_eq!(
        wire.to_system_time(),
        Some(SystemTime::UNIX_EPOCH + Duration::new(0, 500))
    );
}

#[test]
fn boolean_true_is_one_byte_of_value_one() {
    assert_eq!(<bool as FfiConverter<UniFfiTag>>::lower(true), 1);
    assert_eq!(<bool as FfiConverter<UniFfiTag>>::lower(false), 0);
    let buffer = lower_into_rust_buffer::<UniFfiTag, bool>(true);
    assert_eq!(buffer.len(), 1);
    assert_eq!(buffer.destroy_into_vec(), vec![1u8]);
}

#[test]
fn boolean_of_byte_two_is_a_decode_error() {
    assert_eq!(
        <bool as FfiConverter<UniFfiTag>>::try_lift(2),
        Err(DecodeError::InvalidBoolean { byte: 2 })
    );
    assert_eq!(
        try_lift_from_rust_buffer::<UniFfiTag, bool>(RustBuffer::from_vec(vec![2])),
        Err(DecodeError::InvalidBoolean { byte: 2 })
    );
    assert_eq!(
        try_lift_from_rust_buffer::<UniFfiTag, bool>(RustBuffer::from_vec(vec![1])),
        Ok(true)
    );
    assert_eq!(
        try_lift_from_rust_buffer::<UniFfiTag, bool>(RustBuffer::from_vec(vec![0])),
        Ok(false)
    );
}

#[test]
fn failed_read_leaves_the_window_in_place() {
    let bytes = [2u8, 7];
    let mut window = &bytes[..];
    assert_eq!(
        <bool as FfiConverter<UniFfiTag>>::try_read(&mut window),
        Err(DecodeError::InvalidBoolean { byte: 2 })
    );
    assert_eq!(window, &[2u8, 7][..]);
}

#[test]
fn integers_are_big_endian_twos_complement() {
    assert_eq!(written(0x12u8), vec![0x12]);
    assert_eq!(written(-1i8), vec![0xff]);
    assert_eq!(written(0x1234u16), vec![0x12, 0x34]);
    assert_eq!(written(-2i16), vec![0xff, 0xfe]);
    assert_eq!(written(0x0102_0304u32), vec![1, 2, 3, 4]);
    assert_eq!(written(-2i32), vec![0xff, 0xff, 0xff, 0xfe]);
    assert_eq!(written(i32::MIN), vec![0x80, 0, 0, 0]);
    assert_eq!(written(0x0102_0304_0506_0708u64), vec![1, 2, 3, 4, 5, 6, 7, 8]);
    assert_eq!(written(u64::MAX), vec![0xff; 8]);
    assert_eq!(written(i64::MIN), vec![0x80, 0, 0, 0, 0, 0, 0, 0]);
    assert_eq!(written(-1i64), vec![0xff; 8]);
}

#[test]
fn integers_read_back() {
    let bytes = [0xffu8, 0xff, 0xff, 0xfe, 9];
    let mut window = &bytes[..];
    assert_eq!(<i32 as FfiConverter<UniFfiTag>>::try_read(&mut window), Ok(-2));
    assert_eq!(window, &[9u8][..]);
    let mut window = &bytes[..];
    assert_eq!(<u32 as FfiConverter<UniFfiTag>>::try_read(&mut window), Ok(0xffff_fffe));
    let mut window = &bytes[..];
    assert_eq!(<u16 as FfiConverter<UniFfiTag>>::try_read(&mut window), Ok(0xffff));
    let mut window = &bytes[..];
    assert_eq!(<i16 as FfiConverter<UniFfiTag>>::try_read(&mut window), Ok(-1));
    let mut window = &bytes[..];
    assert_eq!(<i8 as FfiConverter<UniFfiTag>>::try_read(&mut window), Ok(-1));
    let mut window = &bytes[..];
    assert_eq!(<u8 as FfiConverter<UniFfiTag>>::try_read(&mut window), Ok(0xff));
    assert_eq!(window.len(), 4);
    let long = [0x80u8, 0, 0, 0, 0, 0, 0, 1];
    let mut window = &long[..];
    assert_eq!(<i64 as FfiConverter<UniFfiTag>>::try_read(&mut window), Ok(i64::MIN + 1));
    let mut window = &long[..];
    assert_eq!(
        <u64 as FfiConverter<UniFfiTag>>::try_read(&mut window),
        Ok(0x8000_0000_0000_0001)
    );
}

#[test]
fn integer_round_trips() {
    for value in [i64::MIN, -1, 0, 1, 0x1234_5678_9abc, i64::MAX] {
        let bytes = written(value);
        let mut window = &bytes[..];
        assert_eq!(<i64 as FfiConverter<UniFfiTag>>::try_read(&mut window), Ok(value));
        assert!(window.is_empty());
        assert_eq!(
            <i64 as FfiConverter<UniFfiTag>>::try_lift(<i64 as FfiConverter<UniFfiTag>>::lower(
                value
            )),
            Ok(value)
        );
    }
    for value in [i16::MIN, -300, 0, 300, i16::MAX] {
        let bytes = written(value);
        let mut window = &bytes[..];
        assert_eq!(<i16 as FfiConverter<UniFfiTag>>::try_read(&mut window), Ok(value));
        assert!(window.is_empty());
    }
}

#[test]
fn short_window_is_an_underflow() {
    let bytes = [1u8, 2, 3];
    let mut window = &bytes[..];
    assert_eq!(
        <u32 as FfiConverter<UniFfiTag>>::try_read(&mut window),
        Err(DecodeError::BufferUnderflow { remaining: 3, needed: 4 })
    );
    assert_eq!(window.len(), 3);
    assert_eq!(
        try_lift_from_rust_buffer::<UniFfiTag, Timestamp>(RustBuffer::from_vec(vec![0; 11])),
        Err(DecodeError::BufferUnderflow { remaining: 3, needed: 4 })
    );
}

#[test]
fn string_is_lowered_to_its_bytes() {
    let lowered = <String as FfiConverter<UniFfiTag>>::lower("h\u{e9}".to_string());
    assert_eq!(lowered.destroy_into_vec(), vec![0x68, 0xc3, 0xa9]);
    assert_eq!(
        <String as FfiConverter<UniFfiTag>>::try_lift(RustBuffer::from_vec(vec![0x68, 0xc3, 0xa9])),
        Ok("h\u{e9}".to_string())
    );
    assert_eq!(
        <String as FfiConverter<UniFfiTag>>::try_lift(RustBuffer::from_vec(vec![0x68, 0xc3])),
        Err(DecodeError::InvalidUtf8)
    );
    assert_eq!(
        <String as FfiConverter<UniFfiTag>>::try_lift(RustBuffer::new()),
        Ok(String::new())
    );
}

#[test]
fn string_is_written_with_its_length() {
    assert_eq!(written("h\u{e9}".to_string()), vec![0, 0, 0, 3, 0x68, 0xc3, 0xa9]);
    let bytes = [0u8, 0, 0, 2, b'o', b'k', b'!'];
    let mut window = &bytes[..];
    assert_eq!(
        <String as FfiConverter<UniFfiTag>>::try_read(&mut window),
        Ok("ok".to_string())
    );
    assert_eq!(window, &[b'!'][..]);
}

#[test]
fn malformed_strings_are_rejected() {
    let negative = [0xffu8, 0xff, 0xff, 0xff, b'a'];
    let mut window = &negative[..];
    assert_eq!(
        <String as FfiConverter<UniFfiTag>>::try_read(&mut window),
        Err(DecodeError::NegativeLength { length: -1 })
    );
    assert_eq!(window.len(), 5);
    let short = [0u8, 0, 0, 3, b'a'];
    let mut window = &short[..];
    assert_eq!(
        <String as FfiConverter<UniFfiTag>>::try_read(&mut window),
        Err(DecodeError::BufferUnderflow { remaining: 1, needed: 3 })
    );
    let broken = [0u8, 0, 0, 1, 0xff];
    let mut window = &broken[..];
    assert_eq!(
        <String as FfiConverter<UniFfiTag>>::try_read(&mut window),
        Err(DecodeError::InvalidUtf8)
    );
    assert_eq!(window.len(), 5);
}

#[test]
fn optional_values() {
    assert_eq!(written(None::<u16>), vec![0]);
    assert_eq!(written(Some(0x0102u16)), vec![1, 1, 2]);
    let lowered = <Option<u16> as FfiConverter<UniFfiTag>>::lower(Some(7));
    assert_eq!(
        <Option<u16> as FfiConverter<UniFfiTag>>::try_lift(lowered),
        Ok(Some(7))
    );
    assert_eq!(
        <Option<u16> as FfiConverter<UniFfiTag>>::try_lift(RustBuffer::from_vec(vec![0])),
        Ok(None)
    );
    assert_eq!(
        <Option<u16> as FfiConverter<UniFfiTag>>::try_lift(RustBuffer::from_vec(vec![2, 0, 0])),
        Err(DecodeError::InvalidOptionTag { tag: 2 })
    );
    assert_eq!(
        <Option<u16> as FfiConverter<UniFfiTag>>::try_lift(RustBuffer::from_vec(vec![1, 0])),
        Err(DecodeError::BufferUnderflow { remaining: 1, needed: 2 })
    );
    assert_eq!(
        <Option<u16> as FfiConverter<UniFfiTag>>::try_lift(RustBuffer::from_vec(vec![0, 0])),
        Err(DecodeError::TrailingData { remaining: 1 })
    );
}

#[test]
fn sequences() {
    let names = vec!["a".to_string(), "bc".to_string()];
    assert_eq!(
        written(names.clone()),
        vec![0, 0, 0, 2, 0, 0, 0, 1, b'a', 0, 0, 0, 2, b'b', b'c']
    );
    let lowered = <Vec<String> as FfiConverter<UniFfiTag>>::lower(names.clone());
    assert_eq!(lowered.len(), 15);
    assert_eq!(
        <Vec<String> as FfiConverter<UniFfiTag>>::try_lift(lowered),
        Ok(names)
    );
    assert_eq!(written(Vec::<u8>::new()), vec![0, 0, 0, 0]);
    assert_eq!(
        <Vec<u8> as FfiConverter<UniFfiTag>>::try_lift(RustBuffer::from_vec(vec![0, 0, 0, 2, 5])),
        Err(DecodeError::BufferUnderflow { remaining: 0, needed: 1 })
    );
    assert_eq!(
        <Vec<u8> as FfiConverter<UniFfiTag>>::try_lift(RustBuffer::from_vec(vec![
            0xff, 0xff, 0xff, 0xfe
        ])),
        Err(DecodeError::NegativeLength { length: -2 })
    );
    let nested = vec![Some(vec![1u8, 2]), None];
    let lowered = <Vec<Option<Vec<u8>>> as FfiConverter<UniFfiTag>>::lower(nested.clone());
    assert_eq!(
        <Vec<Option<Vec<u8>>> as FfiConverter<UniFfiTag>>::try_lift(lowered),
        Ok(nested)
    );
}

#[test]
fn encoded_lengths() {
    assert_eq!(<u64 as FfiConverter<UniFfiTag>>::encoded_len(&1), Some(8));
    assert_eq!(<bool as FfiConverter<UniFfiTag>>::encoded_len(&true), Some(1));
    assert_eq!(
        <String as FfiConverter<UniFfiTag>>::encoded_len(&"abc".to_string()),
        Some(7)
    );
    assert_eq!(
        <Option<i16> as FfiConverter<UniFfiTag>>::encoded_len(&Some(3)),
        Some(3)
    );
    assert_eq!(
        <Vec<i16> as FfiConverter<UniFfiTag>>::encoded_len(&vec![3, 4]),
        Some(8)
    );
    assert_eq!(
        <Timestamp as FfiConverter<UniFfiTag>>::encoded_len(&Timestamp { seconds: 0, nanos: 0 }),
        Some(12)
    );
    assert!(<Vec<i16> as FfiConverter<UniFfiTag>>::can_lower(&vec![3, 4]));
    assert!(<String as FfiConverter<UniFfiTag>>::can_lower(&"abc".to_string()));
}

#[test]
fn one_trailing_byte_fails_the_lift_and_not_the_read() {
    let mut bytes = written(vec![Some(0x0102u16), None]);
    let whole = bytes.len();
    let value = try_lift_from_rust_buffer::<UniFfiTag, Vec<Option<u16>>>(RustBuffer::from_vec(
        bytes.clone(),
    ));
    assert_eq!(value, Ok(vec![Some(0x0102u16), None]));
    bytes.push(0x55);
    let mut window = &bytes[..];
    assert_eq!(
        <Vec<Option<u16>> as FfiConverter<UniFfiTag>>::try_read(&mut window),
        Ok(vec![Some(0x0102u16), None])
    );
    assert_eq!(window, &[0x55u8][..]);
    assert_eq!(bytes.len(), whole + 1);
    assert_eq!(
        try_lift_from_rust_buffer::<UniFfiTag, Vec<Option<u16>>>(RustBuffer::from_vec(bytes)),
        Err(DecodeError::TrailingData { remaining: 1 })
    );
}

#[test]
fn bytes_of_one_tag_are_read_under_another() {
    let value = vec![Some("x".to_string()), None];
    let first = <Vec<Option<String>> as FfiConverter<FirstTag>>::lower(value.clone());
    assert_eq!(
        <Vec<Option<String>> as FfiConverter<SecondTag>>::try_lift(first),
        Ok(value.clone())
    );
    let second = <Vec<Option<String>> as FfiConverter<SecondTag>>::lower(value.clone());
    assert_eq!(
        <Vec<Option<String>> as FfiConverter<FirstTag>>::try_lift(second),
        Ok(value)
    );
}

#[test]
fn wire_form_of_a_distance_from_the_epoch() {
    assert_eq!(
        Timestamp::from_epoch_distance(true, 100, 7),
        Some(Timestamp { seconds: 100, nanos: 7 })
    );
    assert_eq!(
        Timestamp::from_epoch_distance(false, 100, 7),
        Some(Timestamp { seconds: -100, nanos: 7 })
    );
    assert_eq!(
        Timestamp::from_epoch_distance(false, 0, 7),
        Some(Timestamp { seconds: 0, nanos: 7 })
    );
    assert_eq!(
        Timestamp::from_epoch_distance(true, 0x7fff_ffff_ffff_ffff, 0),
        Some(Timestamp { seconds: i64::MAX, nanos: 0 })
    );
    assert_eq!(
        Timestamp::from_epoch_distance(false, 0x7fff_ffff_ffff_ffff, 0),
        Some(Timestamp { seconds: -i64::MAX, nanos: 0 })
    );
    assert_eq!(Timestamp::from_epoch_distance(true, 0x8000_0000_0000_0000, 0), None);
    assert_eq!(Timestamp::from_epoch_distance(false, u64::MAX, 0), None);
}

#[test]
fn distance_of_a_wire_form_from_the_epoch() {
    assert_eq!(
        Timestamp { seconds: 100, nanos: 7 }.epoch_distance(),
        Some((true, 100, 7))
    );
    assert_eq!(
        Timestamp { seconds: -100, nanos: 7 }.epoch_distance(),
        Some((false, 100, 7))
    );
    assert_eq!(
        Timestamp { seconds: 0, nanos: 999_999_999 }.epoch_distance(),
        Some((true, 0, 999_999_999))
    );
    assert_eq!(
        Timestamp { seconds: i64::MIN, nanos: 0 }.epoch_distance(),
        Some((false, 0x8000_0000_0000_0000, 0))
    );
    assert_eq!(Timestamp { seconds: 5, nanos: 1_000_000_000 }.epoch_distance(), None);
    assert_eq!(Timestamp { seconds: -5, nanos: u32::MAX }.epoch_distance(), None);
}
