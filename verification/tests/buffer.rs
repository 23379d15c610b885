use uniffi_core::{check_descriptor, descriptor_fields, DescriptorError, RustBuffer};

#[test]
fn buffer_gives_its_bytes_back() {
    let bytes = vec![3u8, 1, 4, 1, 5, 9, 2, 6];
    let buffer = RustBuffer::from_vec(bytes.clone());
    assert_eq!(buffer.len(), 8);
    assert!(!buffer.is_empty());
    assert_eq!(buffer.destroy_into_vec(), bytes);
}

#[test]
fn empty_buffer_gives_no_bytes_back() {
    let buffer = RustBuffer::from_vec(Vec::new());
    assert_eq!(buffer.len(), 0);
    assert!(buffer.is_empty());
    assert_eq!(buffer.destroy_into_vec(), Vec::<u8>::new());
    assert_eq!(RustBuffer::new().destroy_into_vec(), Vec::<u8>::new());
}

#[test]
fn well_formed_descriptors_are_accepted() {
    assert_eq!(check_descriptor(0, 0, true), Ok((0, 0)));
    assert_eq!(check_descriptor(0, 0, false), Ok((0, 0)));
    assert_eq!(check_descriptor(16, 3, false), Ok((16, 3)));
    assert_eq!(check_descriptor(16, 16, false), Ok((16, 16)));
    assert_eq!(check_descriptor(i32::MAX, i32::MAX, false), Ok((0x7fff_ffff, 0x7fff_ffff)));
}

#[test]
fn malformed_descriptors_are_rejected() {
    assert_eq!(check_descriptor(1, 0, true), Err(DescriptorError::NullWithCapacity));
    assert_eq!(check_descriptor(-1, 5, true), Err(DescriptorError::NullWithCapacity));
    assert_eq!(check_descriptor(0, 1, true), Err(DescriptorError::NullWithLength));
    assert_eq!(check_descriptor(-1, 0, false), Err(DescriptorError::CapacityOutOfRange));
    assert_eq!(check_descriptor(-1, -1, false), Err(DescriptorError::CapacityOutOfRange));
    assert_eq!(check_descriptor(4, -1, false), Err(DescriptorError::LengthOutOfRange));
    assert_eq!(check_descriptor(4, 5, false), Err(DescriptorError::LengthExceedsCapacity));
}

#[test]
fn descriptor_of_an_allocation() {
    assert_eq!(descriptor_fields(0, 0), Ok((0, 0)));
    assert_eq!(descriptor_fields(64, 10), Ok((64, 10)));
    assert_eq!(descriptor_fields(0x7fff_ffff, 1), Ok((i32::MAX, 1)));
    assert_eq!(
        descriptor_fields(0x8000_0000, 1),
        Err(DescriptorError::CapacityOutOfRange)
    );
}
