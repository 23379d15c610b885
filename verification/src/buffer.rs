//! The owned byte buffer that carries compound values across the boundary.

use vstd::prelude::*;

verus! {

/// An owned sequence of bytes whose length fits the 32-bit signed length
/// field of the descriptor that is handed to the foreign side.
///
/// A buffer has exactly one owner at a time: it is made from bytes by
/// [`RustBuffer::from_vec`] and gives them up again, once, in
/// [`RustBuffer::destroy_into_vec`].
#[derive(Debug)]
pub struct RustBuffer {
    data: Vec<u8>,
}

impl View for RustBuffer {
    type V = Seq<u8>;

    closed spec fn view(&self) -> Seq<u8> {
        self.data@
    }
}

impl DeepView for RustBuffer {
    type V = Seq<u8>;

    open spec fn deep_view(&self) -> Seq<u8> {
        self@
    }
}

impl RustBuffer {
    #[verifier::type_invariant]
    spec fn length_fits(self) -> bool {
        self.data@.len() <= i32::MAX
    }

    /// The empty buffer.
    pub fn new() -> (r: RustBuffer)
        ensures
            r@ == Seq::<u8>::empty(),
    {
        RustBuffer { data: Vec::new() }
    }

    /// Takes ownership of `v` as a buffer with the same bytes.
    pub fn from_vec(v: Vec<u8>) -> (r: RustBuffer)
        requires
            v@.len() <= i32::MAX,
        ensures
            r@ == v@,
    {
        RustBuffer { data: v }
    }

    /// The number of bytes in the buffer, as the descriptor states it.
    pub fn len(&self) -> (n: i32)
        ensures
            n == self@.len(),
    {
        proof {
            use_type_invariant(self);
        }
        self.data.len() as i32
    }

    /// Whether the buffer holds no byte.
    pub fn is_empty(&self) -> (r: bool)
        ensures
            r == (self@.len() == 0),
    {
        self.data.len() == 0
    }

    /// Gives the bytes back and ends the buffer.
    pub fn destroy_into_vec(self) -> (v: Vec<u8>)
        ensures
            v@ == self@,
            v@.len() <= i32::MAX,
    {
        proof {
            use_type_invariant(&self);
        }
        self.data
    }
}

/// Whatever `from_vec` makes of some bytes, `destroy_into_vec` makes of it
/// the same bytes again.
pub proof fn buffer_keeps_bytes(v: Vec<u8>, b: RustBuffer, w: Vec<u8>)
    requires
        call_ensures(RustBuffer::from_vec, (v,), b),
        call_ensures(RustBuffer::destroy_into_vec, (b,), w),
    ensures
        w@ == v@,
{
}

/// What is wrong with the fields of a buffer descriptor.
#[derive(Debug, Clone, Copy, PartialEq, Eq, Structural)]
pub enum DescriptorError {
    /// The pointer is null and the capacity is not zero.
    NullWithCapacity,
    /// The pointer is null and the length is not zero.
    NullWithLength,
    /// The capacity is negative, or too large for the descriptor.
    CapacityOutOfRange,
    /// The length is negative, or too large for the descriptor.
    LengthOutOfRange,
    /// More bytes are said to be in use than are allocated.
    LengthExceedsCapacity,
}

/// The fields of a descriptor are well formed: the length is not negative
/// and not above the capacity, and a null pointer goes with a capacity of
/// zero only.
pub open spec fn well_formed(capacity: i32, len: i32, is_null: bool) -> bool {
    0 <= len <= capacity && (is_null ==> capacity == 0)
}

/// What is wrong with the fields of a descriptor that the foreign side
/// handed back, the first fault first.
pub open spec fn descriptor_fault(capacity: i32, len: i32, is_null: bool) -> Option<DescriptorError> {
    if is_null && capacity != 0 {
        Some(DescriptorError::NullWithCapacity)
    } else if is_null && len != 0 {
        Some(DescriptorError::NullWithLength)
    } else if capacity < 0 {
        Some(DescriptorError::CapacityOutOfRange)
    } else if len < 0 {
        Some(DescriptorError::LengthOutOfRange)
    } else if len > capacity {
        Some(DescriptorError::LengthExceedsCapacity)
    } else {
        None
    }
}

/// Checks the fields of a descriptor that the foreign side handed back,
/// before any byte is reached through it, and gives the capacity and the
/// length as sizes.
pub fn check_descriptor(capacity: i32, len: i32, is_null: bool) -> (r: Result<
    (usize, usize),
    DescriptorError,
>)
    ensures
        r is Ok <==> well_formed(capacity, len, is_null),
        match descriptor_fault(capacity, len, is_null) {
            Some(e) => r == Err::<(usize, usize), DescriptorError>(e),
            None => r == Ok::<(usize, usize), DescriptorError>((capacity as usize, len as usize)),
        },
{
    if is_null && capacity != 0 {
        Err(DescriptorError::NullWithCapacity)
    } else if is_null && len != 0 {
        Err(DescriptorError::NullWithLength)
    } else if capacity < 0 {
        Err(DescriptorError::CapacityOutOfRange)
    } else if len < 0 {
        Err(DescriptorError::LengthOutOfRange)
    } else if len > capacity {
        Err(DescriptorError::LengthExceedsCapacity)
    } else {
        Ok((capacity as usize, len as usize))
    }
}

/// The fields of the descriptor of an allocation of `capacity` bytes of
/// which `len` are in use, where both fit: the capacity, then the length.
pub fn descriptor_fields(capacity: usize, len: usize) -> (r: Result<(i32, i32), DescriptorError>)
    requires
        len <= capacity,
    ensures
        r is Ok <==> capacity <= i32::MAX,
        r matches Ok((c, l)) ==> c == capacity && l == len && well_formed(c, l, false),
        r matches Err(e) ==> e == DescriptorError::CapacityOutOfRange,
{
    if capacity > 0x7fff_ffff {
        Err(DescriptorError::CapacityOutOfRange)
    } else {
        Ok((capacity as i32, len as i32))
    }
}

} // verus!
