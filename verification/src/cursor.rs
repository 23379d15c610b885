//! Bounds-checked reads from a window of bytes.
//!
//! A cursor is a `&mut &[u8]`: reading moves the start of the window forward
//! and never changes the bytes themselves.

use crate::error::DecodeError;
use vstd::prelude::*;

verus! {

/// `bytes::Buf::remaining` on a byte slice: the number of bytes between the
/// start of the window and its end, which for a slice is its length.
#[verifier::external_body]
pub(crate) fn remaining(buf: &[u8]) -> (n: usize)
    ensures
        n == buf@.len(),
{
    bytes::Buf::remaining(&buf)
}

/// `bytes::Buf::advance` on a byte slice: drops the first `cnt` bytes of the
/// window. The call panics when fewer than `cnt` bytes are left, which the
/// precondition rules out.
#[verifier::external_body]
pub(crate) fn advance(buf: &mut &[u8], cnt: usize)
    requires
        cnt <= old(buf)@.len(),
    ensures
        final(buf)@ == old(buf)@.skip(cnt as int),
{
    bytes::Buf::advance(buf, cnt)
}

/// What [`check_remaining`] answers for a window of `remaining` bytes.
pub open spec fn remaining_check(remaining: nat, num_bytes: nat) -> Result<(), DecodeError> {
    if remaining < num_bytes {
        Err(DecodeError::BufferUnderflow { remaining: remaining as usize, needed: num_bytes as usize })
    } else {
        Ok(())
    }
}

/// Looks before a read leaps: succeeds exactly when at least `num_bytes`
/// bytes remain in `buf`, and otherwise reports how many were there.
pub fn check_remaining(buf: &[u8], num_bytes: usize) -> (r: Result<(), DecodeError>)
    ensures
        r == remaining_check(buf@.len(), num_bytes as nat),
        r is Ok <==> num_bytes <= buf@.len(),
{
    let left = remaining(buf);
    if left < num_bytes {
        return Err(DecodeError::BufferUnderflow { remaining: left, needed: num_bytes });
    }
    Ok(())
}

} // verus!
