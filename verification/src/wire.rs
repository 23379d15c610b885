//! The fixed-width integer format of the wire: big-endian, two's complement.

use crate::cursor::{advance, check_remaining};
use crate::error::DecodeError;
use vstd::prelude::*;

verus! {

/// 256 to the power `width`: the number of values that `width` bytes hold.
pub open spec fn pow256(width: nat) -> nat
    decreases width,
{
    if width == 0 {
        1
    } else {
        256 * pow256((width - 1) as nat)
    }
}

/// The `width` bytes of `v`, most significant first. A larger `v` loses its
/// high part.
pub open spec fn be_bytes(v: nat, width: nat) -> Seq<u8>
    decreases width,
{
    if width == 0 {
        Seq::empty()
    } else {
        be_bytes(v / 256, (width - 1) as nat).push((v % 256) as u8)
    }
}

/// The number whose bytes, most significant first, are `bytes`.
pub open spec fn be_value(bytes: Seq<u8>) -> nat
    decreases bytes.len(),
{
    if bytes.len() == 0 {
        0
    } else {
        be_value(bytes.drop_last()) * 256 + bytes.last() as nat
    }
}

/// The unsigned number that stands for `v` in two's complement of `width`
/// bytes.
pub open spec fn to_unsigned(v: int, width: nat) -> nat {
    if v < 0 {
        (v + pow256(width)) as nat
    } else {
        v as nat
    }
}

/// The signed number that `u` stands for in two's complement of `width`
/// bytes.
pub open spec fn to_signed(u: nat, width: nat) -> int {
    if 2 * u >= pow256(width) {
        u - pow256(width)
    } else {
        u as int
    }
}

/// The number at the start of a window, with its width, or the underflow
/// that a window shorter than `width` gives.
pub open spec fn read_be(bytes: Seq<u8>, width: nat) -> Result<(nat, int), DecodeError> {
    if bytes.len() < width {
        Err(DecodeError::BufferUnderflow { remaining: bytes.len() as usize, needed: width as usize })
    } else {
        Ok((be_value(bytes.take(width as int)), width as int))
    }
}

/// The powers of 256 that the integer types use.
pub proof fn lemma_pow256_values()
    ensures
        pow256(0) == 1,
        pow256(1) == 0x100,
        pow256(2) == 0x1_0000,
        pow256(4) == 0x1_0000_0000,
        pow256(8) == 0x1_0000_0000_0000_0000,
{
    reveal_with_fuel(pow256, 9);
}

/// A number has as many bytes as its width.
pub proof fn lemma_be_bytes_len(v: nat, width: nat)
    ensures
        be_bytes(v, width).len() == width,
    decreases width,
{
    if width > 0 {
        lemma_be_bytes_len(v / 256, (width - 1) as nat);
    }
}

/// The value of `n` bytes is below 256 to the `n`.
pub proof fn lemma_be_value_bound(bytes: Seq<u8>)
    ensures
        be_value(bytes) < pow256(bytes.len()),
    decreases bytes.len(),
{
    if bytes.len() > 0 {
        lemma_be_value_bound(bytes.drop_last());
    }
}

/// The bytes of a number that fits its width have that number as value.
pub proof fn lemma_be_value_of_bytes(v: nat, width: nat)
    requires
        v < pow256(width),
    ensures
        be_value(be_bytes(v, width)) == v,
    decreases width,
{
    if width > 0 {
        let high = be_bytes(v / 256, (width - 1) as nat);
        lemma_be_value_of_bytes(v / 256, (width - 1) as nat);
        assert(be_bytes(v, width).drop_last() == high);
    }
}

/// Reading the bytes of a number gives the number back, whatever follows.
pub proof fn lemma_read_be_of_bytes(v: nat, width: nat, rest: Seq<u8>)
    requires
        v < pow256(width),
    ensures
        be_bytes(v, width).len() == width,
        read_be(be_bytes(v, width) + rest, width) == Ok::<(nat, int), DecodeError>((v, width as int)),
{
    lemma_be_bytes_len(v, width);
    lemma_be_value_of_bytes(v, width);
    assert((be_bytes(v, width) + rest).take(width as int) == be_bytes(v, width));
}

/// Appends the `width` bytes of `v`, most significant first.
pub(crate) fn put_be(buf: &mut Vec<u8>, v: u64, width: usize)
    requires
        width <= 8,
    ensures
        final(buf)@ == old(buf)@ + be_bytes(v as nat, width as nat),
    decreases width,
{
    if width > 0 {
        put_be(buf, v / 256, width - 1);
        buf.push((v % 256) as u8);
    }
}

/// Takes the number in the first `width` bytes of the window.
pub(crate) fn get_be(buf: &mut &[u8], width: usize) -> (u: u64)
    requires
        width <= 8,
        width <= old(buf)@.len(),
    ensures
        u == be_value(old(buf)@.take(width as int)),
        final(buf)@ == old(buf)@.skip(width as int),
{
    let mut acc: u64 = 0;
    let mut i: usize = 0;
    while i < width
        invariant
            i <= width <= 8,
            width <= buf@.len(),
            acc == be_value(buf@.take(i as int)),
            *buf == *old(buf),
        decreases width - i,
    {
        proof {
            let next = buf@.take(i + 1);
            assert(next.drop_last() == buf@.take(i as int));
            lemma_be_value_bound(next);
            lemma_pow256_le(i as nat + 1);
        }
        acc = acc * 256 + buf[i] as u64;
        i += 1;
    }
    advance(buf, width);
    acc
}

/// Up to eight bytes hold no more than a `u64`.
proof fn lemma_pow256_le(width: nat)
    requires
        width <= 8,
    ensures
        pow256(width) <= 0x1_0000_0000_0000_0000,
{
    reveal_with_fuel(pow256, 9);
}

/// Reads a number of `width` bytes, or reports that the window is too short.
pub(crate) fn try_get_be(buf: &mut &[u8], width: usize) -> (r: Result<u64, DecodeError>)
    requires
        width <= 8,
    ensures
        match read_be(old(buf)@, width as nat) {
            Ok((u, n)) => r == Ok::<u64, DecodeError>(u as u64) && u < pow256(width as nat)
                && final(buf)@ == old(buf)@.skip(n),
            Err(e) => r == Err::<u64, DecodeError>(e) && final(buf)@ == old(buf)@,
        },
{
    check_remaining(*buf, width)?;
    proof {
        lemma_be_value_bound(buf@.take(width as int));
    }
    Ok(get_be(buf, width))
}

} // verus!
