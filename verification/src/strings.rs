//! The conversion of `String`.
//!
//! A string is lowered to a buffer of its UTF-8 bytes. Among other values it
//! is written as the number of those bytes, a signed 32-bit integer, and
//! then the bytes.

use crate::buffer::RustBuffer;
use crate::converter::FfiConverter;
use crate::cursor::{check_remaining, remaining_check};
use crate::error::DecodeError;
use crate::wire::{lemma_be_bytes_len, to_unsigned};
use vstd::prelude::*;
use vstd::slice::slice_to_vec;
use vstd::utf8::*;

verus! {

/// `String::from_utf8`: the text that the bytes encode, where they are
/// UTF-8, and nothing where they are not.
#[verifier::external_body]
fn string_from_utf8(bytes: Vec<u8>) -> (r: Option<String>)
    ensures
        r is Some <==> valid_utf8(bytes@),
        r matches Some(s) ==> s@ == decode_utf8(bytes@),
{
    String::from_utf8(bytes).ok()
}

/// The text that some bytes encode.
pub open spec fn text_of(bytes: Seq<u8>) -> Result<Seq<char>, DecodeError> {
    if valid_utf8(bytes) {
        Ok(decode_utf8(bytes))
    } else {
        Err(DecodeError::InvalidUtf8)
    }
}

/// The text in `len` bytes that follow a length prefix of `n` bytes.
pub open spec fn read_text(bytes: Seq<u8>, n: int, len: i32) -> Result<(Seq<char>, int), DecodeError> {
    if len < 0 {
        Err(DecodeError::NegativeLength { length: len })
    } else {
        match remaining_check((bytes.len() - n) as nat, len as nat) {
            Err(e) => Err(e),
            Ok(_) => match text_of(bytes.subrange(n, n + len)) {
                Ok(t) => Ok((t, n + len)),
                Err(e) => Err(e),
            },
        }
    }
}

/// Builds the text of some bytes.
fn text_from(bytes: Vec<u8>) -> (r: Result<String, DecodeError>)
    ensures
        match text_of(bytes@) {
            Ok(t) => r matches Ok(s) && s@ == t,
            Err(e) => r matches Err(f) && f == e,
        },
{
    match string_from_utf8(bytes) {
        Some(s) => Ok(s),
        None => Err(DecodeError::InvalidUtf8),
    }
}

impl<UT> FfiConverter<UT> for String {
    type FfiType = RustBuffer;

    open spec fn writable(v: Seq<char>) -> bool {
        encode_utf8(v).len() <= i32::MAX
    }

    open spec fn lowerable(v: Seq<char>) -> bool {
        encode_utf8(v).len() <= i32::MAX
    }

    open spec fn lowered(v: Seq<char>) -> Seq<u8> {
        encode_utf8(v)
    }

    open spec fn lifted(r: Seq<u8>) -> Result<Seq<char>, DecodeError> {
        text_of(r)
    }

    open spec fn written(v: Seq<char>) -> Seq<u8> {
        <i32 as FfiConverter<UT>>::written(encode_utf8(v).len() as i32) + encode_utf8(v)
    }

    open spec fn read(bytes: Seq<u8>) -> Result<(Seq<char>, int), DecodeError> {
        match <i32 as FfiConverter<UT>>::read(bytes) {
            Ok((len, n)) => read_text(bytes, n, len),
            Err(e) => Err(e),
        }
    }

    proof fn lift_inverts_lower(v: Seq<char>) {
        encode_utf8_valid_utf8(v);
        encode_utf8_decode_utf8(v);
    }

    proof fn read_inverts_write(v: Seq<char>, rest: Seq<u8>) {
        let body = encode_utf8(v);
        let prefix = <i32 as FfiConverter<UT>>::written(body.len() as i32);
        <i32 as FfiConverter<UT>>::read_inverts_write(body.len() as i32, body + rest);
        assert(prefix + (body + rest) == (prefix + body) + rest);
        assert((prefix + body + rest).subrange(prefix.len() as int, (prefix.len() + body.len()) as int) == body);
        encode_utf8_valid_utf8(v);
        encode_utf8_decode_utf8(v);
    }

    proof fn read_stays_in_bounds(bytes: Seq<u8>) {
    }

    fn encoded_len(obj: &String) -> Option<usize> {
        let n = obj.as_str().as_bytes().len();
        if n <= 0x7fff_ffff - 4 {
            proof {
                lemma_be_bytes_len(to_unsigned(n as int, 4), 4);
            }
            Some(n + 4)
        } else {
            proof {
                if n <= i32::MAX {
                    lemma_be_bytes_len(to_unsigned(n as int, 4), 4);
                }
            }
            None
        }
    }

    fn can_lower(obj: &String) -> bool {
        obj.as_str().as_bytes().len() <= 0x7fff_ffff
    }

    fn lower(obj: String) -> RustBuffer {
        RustBuffer::from_vec(slice_to_vec(obj.as_str().as_bytes()))
    }

    fn try_lift(v: RustBuffer) -> Result<String, DecodeError> {
        text_from(v.destroy_into_vec())
    }

    fn write(obj: String, buf: &mut Vec<u8>) {
        let bytes = obj.as_str().as_bytes();
        <i32 as FfiConverter<UT>>::write(bytes.len() as i32, buf);
        buf.extend_from_slice(bytes);
    }

    fn try_read(buf: &mut &[u8]) -> Result<String, DecodeError> {
        let mut ahead: &[u8] = *buf;
        let len = <i32 as FfiConverter<UT>>::try_read(&mut ahead)?;
        if len < 0 {
            return Err(DecodeError::NegativeLength { length: len });
        }
        check_remaining(ahead, len as usize)?;
        let (body, rest) = ahead.split_at(len as usize);
        let ghost n = buf@.len() - ahead@.len();
        assert(body@ == buf@.subrange(n, n + len));
        let text = text_from(slice_to_vec(body))?;
        *buf = rest;
        Ok(text)
    }
}

} // verus!
