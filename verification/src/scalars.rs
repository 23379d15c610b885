//! The conversions of the integer types and of `bool`.
//!
//! An integer is its own representation, and its bytes are its value in
//! big-endian two's complement. A boolean is the signed byte 0 or 1.

use crate::converter::FfiConverter;
use crate::error::DecodeError;
use crate::wire::{
    be_bytes, lemma_pow256_values, lemma_read_be_of_bytes, put_be, read_be, to_signed, to_unsigned,
    try_get_be,
};
use vstd::prelude::*;

verus! {

impl<UT> FfiConverter<UT> for u8 {
    type FfiType = u8;

    open spec fn writable(v: u8) -> bool {
        true
    }

    open spec fn lowerable(v: u8) -> bool {
        true
    }

    open spec fn lowered(v: u8) -> u8 {
        v
    }

    open spec fn lifted(r: u8) -> Result<u8, DecodeError> {
        Ok(r)
    }

    open spec fn written(v: u8) -> Seq<u8> {
        be_bytes(v as nat, 1)
    }

    open spec fn read(bytes: Seq<u8>) -> Result<(u8, int), DecodeError> {
        match read_be(bytes, 1) {
            Ok((u, n)) => Ok((u as u8, n)),
            Err(e) => Err(e),
        }
    }

    proof fn lift_inverts_lower(v: u8) {
    }

    proof fn read_inverts_write(v: u8, rest: Seq<u8>) {
        lemma_pow256_values();
        lemma_read_be_of_bytes(v as nat, 1, rest);
    }

    proof fn read_stays_in_bounds(bytes: Seq<u8>) {
    }

    fn encoded_len(obj: &u8) -> Option<usize> {
        proof {
            lemma_pow256_values();
            lemma_read_be_of_bytes(*obj as nat, 1, Seq::empty());
        }
        Some(1)
    }

    fn can_lower(obj: &u8) -> bool {
        true
    }

    fn lower(obj: u8) -> u8 {
        obj
    }

    fn try_lift(v: u8) -> Result<u8, DecodeError> {
        Ok(v)
    }

    fn write(obj: u8, buf: &mut Vec<u8>) {
        put_be(buf, obj as u64, 1);
    }

    fn try_read(buf: &mut &[u8]) -> Result<u8, DecodeError> {
        proof {
            lemma_pow256_values();
        }
        let u = try_get_be(buf, 1)?;
        Ok(u as u8)
    }
}

impl<UT> FfiConverter<UT> for u16 {
    type FfiType = u16;

    open spec fn writable(v: u16) -> bool {
        true
    }

    open spec fn lowerable(v: u16) -> bool {
        true
    }

    open spec fn lowered(v: u16) -> u16 {
        v
    }

    open spec fn lifted(r: u16) -> Result<u16, DecodeError> {
        Ok(r)
    }

    open spec fn written(v: u16) -> Seq<u8> {
        be_bytes(v as nat, 2)
    }

    open spec fn read(bytes: Seq<u8>) -> Result<(u16, int), DecodeError> {
        match read_be(bytes, 2) {
            Ok((u, n)) => Ok((u as u16, n)),
            Err(e) => Err(e),
        }
    }

    proof fn lift_inverts_lower(v: u16) {
    }

    proof fn read_inverts_write(v: u16, rest: Seq<u8>) {
        lemma_pow256_values();
        lemma_read_be_of_bytes(v as nat, 2, rest);
    }

    proof fn read_stays_in_bounds(bytes: Seq<u8>) {
    }

    fn encoded_len(obj: &u16) -> Option<usize> {
        proof {
            lemma_pow256_values();
            lemma_read_be_of_bytes(*obj as nat, 2, Seq::empty());
        }
        Some(2)
    }

    fn can_lower(obj: &u16) -> bool {
        true
    }

    fn lower(obj: u16) -> u16 {
        obj
    }

    fn try_lift(v: u16) -> Result<u16, DecodeError> {
        Ok(v)
    }

    fn write(obj: u16, buf: &mut Vec<u8>) {
        put_be(buf, obj as u64, 2);
    }

    fn try_read(buf: &mut &[u8]) -> Result<u16, DecodeError> {
        proof {
            lemma_pow256_values();
        }
        let u = try_get_be(buf, 2)?;
        Ok(u as u16)
    }
}

impl<UT> FfiConverter<UT> for u32 {
    type FfiType = u32;

    open spec fn writable(v: u32) -> bool {
        true
    }

    open spec fn lowerable(v: u32) -> bool {
        true
    }

    open spec fn lowered(v: u32) -> u32 {
        v
    }

    open spec fn lifted(r: u32) -> Result<u32, DecodeError> {
        Ok(r)
    }

    open spec fn written(v: u32) -> Seq<u8> {
        be_bytes(v as nat, 4)
    }

    open spec fn read(bytes: Seq<u8>) -> Result<(u32, int), DecodeError> {
        match read_be(bytes, 4) {
            Ok((u, n)) => Ok((u as u32, n)),
            Err(e) => Err(e),
        }
    }

    proof fn lift_inverts_lower(v: u32) {
    }

    proof fn read_inverts_write(v: u32, rest: Seq<u8>) {
        lemma_pow256_values();
        lemma_read_be_of_bytes(v as nat, 4, rest);
    }

    proof fn read_stays_in_bounds(bytes: Seq<u8>) {
    }

    fn encoded_len(obj: &u32) -> Option<usize> {
        proof {
            lemma_pow256_values();
            lemma_read_be_of_bytes(*obj as nat, 4, Seq::empty());
        }
        Some(4)
    }

    fn can_lower(obj: &u32) -> bool {
        true
    }

    fn lower(obj: u32) -> u32 {
        obj
    }

    fn try_lift(v: u32) -> Result<u32, DecodeError> {
        Ok(v)
    }

    fn write(obj: u32, buf: &mut Vec<u8>) {
        put_be(buf, obj as u64, 4);
    }

    fn try_read(buf: &mut &[u8]) -> Result<u32, DecodeError> {
        proof {
            lemma_pow256_values();
        }
        let u = try_get_be(buf, 4)?;
        Ok(u as u32)
    }
}

impl<UT> FfiConverter<UT> for u64 {
    type FfiType = u64;

    open spec fn writable(v: u64) -> bool {
        true
    }

    open spec fn lowerable(v: u64) -> bool {
        true
    }

    open spec fn lowered(v: u64) -> u64 {
        v
    }

    open spec fn lifted(r: u64) -> Result<u64, DecodeError> {
        Ok(r)
    }

    open spec fn written(v: u64) -> Seq<u8> {
        be_bytes(v as nat, 8)
    }

    open spec fn read(bytes: Seq<u8>) -> Result<(u64, int), DecodeError> {
        match read_be(bytes, 8) {
            Ok((u, n)) => Ok((u as u64, n)),
            Err(e) => Err(e),
        }
    }

    proof fn lift_inverts_lower(v: u64) {
    }

    proof fn read_inverts_write(v: u64, rest: Seq<u8>) {
        lemma_pow256_values();
        lemma_read_be_of_bytes(v as nat, 8, rest);
    }

    proof fn read_stays_in_bounds(bytes: Seq<u8>) {
    }

    fn encoded_len(obj: &u64) -> Option<usize> {
        proof {
            lemma_pow256_values();
            lemma_read_be_of_bytes(*obj as nat, 8, Seq::empty());
        }
        Some(8)
    }

    fn can_lower(obj: &u64) -> bool {
        true
    }

    fn lower(obj: u64) -> u64 {
        obj
    }

    fn try_lift(v: u64) -> Result<u64, DecodeError> {
        Ok(v)
    }

    fn write(obj: u64, buf: &mut Vec<u8>) {
        put_be(buf, obj as u64, 8);
    }

    fn try_read(buf: &mut &[u8]) -> Result<u64, DecodeError> {
        let u = try_get_be(buf, 8)?;
        Ok(u as u64)
    }
}

impl<UT> FfiConverter<UT> for i8 {
    type FfiType = i8;

    open spec fn writable(v: i8) -> bool {
        true
    }

    open spec fn lowerable(v: i8) -> bool {
        true
    }

    open spec fn lowered(v: i8) -> i8 {
        v
    }

    open spec fn lifted(r: i8) -> Result<i8, DecodeError> {
        Ok(r)
    }

    open spec fn written(v: i8) -> Seq<u8> {
        be_bytes(to_unsigned(v as int, 1), 1)
    }

    open spec fn read(bytes: Seq<u8>) -> Result<(i8, int), DecodeError> {
        match read_be(bytes, 1) {
            Ok((u, n)) => Ok((to_signed(u, 1) as i8, n)),
            Err(e) => Err(e),
        }
    }

    proof fn lift_inverts_lower(v: i8) {
    }

    proof fn read_inverts_write(v: i8, rest: Seq<u8>) {
        lemma_pow256_values();
        lemma_read_be_of_bytes(to_unsigned(v as int, 1), 1, rest);
    }

    proof fn read_stays_in_bounds(bytes: Seq<u8>) {
    }

    fn encoded_len(obj: &i8) -> Option<usize> {
        proof {
            lemma_pow256_values();
            lemma_read_be_of_bytes(to_unsigned(*obj as int, 1), 1, Seq::empty());
        }
        Some(1)
    }

    fn can_lower(obj: &i8) -> bool {
        true
    }

    fn lower(obj: i8) -> i8 {
        obj
    }

    fn try_lift(v: i8) -> Result<i8, DecodeError> {
        Ok(v)
    }

    fn write(obj: i8, buf: &mut Vec<u8>) {
        proof {
            lemma_pow256_values();
        }
        let u: u64 = if obj < 0 {
            (obj as i64 + 0x100) as u64
        } else {
            obj as u64
        };
        put_be(buf, u, 1);
    }

    fn try_read(buf: &mut &[u8]) -> Result<i8, DecodeError> {
        proof {
            lemma_pow256_values();
        }
        let u = try_get_be(buf, 1)?;
        if u >= 0x80 {
            Ok((u as i64 - 0x100) as i8)
        } else {
            Ok(u as i8)
        }
    }
}

impl<UT> FfiConverter<UT> for i16 {
    type FfiType = i16;

    open spec fn writable(v: i16) -> bool {
        true
    }

    open spec fn lowerable(v: i16) -> bool {
        true
    }

    open spec fn lowered(v: i16) -> i16 {
        v
    }

    open spec fn lifted(r: i16) -> Result<i16, DecodeError> {
        Ok(r)
    }

    open spec fn written(v: i16) -> Seq<u8> {
        be_bytes(to_unsigned(v as int, 2), 2)
    }

    open spec fn read(bytes: Seq<u8>) -> Result<(i16, int), DecodeError> {
        match read_be(bytes, 2) {
            Ok((u, n)) => Ok((to_signed(u, 2) as i16, n)),
            Err(e) => Err(e),
        }
    }

    proof fn lift_inverts_lower(v: i16) {
    }

    proof fn read_inverts_write(v: i16, rest: Seq<u8>) {
        lemma_pow256_values();
        lemma_read_be_of_bytes(to_unsigned(v as int, 2), 2, rest);
    }

    proof fn read_stays_in_bounds(bytes: Seq<u8>) {
    }

    fn encoded_len(obj: &i16) -> Option<usize> {
        proof {
            lemma_pow256_values();
            lemma_read_be_of_bytes(to_unsigned(*obj as int, 2), 2, Seq::empty());
        }
        Some(2)
    }

    fn can_lower(obj: &i16) -> bool {
        true
    }

    fn lower(obj: i16) -> i16 {
        obj
    }

    fn try_lift(v: i16) -> Result<i16, DecodeError> {
        Ok(v)
    }

    fn write(obj: i16, buf: &mut Vec<u8>) {
        proof {
            lemma_pow256_values();
        }
        let u: u64 = if obj < 0 {
            (obj as i64 + 0x1_0000) as u64
        } else {
            obj as u64
        };
        put_be(buf, u, 2);
    }

    fn try_read(buf: &mut &[u8]) -> Result<i16, DecodeError> {
        proof {
            lemma_pow256_values();
        }
        let u = try_get_be(buf, 2)?;
        if u >= 0x8000 {
            Ok((u as i64 - 0x1_0000) as i16)
        } else {
            Ok(u as i16)
        }
    }
}

impl<UT> FfiConverter<UT> for i32 {
    type FfiType = i32;

    open spec fn writable(v: i32) -> bool {
        true
    }

    open spec fn lowerable(v: i32) -> bool {
        true
    }

    open spec fn lowered(v: i32) -> i32 {
        v
    }

    open spec fn lifted(r: i32) -> Result<i32, DecodeError> {
        Ok(r)
    }

    open spec fn written(v: i32) -> Seq<u8> {
        be_bytes(to_unsigned(v as int, 4), 4)
    }

    open spec fn read(bytes: Seq<u8>) -> Result<(i32, int), DecodeError> {
        match read_be(bytes, 4) {
            Ok((u, n)) => Ok((to_signed(u, 4) as i32, n)),
            Err(e) => Err(e),
        }
    }

    proof fn lift_inverts_lower(v: i32) {
    }

    proof fn read_inverts_write(v: i32, rest: Seq<u8>) {
        lemma_pow256_values();
        lemma_read_be_of_bytes(to_unsigned(v as int, 4), 4, rest);
    }

    proof fn read_stays_in_bounds(bytes: Seq<u8>) {
    }

    fn encoded_len(obj: &i32) -> Option<usize> {
        proof {
            lemma_pow256_values();
            lemma_read_be_of_bytes(to_unsigned(*obj as int, 4), 4, Seq::empty());
        }
        Some(4)
    }

    fn can_lower(obj: &i32) -> bool {
        true
    }

    fn lower(obj: i32) -> i32 {
        obj
    }

    fn try_lift(v: i32) -> Result<i32, DecodeError> {
        Ok(v)
    }

    fn write(obj: i32, buf: &mut Vec<u8>) {
        proof {
            lemma_pow256_values();
        }
        let u: u64 = if obj < 0 {
            (obj as i64 + 0x1_0000_0000) as u64
        } else {
            obj as u64
        };
        put_be(buf, u, 4);
    }

    fn try_read(buf: &mut &[u8]) -> Result<i32, DecodeError> {
        proof {
            lemma_pow256_values();
        }
        let u = try_get_be(buf, 4)?;
        if u >= 0x8000_0000 {
            Ok((u as i64 - 0x1_0000_0000) as i32)
        } else {
            Ok(u as i32)
        }
    }
}

impl<UT> FfiConverter<UT> for i64 {
    type FfiType = i64;

    open spec fn writable(v: i64) -> bool {
        true
    }

    open spec fn lowerable(v: i64) -> bool {
        true
    }

    open spec fn lowered(v: i64) -> i64 {
        v
    }

    open spec fn lifted(r: i64) -> Result<i64, DecodeError> {
        Ok(r)
    }

    open spec fn written(v: i64) -> Seq<u8> {
        be_bytes(to_unsigned(v as int, 8), 8)
    }

    open spec fn read(bytes: Seq<u8>) -> Result<(i64, int), DecodeError> {
        match read_be(bytes, 8) {
            Ok((u, n)) => Ok((to_signed(u, 8) as i64, n)),
            Err(e) => Err(e),
        }
    }

    proof fn lift_inverts_lower(v: i64) {
    }

    proof fn read_inverts_write(v: i64, rest: Seq<u8>) {
        lemma_pow256_values();
        lemma_read_be_of_bytes(to_unsigned(v as int, 8), 8, rest);
    }

    proof fn read_stays_in_bounds(bytes: Seq<u8>) {
    }

    fn encoded_len(obj: &i64) -> Option<usize> {
        proof {
            lemma_pow256_values();
            lemma_read_be_of_bytes(to_unsigned(*obj as int, 8), 8, Seq::empty());
        }
        Some(8)
    }

    fn can_lower(obj: &i64) -> bool {
        true
    }

    fn lower(obj: i64) -> i64 {
        obj
    }

    fn try_lift(v: i64) -> Result<i64, DecodeError> {
        Ok(v)
    }

    fn write(obj: i64, buf: &mut Vec<u8>) {
        proof {
            lemma_pow256_values();
        }
        let u: u64 = if obj < 0 {
            (obj as i128 + 0x1_0000_0000_0000_0000) as u64
        } else {
            obj as u64
        };
        put_be(buf, u, 8);
    }

    fn try_read(buf: &mut &[u8]) -> Result<i64, DecodeError> {
        proof {
            lemma_pow256_values();
        }
        let u = try_get_be(buf, 8)?;
        if u >= 0x8000_0000_0000_0000 {
            Ok((u as i128 - 0x1_0000_0000_0000_0000) as i64)
        } else {
            Ok(u as i64)
        }
    }
}

/// The signed byte that stands for a boolean.
pub open spec fn bool_byte(v: bool) -> i8 {
    if v {
        1
    } else {
        0
    }
}

/// The boolean that a signed byte stands for: 0 is false, 1 is true, and
/// no other byte is a boolean.
pub open spec fn byte_bool(r: i8) -> Result<bool, DecodeError> {
    if r == 0 {
        Ok(false)
    } else if r == 1 {
        Ok(true)
    } else {
        Err(DecodeError::InvalidBoolean { byte: r })
    }
}

impl<UT> FfiConverter<UT> for bool {
    type FfiType = i8;

    open spec fn writable(v: bool) -> bool {
        true
    }

    open spec fn lowerable(v: bool) -> bool {
        true
    }

    open spec fn lowered(v: bool) -> i8 {
        bool_byte(v)
    }

    open spec fn lifted(r: i8) -> Result<bool, DecodeError> {
        byte_bool(r)
    }

    open spec fn written(v: bool) -> Seq<u8> {
        <i8 as FfiConverter<UT>>::written(bool_byte(v))
    }

    open spec fn read(bytes: Seq<u8>) -> Result<(bool, int), DecodeError> {
        match <i8 as FfiConverter<UT>>::read(bytes) {
            Ok((b, n)) => match byte_bool(b) {
                Ok(v) => Ok((v, n)),
                Err(e) => Err(e),
            },
            Err(e) => Err(e),
        }
    }

    proof fn lift_inverts_lower(v: bool) {
    }

    proof fn read_inverts_write(v: bool, rest: Seq<u8>) {
        <i8 as FfiConverter<UT>>::read_inverts_write(bool_byte(v), rest);
    }

    proof fn read_stays_in_bounds(bytes: Seq<u8>) {
    }

    fn encoded_len(obj: &bool) -> Option<usize> {
        let byte = <bool as FfiConverter<UT>>::lower(*obj);
        <i8 as FfiConverter<UT>>::encoded_len(&byte)
    }

    fn can_lower(obj: &bool) -> bool {
        true
    }

    fn lower(obj: bool) -> i8 {
        if obj {
            1
        } else {
            0
        }
    }

    fn try_lift(v: i8) -> Result<bool, DecodeError> {
        if v == 0 {
            Ok(false)
        } else if v == 1 {
            Ok(true)
        } else {
            Err(DecodeError::InvalidBoolean { byte: v })
        }
    }

    fn write(obj: bool, buf: &mut Vec<u8>) {
        <i8 as FfiConverter<UT>>::write(<bool as FfiConverter<UT>>::lower(obj), buf);
    }

    fn try_read(buf: &mut &[u8]) -> Result<bool, DecodeError> {
        let mut ahead: &[u8] = *buf;
        let byte = <i8 as FfiConverter<UT>>::try_read(&mut ahead)?;
        let value = <bool as FfiConverter<UT>>::try_lift(byte)?;
        *buf = ahead;
        Ok(value)
    }
}

} // verus!
