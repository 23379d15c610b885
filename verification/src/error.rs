//! Failures that malformed foreign input can cause.

use crate::text::{decimal, decimal_text, signed_decimal, signed_decimal_text};
use vstd::prelude::*;
use vstd::string::*;

verus! {

/// Why bytes or a scalar received from the foreign side do not stand for a
/// value. Every variant is a recoverable condition of the input.
#[derive(Debug, Clone, Copy, PartialEq, Eq, Structural)]
pub enum DecodeError {
    /// A read needed `needed` bytes and only `remaining` were left.
    BufferUnderflow { remaining: usize, needed: usize },
    /// A whole buffer held one value and `remaining` more bytes after it.
    TrailingData { remaining: usize },
    /// A boolean was encoded as something other than 0 or 1.
    InvalidBoolean { byte: i8 },
    /// The tag of an optional value was neither 0 nor 1.
    InvalidOptionTag { tag: i8 },
    /// A length prefix was negative.
    NegativeLength { length: i32 },
    /// The bytes of a string were not UTF-8.
    InvalidUtf8,
}

/// What is said of a decode error.
pub open spec fn message_of(error: DecodeError) -> Seq<char> {
    match error {
        DecodeError::BufferUnderflow { remaining, needed } => "not enough bytes remaining in buffer ("@
            + decimal(remaining as nat) + " < "@ + decimal(needed as nat) + ")"@,
        DecodeError::TrailingData { .. } => "junk data left in buffer after lifting"@,
        DecodeError::InvalidBoolean { .. } => "unexpected byte for Boolean"@,
        DecodeError::InvalidOptionTag { .. } => "unexpected tag byte for Option"@,
        DecodeError::NegativeLength { length } => "negative length in buffer ("@ + signed_decimal(
            length as int,
        ) + ")"@,
        DecodeError::InvalidUtf8 => "invalid utf-8 sequence in buffer"@,
    }
}

impl DecodeError {
    /// The text of the error, for whoever is told of it.
    pub fn message(&self) -> (r: String)
        ensures
            r@ == message_of(*self),
    {
        match *self {
            DecodeError::BufferUnderflow { remaining, needed } => {
                let mut text = "not enough bytes remaining in buffer (".to_owned();
                text.append(decimal_text(remaining as u64).as_str());
                text.append(" < ");
                text.append(decimal_text(needed as u64).as_str());
                text.append(")");
                text
            },
            DecodeError::TrailingData { .. } => "junk data left in buffer after lifting".to_owned(),
            DecodeError::InvalidBoolean { .. } => "unexpected byte for Boolean".to_owned(),
            DecodeError::InvalidOptionTag { .. } => "unexpected tag byte for Option".to_owned(),
            DecodeError::NegativeLength { length } => {
                let mut text = "negative length in buffer (".to_owned();
                text.append(signed_decimal_text(length as i64).as_str());
                text.append(")");
                text
            },
            DecodeError::InvalidUtf8 => "invalid utf-8 sequence in buffer".to_owned(),
        }
    }
}

} // verus!
