//! The texts of the decode errors, as the UI shows them.

use vstd::prelude::*;
use super::types::{DecodeError, FrameError};
use crate::text::{decimal, hex2, hex_prefixed, push_decimal, push_hex2, push_hex_prefixed, push_str, string_of};

verus! {

/// Text of a frame error.
pub open spec fn frame_error_text(e: FrameError) -> Seq<char> {
    match e {
        FrameError::TooShort { need, got } => "buffer too short: need at least "@ + decimal(need as nat)
            + " bytes, got "@ + decimal(got as nat),
        FrameError::BadMagic { got } => "bad magic: expected 0xAA or 0xBA, got "@ + hex_prefixed(got),
    }
}

/// Text of a decode error; a frame error shows its own text.
pub open spec fn decode_error_text(e: DecodeError) -> Seq<char> {
    match e {
        DecodeError::Frame(f) => frame_error_text(f),
        DecodeError::UnknownOpcode(op) => "unknown opcode 0x"@ + hex2(op),
        DecodeError::PayloadTooShort { opcode, need, got } => "payload too short for opcode 0x"@ + hex2(opcode)
            + ": need "@ + decimal(need as nat) + ", got "@ + decimal(got as nat),
    }
}

impl FrameError {
    /// The error's text.
    pub fn message(&self) -> (r: String)
        ensures
            r@ == frame_error_text(*self),
    {
        match *self {
            FrameError::TooShort { need, got } => {
                let mut s = string_of("buffer too short: need at least ");
                push_decimal(&mut s, need as u64);
                push_str(&mut s, " bytes, got ");
                push_decimal(&mut s, got as u64);
                s
            },
            FrameError::BadMagic { got } => {
                let mut s = string_of("bad magic: expected 0xAA or 0xBA, got ");
                push_hex_prefixed(&mut s, got);
                s
            },
        }
    }
}

impl DecodeError {
    /// The error's text.
    pub fn message(&self) -> (r: String)
        ensures
            r@ == decode_error_text(*self),
    {
        match *self {
            DecodeError::Frame(f) => f.message(),
            DecodeError::UnknownOpcode(op) => {
                let mut s = string_of("unknown opcode 0x");
                push_hex2(&mut s, op);
                s
            },
            DecodeError::PayloadTooShort { opcode, need, got } => {
                let mut s = string_of("payload too short for opcode 0x");
                push_hex2(&mut s, opcode);
                push_str(&mut s, ": need ");
                push_decimal(&mut s, need as u64);
                push_str(&mut s, ", got ");
                push_decimal(&mut s, got as u64);
                s
            },
        }
    }
}

} // verus!
