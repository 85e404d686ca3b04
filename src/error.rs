//! Errors of the codec.

use vstd::prelude::*;

verus! {

/// Why a buffer could not be decoded.
#[derive(Debug, Clone, Copy, PartialEq, Eq, Structural)]
pub enum DecodeError {
    /// The buffer ends before a fixed-size field does.
    NotEnoughBytes,
    /// A string field holds an unpaired UTF-16 surrogate.
    InvalidString,
}

/// Why a value could not be encoded.
#[derive(Debug, Clone, Copy, PartialEq, Eq, Structural)]
pub enum EncodeError {
    /// A payload or a string is longer than its 16-bit length field can declare.
    TooLong,
}

} // verus!
