//! Typed decode failures. Every failure path of the codec returns one of
//! these values; no input makes the codec panic.

use vstd::prelude::*;

verus! {

/// Why a value could not be decoded.
#[derive(Clone, Copy, Debug, PartialEq, Eq, Structural)]
pub enum DecodeError {
    /// A binary buffer of length zero.
    EmptyBuffer,
    /// A binary buffer longer than the eight bytes an integer may occupy.
    OversizedBuffer { actual: usize, limit: usize },
    /// Text that is not a well-formed decimal integer, or one whose value
    /// does not fit a 64-bit signed intermediate.
    LexicalParse,
    /// The decoded intermediate does not fit the requested native width.
    RangeOverflow { value: i64, target_width: u32 },
    /// The column's declared type is not compatible with the requested
    /// native type. The codec itself never returns this variant: callers
    /// raise it after the compatibility check refuses a pairing.
    TypeMismatch,
}

} // verus!
