//! The codec's cross-function guarantees, stated and proved once over
//! the specification functions that the decoder's and encoder's own
//! contracts use.

use vstd::prelude::*;
use crate::decode::{
    decode_i16_spec, decode_i32_spec, decode_i64_spec, decode_i8_spec, decode_intermediate_spec,
};
use crate::error::DecodeError;
use crate::types::ValueFormat;
use crate::wire::le_signed;

verus! {

/// Round trip at width 8: a one-byte buffer carrying the two's-complement
/// form of an `i8` — such as `encode_i8` appends — decodes back to that
/// value, for every value of the type.
pub proof fn lemma_round_trip_i8(s: Seq<u8>, v: i8)
    requires
        s.len() == 1,
        le_signed(s) == v as int,
    ensures
        decode_i8_spec(s, ValueFormat::Binary) == Ok::<int, DecodeError>(v as int),
{
}

/// Round trip at width 16: a two-byte buffer carrying the
/// two's-complement form of an `i16` — such as `encode_i16` appends —
/// decodes back to that value, for every value of the type.
pub proof fn lemma_round_trip_i16(s: Seq<u8>, v: i16)
    requires
        s.len() == 2,
        le_signed(s) == v as int,
    ensures
        decode_i16_spec(s, ValueFormat::Binary) == Ok::<int, DecodeError>(v as int),
{
}

/// Round trip at width 32: a four-byte buffer carrying the
/// two's-complement form of an `i32` — such as `encode_i32` appends —
/// decodes back to that value, for every value of the type.
pub proof fn lemma_round_trip_i32(s: Seq<u8>, v: i32)
    requires
        s.len() == 4,
        le_signed(s) == v as int,
    ensures
        decode_i32_spec(s, ValueFormat::Binary) == Ok::<int, DecodeError>(v as int),
{
}

/// Round trip at width 64: an eight-byte buffer carrying the
/// two's-complement form of an `i64` — such as `encode_i64` appends —
/// decodes back to that value, for every value of the type.
pub proof fn lemma_round_trip_i64(s: Seq<u8>, v: i64)
    requires
        s.len() == 8,
        le_signed(s) == v as int,
    ensures
        decode_i64_spec(s, ValueFormat::Binary) == Ok::<int, DecodeError>(v as int),
{
}

/// Length validation, lower end: a binary buffer of length zero is
/// rejected as empty at every target width.
pub proof fn lemma_empty_buffer_rejected(bytes: Seq<u8>)
    requires
        bytes.len() == 0,
    ensures
        decode_intermediate_spec(bytes, ValueFormat::Binary) == Err::<int, DecodeError>(
            DecodeError::EmptyBuffer,
        ),
        decode_i8_spec(bytes, ValueFormat::Binary) == Err::<int, DecodeError>(
            DecodeError::EmptyBuffer,
        ),
        decode_i16_spec(bytes, ValueFormat::Binary) == Err::<int, DecodeError>(
            DecodeError::EmptyBuffer,
        ),
        decode_i32_spec(bytes, ValueFormat::Binary) == Err::<int, DecodeError>(
            DecodeError::EmptyBuffer,
        ),
        decode_i64_spec(bytes, ValueFormat::Binary) == Err::<int, DecodeError>(
            DecodeError::EmptyBuffer,
        ),
{
}

/// Length validation, upper end: a binary buffer of nine or more bytes
/// is rejected as oversized at every target width, and the error names
/// the actual length and the eight-byte limit.
pub proof fn lemma_oversized_buffer_rejected(bytes: Seq<u8>)
    requires
        bytes.len() > 8,
        bytes.len() <= usize::MAX,
    ensures
        decode_intermediate_spec(bytes, ValueFormat::Binary) == Err::<int, DecodeError>(
            DecodeError::OversizedBuffer { actual: bytes.len() as usize, limit: 8 },
        ),
        decode_i8_spec(bytes, ValueFormat::Binary) == Err::<int, DecodeError>(
            DecodeError::OversizedBuffer { actual: bytes.len() as usize, limit: 8 },
        ),
        decode_i16_spec(bytes, ValueFormat::Binary) == Err::<int, DecodeError>(
            DecodeError::OversizedBuffer { actual: bytes.len() as usize, limit: 8 },
        ),
        decode_i32_spec(bytes, ValueFormat::Binary) == Err::<int, DecodeError>(
            DecodeError::OversizedBuffer { actual: bytes.len() as usize, limit: 8 },
        ),
        decode_i64_spec(bytes, ValueFormat::Binary) == Err::<int, DecodeError>(
            DecodeError::OversizedBuffer { actual: bytes.len() as usize, limit: 8 },
        ),
{
}

} // verus!
