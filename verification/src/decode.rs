//! Format-aware decoding: a value reference is turned into a 64-bit
//! signed intermediate, then narrowed to the requested native width.
//!
//! The pipeline is linear: validate the buffer length, interpret the
//! bytes (or parse the text), sign-extend, range-check the narrowing.
//! Every failing stage returns its typed error at once.

use vstd::prelude::*;
use crate::error::DecodeError;
use crate::text::{parse_decimal_i64, text_value, text_well_formed};
use crate::types::{ValueFormat, ValueRef};
use crate::wire::le_signed;

verus! {

/// What decoding a value of the given format yields as a 64-bit signed
/// intermediate: the parsed text, or the sign-extended little-endian
/// reading of a buffer of one to eight bytes; otherwise the typed error.
pub open spec fn decode_intermediate_spec(bytes: Seq<u8>, format: ValueFormat) -> Result<
    int,
    DecodeError,
> {
    match format {
        ValueFormat::Text => if text_well_formed(bytes) && i64::MIN <= text_value(bytes)
            <= i64::MAX {
            Ok(text_value(bytes))
        } else {
            Err(DecodeError::LexicalParse)
        },
        ValueFormat::Binary => if bytes.len() == 0 {
            Err(DecodeError::EmptyBuffer)
        } else if bytes.len() > 8 {
            Err(DecodeError::OversizedBuffer { actual: bytes.len() as usize, limit: 8 })
        } else {
            Ok(le_signed(bytes))
        },
    }
}

/// What narrowing the intermediate to a target range yields: the value
/// unchanged when it fits, else a range-overflow error naming the value
/// and the target width in bits.
pub open spec fn narrow_spec(inter: Result<int, DecodeError>, lo: int, hi: int, width: u32) -> Result<
    int,
    DecodeError,
> {
    match inter {
        Ok(v) => if lo <= v <= hi {
            Ok(v)
        } else {
            Err(DecodeError::RangeOverflow { value: v as i64, target_width: width })
        },
        Err(e) => Err(e),
    }
}

/// The whole decode pipeline at an 8-bit signed target.
pub open spec fn decode_i8_spec(bytes: Seq<u8>, format: ValueFormat) -> Result<int, DecodeError> {
    narrow_spec(decode_intermediate_spec(bytes, format), i8::MIN as int, i8::MAX as int, 8)
}

/// The whole decode pipeline at a 16-bit signed target.
pub open spec fn decode_i16_spec(bytes: Seq<u8>, format: ValueFormat) -> Result<int, DecodeError> {
    narrow_spec(decode_intermediate_spec(bytes, format), i16::MIN as int, i16::MAX as int, 16)
}

/// The whole decode pipeline at a 32-bit signed target.
pub open spec fn decode_i32_spec(bytes: Seq<u8>, format: ValueFormat) -> Result<int, DecodeError> {
    narrow_spec(decode_intermediate_spec(bytes, format), i32::MIN as int, i32::MAX as int, 32)
}

/// The whole decode pipeline at a 64-bit signed target.
pub open spec fn decode_i64_spec(bytes: Seq<u8>, format: ValueFormat) -> Result<int, DecodeError> {
    narrow_spec(decode_intermediate_spec(bytes, format), i64::MIN as int, i64::MAX as int, 64)
}

/// Relies on `byteorder::LittleEndian::read_int` (byteorder 1.5.0): it
/// reads the first `nbytes` bytes of the buffer as a little-endian
/// unsigned integer and sign-extends from the top bit of the most
/// significant byte read, which is exactly `le_signed` of those bytes.
/// It panics when `nbytes < 1`, `nbytes > 8` or `buf.len() < nbytes`;
/// the precondition rules those calls out.
#[verifier::external_body]
fn read_int_le(buf: &[u8]) -> (r: i64)
    requires
        1 <= buf@.len() <= 8,
    ensures
        r as int == le_signed(buf@),
{
    <byteorder::LittleEndian as byteorder::ByteOrder>::read_int(buf, buf.len())
}

/// Decodes one value reference into the 64-bit signed intermediate, per
/// the format it arrived in. Never panics, whatever the bytes hold.
pub fn int_decode(value: ValueRef<'_>) -> (r: Result<i64, DecodeError>)
    ensures
        match r {
            Ok(v) => decode_intermediate_spec(value.bytes@, value.format) == Ok::<
                int,
                DecodeError,
            >(v as int),
            Err(e) => decode_intermediate_spec(value.bytes@, value.format) == Err::<
                int,
                DecodeError,
            >(e),
        },
{
    match value.format {
        ValueFormat::Text => parse_decimal_i64(value.bytes),
        ValueFormat::Binary => {
            let buf = value.bytes;
            // Rule out the lengths on which a raw read would panic.
            if buf.len() == 0 {
                return Err(DecodeError::EmptyBuffer);
            }
            if buf.len() > 8 {
                return Err(DecodeError::OversizedBuffer { actual: buf.len(), limit: 8 });
            }
            Ok(read_int_le(buf))
        },
    }
}

/// Narrows the intermediate to an 8-bit signed target.
fn narrow_to_i8(v: i64) -> (r: Result<i8, DecodeError>)
    ensures
        match r {
            Ok(x) => i8::MIN <= v <= i8::MAX && x == v,
            Err(e) => !(i8::MIN <= v <= i8::MAX) && e == (DecodeError::RangeOverflow {
                value: v,
                target_width: 8,
            }),
        },
{
    if -128 <= v && v <= 127 {
        Ok(v as i8)
    } else {
        Err(DecodeError::RangeOverflow { value: v, target_width: 8 })
    }
}

/// Narrows the intermediate to a 16-bit signed target.
fn narrow_to_i16(v: i64) -> (r: Result<i16, DecodeError>)
    ensures
        match r {
            Ok(x) => i16::MIN <= v <= i16::MAX && x == v,
            Err(e) => !(i16::MIN <= v <= i16::MAX) && e == (DecodeError::RangeOverflow {
                value: v,
                target_width: 16,
            }),
        },
{
    if -32768 <= v && v <= 32767 {
        Ok(v as i16)
    } else {
        Err(DecodeError::RangeOverflow { value: v, target_width: 16 })
    }
}

/// Narrows the intermediate to a 32-bit signed target.
fn narrow_to_i32(v: i64) -> (r: Result<i32, DecodeError>)
    ensures
        match r {
            Ok(x) => i32::MIN <= v <= i32::MAX && x == v,
            Err(e) => !(i32::MIN <= v <= i32::MAX) && e == (DecodeError::RangeOverflow {
                value: v,
                target_width: 32,
            }),
        },
{
    if -2147483648 <= v && v <= 2147483647 {
        Ok(v as i32)
    } else {
        Err(DecodeError::RangeOverflow { value: v, target_width: 32 })
    }
}

/// Decodes a value reference into an `i8`.
pub fn decode_i8(value: ValueRef<'_>) -> (r: Result<i8, DecodeError>)
    ensures
        match r {
            Ok(v) => decode_i8_spec(value.bytes@, value.format) == Ok::<int, DecodeError>(v as int),
            Err(e) => decode_i8_spec(value.bytes@, value.format) == Err::<int, DecodeError>(e),
        },
{
    match int_decode(value) {
        Ok(v) => narrow_to_i8(v),
        Err(e) => Err(e),
    }
}

/// Decodes a value reference into an `i16`.
pub fn decode_i16(value: ValueRef<'_>) -> (r: Result<i16, DecodeError>)
    ensures
        match r {
            Ok(v) => decode_i16_spec(value.bytes@, value.format) == Ok::<int, DecodeError>(
                v as int,
            ),
            Err(e) => decode_i16_spec(value.bytes@, value.format) == Err::<int, DecodeError>(e),
        },
{
    match int_decode(value) {
        Ok(v) => narrow_to_i16(v),
        Err(e) => Err(e),
    }
}

/// Decodes a value reference into an `i32`.
pub fn decode_i32(value: ValueRef<'_>) -> (r: Result<i32, DecodeError>)
    ensures
        match r {
            Ok(v) => decode_i32_spec(value.bytes@, value.format) == Ok::<int, DecodeError>(
                v as int,
            ),
            Err(e) => decode_i32_spec(value.bytes@, value.format) == Err::<int, DecodeError>(e),
        },
{
    match int_decode(value) {
        Ok(v) => narrow_to_i32(v),
        Err(e) => Err(e),
    }
}

/// Decodes a value reference into an `i64`. A 64-bit target can hold any
/// intermediate, so narrowing never fails here.
pub fn decode_i64(value: ValueRef<'_>) -> (r: Result<i64, DecodeError>)
    ensures
        match r {
            Ok(v) => decode_i64_spec(value.bytes@, value.format) == Ok::<int, DecodeError>(
                v as int,
            ),
            Err(e) => decode_i64_spec(value.bytes@, value.format) == Err::<int, DecodeError>(e),
        },
{
    int_decode(value)
}

} // verus!
