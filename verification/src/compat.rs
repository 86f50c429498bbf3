//! The compatibility checker: a pure predicate that decides whether a
//! column's declared type may be decoded into a signed native integer at
//! all. Callers consult it before decoding; it is a precondition for
//! correct results, not a safety net — decoding still cannot panic when
//! it is skipped.

use vstd::prelude::*;
use crate::types::{ColumnTypeTag, TypeDescriptor};

verus! {

/// Whether a column type tag is one of the integer tags.
pub open spec fn is_integer_tag(tag: ColumnTypeTag) -> bool {
    match tag {
        ColumnTypeTag::Tiny => true,
        ColumnTypeTag::Short => true,
        ColumnTypeTag::Long => true,
        ColumnTypeTag::Int24 => true,
        ColumnTypeTag::LongLong => true,
    }
}

/// Whether a declared column type may be decoded into a signed native
/// integer.
pub open spec fn int_compatible_spec(ty: TypeDescriptor) -> bool {
    is_integer_tag(ty.tag) && !ty.flags.has_unsigned()
}

/// Accepts a pairing exactly when the declared tag is one of the integer
/// tags and the UNSIGNED flag is clear: a signed native type must never
/// silently reinterpret an unsigned wire value. The check is
/// tag-coarse on purpose: wire width against native width is handled,
/// not rejected, when the decoder narrows.
pub fn int_compatible(ty: &TypeDescriptor) -> (r: bool)
    ensures
        r == int_compatible_spec(*ty),
{
    let tag_ok = match ty.tag {
        ColumnTypeTag::Tiny => true,
        ColumnTypeTag::Short => true,
        ColumnTypeTag::Long => true,
        ColumnTypeTag::Int24 => true,
        ColumnTypeTag::LongLong => true,
    };
    tag_ok && !ty.flags.contains_unsigned()
}

/// The declared wire type of an outbound `i8` parameter.
pub fn type_info_i8() -> (r: TypeDescriptor)
    ensures
        r.tag == ColumnTypeTag::Tiny,
        !r.flags.has_unsigned(),
{
    TypeDescriptor::binary(ColumnTypeTag::Tiny)
}

/// The declared wire type of an outbound `i16` parameter.
pub fn type_info_i16() -> (r: TypeDescriptor)
    ensures
        r.tag == ColumnTypeTag::Short,
        !r.flags.has_unsigned(),
{
    TypeDescriptor::binary(ColumnTypeTag::Short)
}

/// The declared wire type of an outbound `i32` parameter.
pub fn type_info_i32() -> (r: TypeDescriptor)
    ensures
        r.tag == ColumnTypeTag::Long,
        !r.flags.has_unsigned(),
{
    TypeDescriptor::binary(ColumnTypeTag::Long)
}

/// The declared wire type of an outbound `i64` parameter.
pub fn type_info_i64() -> (r: TypeDescriptor)
    ensures
        r.tag == ColumnTypeTag::LongLong,
        !r.flags.has_unsigned(),
{
    TypeDescriptor::binary(ColumnTypeTag::LongLong)
}

/// Whether a column may be decoded into an `i8`.
pub fn compatible_i8(ty: &TypeDescriptor) -> (r: bool)
    ensures
        r == int_compatible_spec(*ty),
{
    int_compatible(ty)
}

/// Whether a column may be decoded into an `i16`.
pub fn compatible_i16(ty: &TypeDescriptor) -> (r: bool)
    ensures
        r == int_compatible_spec(*ty),
{
    int_compatible(ty)
}

/// Whether a column may be decoded into an `i32`.
pub fn compatible_i32(ty: &TypeDescriptor) -> (r: bool)
    ensures
        r == int_compatible_spec(*ty),
{
    int_compatible(ty)
}

/// Whether a column may be decoded into an `i64`.
pub fn compatible_i64(ty: &TypeDescriptor) -> (r: bool)
    ensures
        r == int_compatible_spec(*ty),
{
    int_compatible(ty)
}

} // verus!
