//! Column metadata and the borrowed view of one wire value.

use vstd::prelude::*;

verus! {

/// The server-declared type of a column. Only the integer tags are
/// covered by this codec.
#[derive(Clone, Copy, Debug, PartialEq, Eq, Structural)]
pub enum ColumnTypeTag {
    /// 1-byte integer.
    Tiny,
    /// 2-byte integer.
    Short,
    /// 4-byte integer.
    Long,
    /// 4-byte wire width, 3-byte semantic range.
    Int24,
    /// 8-byte integer.
    LongLong,
}

/// The UNSIGNED bit of a column's flag set.
pub const UNSIGNED_FLAG: u16 = 32;

/// The BINARY bit of a column's flag set.
pub const BINARY_FLAG: u16 = 128;

/// A column's flag set. Only the UNSIGNED bit matters to this codec.
#[derive(Clone, Copy, Debug, PartialEq, Eq, Structural)]
pub struct ColumnFlags {
    pub bits: u16,
}

impl ColumnFlags {
    /// Whether the UNSIGNED bit is set.
    pub open spec fn has_unsigned(self) -> bool {
        self.bits & UNSIGNED_FLAG != 0
    }

    /// Tests the UNSIGNED bit.
    pub fn contains_unsigned(&self) -> (r: bool)
        ensures
            r == self.has_unsigned(),
    {
        self.bits & UNSIGNED_FLAG != 0
    }
}

/// Immutable metadata for a column's declared wire type: a type tag and
/// a flag set, fixed when the column metadata is parsed.
#[derive(Clone, Copy, Debug, PartialEq, Eq, Structural)]
pub struct TypeDescriptor {
    pub tag: ColumnTypeTag,
    pub flags: ColumnFlags,
}

impl TypeDescriptor {
    /// A descriptor for a binary-protocol column of the given tag.
    pub fn binary(tag: ColumnTypeTag) -> (r: TypeDescriptor)
        ensures
            r.tag == tag,
            r.flags.bits == BINARY_FLAG,
            !r.flags.has_unsigned(),
    {
        let r = TypeDescriptor { tag, flags: ColumnFlags { bits: BINARY_FLAG } };
        proof {
            assert(BINARY_FLAG & UNSIGNED_FLAG == 0) by (bit_vector);
        }
        r
    }
}

/// The representation a value arrived in.
#[derive(Clone, Copy, Debug, PartialEq, Eq, Structural)]
pub enum ValueFormat {
    /// ASCII decimal text.
    Text,
    /// Little-endian two's-complement bytes.
    Binary,
}

/// A borrowed view over the raw bytes of one column value, together with
/// the format they were produced in. The bytes belong to the row buffer;
/// the codec never keeps them past one call.
#[derive(Clone, Copy, Debug)]
pub struct ValueRef<'a> {
    pub bytes: &'a [u8],
    pub format: ValueFormat,
}

/// Whether an outbound parameter encodes as SQL NULL. A present integer
/// never does.
#[derive(Clone, Copy, Debug, PartialEq, Eq, Structural)]
pub enum IsNull {
    Yes,
    No,
}

} // verus!
