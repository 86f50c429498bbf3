//! End-to-end scenarios: the compatibility check followed by a decode,
//! as the row-materialization layer drives the codec.

use mysql_int_codec::compat::compatible_i32;
use mysql_int_codec::decode::decode_i32;
use mysql_int_codec::error::DecodeError;
use mysql_int_codec::types::{ColumnFlags, ColumnTypeTag, TypeDescriptor, ValueFormat, ValueRef};

#[test]
fn long_column_four_byte_buffer_decodes_to_one() {
    let ty = TypeDescriptor { tag: ColumnTypeTag::Long, flags: ColumnFlags { bits: 0 } };
    assert!(compatible_i32(&ty));
    let bytes = [0x01, 0x00, 0x00, 0x00];
    let value = ValueRef { bytes: &bytes, format: ValueFormat::Binary };
    assert_eq!(decode_i32(value), Ok(1));
}

#[test]
fn ten_byte_buffer_fails_whatever_the_tag() {
    for tag in [
        ColumnTypeTag::Tiny,
        ColumnTypeTag::Short,
        ColumnTypeTag::Long,
        ColumnTypeTag::Int24,
        ColumnTypeTag::LongLong,
    ] {
        let ty = TypeDescriptor { tag, flags: ColumnFlags { bits: 0 } };
        assert!(compatible_i32(&ty));
        let bytes = [0u8; 10];
        let value = ValueRef { bytes: &bytes, format: ValueFormat::Binary };
        assert_eq!(
            decode_i32(value),
            Err(DecodeError::OversizedBuffer { actual: 10, limit: 8 })
        );
    }
}

#[test]
fn incompatible_pairing_is_reported_as_type_mismatch_by_the_caller() {
    let ty = TypeDescriptor {
        tag: ColumnTypeTag::Long,
        flags: ColumnFlags { bits: mysql_int_codec::types::UNSIGNED_FLAG },
    };
    // The caller consults the checker first and raises the mismatch
    // itself; the codec is never invoked.
    let outcome: Result<i32, DecodeError> = if compatible_i32(&ty) {
        let bytes = [0x01, 0x00, 0x00, 0x00];
        decode_i32(ValueRef { bytes: &bytes, format: ValueFormat::Binary })
    } else {
        Err(DecodeError::TypeMismatch)
    };
    assert_eq!(outcome, Err(DecodeError::TypeMismatch));
}
