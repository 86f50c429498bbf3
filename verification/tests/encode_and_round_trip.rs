//! Encoding to wire bytes, and the decode-of-encode round trip.

use mysql_int_codec::decode::{decode_i16, decode_i32, decode_i64, decode_i8};
use mysql_int_codec::encode::{encode_i16, encode_i32, encode_i64, encode_i8};
use mysql_int_codec::types::{IsNull, ValueFormat, ValueRef};

fn binary(bytes: &[u8]) -> ValueRef<'_> {
    ValueRef { bytes, format: ValueFormat::Binary }
}

#[test]
fn encode_emits_exact_width_little_endian() {
    let mut buf = Vec::new();
    assert_eq!(encode_i8(-2, &mut buf), IsNull::No);
    assert_eq!(buf, vec![0xFE]);

    let mut buf = Vec::new();
    assert_eq!(encode_i16(-2, &mut buf), IsNull::No);
    assert_eq!(buf, vec![0xFE, 0xFF]);

    let mut buf = Vec::new();
    assert_eq!(encode_i32(1, &mut buf), IsNull::No);
    assert_eq!(buf, vec![0x01, 0x00, 0x00, 0x00]);

    let mut buf = Vec::new();
    assert_eq!(encode_i64(0x0102030405060708, &mut buf), IsNull::No);
    assert_eq!(buf, vec![0x08, 0x07, 0x06, 0x05, 0x04, 0x03, 0x02, 0x01]);
}

#[test]
fn encode_appends_after_existing_bytes() {
    let mut buf = vec![0xAA, 0xBB];
    encode_i16(258, &mut buf);
    assert_eq!(buf, vec![0xAA, 0xBB, 0x02, 0x01]);
}

#[test]
fn round_trip_i8() {
    for v in [i8::MIN, -1, 0, 1, 42, i8::MAX] {
        let mut buf = Vec::new();
        encode_i8(v, &mut buf);
        assert_eq!(decode_i8(binary(&buf)), Ok(v));
    }
}

#[test]
fn round_trip_i16() {
    for v in [i16::MIN, -1, 0, 1, 300, i16::MAX] {
        let mut buf = Vec::new();
        encode_i16(v, &mut buf);
        assert_eq!(decode_i16(binary(&buf)), Ok(v));
    }
}

#[test]
fn round_trip_i32() {
    for v in [i32::MIN, -1, 0, 1, 1 << 23, i32::MAX] {
        let mut buf = Vec::new();
        encode_i32(v, &mut buf);
        assert_eq!(decode_i32(binary(&buf)), Ok(v));
    }
}

#[test]
fn round_trip_i64() {
    for v in [i64::MIN, -1, 0, 1, 1 << 40, i64::MAX] {
        let mut buf = Vec::new();
        encode_i64(v, &mut buf);
        assert_eq!(decode_i64(binary(&buf)), Ok(v));
    }
}

#[test]
fn round_trip_exhaustive_i8() {
    let mut v = i8::MIN;
    loop {
        let mut buf = Vec::new();
        encode_i8(v, &mut buf);
        assert_eq!(buf.len(), 1);
        assert_eq!(decode_i8(binary(&buf)), Ok(v));
        if v == i8::MAX {
            break;
        }
        v += 1;
    }
}
