//! Text-format decoding: the canonical decimal grammar and its failures.

use mysql_int_codec::decode::{decode_i32, decode_i64, decode_i8, int_decode};
use mysql_int_codec::error::DecodeError;
use mysql_int_codec::text::parse_decimal_i64;
use mysql_int_codec::types::{ValueFormat, ValueRef};

fn text(bytes: &[u8]) -> ValueRef<'_> {
    ValueRef { bytes, format: ValueFormat::Text }
}

#[test]
fn plain_number_parses() {
    assert_eq!(int_decode(text(b"42")), Ok(42));
    assert_eq!(decode_i32(text(b"42")), Ok(42));
}

#[test]
fn letters_are_rejected() {
    assert_eq!(int_decode(text(b"abc")), Err(DecodeError::LexicalParse));
}

#[test]
fn empty_text_is_rejected() {
    assert_eq!(int_decode(text(b"")), Err(DecodeError::LexicalParse));
}

#[test]
fn negative_number_parses() {
    assert_eq!(int_decode(text(b"-123")), Ok(-123));
}

#[test]
fn lone_minus_is_rejected() {
    assert_eq!(parse_decimal_i64(b"-"), Err(DecodeError::LexicalParse));
}

#[test]
fn leading_plus_is_rejected() {
    assert_eq!(parse_decimal_i64(b"+42"), Err(DecodeError::LexicalParse));
}

#[test]
fn whitespace_is_rejected() {
    assert_eq!(parse_decimal_i64(b" 42"), Err(DecodeError::LexicalParse));
    assert_eq!(parse_decimal_i64(b"42 "), Err(DecodeError::LexicalParse));
    assert_eq!(parse_decimal_i64(b"4 2"), Err(DecodeError::LexicalParse));
}

#[test]
fn embedded_non_digit_is_rejected() {
    assert_eq!(parse_decimal_i64(b"12a3"), Err(DecodeError::LexicalParse));
    assert_eq!(parse_decimal_i64(b"12-3"), Err(DecodeError::LexicalParse));
}

#[test]
fn non_ascii_bytes_are_rejected() {
    assert_eq!(parse_decimal_i64(&[0xC3, 0xA9]), Err(DecodeError::LexicalParse));
}

#[test]
fn leading_zeros_parse() {
    assert_eq!(parse_decimal_i64(b"007"), Ok(7));
    assert_eq!(parse_decimal_i64(b"-007"), Ok(-7));
    assert_eq!(parse_decimal_i64(b"0"), Ok(0));
}

#[test]
fn sixty_four_bit_extremes_parse() {
    assert_eq!(parse_decimal_i64(b"9223372036854775807"), Ok(i64::MAX));
    assert_eq!(parse_decimal_i64(b"-9223372036854775808"), Ok(i64::MIN));
}

#[test]
fn sixty_four_bit_overflow_is_lexical_error() {
    assert_eq!(
        parse_decimal_i64(b"9223372036854775808"),
        Err(DecodeError::LexicalParse)
    );
    assert_eq!(
        parse_decimal_i64(b"-9223372036854775809"),
        Err(DecodeError::LexicalParse)
    );
    assert_eq!(
        parse_decimal_i64(b"99999999999999999999999999"),
        Err(DecodeError::LexicalParse)
    );
}

#[test]
fn text_narrowing_rejects_out_of_range() {
    assert_eq!(
        decode_i8(text(b"300")),
        Err(DecodeError::RangeOverflow { value: 300, target_width: 8 })
    );
    assert_eq!(decode_i8(text(b"127")), Ok(127));
    assert_eq!(decode_i8(text(b"-128")), Ok(-128));
}

#[test]
fn text_decodes_at_width_sixty_four() {
    assert_eq!(decode_i64(text(b"-9223372036854775808")), Ok(i64::MIN));
}
