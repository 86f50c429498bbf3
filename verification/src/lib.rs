//! Integer value codec for a MySQL-style wire protocol.
//!
//! A column value arrives either as ASCII decimal text or as a
//! little-endian two's-complement binary buffer of one to eight bytes.
//! This crate decides whether a declared column type may be decoded into
//! a signed native integer, decodes such a value into an `i8`, `i16`,
//! `i32` or `i64` (rejecting malformed text, bad buffer lengths and
//! values that do not fit the requested width), and encodes a native
//! integer back into its binary wire form.

pub mod compat;
pub mod decode;
pub mod encode;
pub mod error;
pub mod laws;
pub mod text;
pub mod types;
pub mod wire;
