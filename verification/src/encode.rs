//! Encoding a native integer into its binary wire form: exactly the
//! type's width in little-endian two's-complement bytes, appended to the
//! caller's outbound parameter buffer.

use vstd::prelude::*;
use vstd::arithmetic::div_mod::lemma_fundamental_div_mod;
use crate::types::IsNull;
use crate::wire::{le_signed, le_unsigned, lemma_le_unsigned_top_byte, lemma_pow256_values, pow256};

verus! {

/// Appends the `n`-byte little-endian two's-complement form of `v` to
/// the buffer. The value must be representable in `n` bytes.
pub fn encode_le_bytes(v: i64, n: usize, buf: &mut Vec<u8>)
    requires
        n == 1 || n == 2 || n == 4 || n == 8,
        -128 * pow256((n - 1) as nat) <= v as int,
        (v as int) < 128 * pow256((n - 1) as nat),
    ensures
        final(buf)@.len() == old(buf)@.len() + n,
        final(buf)@.subrange(0, old(buf)@.len() as int) == old(buf)@,
        le_signed(final(buf)@.subrange(old(buf)@.len() as int, final(buf)@.len() as int)) == v as int,
{
    proof {
        lemma_pow256_values();
    }
    let modulus: u128 = if n == 1 {
        0x100
    } else if n == 2 {
        0x1_0000
    } else if n == 4 {
        0x1_0000_0000
    } else {
        0x1_0000_0000_0000_0000
    };
    assert(modulus as int == pow256(n as nat));
    assert(pow256(n as nat) == 256 * pow256((n - 1) as nat));
    // The unsigned two's-complement reading of the bytes about to be
    // written: `v` itself when non-negative, else `v` plus `256^n`.
    let m_first: u128 = if v < 0 {
        ((v as i128) + (modulus as i128)) as u128
    } else {
        v as u128
    };
    let mut m: u128 = m_first;
    let ghost m0: int = m as int;
    let ghost orig: Seq<u8> = buf@;
    assert(buf@.subrange(orig.len() as int, buf@.len() as int) =~= Seq::<u8>::empty());
    assert(buf@.subrange(0, orig.len() as int) =~= orig);
    let mut i: usize = 0;
    while i < n
        invariant
            i <= n,
            n == 1 || n == 2 || n == 4 || n == 8,
            buf@.len() == orig.len() + i,
            buf@.subrange(0, orig.len() as int) == orig,
            (m as int) < pow256((n - i) as nat),
            le_unsigned(buf@.subrange(orig.len() as int, buf@.len() as int)) + (m as int)
                * pow256(i as nat) == m0,
        decreases n - i,
    {
        let b: u8 = (m % 256) as u8;
        let ghost appended = buf@.subrange(orig.len() as int, buf@.len() as int);
        buf.push(b);
        let m_next: u128 = m / 256;
        proof {
            let appended2 = buf@.subrange(orig.len() as int, buf@.len() as int);
            assert(buf@.subrange(0, orig.len() as int) =~= orig);
            assert(appended2 =~= appended.push(b));
            assert(appended.push(b).drop_last() =~= appended);
            assert(le_unsigned(appended2) == le_unsigned(appended) + b * pow256(i as nat));
            lemma_fundamental_div_mod(m as int, 256);
            assert(pow256((i + 1) as nat) == 256 * pow256(i as nat));
            assert(le_unsigned(appended) + (b + 256 * (m_next as int)) * pow256(i as nat) == m0)
                by (nonlinear_arith)
                requires
                    le_unsigned(appended) + (m as int) * pow256(i as nat) == m0,
                    m as int == 256 * (m_next as int) + b,
            ;
            assert((b + 256 * (m_next as int)) * pow256(i as nat) == b * pow256(i as nat) + (
            m_next as int) * (256 * pow256(i as nat))) by (nonlinear_arith);
            assert(pow256(((n - i) - 1) as nat) >= 1) by {
                crate::wire::lemma_pow256_pos(((n - i) - 1) as nat);
            }
            assert(pow256((n - i) as nat) == 256 * pow256(((n - i) - 1) as nat));
            assert((m_next as int) < pow256(((n - i) - 1) as nat)) by (nonlinear_arith)
                requires
                    (m as int) < 256 * pow256(((n - i) - 1) as nat),
                    m_next as int == (m as int) / 256,
                    pow256(((n - i) - 1) as nat) >= 1,
            ;
        }
        m = m_next;
        i = i + 1;
    }
    let ghost s = buf@.subrange(orig.len() as int, buf@.len() as int);
    proof {
        assert(m == 0);
        assert(le_unsigned(s) == m0);
        assert(s.len() == n);
        lemma_le_unsigned_top_byte(s);
        if v >= 0 {
            assert(le_signed(s) == v as int);
        } else {
            assert(m0 >= 128 * pow256((n - 1) as nat));
            assert(le_signed(s) == m0 - pow256(n as nat));
        }
    }
}

/// Encodes an `i8` outbound parameter: one little-endian
/// two's-complement byte, and the value is present, never NULL.
pub fn encode_i8(v: i8, buf: &mut Vec<u8>) -> (r: IsNull)
    ensures
        r == IsNull::No,
        final(buf)@.len() == old(buf)@.len() + 1,
        final(buf)@.subrange(0, old(buf)@.len() as int) == old(buf)@,
        le_signed(final(buf)@.subrange(old(buf)@.len() as int, final(buf)@.len() as int)) == v as int,
{
    proof {
        lemma_pow256_values();
    }
    encode_le_bytes(v as i64, 1, buf);
    IsNull::No
}

/// Encodes an `i16` outbound parameter: two little-endian
/// two's-complement bytes, and the value is present, never NULL.
pub fn encode_i16(v: i16, buf: &mut Vec<u8>) -> (r: IsNull)
    ensures
        r == IsNull::No,
        final(buf)@.len() == old(buf)@.len() + 2,
        final(buf)@.subrange(0, old(buf)@.len() as int) == old(buf)@,
        le_signed(final(buf)@.subrange(old(buf)@.len() as int, final(buf)@.len() as int)) == v as int,
{
    proof {
        lemma_pow256_values();
    }
    encode_le_bytes(v as i64, 2, buf);
    IsNull::No
}

/// Encodes an `i32` outbound parameter: four little-endian
/// two's-complement bytes, and the value is present, never NULL.
pub fn encode_i32(v: i32, buf: &mut Vec<u8>) -> (r: IsNull)
    ensures
        r == IsNull::No,
        final(buf)@.len() == old(buf)@.len() + 4,
        final(buf)@.subrange(0, old(buf)@.len() as int) == old(buf)@,
        le_signed(final(buf)@.subrange(old(buf)@.len() as int, final(buf)@.len() as int)) == v as int,
{
    proof {
        lemma_pow256_values();
    }
    encode_le_bytes(v as i64, 4, buf);
    IsNull::No
}

/// Encodes an `i64` outbound parameter: eight little-endian
/// two's-complement bytes, and the value is present, never NULL.
pub fn encode_i64(v: i64, buf: &mut Vec<u8>) -> (r: IsNull)
    ensures
        r == IsNull::No,
        final(buf)@.len() == old(buf)@.len() + 8,
        final(buf)@.subrange(0, old(buf)@.len() as int) == old(buf)@,
        le_signed(final(buf)@.subrange(old(buf)@.len() as int, final(buf)@.len() as int)) == v as int,
{
    proof {
        lemma_pow256_values();
    }
    encode_le_bytes(v, 8, buf);
    IsNull::No
}

} // verus!
