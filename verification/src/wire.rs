//! Mathematical model of the binary wire form: a buffer of `n` bytes read
//! as a little-endian two's-complement signed integer.

use vstd::prelude::*;

verus! {

/// 256 to the power `n`: the number of values `n` bytes can carry.
pub open spec fn pow256(n: nat) -> int
    decreases n,
{
    if n == 0 {
        1
    } else {
        256 * pow256((n - 1) as nat)
    }
}

/// The unsigned integer carried by a little-endian buffer: byte 0 is the
/// least significant, the last byte the most significant.
pub open spec fn le_unsigned(s: Seq<u8>) -> int
    decreases s.len(),
{
    if s.len() == 0 {
        0
    } else {
        le_unsigned(s.drop_last()) + s.last() * pow256((s.len() - 1) as nat)
    }
}

/// The signed integer carried by a little-endian two's-complement buffer:
/// the unsigned reading, wrapped to negative when the sign bit of the most
/// significant byte present is set.
pub open spec fn le_signed(s: Seq<u8>) -> int {
    if s.len() == 0 {
        0
    } else if s.last() >= 128 {
        le_unsigned(s) - pow256(s.len())
    } else {
        le_unsigned(s)
    }
}

/// `pow256` is positive.
pub proof fn lemma_pow256_pos(n: nat)
    ensures
        pow256(n) >= 1,
    decreases n,
{
    if n > 0 {
        lemma_pow256_pos((n - 1) as nat);
    }
}

/// The concrete values of `pow256` at every buffer length the wire allows.
pub proof fn lemma_pow256_values()
    ensures
        pow256(0) == 1,
        pow256(1) == 0x100,
        pow256(2) == 0x1_0000,
        pow256(3) == 0x100_0000,
        pow256(4) == 0x1_0000_0000,
        pow256(5) == 0x100_0000_0000,
        pow256(6) == 0x1_0000_0000_0000,
        pow256(7) == 0x100_0000_0000_0000,
        pow256(8) == 0x1_0000_0000_0000_0000,
{
    reveal_with_fuel(pow256, 9);
}

/// A buffer of `n` bytes carries an unsigned value in `[0, 256^n)`.
pub proof fn lemma_le_unsigned_bounds(s: Seq<u8>)
    ensures
        0 <= le_unsigned(s) < pow256(s.len()),
    decreases s.len(),
{
    if s.len() == 0 {
    } else {
        let n1 = (s.len() - 1) as nat;
        lemma_le_unsigned_bounds(s.drop_last());
        lemma_pow256_pos(n1);
        assert(s.last() * pow256(n1) <= 255 * pow256(n1)) by (nonlinear_arith)
            requires
                s.last() <= 255,
                pow256(n1) >= 1,
        ;
        assert(s.last() * pow256(n1) >= 0) by (nonlinear_arith)
            requires
                s.last() >= 0,
                pow256(n1) >= 1,
        ;
    }
}

/// The sign bit of the most significant byte is set exactly when the
/// unsigned reading reaches the upper half of the buffer's range.
pub proof fn lemma_le_unsigned_top_byte(s: Seq<u8>)
    requires
        s.len() >= 1,
    ensures
        (s.last() >= 128) <==> le_unsigned(s) >= 128 * pow256((s.len() - 1) as nat),
{
    let n1 = (s.len() - 1) as nat;
    lemma_le_unsigned_bounds(s.drop_last());
    lemma_pow256_pos(n1);
    if s.last() >= 128 {
        assert(s.last() * pow256(n1) >= 128 * pow256(n1)) by (nonlinear_arith)
            requires
                s.last() >= 128,
                pow256(n1) >= 1,
        ;
    } else {
        assert(s.last() * pow256(n1) <= 127 * pow256(n1)) by (nonlinear_arith)
            requires
                s.last() <= 127,
                pow256(n1) >= 1,
        ;
    }
}

} // verus!
