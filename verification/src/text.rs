//! Mathematical model of the textual wire form — an ASCII decimal integer
//! with an optional leading minus sign — and a verified parser for it.

use vstd::prelude::*;
use crate::error::DecodeError;

verus! {

/// The ASCII code of the minus sign.
pub const MINUS_BYTE: u8 = 45;

/// Whether a byte is an ASCII decimal digit.
pub open spec fn is_digit_byte(b: u8) -> bool {
    48 <= b <= 57
}

/// The value of a sequence of ASCII digits read as a decimal numeral,
/// most significant digit first.
pub open spec fn digits_value(s: Seq<u8>) -> int
    decreases s.len(),
{
    if s.len() == 0 {
        0
    } else {
        10 * digits_value(s.drop_last()) + (s.last() - 48)
    }
}

/// Where the digits of a textual integer start: after a leading minus
/// sign if there is one, else at the front.
pub open spec fn digits_start(s: Seq<u8>) -> int {
    if s.len() > 0 && s[0] == MINUS_BYTE {
        1
    } else {
        0
    }
}

/// Whether a byte sequence is a well-formed textual integer: an optional
/// leading minus sign, then one or more ASCII digits and nothing else.
/// No leading plus sign, no whitespace, no other bytes.
pub open spec fn text_well_formed(s: Seq<u8>) -> bool {
    &&& s.len() > digits_start(s)
    &&& forall|j: int| digits_start(s) <= j < s.len() ==> is_digit_byte(s[j])
}

/// The signed value of a well-formed textual integer.
pub open spec fn text_value(s: Seq<u8>) -> int
    recommends
        text_well_formed(s),
{
    if s.len() > 0 && s[0] == MINUS_BYTE {
        -digits_value(s.subrange(1, s.len() as int))
    } else {
        digits_value(s)
    }
}

/// A digit sequence's value is never negative.
pub proof fn lemma_digits_value_nonneg(s: Seq<u8>)
    requires
        forall|j: int| 0 <= j < s.len() ==> is_digit_byte(s[j]),
    ensures
        digits_value(s) >= 0,
    decreases s.len(),
{
    if s.len() > 0 {
        lemma_digits_value_nonneg(s.drop_last());
    }
}

/// Reading more digits never makes the numeral smaller: the value of a
/// prefix of a digit sequence is at most the value of the whole.
pub proof fn lemma_digits_value_prefix(s: Seq<u8>, k: int)
    requires
        0 <= k <= s.len(),
        forall|j: int| 0 <= j < s.len() ==> is_digit_byte(s[j]),
    ensures
        digits_value(s.subrange(0, k)) <= digits_value(s),
    decreases s.len() - k,
{
    if k == s.len() {
        assert(s.subrange(0, k) =~= s);
    } else {
        lemma_digits_value_prefix(s, k + 1);
        let t = s.subrange(0, k + 1);
        assert(t.drop_last() =~= s.subrange(0, k));
        lemma_digits_value_nonneg(s.subrange(0, k));
        assert(digits_value(t) == 10 * digits_value(s.subrange(0, k)) + (s[k] - 48));
        assert(digits_value(s.subrange(0, k)) <= digits_value(t));
    }
}

/// Parses an ASCII decimal integer. Returns the value exactly when the
/// bytes are a well-formed textual integer whose value fits an `i64`;
/// every other input yields `LexicalParse`.
pub fn parse_decimal_i64(bytes: &[u8]) -> (r: Result<i64, DecodeError>)
    ensures
        match r {
            Ok(v) => {
                &&& text_well_formed(bytes@)
                &&& i64::MIN <= text_value(bytes@) <= i64::MAX
                &&& v as int == text_value(bytes@)
            },
            Err(e) => {
                &&& e == DecodeError::LexicalParse
                &&& !(text_well_formed(bytes@) && i64::MIN <= text_value(bytes@) <= i64::MAX)
            },
        },
{
    let n = bytes.len();
    let neg = n > 0 && bytes[0] == MINUS_BYTE;
    let start: usize = if neg { 1 } else { 0 };
    if start >= n {
        // Empty input, or a lone minus sign: no digits at all.
        return Err(DecodeError::LexicalParse);
    }
    // Accumulate the magnitude as a non-positive number, so that the most
    // negative value, whose magnitude has no positive counterpart in
    // `i64`, is still representable along the way.
    let mut acc: i64 = 0;
    let mut i: usize = start;
    while i < n
        invariant
            start <= i <= n,
            n == bytes@.len(),
            start == digits_start(bytes@),
            start < n,
            neg == (bytes@.len() > 0 && bytes@[0] == MINUS_BYTE),
            forall|j: int| start <= j < i ==> is_digit_byte(bytes@[j]),
            i64::MIN <= acc <= 0,
            acc as int == -digits_value(bytes@.subrange(start as int, i as int)),
        decreases n - i,
    {
        let b = bytes[i];
        if b < 48 || b > 57 {
            // A byte that is no digit: the text is not well formed.
            return Err(DecodeError::LexicalParse);
        }
        let di: i64 = (b - 48) as i64;
        let ghost prefix = bytes@.subrange(start as int, i as int);
        let ghost extended = bytes@.subrange(start as int, i as int + 1);
        proof {
            assert(extended.drop_last() =~= prefix);
            assert(digits_value(extended) == 10 * digits_value(prefix) + (b - 48));
        }
        if acc < -922337203685477580 {
            proof {
                lemma_parse_overflow(bytes@, i as int);
            }
            return Err(DecodeError::LexicalParse);
        }
        let t: i64 = acc * 10;
        if t < i64::MIN + di {
            proof {
                lemma_parse_overflow(bytes@, i as int);
            }
            return Err(DecodeError::LexicalParse);
        }
        acc = t - di;
        i = i + 1;
    }
    proof {
        lemma_digits_value_nonneg(bytes@.subrange(start as int, n as int));
    }
    if neg {
        Ok(acc)
    } else {
        proof {
            assert(bytes@.subrange(0, n as int) =~= bytes@);
        }
        if acc == i64::MIN {
            // The magnitude is one past `i64::MAX`: positive overflow.
            return Err(DecodeError::LexicalParse);
        }
        Ok(-acc)
    }
}

/// When the numeral read so far, extended by the digit at position `i`,
/// already exceeds the magnitude an `i64` can hold, no continuation of
/// the input parses: either some later byte is no digit, or the full
/// numeral is at least as large and overflows too.
proof fn lemma_parse_overflow(s: Seq<u8>, i: int)
    requires
        0 <= digits_start(s) <= i < s.len(),
        forall|j: int| digits_start(s) <= j <= i ==> is_digit_byte(s[j]),
        digits_value(s.subrange(digits_start(s), i + 1)) > 0x8000_0000_0000_0000,
    ensures
        !(text_well_formed(s) && i64::MIN <= text_value(s) <= i64::MAX),
{
    if text_well_formed(s) {
        let start = digits_start(s);
        let all = s.subrange(start, s.len() as int);
        let ext = s.subrange(start, i + 1);
        assert(ext =~= all.subrange(0, i + 1 - start));
        assert(forall|j: int| 0 <= j < all.len() ==> is_digit_byte(all[j]));
        lemma_digits_value_prefix(all, i + 1 - start);
        assert(digits_value(all) > 0x8000_0000_0000_0000);
        if start == 1 {
            assert(text_value(s) == -digits_value(all));
        } else {
            assert(s.subrange(0, s.len() as int) =~= s);
            assert(text_value(s) == digits_value(all));
        }
    }
}

} // verus!
