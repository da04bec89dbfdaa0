//! Decimal parsing of a captured size field.
//!
//! A capture counts as a byte size exactly when it is one or more ASCII
//! digits whose value fits in an `i64`. Anything else (empty, stray
//! characters, overflow) parses to nothing, and the line then contributes
//! zero to its file's sum.

use vstd::prelude::*;

verus! {

/// Whether `b` is an ASCII decimal digit.
pub open spec fn is_ascii_digit(b: u8) -> bool {
    48 <= b <= 57
}

/// The numeric value of the ASCII digit `b`.
pub open spec fn digit_val(b: u8) -> int {
    b - 48
}

/// Whether every byte of `s` is an ASCII decimal digit.
pub open spec fn all_digits(s: Seq<u8>) -> bool {
    forall|i: int| 0 <= i < s.len() ==> is_ascii_digit(#[trigger] s[i])
}

/// The value of `s` read as a big-endian decimal numeral.
pub open spec fn digits_val(s: Seq<u8>) -> int
    decreases s.len(),
{
    if s.len() == 0 {
        0
    } else {
        digits_val(s.drop_last()) * 10 + digit_val(s.last())
    }
}

/// What a captured size field parses to: its decimal value when `s` is a
/// non-empty run of digits whose value fits in an `i64`, nothing otherwise.
pub open spec fn parse_decimal(s: Seq<u8>) -> Option<i64> {
    if s.len() > 0 && all_digits(s) && digits_val(s) <= i64::MAX {
        Some(digits_val(s) as i64)
    } else {
        None
    }
}

/// A run of digits never has a negative value.
pub proof fn lemma_digits_val_nonneg(s: Seq<u8>)
    requires
        all_digits(s),
    ensures
        digits_val(s) >= 0,
    decreases s.len(),
{
    if s.len() > 0 {
        assert(all_digits(s.drop_last()));
        lemma_digits_val_nonneg(s.drop_last());
    }
}

/// Reading more digits never shrinks the value: a prefix of a run of
/// digits is worth at most the whole run.
pub proof fn lemma_digits_val_prefix_le(s: Seq<u8>, i: int)
    requires
        all_digits(s),
        0 <= i <= s.len(),
    ensures
        digits_val(s.take(i)) <= digits_val(s),
    decreases s.len() - i,
{
    if i == s.len() {
        assert(s.take(i) =~= s);
    } else {
        assert(s.take(i + 1).drop_last() =~= s.take(i));
        assert(all_digits(s.take(i)));
        lemma_digits_val_nonneg(s.take(i));
        assert(digits_val(s.take(i + 1)) == digits_val(s.take(i)) * 10 + digit_val(s[i]));
        lemma_digits_val_prefix_le(s, i + 1);
    }
}

/// Parses `bytes` as a non-negative decimal integer: `Some` exactly when
/// the input is a non-empty run of ASCII digits whose value fits in an
/// `i64`, and then the value itself.
pub fn parse_size(bytes: &Vec<u8>) -> (r: Option<i64>)
    ensures
        r == parse_decimal(bytes@),
{
    let mut acc: i64 = 0;
    let mut j: usize = 0;
    while j < bytes.len()
        invariant
            0 <= j <= bytes@.len(),
            all_digits(bytes@.take(j as int)),
            acc == digits_val(bytes@.take(j as int)),
            0 <= acc <= i64::MAX,
        decreases bytes@.len() - j,
    {
        let b = bytes[j];
        if b < 48 || b > 57 {
            proof {
                assert(!is_ascii_digit(bytes@[j as int]));
            }
            return None;
        }
        let d = (b - 48) as i64;
        proof {
            assert(bytes@.take(j + 1).drop_last() =~= bytes@.take(j as int));
            assert(digits_val(bytes@.take(j + 1)) == acc * 10 + d);
        }
        if acc > 922337203685477580 || (acc == 922337203685477580 && d > 7) {
            proof {
                if all_digits(bytes@) {
                    lemma_digits_val_prefix_le(bytes@, j + 1);
                }
            }
            return None;
        }
        acc = acc * 10 + d;
        j = j + 1;
    }
    proof {
        assert(bytes@.take(j as int) =~= bytes@);
    }
    if bytes.len() == 0 {
        None
    } else {
        Some(acc)
    }
}

} // verus!
