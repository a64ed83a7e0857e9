//! Decimal numerals that fit an unsigned 64-bit integer.

use vstd::prelude::*;
use vstd::string::*;
use vstd::utf8::*;

verus! {

/// One of the ten ASCII digits.
pub open spec fn is_decimal_digit(c: char) -> bool {
    '0' <= c && c <= '9'
}

/// The number that an ASCII digit stands for.
pub open spec fn digit_value(c: char) -> nat {
    (c as u32 - '0' as u32) as nat
}

/// Every character is an ASCII digit.
pub open spec fn all_decimal_digits(s: Seq<char>) -> bool {
    forall|i: int| 0 <= i < s.len() ==> is_decimal_digit(#[trigger] s[i])
}

/// The number that a run of digits denotes, most significant digit first.
/// The empty run denotes zero.
pub open spec fn decimal_value(digits: Seq<char>) -> nat
    decreases digits.len(),
{
    if digits.len() == 0 {
        0
    } else {
        10 * decimal_value(digits.drop_last()) + digit_value(digits.last())
    }
}

/// The number written by `s`, if `s` is a numeral: one or more ASCII
/// digits, and nothing else, whose value is at most `u64::MAX`. Leading
/// zeros are allowed.
pub open spec fn parse_decimal_u64(s: Seq<char>) -> Option<u64> {
    if s.len() > 0 && all_decimal_digits(s) && decimal_value(s) <= u64::MAX {
        Some(decimal_value(s) as u64)
    } else {
        None
    }
}

/// A run of digits denotes at least as much as each of its prefixes.
pub proof fn lemma_decimal_value_prefix(digits: Seq<char>, n: int)
    requires
        0 <= n <= digits.len(),
    ensures
        decimal_value(digits.take(n)) <= decimal_value(digits),
    decreases digits.len() - n,
{
    if n == digits.len() {
        assert(digits.take(n) =~= digits);
    } else {
        lemma_decimal_value_prefix(digits.drop_last(), n);
        assert(digits.drop_last().take(n) =~= digits.take(n));
    }
}

/// Reads a numeral.
///
/// Returns the number exactly when `s` is made of one or more ASCII digits
/// and the number they denote fits in 64 bits; `None` for the empty string,
/// for any other character (a sign, a space, a digit of another script) and
/// on overflow.
pub fn parse_u64(s: &str) -> (r: Option<u64>)
    ensures
        r == parse_decimal_u64(s@),
{
    if !s.is_ascii() {
        proof {
            let i = choose|i: int| 0 <= i < s@.len() && !('\0' <= #[trigger] s@[i] <= '\u{7f}');
            assert(!is_decimal_digit(s@[i]));
        }
        return None;
    }
    let bytes = s.as_bytes();
    let n: usize = bytes.len();
    proof {
        is_ascii_spec_bytes(s);
    }
    if n == 0 {
        return None;
    }
    let mut value: u64 = 0;
    let mut i: usize = 0;
    while i < n
        invariant
            i <= n,
            n == s@.len(),
            bytes@.len() == n,
            forall|j: int| 0 <= j < n ==> #[trigger] bytes@[j] == s@[j] as u8,
            is_ascii_chars(s@),
            all_decimal_digits(s@.take(i as int)),
            value == decimal_value(s@.take(i as int)),
        decreases n - i,
    {
        let b: u8 = bytes[i];
        if b < 48 || b > 57 {
            assert(!is_decimal_digit(s@[i as int]));
            return None;
        }
        let d: u64 = (b - 48) as u64;
        proof {
            let next = s@.take(i + 1);
            assert(next.drop_last() =~= s@.take(i as int));
            assert(next.last() == s@[i as int]);
            assert(digit_value(s@[i as int]) == d);
            assert(decimal_value(next) == 10 * value + d);
            assert(all_decimal_digits(next)) by {
                assert forall|j: int| 0 <= j < next.len() implies is_decimal_digit(
                    #[trigger] next[j],
                ) by {
                    if j < i {
                        assert(next[j] == s@.take(i as int)[j]);
                    }
                }
            }
        }
        if value > (u64::MAX - d) / 10 {
            proof {
                lemma_decimal_value_prefix(s@, i + 1);
            }
            return None;
        }
        value = value * 10 + d;
        i = i + 1;
    }
    assert(s@.take(i as int) =~= s@);
    Some(value)
}

} // verus!
