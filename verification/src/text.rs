//! Verified text utilities: string comparison and decimal parsing.
//!
//! Numeric text fields arrive from the surrounding controls as raw
//! strings; the functions here decide exactly which strings are
//! accepted and what value they denote.

use vstd::prelude::*;
use vstd::string::*;

use crate::errors::ParseError;

verus! {

/// Whether `c` is one of the decimal digits `'0'` through `'9'`.
pub open spec fn is_dec_digit(c: char) -> bool {
    ('0' as u32) <= (c as u32) && (c as u32) <= ('9' as u32)
}

/// The numeric value of a decimal digit.
pub open spec fn dec_digit_val(c: char) -> nat {
    ((c as u32) - ('0' as u32)) as nat
}

/// Whether every character of `s` is a decimal digit.
pub open spec fn all_dec_digits(s: Seq<char>) -> bool {
    forall|i: int| 0 <= i < s.len() ==> is_dec_digit(s[i])
}

/// The value denoted by `s` read as a decimal numeral.
pub open spec fn dec_value(s: Seq<char>) -> nat
    decreases s.len(),
{
    if s.len() == 0 {
        0
    } else {
        dec_value(s.drop_last()) * 10 + dec_digit_val(s.last())
    }
}

/// Reading more digits never decreases the value of a numeral: the
/// value of a prefix is at most the value of the whole.
proof fn lemma_dec_value_prefix(s: Seq<char>, j: int)
    requires
        0 <= j <= s.len(),
        all_dec_digits(s),
    ensures
        dec_value(s.take(j)) <= dec_value(s),
    decreases s.len() - j,
{
    if j < s.len() {
        assert(s.take(j + 1).drop_last() =~= s.take(j));
        assert(s.take(j + 1).last() == s[j]);
        lemma_dec_value_prefix(s, j + 1);
    } else {
        assert(s.take(j) =~= s);
    }
}

/// Character-for-character equality of two string slices.
pub fn str_eq(a: &str, b: &str) -> (r: bool)
    ensures
        r == (a@ == b@),
{
    let a_len = a.unicode_len();
    let b_len = b.unicode_len();
    if a_len != b_len {
        return false;
    }
    let mut i: usize = 0;
    while i < a_len
        invariant
            i <= a_len,
            a_len == a@.len(),
            b_len == b@.len(),
            a_len == b_len,
            forall|j: int| 0 <= j < i ==> a@[j] == b@[j],
        decreases a_len - i,
    {
        if a.get_char(i) != b.get_char(i) {
            return false;
        }
        i += 1;
    }
    proof {
        assert(a@ =~= b@);
    }
    true
}

/// What a text denotes when read as a non-negative decimal numeral:
/// its value for the non-empty all-digit strings whose value fits in
/// `usize`, and nothing for every other string.
pub open spec fn spec_parse_usize(s: Seq<char>) -> Option<usize> {
    if s.len() > 0 && all_dec_digits(s) && dec_value(s) <= usize::MAX {
        Some(dec_value(s) as usize)
    } else {
        None
    }
}

/// Parses a non-negative decimal numeral.
///
/// Accepts exactly the strings that [`spec_parse_usize`] gives a value,
/// and returns that value; anything else is rejected with the
/// offending text.
pub fn parse_usize(s: &str) -> (r: Result<usize, ParseError>)
    ensures
        match r {
            Ok(n) => spec_parse_usize(s@) == Some(n),
            Err(e) => spec_parse_usize(s@) is None && e.input@ == s@,
        },
{
    let len = s.unicode_len();
    if len == 0 {
        return Err(ParseError { input: s.to_owned() });
    }
    let mut n: usize = 0;
    let mut i: usize = 0;
    while i < len
        invariant
            i <= len,
            len == s@.len(),
            all_dec_digits(s@.take(i as int)),
            n == dec_value(s@.take(i as int)),
        decreases len - i,
    {
        let c = s.get_char(i);
        let u = c as u32;
        if u < '0' as u32 || u > '9' as u32 {
            proof {
                assert(!is_dec_digit(s@[i as int]));
            }
            return Err(ParseError { input: s.to_owned() });
        }
        let d = (u - '0' as u32) as usize;
        if n > usize::MAX / 10 || (n == usize::MAX / 10 && d > usize::MAX % 10) {
            proof {
                assert(s@.take(i + 1).drop_last() =~= s@.take(i as int));
                assert(s@.take(i + 1).last() == s@[i as int]);
                assert(dec_value(s@.take(i + 1)) > usize::MAX);
                if all_dec_digits(s@) {
                    lemma_dec_value_prefix(s@, i + 1);
                }
            }
            return Err(ParseError { input: s.to_owned() });
        }
        n = n * 10 + d;
        i += 1;
        proof {
            assert(s@.take(i as int).drop_last() =~= s@.take(i - 1));
            assert(s@.take(i as int).last() == s@[i - 1]);
        }
    }
    proof {
        assert(s@.take(len as int) =~= s@);
    }
    Ok(n)
}

} // verus!
