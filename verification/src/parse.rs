//! Parsing user identifiers out of request path segments.
//!
//! An identifier segment is well formed exactly when it is nonempty,
//! consists of decimal digits only, and denotes a value that fits the
//! identifier type. Anything else — a sign, other characters, an empty
//! segment, or an overflowing value — is rejected.

use vstd::prelude::*;

verus! {

/// Whether `c` is a decimal digit.
pub open spec fn is_digit(c: char) -> bool {
    48 <= c as u32 <= 57
}

/// Whether every character of `s` is a decimal digit.
pub open spec fn all_digits(s: Seq<char>) -> bool {
    forall|i: int| 0 <= i < s.len() ==> is_digit(#[trigger] s[i])
}

/// The numeric value of a digit character.
pub open spec fn digit_value(c: char) -> nat {
    ((c as u32) - 48) as nat
}

/// The numeric value of a digit sequence, most significant digit first.
pub open spec fn digits_value(s: Seq<char>) -> nat
    decreases s.len(),
{
    if s.len() == 0 {
        0
    } else {
        digits_value(s.drop_last()) * 10 + digit_value(s.last())
    }
}

/// Whether `s` is a well-formed identifier segment.
pub open spec fn valid_id_segment(s: Seq<char>) -> bool {
    s.len() > 0 && all_digits(s) && digits_value(s) <= u32::MAX
}

/// Law used while parsing left to right: reading one more character
/// multiplies the prefix value by ten and adds the new digit.
proof fn lemma_digits_value_snoc(s: Seq<char>, j: int)
    requires
        0 <= j < s.len(),
    ensures
        digits_value(s.take(j + 1)) == digits_value(s.take(j)) * 10 + digit_value(s[j]),
        all_digits(s.take(j)) && is_digit(s[j]) ==> all_digits(s.take(j + 1)),
{
    assert(s.take(j + 1).drop_last() =~= s.take(j));
    assert(s.take(j + 1).last() == s[j]);
    if all_digits(s.take(j)) && is_digit(s[j]) {
        assert forall|k: int| 0 <= k < j + 1 implies is_digit(#[trigger] s.take(j + 1)[k]) by {
            if k < j {
                assert(s.take(j + 1)[k] == s.take(j)[k]);
            }
        }
    }
}

/// The value of a digit sequence never falls below the value of any of
/// its prefixes, so a prefix that already overflows settles the answer.
proof fn lemma_digits_value_prefix_le(s: Seq<char>, j: int)
    requires
        0 <= j <= s.len(),
    ensures
        digits_value(s.take(j)) <= digits_value(s),
    decreases s.len() - j,
{
    if j == s.len() {
        assert(s.take(j) =~= s);
    } else {
        lemma_digits_value_snoc(s, j);
        lemma_digits_value_prefix_le(s, j + 1);
    }
}

/// Parses a path segment as a user identifier. Succeeds exactly on
/// well-formed identifier segments and then returns the denoted value;
/// an empty segment, a non-digit character, or a value beyond the
/// identifier range yields `None`.
pub fn parse_user_id(s: &str) -> (r: Option<u32>)
    ensures
        r is Some <==> valid_id_segment(s@),
        r matches Some(v) ==> v == digits_value(s@),
{
    let n = s.unicode_len();
    if n == 0 {
        return None;
    }
    let mut acc: u64 = 0;
    let mut i: usize = 0;
    while i < n
        invariant
            i <= n,
            n == s@.len(),
            all_digits(s@.take(i as int)),
            acc == digits_value(s@.take(i as int)),
            acc <= u32::MAX,
        decreases n - i,
    {
        let c = s.get_char(i);
        let cu: u32 = c as u32;
        if cu < 48 || cu > 57 {
            assert(!is_digit(s@[i as int]));
            return None;
        }
        let d: u64 = (cu - 48) as u64;
        let next: u64 = acc * 10 + d;
        proof {
            lemma_digits_value_snoc(s@, i as int);
        }
        if next > 0xffff_ffff {
            proof {
                lemma_digits_value_prefix_le(s@, i + 1);
            }
            return None;
        }
        acc = next;
        i = i + 1;
    }
    proof {
        assert(s@.take(n as int) =~= s@);
    }
    Some(acc as u32)
}

} // verus!
