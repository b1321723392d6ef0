//! Character-level rules of the command grammar.

use vstd::prelude::*;

verus! {

/// The lower-case form of `c` that `char::to_lowercase` gives: one or more
/// characters, by Unicode's case mapping.
pub uninterp spec fn lower_of(c: char) -> Seq<char>;

/// Relies on `char::to_lowercase`: the characters of the lower-case form of `c`.
#[verifier::external_body]
fn lowercase(c: char) -> (r: String)
    ensures
        r@ == lower_of(c),
{
    c.to_lowercase().collect()
}

/// Two characters that are equal up to case: their lower-case forms agree.
pub open spec fn same_ignoring_case(a: char, b: char) -> bool {
    lower_of(a) == lower_of(b)
}

/// `s` begins with `lit`, compared character by character up to case.
pub open spec fn starts_with_no_case(s: Seq<char>, lit: Seq<char>) -> bool {
    &&& lit.len() <= s.len()
    &&& forall|i: int| 0 <= i < lit.len() ==> same_ignoring_case(#[trigger] s[i], lit[i])
}

/// An ASCII decimal digit.
pub open spec fn is_digit(c: char) -> bool {
    0x30 <= c as u32 <= 0x39
}

/// A character that may continue a number once its first digit is read.
pub open spec fn is_digit_or_underscore(c: char) -> bool {
    is_digit(c) || c == '_'
}

/// The first index at or after `i` that does not hold a digit or an underscore.
pub open spec fn digits_end(s: Seq<char>, i: int) -> int
    decreases s.len() - i,
{
    if 0 <= i < s.len() && is_digit_or_underscore(s[i]) {
        digits_end(s, i + 1)
    } else {
        i
    }
}

/// The value of a string of decimal digits.
pub open spec fn digits_value(s: Seq<char>) -> int
    decreases s.len(),
{
    if s.len() == 0 {
        0
    } else {
        digits_value(s.drop_last()) * 10 + (s.last() as u32 - 0x30)
    }
}

/// Every character of `s` is a decimal digit.
pub open spec fn all_digits(s: Seq<char>) -> bool {
    forall|i: int| 0 <= i < s.len() ==> is_digit(#[trigger] s[i])
}

/// The integer written by `s`: an optional sign (`-` only where `signed`)
/// followed by one or more decimal digits, and nothing else.
pub open spec fn int_text_value(s: Seq<char>, signed: bool) -> Option<int> {
    if s.len() >= 2 && s[0] == '-' && signed && all_digits(s.skip(1)) {
        Some(-digits_value(s.skip(1)))
    } else if s.len() >= 2 && s[0] == '+' && all_digits(s.skip(1)) {
        Some(digits_value(s.skip(1)))
    } else if s.len() >= 1 && all_digits(s) {
        Some(digits_value(s))
    } else {
        None
    }
}

/// Whether `input` begins with `lit`, up to case.
pub fn begins_with_no_case(input: &str, lit: &str) -> (r: bool)
    ensures
        r == starts_with_no_case(input@, lit@),
{
    let n = lit.unicode_len();
    let m = input.unicode_len();
    if n > m {
        return false;
    }
    let mut i: usize = 0;
    while i < n
        invariant
            n == lit@.len(),
            m == input@.len(),
            n <= m,
            0 <= i <= n,
            forall|j: int| 0 <= j < i ==> same_ignoring_case(#[trigger] input@[j], lit@[j]),
        decreases n - i,
    {
        let a = lowercase(input.get_char(i));
        let b = lowercase(lit.get_char(i));
        if a != b {
            return false;
        }
        i = i + 1;
    }
    true
}

/// Whether `c` is an ASCII decimal digit.
pub fn char_is_digit(c: char) -> (r: bool)
    ensures
        r == is_digit(c),
{
    0x30 <= c as u32 && c as u32 <= 0x39
}

} // verus!
