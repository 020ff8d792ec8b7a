//! ASCII case folding on characters and strings.
//!
//! The launch pipeline compares names case-insensitively in two places: the
//! `.exe` suffix test of the target locator and the helper's search for the
//! target in the system process list.  Both comparisons fold ASCII letters
//! only, so the folding is stated and implemented here once, character by
//! character.

use vstd::prelude::*;
use vstd::string::*;

verus! {

/// The ASCII lowercase image of a character: uppercase ASCII letters map to
/// their lowercase counterpart, every other character to itself.
pub open spec fn ascii_lower(c: char) -> char {
    if 'A' <= c && c <= 'Z' {
        ((c as u8) + 32) as char
    } else {
        c
    }
}

/// Two characters are equal up to ASCII case.
pub open spec fn char_eq_ignore_ascii_case(a: char, b: char) -> bool {
    ascii_lower(a) == ascii_lower(b)
}

/// Two character sequences are equal up to ASCII case.
pub open spec fn seq_eq_ignore_ascii_case(a: Seq<char>, b: Seq<char>) -> bool {
    a.len() == b.len() && forall|i: int| 0 <= i < a.len() ==> char_eq_ignore_ascii_case(a[i], b[i])
}

/// Folds one character to ASCII lowercase.
pub fn lower_char(c: char) -> (r: char)
    ensures
        r == ascii_lower(c),
{
    if 'A' <= c && c <= 'Z' {
        ((c as u8) + 32) as char
    } else {
        c
    }
}

/// Compares two strings for equality up to ASCII case, character by character.
pub fn str_eq_ignore_ascii_case(a: &str, b: &str) -> (r: bool)
    ensures
        r == seq_eq_ignore_ascii_case(a@, b@),
{
    let a_len = a.unicode_len();
    let b_len = b.unicode_len();
    if a_len != b_len {
        return false;
    }
    let mut i: usize = 0;
    while i < a_len
        invariant
            a_len == a@.len(),
            b_len == b@.len(),
            a_len == b_len,
            i <= a_len,
            forall|j: int| 0 <= j < i ==> char_eq_ignore_ascii_case(a@[j], b@[j]),
        decreases a_len - i,
    {
        let ca = a.get_char(i);
        let cb = b.get_char(i);
        if lower_char(ca) != lower_char(cb) {
            return false;
        }
        i = i + 1;
    }
    true
}

} // verus!
