//! Small verified string utilities used across the crate.

use vstd::prelude::*;

verus! {

/// Two characters are equal up to ASCII case: either identical, or one is an
/// ASCII upper-case letter and the other its lower-case form (code point + 32).
pub open spec fn char_eq_ignore_ascii_case(a: char, b: char) -> bool {
    a == b
        || ('A' <= a && a <= 'Z' && b as u32 == a as u32 + 32)
        || ('A' <= b && b <= 'Z' && a as u32 == b as u32 + 32)
}

/// Two character sequences are equal up to ASCII case.
pub open spec fn str_eq_ignore_ascii_case(a: Seq<char>, b: Seq<char>) -> bool {
    a.len() == b.len() && (forall|i: int|
        0 <= i < a.len() ==> char_eq_ignore_ascii_case(a[i], b[i]))
}

/// ASCII-case-insensitive comparison of two string slices.
pub fn eq_ignore_ascii_case(a: &str, b: &str) -> (r: bool)
    ensures
        r == str_eq_ignore_ascii_case(a@, b@),
{
    let a_len = a.unicode_len();
    let b_len = b.unicode_len();
    if a_len != b_len {
        return false;
    }
    let mut i: usize = 0;
    while i < a_len
        invariant
            a_len == a@.len(),
            b_len == b@.len(),
            a_len == b_len,
            0 <= i <= a_len,
            forall|j: int| 0 <= j < i ==> char_eq_ignore_ascii_case(a@[j], b@[j]),
        decreases a_len - i,
    {
        let ca = a.get_char(i);
        let cb = b.get_char(i);
        let xa = ca as u32;
        let xb = cb as u32;
        let same = ca == cb
            || ('A' as u32 <= xa && xa <= 'Z' as u32 && xb == xa + 32)
            || ('A' as u32 <= xb && xb <= 'Z' as u32 && xa == xb + 32);
        if !same {
            return false;
        }
        i = i + 1;
    }
    true
}

/// Exact equality of two string slices, character by character.
pub fn str_eq(a: &str, b: &str) -> (r: bool)
    ensures
        r == (a@ == b@),
{
    let a_len = a.unicode_len();
    let b_len = b.unicode_len();
    if a_len != b_len {
        return false;
    }
    let mut i: usize = 0;
    while i < a_len
        invariant
            a_len == a@.len(),
            b_len == b@.len(),
            a_len == b_len,
            0 <= i <= a_len,
            forall|j: int| 0 <= j < i ==> a@[j] == b@[j],
        decreases a_len - i,
    {
        if a.get_char(i) != b.get_char(i) {
            return false;
        }
        i = i + 1;
    }
    proof {
        assert(a@ =~= b@);
    }
    true
}

} // verus!
