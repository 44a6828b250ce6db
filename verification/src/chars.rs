//! ASCII case folding, and case-insensitive comparison of character
//! sequences. Extension matching is case-insensitive, so both the
//! classification specs and their executable counterparts live here.

use vstd::prelude::*;
use vstd::string::StrSliceExecFns;

verus! {

/// ASCII lowercase of a single character: `'A'..='Z'` map to `'a'..='z'`,
/// everything else is unchanged.
pub open spec fn lower_char(c: char) -> char {
    if 'A' <= c && c <= 'Z' {
        ((c as u32) + 32) as char
    } else {
        c
    }
}

/// Two character sequences are equal up to ASCII case.
pub open spec fn eq_lower(a: Seq<char>, b: Seq<char>) -> bool {
    &&& a.len() == b.len()
    &&& forall|i: int| 0 <= i < a.len() ==> lower_char(a[i]) == lower_char(b[i])
}

/// ASCII lowercase of one character.
pub fn lower_char_x(c: char) -> (r: char)
    ensures
        r == lower_char(c),
{
    if 'A' <= c && c <= 'Z' {
        let u: u8 = c as u8;
        (u + 32) as char
    } else {
        c
    }
}

/// Does the slice of `s` between character positions `from` and `to`
/// equal `other`, up to ASCII case?
pub fn range_eq_lower(s: &str, from: usize, to: usize, other: &str) -> (r: bool)
    requires
        from <= to <= s@.len(),
    ensures
        r == eq_lower(s@.subrange(from as int, to as int), other@),
{
    let m = other.unicode_len();
    if to - from != m {
        return false;
    }
    let mut i: usize = 0;
    while i < m
        invariant
            from <= to <= s@.len(),
            to - from == m,
            m == other@.len(),
            i <= m,
            forall|j: int|
                0 <= j < i ==> lower_char(s@.subrange(from as int, to as int)[j]) == lower_char(
                    other@[j],
                ),
        decreases m - i,
    {
        let a = s.get_char(from + i);
        let b = other.get_char(i);
        if lower_char_x(a) != lower_char_x(b) {
            assert(s@.subrange(from as int, to as int)[i as int] == a);
            return false;
        }
        assert(s@.subrange(from as int, to as int)[i as int] == a);
        i += 1;
    }
    true
}

} // verus!
