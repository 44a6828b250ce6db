//! Extension-based classification of paths.
//!
//! The model of a path here: components are separated by `'/'`, the file
//! name is everything after the last separator, and the extension is what
//! follows the last `'.'` of the file name — unless that dot is the file
//! name's first character (a dotfile such as `.profile` has no extension).
//! A fixed set of extensions, compared without regard to ASCII case, marks
//! an entry as an image.

use vstd::prelude::*;
use vstd::string::StrSliceExecFns;
use crate::chars::{eq_lower, lower_char, range_eq_lower};

verus! {

/// Index of the last occurrence of `c` in `s`, or `-1` when `c` does not
/// occur.
pub open spec fn last_index_of(s: Seq<char>, c: char) -> int
    decreases s.len(),
{
    if s.len() == 0 {
        -1
    } else if s[s.len() - 1] == c {
        s.len() - 1
    } else {
        last_index_of(s.drop_last(), c)
    }
}

/// `last_index_of` names the last occurrence: it is a valid index bearing
/// `c` when `c` occurs, `-1` otherwise, and nothing after it is `c`.
pub proof fn lemma_last_index_of(s: Seq<char>, c: char)
    ensures
        -1 <= last_index_of(s, c) < s.len(),
        last_index_of(s, c) >= 0 ==> s[last_index_of(s, c)] == c,
        forall|j: int| last_index_of(s, c) < j < s.len() ==> s[j] != c,
    decreases s.len(),
{
    if s.len() > 0 && s[s.len() - 1] != c {
        lemma_last_index_of(s.drop_last(), c);
        assert(forall|j: int|
            0 <= j < s.len() - 1 ==> s[j] == s.drop_last()[j]);
    }
}

/// Last position at or after `lo` holding `c`, or `None` when `c` does not
/// occur there.
fn last_index_from(s: &str, c: char, lo: usize) -> (r: Option<usize>)
    requires
        lo <= s@.len(),
    ensures
        match r {
            Some(i) => lo <= i < s@.len() && s@[i as int] == c && (forall|j: int|
                i < j < s@.len() ==> s@[j] != c),
            None => forall|j: int| lo <= j < s@.len() ==> s@[j] != c,
        },
{
    let n = s.unicode_len();
    let mut i: usize = n;
    while i > lo
        invariant
            lo <= i <= n,
            n == s@.len(),
            forall|j: int| i <= j < n ==> s@[j] != c,
        decreases i,
    {
        let ch = s.get_char(i - 1);
        if ch == c {
            return Some(i - 1);
        }
        i = i - 1;
    }
    None
}

/// Position where the file name begins: just after the last separator.
pub open spec fn file_name_start(path: Seq<char>) -> int {
    last_index_of(path, '/') + 1
}

/// The file name: everything after the last `'/'` (the whole of `path`
/// when there is no separator).
pub open spec fn file_name_of(path: Seq<char>) -> Seq<char> {
    path.subrange(file_name_start(path), path.len() as int)
}

/// The extension: what follows the last `'.'` of the file name. A name
/// without a dot, or whose only dot is its first character, has none.
pub open spec fn extension_of(path: Seq<char>) -> Option<Seq<char>> {
    let name = file_name_of(path);
    let d = last_index_of(name, '.');
    if d > 0 {
        Some(name.subrange(d + 1, name.len() as int))
    } else {
        None
    }
}

/// Character range of the extension within `path`, when there is one.
pub fn extension_bounds(path: &str) -> (r: Option<(usize, usize)>)
    ensures
        match r {
            Some(b) => b.0 <= b.1 <= path@.len() && extension_of(path@) == Some(
                path@.subrange(b.0 as int, b.1 as int),
            ),
            None => extension_of(path@) is None,
        },
{
    let n = path.unicode_len();
    proof {
        lemma_last_index_of(path@, '/');
    }
    let start: usize = match last_index_from(path, '/', 0) {
        Some(i) => i + 1,
        None => 0,
    };
    assert(start == file_name_start(path@));
    let ghost name = file_name_of(path@);
    proof {
        lemma_last_index_of(name, '.');
    }
    match last_index_from(path, '.', start) {
        Some(d) => {
            assert(name[d - start] == '.');
            assert(last_index_of(name, '.') == d - start) by {
                let l = last_index_of(name, '.');
                if l > d - start {
                    assert(path@[start + l] == '.');
                }
            }
            if d > start {
                assert(name.subrange(d - start + 1, name.len() as int) =~= path@.subrange(
                    d + 1,
                    n as int,
                ));
                Some((d + 1, n))
            } else {
                None
            }
        },
        None => {
            assert(last_index_of(name, '.') == -1) by {
                let l = last_index_of(name, '.');
                if l >= 0 {
                    assert(path@[start + l] == '.');
                }
            }
            None
        },
    }
}

/// The recognized image extensions, compared without regard to ASCII case.
pub open spec fn is_image_ext(e: Seq<char>) -> bool {
    ||| eq_lower(e, "png"@)
    ||| eq_lower(e, "jpg"@)
    ||| eq_lower(e, "jpeg"@)
    ||| eq_lower(e, "gif"@)
    ||| eq_lower(e, "webp"@)
}

/// A path names an image iff its extension is one of the recognized set.
pub open spec fn is_image(path: Seq<char>) -> bool {
    match extension_of(path) {
        Some(e) => is_image_ext(e),
        None => false,
    }
}

/// Classify a path by its extension.
pub fn is_image_path(path: &str) -> (r: bool)
    ensures
        r == is_image(path@),
{
    match extension_bounds(path) {
        Some(b) => {
            let (lo, hi) = b;
            range_eq_lower(path, lo, hi, "png") || range_eq_lower(path, lo, hi, "jpg")
                || range_eq_lower(path, lo, hi, "jpeg") || range_eq_lower(path, lo, hi, "gif")
                || range_eq_lower(path, lo, hi, "webp")
        },
        None => false,
    }
}

/// MIME type assigned to a path: the image types for the recognized
/// extensions, a generic byte-stream type for everything else.
pub open spec fn mime_of(path: Seq<char>) -> Seq<char> {
    match extension_of(path) {
        Some(e) => {
            if eq_lower(e, "png"@) {
                "image/png"@
            } else if eq_lower(e, "jpg"@) || eq_lower(e, "jpeg"@) {
                "image/jpeg"@
            } else if eq_lower(e, "gif"@) {
                "image/gif"@
            } else if eq_lower(e, "webp"@) {
                "image/webp"@
            } else {
                "application/octet-stream"@
            }
        },
        None => "application/octet-stream"@,
    }
}

/// MIME type for a path, by its extension.
pub fn mime_for_path(path: &str) -> (r: &'static str)
    ensures
        r@ == mime_of(path@),
{
    match extension_bounds(path) {
        Some(b) => {
            let (lo, hi) = b;
            if range_eq_lower(path, lo, hi, "png") {
                "image/png"
            } else if range_eq_lower(path, lo, hi, "jpg") || range_eq_lower(path, lo, hi, "jpeg") {
                "image/jpeg"
            } else if range_eq_lower(path, lo, hi, "gif") {
                "image/gif"
            } else if range_eq_lower(path, lo, hi, "webp") {
                "image/webp"
            } else {
                "application/octet-stream"
            }
        },
        None => "application/octet-stream",
    }
}

} // verus!
