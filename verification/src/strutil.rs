//! Small verified string helpers: equality, prefix search, and the first
//! occurrence of a separator character.

use vstd::prelude::*;
use vstd::string::StrSliceExecFns;

verus! {

/// The first index at or after `i` where `c` occurs in `s`.
pub open spec fn spec_find_char_at(s: Seq<char>, c: char, i: int) -> Option<int>
    decreases s.len() - i,
    when 0 <= i <= s.len()
{
    if i >= s.len() {
        None
    } else if s[i] == c {
        Some(i)
    } else {
        spec_find_char_at(s, c, i + 1)
    }
}

/// The first index where `c` occurs in `s`.
pub open spec fn spec_find_char(s: Seq<char>, c: char) -> Option<int> {
    spec_find_char_at(s, c, 0)
}

/// Finds the first occurrence of `c` in `s`.
pub fn find_char(s: &str, c: char) -> (r: Option<usize>)
    ensures
        match r {
            Some(i) => spec_find_char(s@, c) == Some(i as int) && i < s@.len(),
            None => spec_find_char(s@, c) is None,
        },
{
    let len = s.unicode_len();
    let mut i: usize = 0;
    while i < len
        invariant
            0 <= i <= len,
            len == s@.len(),
            spec_find_char(s@, c) == spec_find_char_at(s@, c, i as int),
        decreases len - i,
    {
        if s.get_char(i) == c {
            return Some(i);
        }
        i = i + 1;
    }
    None
}

/// Character-for-character string equality.
pub fn str_eq(a: &str, b: &str) -> (r: bool)
    ensures
        r == (a@ == b@),
{
    let la = a.unicode_len();
    let lb = b.unicode_len();
    if la != lb {
        return false;
    }
    let mut i: usize = 0;
    while i < la
        invariant
            0 <= i <= la,
            la == a@.len(),
            la == b@.len(),
            forall|k: int| 0 <= k < i ==> a@[k] == b@[k],
        decreases la - i,
    {
        if s_get(a, i) != s_get(b, i) {
            return false;
        }
        i = i + 1;
    }
    proof {
        assert(a@ =~= b@);
    }
    true
}

/// One character of `s`, by index.
fn s_get(s: &str, i: usize) -> (c: char)
    requires
        i < s@.len(),
    ensures
        c == s@[i as int],
{
    s.get_char(i)
}

/// The characters of `s` from `from` (inclusive) to `to` (exclusive), as an
/// owned string.
pub fn substring(s: &str, from: usize, to: usize) -> (r: String)
    requires
        from <= to <= s@.len(),
    ensures
        r@ == s@.subrange(from as int, to as int),
{
    let sub = s.substring_char(from, to);
    sub.to_owned()
}

/// The characters of `s` from `from` (inclusive) to `to` (exclusive).
pub fn substr_of<'a>(s: &'a str, from: usize, to: usize) -> (r: &'a str)
    requires
        from <= to <= s@.len(),
    ensures
        r@ == s@.subrange(from as int, to as int),
{
    s.substring_char(from, to)
}

/// The length of `s` in characters.
pub fn char_len(s: &str) -> (l: usize)
    ensures
        l == s@.len(),
{
    s.unicode_len()
}

} // verus!
