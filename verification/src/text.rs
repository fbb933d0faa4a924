//! Character-level helpers for strings: equality and searching.

use vstd::prelude::*;
use vstd::string::*;

verus! {

/// Character-for-character equality of two string slices.
pub fn str_eq(a: &str, b: &str) -> (r: bool)
    ensures
        r == (a@ == b@),
{
    let alen = a.unicode_len();
    let blen = b.unicode_len();
    if alen != blen {
        return false;
    }
    let mut i: usize = 0;
    while i < alen
        invariant
            alen == a@.len(),
            blen == b@.len(),
            alen == blen,
            i <= alen,
            forall|j: int| 0 <= j < i ==> a@[j] == b@[j],
        decreases alen - i,
    {
        if a.get_char(i) != b.get_char(i) {
            return false;
        }
        i += 1;
    }
    proof {
        assert(a@ =~= b@);
    }
    true
}

/// The index of the last occurrence of `c` in `s`, if any.
pub fn find_last_char(s: &str, c: char) -> (r: Option<usize>)
    ensures
        r matches Some(i) ==> s@.index_of_last(c) == Some(i as int) && i < s@.len()
            && s@[i as int] == c,
        r is None ==> s@.index_of_last(c) is None,
{
    let n = s.unicode_len();
    let mut i = n;
    while i > 0
        invariant
            n == s@.len(),
            i <= n,
            forall|j: int| i <= j < n ==> s@[j] != c,
        decreases i,
    {
        i -= 1;
        if s.get_char(i) == c {
            proof {
                s@.index_of_last_ensures(c);
                let found = s@.index_of_last(c);
                assert(s@.contains(c));
                assert(found matches Some(k) && k == i) by {
                    match found {
                        Some(k) => {
                            if k < i {
                                assert(s@[i as int] == c);
                            } else if k > i {
                                assert(s@[k] != c);
                            }
                        },
                        None => {},
                    }
                }
            }
            return Some(i);
        }
    }
    proof {
        s@.index_of_last_ensures(c);
        assert(!s@.contains(c)) by {
            if s@.contains(c) {
                let w = choose|j: int| 0 <= j < s@.len() && s@[j] == c;
                assert(s@[w] != c);
            }
        }
    }
    None
}

} // verus!
