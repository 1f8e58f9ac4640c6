//! Small facts and operations on text shared by the other modules.

use std::collections::BTreeMap;
use vstd::prelude::*;
use vstd::string::*;

verus! {

/// A map keyed by string slices, seen as keyed by their text.
pub open spec fn keyed_by_text<V>(m: Map<&str, V>) -> Map<Seq<char>, V> {
    Map::new(
        |k: Seq<char>| exists|s: &str| m.contains_key(s) && s@ == k,
        |k: Seq<char>| m[choose|s: &str| m.contains_key(s) && s@ == k],
    )
}

/// Relies on `BTreeMap::get`: with `&str` keys, a key is found exactly when
/// a stored key has the same text, and then its value is returned.  (vstd's
/// own contract for `get` holds only for key types whose ordering it
/// models, which `&str` is not.)
#[verifier::external_body]
pub fn lookup<'m, V>(m: &'m BTreeMap<&str, V>, key: &str) -> (r: Option<&'m V>)
    ensures
        match r {
            Some(v) => keyed_by_text(m@).contains_key(key@) && keyed_by_text(m@)[key@] == *v,
            None => !keyed_by_text(m@).contains_key(key@),
        },
{
    m.get(key)
}

/// Index of the first `c` of `t` at or after `k`.
pub open spec fn first_of(t: Seq<char>, c: char, k: int) -> Option<int>
    decreases t.len() - k,
{
    if k < 0 || k >= t.len() {
        None
    } else if t[k] == c {
        Some(k)
    } else {
        first_of(t, c, k + 1)
    }
}

pub proof fn lemma_first_of(t: Seq<char>, c: char, k: int)
    requires
        0 <= k,
    ensures
        match first_of(t, c, k) {
            Some(i) => k <= i < t.len() && t[i] == c && forall|m: int| k <= m < i ==> t[m] != c,
            None => forall|m: int| k <= m < t.len() ==> t[m] != c,
        },
    decreases t.len() - k,
{
    if k < t.len() && t[k] != c {
        lemma_first_of(t, c, k + 1);
    }
}

/// First index at or after `from` that holds `c`.
pub fn find_char(t: &str, n: usize, c: char, from: usize) -> (r: Option<usize>)
    requires
        n == t@.len(),
        from <= n,
    ensures
        match r {
            Some(i) => first_of(t@, c, from as int) == Some(i as int),
            None => first_of(t@, c, from as int) is None,
        },
{
    let mut k = from;
    while k < n
        invariant
            from <= k <= n,
            n == t@.len(),
            first_of(t@, c, k as int) == first_of(t@, c, from as int),
        decreases n - k,
    {
        if t.get_char(k) == c {
            return Some(k);
        }
        k += 1;
    }
    None
}

/// Whether `s` begins with `p`.
pub open spec fn has_prefix(s: Seq<char>, p: Seq<char>) -> bool {
    p.len() <= s.len() && s.subrange(0, p.len() as int) == p
}

pub fn starts_with(s: &str, p: &str) -> (r: bool)
    ensures
        r == has_prefix(s@, p@),
{
    let n = s.unicode_len();
    let m = p.unicode_len();
    if m > n {
        return false;
    }
    let mut i: usize = 0;
    while i < m
        invariant
            i <= m <= n,
            n == s@.len(),
            m == p@.len(),
            forall|j: int| 0 <= j < i ==> s@[j] == p@[j],
        decreases m - i,
    {
        if s.get_char(i) != p.get_char(i) {
            assert(s@.subrange(0, m as int)[i as int] != p@[i as int]);
            return false;
        }
        i += 1;
    }
    assert(s@.subrange(0, m as int) =~= p@);
    true
}

/// Whether `s` holds exactly the text `lit`.
pub fn text_is(s: &str, lit: &str) -> (r: bool)
    ensures
        r == (s@ == lit@),
{
    s.to_owned() == lit.to_owned()
}

} // verus!
