//! `${key}` placeholder substitution.

use std::borrow::Cow;
use std::collections::BTreeMap;
use vstd::prelude::*;
use vstd::string::*;

use crate::text::{find_char, first_of, keyed_by_text, lemma_first_of, lookup, text_is};

verus! {

/// Whether a placeholder opening `${` starts at index `k` of `t`.
pub open spec fn opens_at(t: Seq<char>, k: int) -> bool {
    0 <= k && k + 1 < t.len() && t[k] == '$' && t[k + 1] == '{'
}

/// Index of the first `}` of `t` at or after `k`.
pub open spec fn first_close(t: Seq<char>, k: int) -> Option<int> {
    first_of(t, '}', k)
}

/// The parameters seen as a map from key text to value text.
pub open spec fn param_view(m: Map<&str, &str>) -> Map<Seq<char>, Seq<char>> {
    keyed_by_text(m).map_values(|v: &str| v@)
}

/// A source of values for placeholder keys.
pub trait Params {
    /// The values, keyed by their key's text.
    spec fn table(&self) -> Map<Seq<char>, Seq<char>>;

    fn value_of<'s>(&'s self, key: &str) -> (r: Option<&'s str>)
        ensures
            match r {
                Some(v) => self.table().contains_key(key@) && self.table()[key@] == v@,
                None => !self.table().contains_key(key@),
            },
    ;
}

impl<'k, 'v> Params for BTreeMap<&'k str, &'v str> {
    open spec fn table(&self) -> Map<Seq<char>, Seq<char>> {
        param_view(self@)
    }

    fn value_of<'s>(&'s self, key: &str) -> (r: Option<&'s str>) {
        match lookup(self, key) {
            Some(v) => Some(*v),
            None => None,
        }
    }
}

/// A single key bound to a single value.
pub struct Binding<'a> {
    pub key: &'a str,
    pub value: &'a str,
}

impl<'a> Params for Binding<'a> {
    open spec fn table(&self) -> Map<Seq<char>, Seq<char>> {
        map![self.key@ => self.value@]
    }

    fn value_of<'s>(&'s self, key: &str) -> (r: Option<&'s str>) {
        if text_is(key, self.key) {
            Some(self.value)
        } else {
            None
        }
    }
}

/// The value that replaces the placeholder `t[open..=close]`, if any: a
/// placeholder whose key is unknown, or whose value is the placeholder
/// itself, stays as it is.
pub open spec fn resolved(t: Seq<char>, pv: Map<Seq<char>, Seq<char>>, open: int, close: int) -> Option<
    Seq<char>,
> {
    let key = t.subrange(open + 2, close);
    let placeholder = t.subrange(open, close + 1);
    if pv.contains_key(key) && pv[key] != placeholder {
        Some(pv[key])
    } else {
        None
    }
}

/// The expansion of `t` from index `i` on, scanning left to right.  An
/// unterminated placeholder ends the scan: the rest is kept verbatim.
pub open spec fn expand_from(t: Seq<char>, pv: Map<Seq<char>, Seq<char>>, i: int) -> Seq<char>
    decreases t.len() - i via expand_from_decreases
{
    if i < 0 || i >= t.len() {
        Seq::empty()
    } else if opens_at(t, i) {
        match first_close(t, i + 2) {
            None => t.subrange(i, t.len() as int),
            Some(c) => match resolved(t, pv, i, c) {
                Some(v) => v + expand_from(t, pv, c + 1),
                None => t.subrange(i, c + 1) + expand_from(t, pv, c + 1),
            },
        }
    } else {
        seq![t[i]] + expand_from(t, pv, i + 1)
    }
}

/// Whether the expansion of `t` from index `i` on replaces any placeholder.
pub open spec fn replaces_from(t: Seq<char>, pv: Map<Seq<char>, Seq<char>>, i: int) -> bool
    decreases t.len() - i via replaces_from_decreases
{
    if i < 0 || i >= t.len() {
        false
    } else if opens_at(t, i) {
        match first_close(t, i + 2) {
            None => false,
            Some(c) => resolved(t, pv, i, c) is Some || replaces_from(t, pv, c + 1),
        }
    } else {
        replaces_from(t, pv, i + 1)
    }
}

/// The expansion of the whole template.
pub open spec fn expand(t: Seq<char>, pv: Map<Seq<char>, Seq<char>>) -> Seq<char> {
    expand_from(t, pv, 0)
}

/// Whether expanding the whole template replaces any placeholder.
pub open spec fn replaces_any(t: Seq<char>, pv: Map<Seq<char>, Seq<char>>) -> bool {
    replaces_from(t, pv, 0)
}

proof fn lemma_first_close(t: Seq<char>, k: int)
    requires
        0 <= k,
    ensures
        match first_close(t, k) {
            Some(c) => k <= c < t.len() && t[c] == '}' && forall|m: int| k <= m < c ==> t[m] != '}',
            None => forall|m: int| k <= m < t.len() ==> t[m] != '}',
        },
{
    lemma_first_of(t, '}', k);
}

#[via_fn]
proof fn expand_from_decreases(t: Seq<char>, pv: Map<Seq<char>, Seq<char>>, i: int) {
    if 0 <= i < t.len() && opens_at(t, i) {
        lemma_first_close(t, i + 2);
    }
}

#[via_fn]
proof fn replaces_from_decreases(t: Seq<char>, pv: Map<Seq<char>, Seq<char>>, i: int) {
    if 0 <= i < t.len() && opens_at(t, i) {
        lemma_first_close(t, i + 2);
    }
}

/// A stretch without placeholder openings is copied as it stands.
proof fn lemma_plain_run(t: Seq<char>, pv: Map<Seq<char>, Seq<char>>, i: int, j: int)
    requires
        0 <= i <= j <= t.len(),
        forall|m: int| i <= m < j ==> !opens_at(t, m),
    ensures
        expand_from(t, pv, i) == t.subrange(i, j) + expand_from(t, pv, j),
        replaces_from(t, pv, i) == replaces_from(t, pv, j),
    decreases j - i,
{
    if i < j {
        lemma_plain_run(t, pv, i + 1, j);
        assert(t.subrange(i, j) =~= seq![t[i]] + t.subrange(i + 1, j));
        assert(seq![t[i]] + (t.subrange(i + 1, j) + expand_from(t, pv, j)) =~= (seq![t[i]]
            + t.subrange(i + 1, j)) + expand_from(t, pv, j));
    } else {
        assert(t.subrange(i, j) =~= Seq::<char>::empty());
        assert(Seq::<char>::empty() + expand_from(t, pv, j) =~= expand_from(t, pv, j));
    }
}


/// First index at or after `from` where a placeholder opens.
fn find_open(t: &str, n: usize, from: usize) -> (r: Option<usize>)
    requires
        n == t@.len(),
        from <= n,
    ensures
        match r {
            Some(k) => from <= k && opens_at(t@, k as int) && forall|m: int|
                from <= m < k ==> !opens_at(t@, m),
            None => forall|m: int| from <= m < n ==> !opens_at(t@, m),
        },
{
    let mut k = from;
    while k < n
        invariant
            from <= k <= n,
            n == t@.len(),
            forall|m: int| from <= m < k ==> !opens_at(t@, m),
        decreases n - k,
    {
        if k + 1 < n && t.get_char(k) == '$' && t.get_char(k + 1) == '{' {
            return Some(k);
        }
        k += 1;
    }
    None
}


/// Replaces each `${key}` of `template` whose key `params` holds by its
/// value, left to right.  Unknown keys, values equal to their own
/// placeholder and an unterminated `${` are kept verbatim.  The template
/// itself is handed back, borrowed, when nothing was replaced.
pub fn substitute<'a, P: Params>(template: &'a str, params: &P) -> (r: Cow<'a, str>)
    ensures
        r@ == expand(template@, params.table()),
        (r is Owned) == replaces_any(template@, params.table()),
{
    let ghost t = template@;
    let ghost pv = params.table();
    let n = template.unicode_len();
    let mut out = String::new();
    let mut changed = false;
    let mut start: usize = 0;
    loop
        invariant_except_break
            out@ + expand_from(t, pv, start as int) == expand_from(t, pv, 0),
            (changed || replaces_from(t, pv, start as int)) == replaces_from(t, pv, 0),
            !changed ==> out@ == t.subrange(0, start as int),
        invariant
            start <= n,
            n == t.len(),
            t == template@,
            pv == params.table(),
        ensures
            out@ == expand_from(t, pv, 0),
            changed == replaces_from(t, pv, 0),
            !changed ==> out@ == t,
        decreases n - start,
    {
        let open = find_open(template, n, start);
        let close = match open {
            Some(o) => find_char(template, n, '}', o + 2),
            None => None,
        };
        match (open, close) {
            (Some(o), Some(c)) => {
                proof {
                    lemma_plain_run(t, pv, start as int, o as int);
                    lemma_first_close(t, o + 2);
                }
                let key = template.substring_char(o + 2, c);
                let placeholder = template.substring_char(o, c + 1);
                let before = template.substring_char(start, o);
                let ghost prev = out@;
                out.append(before);
                let value = params.value_of(key);
                let replace = match value {
                    Some(v) => v.to_owned() != placeholder.to_owned(),
                    None => false,
                };
                if replace {
                    let v = value.unwrap();
                    out.append(v);
                    changed = true;
                } else {
                    out.append(placeholder);
                }
                proof {
                    let piece = if replace {
                        resolved(t, pv, o as int, c as int)->0
                    } else {
                        t.subrange(o as int, c + 1)
                    };
                    assert(out@ == prev + t.subrange(start as int, o as int) + piece);
                    assert(expand_from(t, pv, o as int) == piece + expand_from(t, pv, c + 1));
                    assert(out@ + expand_from(t, pv, c + 1) =~= prev + (t.subrange(
                        start as int,
                        o as int,
                    ) + (piece + expand_from(t, pv, c + 1))));
                    if !changed {
                        assert(out@ =~= t.subrange(0, c + 1));
                    }
                }
                start = c + 1;
            },
            (Some(o), None) => {
                proof {
                    lemma_plain_run(t, pv, start as int, o as int);
                }
                let ghost prev = out@;
                out.append(template.substring_char(start, n));
                proof {
                    assert(t.subrange(start as int, n as int) =~= t.subrange(start as int, o as int)
                        + t.subrange(o as int, n as int));
                    assert(out@ =~= prev + expand_from(t, pv, start as int));
                    if !changed {
                        assert(out@ =~= t);
                    }
                }
                break ;
            },
            (None, _) => {
                proof {
                    lemma_plain_run(t, pv, start as int, n as int);
                }
                let ghost prev = out@;
                out.append(template.substring_char(start, n));
                proof {
                    assert(out@ =~= prev + expand_from(t, pv, start as int));
                    if !changed {
                        assert(out@ =~= t);
                    }
                }
                break ;
            },
        }
    }
    if changed {
        Cow::Owned(out)
    } else {
        Cow::Borrowed(template)
    }
}

/// `substitute` with the parameters of a map from key to value.
pub fn substitute_params<'a>(template: &'a str, params: &BTreeMap<&str, &str>) -> (r: Cow<'a, str>)
    ensures
        r@ == expand(template@, param_view(params@)),
        (r is Owned) == replaces_any(template@, param_view(params@)),
{
    substitute(template, params)
}

} // verus!
