//! Plain byte-pattern search: the model of `str::find` on a byte range, and
//! an executable search proved against it.

use vstd::prelude::*;

verus! {

/// `p` occurs in `s` starting at index `i`.
pub open spec fn matches_at(s: Seq<u8>, p: Seq<u8>, i: int) -> bool {
    0 <= i && i + p.len() <= s.len() && s.subrange(i, i + p.len()) == p
}

/// The first index `i >= from` at which `p` occurs in `s` and ends no later
/// than `to`; `None` when there is none.
pub open spec fn find_in(s: Seq<u8>, p: Seq<u8>, from: int, to: int) -> Option<int>
    decreases to + 1 - from,
{
    if from + p.len() > to {
        None
    } else if matches_at(s, p, from) {
        Some(from)
    } else {
        find_in(s, p, from + 1, to)
    }
}

/// An executable index as a mathematical one.
pub open spec fn as_index(r: Option<usize>) -> Option<int> {
    match r {
        Some(i) => Some(i as int),
        None => None,
    }
}

/// What a successful search states: a match at `a`, within bounds, and
/// no earlier one.
pub proof fn lemma_find_some(s: Seq<u8>, p: Seq<u8>, from: int, to: int, a: int)
    requires
        find_in(s, p, from, to) == Some(a),
    ensures
        from <= a,
        a + p.len() <= to,
        matches_at(s, p, a),
        forall|i: int| from <= i < a ==> !matches_at(s, p, i),
    decreases to + 1 - from,
{
    if from + p.len() <= to && !matches_at(s, p, from) {
        lemma_find_some(s, p, from + 1, to, a);
    }
}

/// A match at `a`, within bounds and with no earlier one, is what the
/// search finds.
pub proof fn lemma_find_at(s: Seq<u8>, p: Seq<u8>, from: int, to: int, a: int)
    requires
        from <= a,
        a + p.len() <= to,
        matches_at(s, p, a),
        forall|i: int| from <= i < a ==> !matches_at(s, p, i),
    ensures
        find_in(s, p, from, to) == Some(a),
    decreases a - from,
{
    if from < a {
        assert(!matches_at(s, p, from));
        lemma_find_at(s, p, from + 1, to, a);
    }
}

/// A search that found `a` finds it again under any bound that still holds
/// the match.
pub proof fn lemma_find_rebound(s: Seq<u8>, p: Seq<u8>, from: int, to: int, to2: int, a: int)
    requires
        find_in(s, p, from, to) == Some(a),
        a + p.len() <= to2,
    ensures
        find_in(s, p, from, to2) == Some(a),
{
    lemma_find_some(s, p, from, to, a);
    lemma_find_at(s, p, from, to2, a);
}

/// Two sequences that agree below `to` give the same search results below `to`.
pub proof fn lemma_find_prefix(s: Seq<u8>, t: Seq<u8>, p: Seq<u8>, from: int, to: int)
    requires
        to <= s.len(),
        to <= t.len(),
        forall|q: int| 0 <= q < to ==> s[q] == t[q],
    ensures
        find_in(s, p, from, to) == find_in(t, p, from, to),
    decreases to + 1 - from,
{
    if from + p.len() <= to {
        if 0 <= from {
            assert(s.subrange(from, from + p.len()) =~= t.subrange(from, from + p.len()));
        }
        lemma_find_prefix(s, t, p, from + 1, to);
    }
}

/// A one-byte pattern matches exactly where that byte stands.
pub proof fn lemma_match_byte(s: Seq<u8>, b: u8, i: int)
    ensures
        matches_at(s, seq![b], i) <==> (0 <= i < s.len() && s[i] == b),
{
    if 0 <= i < s.len() {
        if s[i] == b {
            assert(s.subrange(i, i + 1) =~= seq![b]);
        } else {
            assert(s.subrange(i, i + 1)[0] != seq![b][0]);
        }
    }
}

/// Whether `pat` occurs in `hay` at `at`.
pub fn bytes_match_at(hay: &[u8], pat: &[u8], at: usize) -> (r: bool)
    requires
        at + pat@.len() <= hay@.len(),
    ensures
        r == matches_at(hay@, pat@, at as int),
{
    let n: usize = hay.len();
    let mut j: usize = 0;
    while j < pat.len()
        invariant
            n == hay@.len(),
            j <= pat@.len(),
            at + pat@.len() <= hay@.len(),
            forall|k: int| 0 <= k < j ==> hay@[at + k] == pat@[k],
        decreases pat@.len() - j,
    {
        if hay[at + j] != pat[j] {
            assert(hay@.subrange(at as int, at + pat@.len())[j as int] != pat@[j as int]);
            return false;
        }
        j = j + 1;
    }
    assert(hay@.subrange(at as int, at + pat@.len()) =~= pat@);
    true
}

/// The first occurrence of `pat` in `hay` that starts at or after `from`
/// and ends no later than `to`.
pub fn find_bytes(hay: &[u8], pat: &[u8], from: usize, to: usize) -> (r: Option<usize>)
    requires
        to <= hay@.len(),
    ensures
        as_index(r) == find_in(hay@, pat@, from as int, to as int),
{
    let n: usize = hay.len();
    let mut i: usize = from;
    while i <= to && pat.len() <= to - i
        invariant
            n == hay@.len(),
            from <= i,
            to <= hay@.len(),
            find_in(hay@, pat@, i as int, to as int) == find_in(hay@, pat@, from as int, to as int),
        decreases to + 1 - i,
    {
        if bytes_match_at(hay, pat, i) {
            return Some(i);
        }
        assert(pat@.len() > 0) by {
            if pat@.len() == 0 {
                assert(hay@.subrange(i as int, i as int) =~= pat@);
            }
        }
        i = i + 1;
    }
    None
}

} // verus!
