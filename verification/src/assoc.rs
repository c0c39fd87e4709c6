//! Association sequences: sequences of entries addressed by a key function.
//!
//! The persistent records of the contracts (balances, allowances, supply
//! records) are small keyed stores. Each is held as a vector of entries whose
//! keys are pairwise distinct; `assoc_find` is the common lookup, and the
//! lemmas here say how it behaves under update and push.

use vstd::prelude::*;

verus! {

/// The entry of `s` whose key under `f` is `k`, scanning from the end.
/// With pairwise distinct keys the scanning order does not matter.
pub open spec fn assoc_find<E, K>(s: Seq<E>, f: spec_fn(E) -> K, k: K) -> Option<E>
    decreases s.len(),
{
    if s.len() == 0 {
        None
    } else if f(s.last()) == k {
        Some(s.last())
    } else {
        assoc_find(s.drop_last(), f, k)
    }
}

/// No two entries of `s` share a key under `f`.
pub open spec fn distinct_keys<E, K>(s: Seq<E>, f: spec_fn(E) -> K) -> bool {
    forall|i: int, j: int| 0 <= i < j < s.len() ==> f(s[i]) != f(s[j])
}

/// With distinct keys, the entry at any index is what lookup by its key finds.
pub proof fn lemma_assoc_find_at<E, K>(s: Seq<E>, f: spec_fn(E) -> K, i: int)
    requires
        distinct_keys(s, f),
        0 <= i < s.len(),
    ensures
        assoc_find(s, f, f(s[i])) == Some(s[i]),
    decreases s.len(),
{
    if i < s.len() - 1 {
        assert(f(s[i]) != f(s[s.len() - 1]));
        assert(distinct_keys(s.drop_last(), f));
        assert(s.drop_last()[i] == s[i]);
        lemma_assoc_find_at(s.drop_last(), f, i);
    }
}

/// A key no entry carries is not found.
pub proof fn lemma_assoc_find_absent<E, K>(s: Seq<E>, f: spec_fn(E) -> K, k: K)
    requires
        forall|i: int| 0 <= i < s.len() ==> f(s[i]) != k,
    ensures
        assoc_find(s, f, k) is None,
    decreases s.len(),
{
    if s.len() > 0 {
        assert(f(s[s.len() - 1]) != k);
        assert(forall|i: int| 0 <= i < s.drop_last().len() ==> f(s.drop_last()[i]) != k);
        lemma_assoc_find_absent(s.drop_last(), f, k);
    }
}

/// Overwriting the entry at `i` with one of the same key changes exactly that
/// key's lookup, and keeps the keys distinct.
pub proof fn lemma_assoc_find_update<E, K>(s: Seq<E>, f: spec_fn(E) -> K, i: int, e: E, k: K)
    requires
        distinct_keys(s, f),
        0 <= i < s.len(),
        f(e) == f(s[i]),
    ensures
        assoc_find(s.update(i, e), f, k) == if k == f(e) {
            Some(e)
        } else {
            assoc_find(s, f, k)
        },
        distinct_keys(s.update(i, e), f),
    decreases s.len(),
{
    let t = s.update(i, e);
    assert forall|p: int, q: int| 0 <= p < q < t.len() implies f(t[p]) != f(t[q]) by {
        assert(f(s[p]) != f(s[q]));
    }
    if i == s.len() - 1 {
        assert(t.last() == e);
        assert(t.drop_last() =~= s.drop_last());
        if k != f(e) {
            assert(f(s.last()) == f(e));
        }
    } else {
        assert(t.last() == s.last());
        assert(t.drop_last() =~= s.drop_last().update(i, e));
        assert(distinct_keys(s.drop_last(), f));
        assert(s.drop_last()[i] == s[i]);
        if f(s.last()) == k {
            assert(k != f(e)) by {
                assert(f(s[i]) != f(s[s.len() - 1]));
            }
        } else {
            lemma_assoc_find_update(s.drop_last(), f, i, e, k);
        }
    }
}

/// Appending an entry with a fresh key adds exactly that key's lookup, and
/// keeps the keys distinct.
pub proof fn lemma_assoc_find_push<E, K>(s: Seq<E>, f: spec_fn(E) -> K, e: E, k: K)
    requires
        distinct_keys(s, f),
        forall|i: int| 0 <= i < s.len() ==> f(s[i]) != f(e),
    ensures
        assoc_find(s.push(e), f, k) == if k == f(e) {
            Some(e)
        } else {
            assoc_find(s, f, k)
        },
        distinct_keys(s.push(e), f),
{
    let t = s.push(e);
    assert(t.last() == e);
    assert(t.drop_last() =~= s);
    assert forall|p: int, q: int| 0 <= p < q < t.len() implies f(t[p]) != f(t[q]) by {
        if q < s.len() {
            assert(f(s[p]) != f(s[q]));
        } else {
            assert(f(s[p]) != f(e));
        }
    }
}

} // verus!
