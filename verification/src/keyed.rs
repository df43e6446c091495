//! Lookups in name-keyed association sequences.
//!
//! The merge index and the per-table bounding boxes are kept as vectors of
//! pairs whose first component is a name; these helpers give such
//! sequences map-like specifications.

use vstd::prelude::*;

verus! {

/// Whether some pair carries the key `k`.
pub open spec fn keyed_has<X>(s: Seq<(Seq<char>, X)>, k: Seq<char>) -> bool {
    exists|i: int| 0 <= i < s.len() && s[i].0 == k
}

/// Index of the first pair carrying the key `k`, or `-1`.
pub open spec fn keyed_find<X>(s: Seq<(Seq<char>, X)>, k: Seq<char>) -> int
    decreases s.len(),
{
    if s.len() == 0 {
        -1
    } else if s[0].0 == k {
        0
    } else {
        let r = keyed_find(s.drop_first(), k);
        if r == -1 {
            -1
        } else {
            r + 1
        }
    }
}

/// No two pairs carry the same key.
pub open spec fn keyed_unique<X>(s: Seq<(Seq<char>, X)>) -> bool {
    forall|i: int, j: int| 0 <= i < j < s.len() ==> s[i].0 != s[j].0
}

pub proof fn lemma_keyed_find<X>(s: Seq<(Seq<char>, X)>, k: Seq<char>)
    ensures
        keyed_has(s, k) <==> 0 <= keyed_find(s, k) < s.len(),
        !keyed_has(s, k) ==> keyed_find(s, k) == -1,
        keyed_has(s, k) ==> s[keyed_find(s, k)].0 == k,
        keyed_has(s, k) ==> forall|j: int| 0 <= j < keyed_find(s, k) ==> s[j].0 != k,
    decreases s.len(),
{
    if s.len() == 0 {
    } else if s[0].0 == k {
    } else {
        lemma_keyed_find(s.drop_first(), k);
        if keyed_has(s, k) {
            let i = choose|i: int| 0 <= i < s.len() && s[i].0 == k;
            assert(s.drop_first()[i - 1] == s[i]);
            assert(keyed_has(s.drop_first(), k));
        }
        if keyed_has(s.drop_first(), k) {
            let r = keyed_find(s.drop_first(), k);
            assert(s[r + 1] == s.drop_first()[r]);
            assert forall|j: int| 0 <= j < keyed_find(s, k) implies s[j].0 != k by {
                if j >= 1 {
                    assert(s[j] == s.drop_first()[j - 1]);
                }
            }
        }
    }
}

/// `keyed_find` finds exactly the first position carrying a key.
pub proof fn lemma_keyed_find_is_first<X>(s: Seq<(Seq<char>, X)>, i: int, k: Seq<char>)
    requires
        0 <= i < s.len(),
        s[i].0 == k,
        forall|j: int| 0 <= j < i ==> s[j].0 != k,
    ensures
        keyed_find(s, k) == i,
{
    lemma_keyed_find(s, k);
    let f = keyed_find(s, k);
    if f < i {
        assert(s[f].0 == k);
    } else if f > i {
        assert(s[i].0 != k);
    }
}

/// Appending a pair does not move the first position of any key; a fresh
/// key lands at the end.
pub proof fn lemma_keyed_find_push<X>(s: Seq<(Seq<char>, X)>, x: (Seq<char>, X), k: Seq<char>)
    ensures
        keyed_find(s.push(x), k) == if keyed_has(s, k) {
            keyed_find(s, k)
        } else if x.0 == k {
            s.len() as int
        } else {
            -1
        },
{
    lemma_keyed_find(s, k);
    lemma_keyed_find(s.push(x), k);
    if keyed_has(s, k) {
        let f = keyed_find(s, k);
        assert(s.push(x)[f].0 == k);
        lemma_keyed_find_is_first(s.push(x), f, k);
    } else if x.0 == k {
        assert(s.push(x)[s.len() as int].0 == k);
        lemma_keyed_find_is_first(s.push(x), s.len() as int, k);
    } else {
        assert forall|i: int| 0 <= i < s.push(x).len() implies s.push(x)[i].0 != k by {
            if i < s.len() {
                assert(s.push(x)[i] == s[i]);
            }
        }
        assert(!keyed_has(s.push(x), k));
    }
}

/// Replacing a pair's value in place does not move the first position of
/// any key.
pub proof fn lemma_keyed_find_update_value<X>(s: Seq<(Seq<char>, X)>, f: int, v: X, k: Seq<char>)
    requires
        0 <= f < s.len(),
    ensures
        keyed_find(s.update(f, (s[f].0, v)), k) == keyed_find(s, k),
{
    let s2 = s.update(f, (s[f].0, v));
    assert(forall|i: int| 0 <= i < s.len() ==> s2[i].0 == #[trigger] s[i].0);
    lemma_keyed_find(s, k);
    lemma_keyed_find(s2, k);
    if keyed_has(s, k) {
        let f0 = keyed_find(s, k);
        assert(s2[f0].0 == k);
        lemma_keyed_find_is_first(s2, f0, k);
    } else {
        assert forall|i: int| 0 <= i < s2.len() implies s2[i].0 != k by {
            assert(s2[i].0 == s[i].0);
        }
        assert(!keyed_has(s2, k));
    }
}

/// With unique keys, the pair at any position is the one `keyed_find` finds.
pub proof fn lemma_keyed_find_at<X>(s: Seq<(Seq<char>, X)>, i: int)
    requires
        keyed_unique(s),
        0 <= i < s.len(),
    ensures
        keyed_find(s, s[i].0) == i,
{
    lemma_keyed_find(s, s[i].0);
    let f = keyed_find(s, s[i].0);
    if f < i {
        assert(s[f].0 == s[i].0);
    } else if f > i {
        assert(s[i].0 != s[i].0);
    }
}

} // verus!
