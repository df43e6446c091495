//! Insertion-ordered attribute maps.
//!
//! Attribute bags travel through the pipeline as `indexmap::IndexMap`
//! values keyed by attribute name.  The map is opaque to the verifier; its
//! contents are modelled as a sequence of key/value pairs in insertion
//! order, and every operation the library performs on a map goes through a
//! small trusted wrapper whose contract states what the operation does to
//! that sequence.

use vstd::prelude::*;
use indexmap::IndexMap;

verus! {

#[verifier::external_type_specification]
#[verifier::external_body]
#[verifier::reject_recursive_types(K)]
#[verifier::reject_recursive_types(V)]
#[verifier::reject_recursive_types(S)]
pub struct ExIndexMap<K, V, S>(IndexMap<K, V, S>);

/// The entries an attribute map holds, as key/value pairs in order.
pub uninterp spec fn attr_entries(m: IndexMap<String, String>) -> Seq<(Seq<char>, Seq<char>)>;

/// The keys of an entry sequence, in order.
pub open spec fn keys_of(s: Seq<(Seq<char>, Seq<char>)>) -> Seq<Seq<char>> {
    s.map_values(|p: (Seq<char>, Seq<char>)| p.0)
}

/// Whether some entry carries the key `k`.
pub open spec fn has_key(s: Seq<(Seq<char>, Seq<char>)>, k: Seq<char>) -> bool {
    exists|i: int| 0 <= i < s.len() && s[i].0 == k
}

/// Index of the first entry carrying the key `k`, or `-1`.
pub open spec fn find_key(s: Seq<(Seq<char>, Seq<char>)>, k: Seq<char>) -> int {
    crate::keyed::keyed_find(s, k)
}

/// The value stored under `k` (meaningful only when `has_key` holds).
pub open spec fn value_of(s: Seq<(Seq<char>, Seq<char>)>, k: Seq<char>) -> Seq<char> {
    s[find_key(s, k)].1
}

/// No two entries carry the same key.
pub open spec fn keys_unique(s: Seq<(Seq<char>, Seq<char>)>) -> bool {
    forall|i: int, j: int| 0 <= i < j < s.len() ==> s[i].0 != s[j].0
}

/// What inserting `k -> v` does to an entry sequence: an existing key keeps
/// its place and gets the new value; a fresh key goes last.
pub open spec fn entries_insert(
    s: Seq<(Seq<char>, Seq<char>)>,
    k: Seq<char>,
    v: Seq<char>,
) -> Seq<(Seq<char>, Seq<char>)> {
    if has_key(s, k) {
        s.update(find_key(s, k), (k, v))
    } else {
        s.push((k, v))
    }
}

/// What removing `k` does to an entry sequence: the entry disappears and
/// the entries after it shift up, keeping their relative order.
pub open spec fn entries_remove(
    s: Seq<(Seq<char>, Seq<char>)>,
    k: Seq<char>,
) -> Seq<(Seq<char>, Seq<char>)> {
    if has_key(s, k) {
        s.remove(find_key(s, k))
    } else {
        s
    }
}

pub proof fn lemma_find_key(s: Seq<(Seq<char>, Seq<char>)>, k: Seq<char>)
    ensures
        has_key(s, k) <==> 0 <= find_key(s, k) < s.len(),
        !has_key(s, k) ==> find_key(s, k) == -1,
        has_key(s, k) ==> s[find_key(s, k)].0 == k,
        has_key(s, k) ==> forall|j: int| 0 <= j < find_key(s, k) ==> s[j].0 != k,
{
    crate::keyed::lemma_keyed_find(s, k);
}

/// With unique keys, the entry at any position is the one `find_key` finds.
pub proof fn lemma_find_key_at(s: Seq<(Seq<char>, Seq<char>)>, i: int)
    requires
        keys_unique(s),
        0 <= i < s.len(),
    ensures
        find_key(s, s[i].0) == i,
{
    crate::keyed::lemma_keyed_find_at(s, i);
}

/// Relies on `indexmap::IndexMap::len`: the number of entries.
#[verifier::external_body]
pub(crate) fn am_len(m: &IndexMap<String, String>) -> (r: usize)
    ensures
        r == attr_entries(*m).len(),
{
    m.len()
}

/// Relies on `indexmap::IndexMap::contains_key`.
#[verifier::external_body]
pub(crate) fn am_contains(m: &IndexMap<String, String>, k: &str) -> (r: bool)
    ensures
        r == has_key(attr_entries(*m), k@),
{
    m.contains_key(k)
}

/// Relies on `indexmap::IndexMap::get`: the value under an equivalent key.
#[verifier::external_body]
pub(crate) fn am_get(m: &IndexMap<String, String>, k: &str) -> (r: Option<String>)
    ensures
        r matches Some(v) ==> has_key(attr_entries(*m), k@) && v@ == value_of(attr_entries(*m), k@),
        r is None ==> !has_key(attr_entries(*m), k@),
{
    m.get(k).cloned()
}

/// Relies on `indexmap::IndexMap::get_index`: the pair at a position, in
/// the map's order; `None` past the end.
#[verifier::external_body]
pub(crate) fn am_get_index(m: &IndexMap<String, String>, i: usize) -> (r: Option<(String, String)>)
    ensures
        match r {
            Some(p) => i < attr_entries(*m).len() && p.0@ == attr_entries(*m)[i as int].0
                && p.1@ == attr_entries(*m)[i as int].1,
            None => i >= attr_entries(*m).len(),
        },
{
    m.get_index(i).map(|(k, v)| (k.clone(), v.clone()))
}

/// Relies on `indexmap::IndexMap::insert`: an existing key keeps its place
/// and its value is replaced; a fresh key is appended last.
#[verifier::external_body]
pub(crate) fn am_insert(m: &mut IndexMap<String, String>, k: String, v: String)
    ensures
        attr_entries(*final(m)) == entries_insert(attr_entries(*old(m)), k@, v@),
        keys_unique(attr_entries(*final(m))),
{
    let _ = m.insert(k, v);
}

/// Relies on `indexmap::IndexMap::shift_remove`: the entry under the key is
/// removed and later entries shift up, keeping their relative order.
#[verifier::external_body]
pub(crate) fn am_remove(m: &mut IndexMap<String, String>, k: &str) -> (r: Option<String>)
    ensures
        attr_entries(*final(m)) == entries_remove(attr_entries(*old(m)), k@),
        r matches Some(v) ==> has_key(attr_entries(*old(m)), k@)
            && v@ == value_of(attr_entries(*old(m)), k@),
        r is None ==> !has_key(attr_entries(*old(m)), k@),
        keys_unique(attr_entries(*final(m))),
{
    m.shift_remove(k)
}

} // verus!
