//! Attribute-key renaming for merged detail records.
//!
//! When a detail record is merged into its parent feature, its keys are
//! qualified with the detail table's name so that different detail tables
//! cannot shadow one another.  Disaster-risk detail tables additionally
//! get a category prefix chosen from the tables created this run.

use vstd::prelude::*;
use indexmap::IndexMap;

use crate::attrmap::{
    am_get_index, am_insert, am_len, am_remove, attr_entries, entries_insert, entries_remove,
    has_key, keys_of, keys_unique, value_of,
};
use crate::sink::GpkgSink;
use crate::strutil;
use crate::tables::{name_seq_contains, TableSet};

verus! {

/// The detail table names that carry disaster-risk attributes.
pub open spec fn is_risk_attribute(t: Seq<char>) -> bool {
    ||| t == "InlandFloodingRiskAttribute"@
    ||| t == "HighTideRiskAttribute"@
    ||| t == "LandSlideRiskAttribute"@
    ||| t == "ReservoirFloodingRiskAttribute"@
    ||| t == "RiverFloodingRiskAttribute"@
    ||| t == "TsunamiRiskAttribute"@
}

/// The prefix and table name renaming actually uses: risk tables are
/// requalified by the category whose table exists this run, buildings
/// before water bodies; anything else keeps the caller's prefix and name.
pub open spec fn effective_rename(
    table_name: Seq<char>,
    prefix: Seq<char>,
    created: Seq<String>,
) -> (Seq<char>, Seq<char>) {
    if name_seq_contains(created, "bldg:Building"@) && is_risk_attribute(table_name) {
        ("buildingDisasterRiskAttribute"@, "Building"@ + table_name)
    } else if name_seq_contains(created, "wtr:WaterBody"@) && is_risk_attribute(table_name) {
        ("floodingRiskAttribute"@, "WaterBody"@ + table_name)
    } else {
        (prefix, table_name)
    }
}

/// The composite key an attribute key is renamed to.
pub open spec fn composite_key(prefix: Seq<char>, table: Seq<char>, k: Seq<char>) -> Seq<char> {
    if prefix.len() == 0 {
        table + "|"@ + k
    } else {
        prefix + "|"@ + table + "|"@ + k
    }
}

/// Renaming, key by key in the order given: each key still present is
/// removed and its value reinserted under the composite key.
pub open spec fn rename_fold(
    s: Seq<(Seq<char>, Seq<char>)>,
    keys: Seq<Seq<char>>,
    prefix: Seq<char>,
    table: Seq<char>,
) -> Seq<(Seq<char>, Seq<char>)>
    decreases keys.len(),
{
    if keys.len() == 0 {
        s
    } else {
        let k = keys[0];
        let s2 = if has_key(s, k) {
            entries_insert(entries_remove(s, k), composite_key(prefix, table, k), value_of(s, k))
        } else {
            s
        };
        rename_fold(s2, keys.drop_first(), prefix, table)
    }
}

/// What renaming does to a whole entry sequence.
pub open spec fn renamed_entries(
    s: Seq<(Seq<char>, Seq<char>)>,
    table_name: Seq<char>,
    prefix: Seq<char>,
    created: Seq<String>,
) -> Seq<(Seq<char>, Seq<char>)> {
    let (p, t) = effective_rename(table_name, prefix, created);
    rename_fold(s, keys_of(s), p, t)
}

/// Renaming is deterministic: the outcome is a function of the entries,
/// the table name, the prefix, and the membership of the two consulted
/// category tables in the created set — nothing else about the created
/// set matters, so equal inputs give identical composite keys on any run.
pub proof fn lemma_rename_deterministic(
    s: Seq<(Seq<char>, Seq<char>)>,
    table_name: Seq<char>,
    prefix: Seq<char>,
    c1: Seq<String>,
    c2: Seq<String>,
)
    requires
        name_seq_contains(c1, "bldg:Building"@) == name_seq_contains(c2, "bldg:Building"@),
        name_seq_contains(c1, "wtr:WaterBody"@) == name_seq_contains(c2, "wtr:WaterBody"@),
    ensures
        renamed_entries(s, table_name, prefix, c1) == renamed_entries(s, table_name, prefix, c2),
{
}

/// Every entry with its key replaced by the composite key.
pub open spec fn mapped_composites(
    s: Seq<(Seq<char>, Seq<char>)>,
    prefix: Seq<char>,
    table: Seq<char>,
) -> Seq<(Seq<char>, Seq<char>)> {
    s.map_values(
        |p: (Seq<char>, Seq<char>)| (composite_key(prefix, table, p.0), p.1),
    )
}

/// Composite keys distinguish distinct keys.
pub proof fn lemma_composite_injective(
    prefix: Seq<char>,
    table: Seq<char>,
    k1: Seq<char>,
    k2: Seq<char>,
)
    requires
        composite_key(prefix, table, k1) == composite_key(prefix, table, k2),
    ensures
        k1 == k2,
{
    let a = if prefix.len() == 0 {
        table + "|"@
    } else {
        prefix + "|"@ + table + "|"@
    };
    assert(composite_key(prefix, table, k1) == a + k1);
    assert(composite_key(prefix, table, k2) == a + k2);
    assert(k1.len() == k2.len());
    assert forall|i: int| 0 <= i < k1.len() implies k1[i] == k2[i] by {
        assert((a + k1)[a.len() + i] == k1[i]);
        assert((a + k2)[a.len() + i] == k2[i]);
    }
    assert(k1 =~= k2);
}

proof fn lemma_rename_fold_fresh(
    t: Seq<(Seq<char>, Seq<char>)>,
    done: Seq<(Seq<char>, Seq<char>)>,
    prefix: Seq<char>,
    table: Seq<char>,
)
    requires
        keys_unique(t),
        forall|i: int, j: int|
            0 <= i < t.len() && 0 <= j < t.len() ==> composite_key(prefix, table, t[i].0)
                != t[j].0,
        forall|l: int, i: int|
            0 <= l < done.len() && 0 <= i < t.len() ==> done[l].0 != composite_key(
                prefix,
                table,
                t[i].0,
            ),
    ensures
        rename_fold(t + done, keys_of(t), prefix, table) == done + mapped_composites(
            t,
            prefix,
            table,
        ),
    decreases t.len(),
{
    if t.len() == 0 {
        assert(keys_of(t).len() == 0);
        assert(t + done =~= done);
        assert(done + mapped_composites(t, prefix, table) =~= done);
    } else {
        let k = t[0].0;
        let s = t + done;
        let comp = composite_key(prefix, table, k);
        assert(keys_of(t)[0] == k);
        assert(s[0].0 == k);
        crate::keyed::lemma_keyed_find_is_first(s, 0, k);
        assert(has_key(s, k));
        assert(value_of(s, k) == t[0].1);
        let s1 = entries_remove(s, k);
        assert(s1 =~= t.drop_first() + done);
        assert(!has_key(s1, comp)) by {
            if has_key(s1, comp) {
                let w = choose|w: int| 0 <= w < s1.len() && s1[w].0 == comp;
                if w < t.len() - 1 {
                    assert(s1[w] == t[w + 1]);
                    assert(composite_key(prefix, table, t[0].0) == t[w + 1].0);
                } else {
                    assert(s1[w] == done[w - (t.len() - 1)]);
                }
            }
        }
        let s2 = entries_insert(s1, comp, t[0].1);
        let done2 = done.push((comp, t[0].1));
        assert(s2 =~= t.drop_first() + done2);
        assert forall|i: int, j: int|
            0 <= i < t.drop_first().len() && 0 <= j < t.drop_first().len() implies composite_key(
            prefix,
            table,
            t.drop_first()[i].0,
        ) != t.drop_first()[j].0 by {
            assert(t.drop_first()[i] == t[i + 1]);
            assert(t.drop_first()[j] == t[j + 1]);
        }
        assert forall|i: int, j: int|
            0 <= i < j < t.drop_first().len() implies t.drop_first()[i].0
            != t.drop_first()[j].0 by {
            assert(t.drop_first()[i] == t[i + 1]);
            assert(t.drop_first()[j] == t[j + 1]);
        }
        assert forall|l: int, i: int|
            0 <= l < done2.len() && 0 <= i < t.drop_first().len() implies done2[l].0
            != composite_key(prefix, table, t.drop_first()[i].0) by {
            assert(t.drop_first()[i] == t[i + 1]);
            if l < done.len() {
                assert(done2[l] == done[l]);
            } else {
                assert(done2[l].0 == comp);
                if comp == composite_key(prefix, table, t[i + 1].0) {
                    lemma_composite_injective(prefix, table, t[0].0, t[i + 1].0);
                    assert(t[0].0 == t[i + 1].0);
                }
            }
        }
        lemma_rename_fold_fresh(t.drop_first(), done2, prefix, table);
        assert(keys_of(t).drop_first() =~= keys_of(t.drop_first()));
        assert(done + mapped_composites(t, prefix, table) =~= done2 + mapped_composites(
            t.drop_first(),
            prefix,
            table,
        ));
    }
}

/// When no composite key collides with any original key, renaming is
/// exactly the key map: the result keeps the entries in order, each with
/// its key replaced by its composite form and its value untouched.
pub proof fn lemma_rename_fresh(
    s: Seq<(Seq<char>, Seq<char>)>,
    prefix: Seq<char>,
    table: Seq<char>,
)
    requires
        keys_unique(s),
        forall|i: int, j: int|
            0 <= i < s.len() && 0 <= j < s.len() ==> composite_key(prefix, table, s[i].0)
                != s[j].0,
    ensures
        rename_fold(s, keys_of(s), prefix, table) == mapped_composites(s, prefix, table),
{
    lemma_rename_fold_fresh(s, Seq::empty(), prefix, table);
    assert(s + Seq::<(Seq<char>, Seq<char>)>::empty() =~= s);
    assert(Seq::<(Seq<char>, Seq<char>)>::empty() + mapped_composites(s, prefix, table)
        =~= mapped_composites(s, prefix, table));
}

impl GpkgSink {
    /// Whether a detail table name is one of the disaster-risk tables.
    pub fn is_risk_table(table_name: &str) -> (r: bool)
        ensures
            r == is_risk_attribute(table_name@),
    {
        ||| strutil::str_eq(table_name, "InlandFloodingRiskAttribute")
        ||| strutil::str_eq(table_name, "HighTideRiskAttribute")
        ||| strutil::str_eq(table_name, "LandSlideRiskAttribute")
        ||| strutil::str_eq(table_name, "ReservoirFloodingRiskAttribute")
        ||| strutil::str_eq(table_name, "RiverFloodingRiskAttribute")
        ||| strutil::str_eq(table_name, "TsunamiRiskAttribute")
    }

    /// Rename every key of an attribute map to its composite form.
    pub fn rename_all_attributes(
        updated_attributes: &mut IndexMap<String, String>,
        table_name: &str,
        prefix: &str,
        created_tables: &TableSet,
    )
        requires
            keys_unique(attr_entries(*old(updated_attributes))),
        ensures
            attr_entries(*final(updated_attributes)) == renamed_entries(
                attr_entries(*old(updated_attributes)),
                table_name@,
                prefix@,
                created_tables.items@,
            ),
            keys_unique(attr_entries(*final(updated_attributes))),
    {
        let ghost orig = attr_entries(*updated_attributes);
        let is_building = created_tables.contains("bldg:Building");
        let is_waterbody = created_tables.contains("wtr:WaterBody");
        let risky = Self::is_risk_table(table_name);

        let new_prefix: String;
        let new_table: String;
        if is_building && risky {
            new_prefix = String::from_str("buildingDisasterRiskAttribute");
            new_table = String::from_str("Building").concat(table_name);
        } else if is_waterbody && risky {
            new_prefix = String::from_str("floodingRiskAttribute");
            new_table = String::from_str("WaterBody").concat(table_name);
        } else {
            new_prefix = String::from_str(prefix);
            new_table = String::from_str(table_name);
        }
        let ghost eff = effective_rename(table_name@, prefix@, created_tables.items@);
        assert(new_prefix@ == eff.0 && new_table@ == eff.1);

        // Snapshot the keys before any of them moves.
        let n = am_len(updated_attributes);
        let mut keys: Vec<String> = Vec::new();
        let mut i: usize = 0;
        while i < n
            invariant
                n == orig.len(),
                attr_entries(*updated_attributes) == orig,
                i <= n,
                keys@.len() == i,
                forall|j: int| 0 <= j < i ==> keys@[j]@ == orig[j].0,
            decreases n - i,
        {
            match am_get_index(updated_attributes, i) {
                Some(p) => {
                    keys.push(p.0);
                },
                None => {
                    proof {
                        assert(false);
                    }
                },
            }
            i += 1;
        }
        let ghost kseq = keys_of(orig);
        proof {
            assert(keys@.map_values(|s: String| s@) =~= kseq);
            assert(kseq.skip(0) =~= kseq);
        }

        let mut i: usize = 0;
        while i < n
            invariant
                n == kseq.len(),
                keys@.len() == n,
                forall|j: int| 0 <= j < n ==> keys@[j]@ == kseq[j],
                i <= n,
                new_prefix@ == eff.0,
                new_table@ == eff.1,
                keys_unique(attr_entries(*updated_attributes)),
                rename_fold(attr_entries(*updated_attributes), kseq.skip(i as int), eff.0, eff.1)
                    == rename_fold(orig, kseq, eff.0, eff.1),
            decreases n - i,
        {
            let ghost cur = attr_entries(*updated_attributes);
            proof {
                assert(kseq.skip(i as int)[0] == kseq[i as int]);
                assert(kseq.skip(i as int).drop_first() =~= kseq.skip(i as int + 1));
            }
            let key = &keys[i];
            match am_remove(updated_attributes, key.as_str()) {
                Some(value) => {
                    let new_key: String;
                    if new_prefix.as_str().is_empty() {
                        new_key = new_table.clone().concat("|").concat(key.as_str());
                    } else {
                        new_key = new_prefix.clone().concat("|").concat(new_table.as_str()).concat(
                            "|",
                        ).concat(key.as_str());
                    }
                    assert(new_key@ =~= composite_key(eff.0, eff.1, key@));
                    am_insert(updated_attributes, new_key, value);
                },
                None => {},
            }
            i += 1;
        }
        proof {
            assert(kseq.skip(n as int) =~= Seq::<Seq<char>>::empty());
        }
    }
}

} // verus!
