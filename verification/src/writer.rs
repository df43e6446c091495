//! Planning of the grouped transactional writes and the final packaging.
//!
//! After the merge pass, the merged features are grouped by table; for each
//! table the columns missing from the store are computed once per batch,
//! and after all tables are written the produced table files are packed
//! into one archive.

use vstd::prelude::*;

use crate::attrmap::am_get_index;
use crate::keyed::{keyed_find, keyed_has, lemma_keyed_find, lemma_keyed_find_is_first};
use crate::records::FeatureData;
use crate::run::{fd_model, idx_model, FdV, IdxV};
use crate::strutil;
use crate::tables::{name_seq_contains, names_contain};

verus! {

/// One table's batch: the merged features that go into it, in merge order.
pub struct TableGroup {
    pub table_name: String,
    pub rows: Vec<(String, FeatureData)>,
}

/// Model of a grouping: table name to rows, in first-seen order.
pub open spec fn group_model(gs: Seq<TableGroup>) -> Seq<(Seq<char>, IdxV)> {
    gs.map_values(|g: TableGroup| (g.table_name@, idx_model(g.rows@)))
}

/// Append one merged feature to its table's group, opening the group if
/// the table is new.
pub open spec fn group_put(
    acc: Seq<(Seq<char>, IdxV)>,
    t: Seq<char>,
    row: (Seq<char>, FdV),
) -> Seq<(Seq<char>, IdxV)> {
    if keyed_has(acc, t) {
        let f = keyed_find(acc, t);
        acc.update(f, (t, acc[f].1.push(row)))
    } else {
        acc.push((t, seq![row]))
    }
}

/// Grouping the merge index by table, row by row in index order.
pub open spec fn group_fold(items: IdxV, acc: Seq<(Seq<char>, IdxV)>) -> Seq<(Seq<char>, IdxV)>
    decreases items.len(),
{
    if items.len() == 0 {
        acc
    } else {
        group_fold(items.drop_first(), group_put(acc, items[0].1.0, items[0]))
    }
}

/// First position among the groups holding the table name `k`.
fn group_pos(items: &Vec<TableGroup>, k: &str) -> (r: Option<usize>)
    ensures
        match r {
            Some(j) => j < items@.len() && items@[j as int].table_name@ == k@ && (forall|l: int|
                0 <= l < j ==> items@[l].table_name@ != k@),
            None => forall|l: int| 0 <= l < items@.len() ==> items@[l].table_name@ != k@,
        },
{
    let mut i: usize = 0;
    while i < items.len()
        invariant
            i <= items@.len(),
            forall|l: int| 0 <= l < i ==> items@[l].table_name@ != k@,
        decreases items@.len() - i,
    {
        if strutil::str_eq(items[i].table_name.as_str(), k) {
            return Some(i);
        }
        i += 1;
    }
    None
}

/// Group the merged features by their table, keeping the merge order both
/// of tables (first feature seen opens the table) and of rows.
pub fn group_by_table(index: Vec<(String, FeatureData)>) -> (r: Vec<TableGroup>)
    ensures
        group_model(r@) == group_fold(idx_model(index@), Seq::empty()),
{
    let ghost orig = idx_model(index@);
    let ghost target = group_fold(orig, Seq::empty());
    let mut rest = index;
    let mut groups: Vec<TableGroup> = Vec::new();
    proof {
        assert(group_model(groups@) =~= Seq::<(Seq<char>, IdxV)>::empty());
    }
    while rest.len() > 0
        invariant
            group_fold(idx_model(rest@), group_model(groups@)) == target,
        decreases rest@.len(),
    {
        let ghost rest0 = rest@;
        let ghost acc0 = group_model(groups@);
        let p = rest.remove(0);
        proof {
            assert(idx_model(rest0)[0] == (p.0@, fd_model(p.1)));
            assert(idx_model(rest0.remove(0)) =~= idx_model(rest0).drop_first());
        }
        let ghost row = (p.0@, fd_model(p.1));
        let ghost t = fd_model(p.1).0;
        match group_pos(&groups, p.1.table_name.as_str()) {
            Some(j) => {
                proof {
                    assert(acc0[j as int] == (groups@[j as int].table_name@, idx_model(
                        groups@[j as int].rows@,
                    )));
                    lemma_keyed_find_is_first(acc0, j as int, t);
                }
                let mut g = groups.remove(j);
                let ghost rows0 = g.rows@;
                g.rows.push(p);
                proof {
                    assert(idx_model(g.rows@) =~= idx_model(rows0).push(row));
                }
                groups.insert(j, g);
                proof {
                    assert(groups@ =~= groups@.subrange(0, j as int) + seq![
                        groups@[j as int],
                    ] + groups@.subrange(j as int + 1, groups@.len() as int));
                    assert(group_model(groups@) =~= group_put(acc0, t, row));
                }
            },
            None => {
                proof {
                    lemma_keyed_find(acc0, t);
                    assert forall|l: int| 0 <= l < acc0.len() implies acc0[l].0 != t by {
                        assert(acc0[l] == (groups@[l].table_name@, idx_model(groups@[l].rows@)));
                    }
                    assert(!keyed_has(acc0, t));
                }
                let name = p.1.table_name.clone();
                let mut rows: Vec<(String, FeatureData)> = Vec::new();
                rows.push(p);
                proof {
                    assert(idx_model(rows@) =~= seq![row]);
                }
                groups.push(TableGroup { table_name: name, rows });
                proof {
                    assert(group_model(groups@) =~= group_put(acc0, t, row));
                }
            },
        }
    }
    proof {
        assert(idx_model(rest@) =~= Seq::<(Seq<char>, FdV)>::empty());
    }
    groups
}

/// Whether a sequence of plain key views contains `k`.
pub open spec fn views_contain(s: Seq<Seq<char>>, k: Seq<char>) -> bool {
    exists|i: int| 0 <= i < s.len() && s[i] == k
}

/// Collect, from one row's attribute entries, the keys that are neither
/// stored columns yet nor already collected.
pub open spec fn missing_one(
    entries: Seq<(Seq<char>, Seq<char>)>,
    existing: Seq<String>,
    acc: Seq<Seq<char>>,
) -> Seq<Seq<char>>
    decreases entries.len(),
{
    if entries.len() == 0 {
        acc
    } else {
        let k = entries[0].0;
        let acc2 = if !name_seq_contains(existing, k) && !views_contain(acc, k) {
            acc.push(k)
        } else {
            acc
        };
        missing_one(entries.drop_first(), existing, acc2)
    }
}

/// The columns a batch needs that the table does not have yet, in first
/// occurrence order, without duplicates.
pub open spec fn missing_fold(rows: IdxV, existing: Seq<String>, acc: Seq<Seq<char>>) -> Seq<
    Seq<char>,
>
    decreases rows.len(),
{
    if rows.len() == 0 {
        acc
    } else {
        missing_fold(rows.drop_first(), existing, missing_one(rows[0].1.2, existing, acc))
    }
}

/// Compute the columns to add before a table's batch insert: the union of
/// the batch's attribute keys minus the table's current columns.
pub fn missing_columns(existing: &Vec<String>, rows: &Vec<(String, FeatureData)>) -> (r: Vec<
    String,
>)
    ensures
        r@.map_values(|s: String| s@) == missing_fold(idx_model(rows@), existing@, Seq::empty()),
{
    let mut out: Vec<String> = Vec::new();
    proof {
        assert(out@.map_values(|s: String| s@) =~= Seq::<Seq<char>>::empty());
        assert(idx_model(rows@).skip(0) =~= idx_model(rows@));
    }
    let ghost all = idx_model(rows@);
    let ghost target = missing_fold(all, existing@, Seq::empty());
    let mut i: usize = 0;
    while i < rows.len()
        invariant
            all == idx_model(rows@),
            target == missing_fold(all, existing@, Seq::empty()),
            i <= rows@.len(),
            missing_fold(all.skip(i as int), existing@, out@.map_values(|s: String| s@))
                == target,
        decreases rows@.len() - i,
    {
        proof {
            assert(all.skip(i as int)[0] == all[i as int]);
            assert(all.skip(i as int).drop_first() =~= all.skip(i as int + 1));
            assert(all[i as int] == (rows@[i as int].0@, fd_model(rows@[i as int].1)));
        }
        let attrs = &rows[i].1.attributes;
        let ghost entries = all[i as int].1.2;
        let n = crate::attrmap::am_len(attrs);
        let mut j: usize = 0;
        proof {
            assert(entries.skip(0) =~= entries);
        }
        while j < n
            invariant
                entries == all[i as int].1.2,
                n == entries.len(),
                entries == crate::attrmap::attr_entries(*attrs),
                i < rows@.len(),
                all == idx_model(rows@),
                j <= n,
                missing_fold(all.skip(i as int + 1), existing@, missing_one(
                    entries.skip(j as int),
                    existing@,
                    out@.map_values(|s: String| s@),
                )) == target,
            decreases n - j,
        {
            let ghost acc0 = out@.map_values(|s: String| s@);
            proof {
                assert(entries.skip(j as int)[0] == entries[j as int]);
                assert(entries.skip(j as int).drop_first() =~= entries.skip(j as int + 1));
            }
            match am_get_index(attrs, j) {
                Some(p) => {
                    let in_existing = names_contain(existing, p.0.as_str());
                    let in_out = names_contain(&out, p.0.as_str());
                    proof {
                        if name_seq_contains(out@, p.0@) {
                            let l = choose|l: int| 0 <= l < out@.len() && out@[l]@ == p.0@;
                            assert(acc0[l] == out@[l]@);
                        }
                        if views_contain(acc0, p.0@) {
                            let l = choose|l: int| 0 <= l < acc0.len() && acc0[l] == p.0@;
                            assert(acc0[l] == out@[l]@);
                        }
                        assert(name_seq_contains(out@, p.0@) == views_contain(acc0, p.0@));
                    }
                    if !in_existing && !in_out {
                        out.push(p.0);
                        proof {
                            assert(out@.map_values(|s: String| s@) =~= acc0.push(
                                entries[j as int].0,
                            ));
                        }
                    }
                },
                None => {
                    proof {
                        assert(false);
                    }
                },
            }
            j += 1;
        }
        proof {
            assert(entries.skip(n as int) =~= Seq::<(Seq<char>, Seq<char>)>::empty());
        }
        i += 1;
    }
    proof {
        assert(all.skip(rows@.len() as int) =~= Seq::<(Seq<char>, FdV)>::empty());
    }
    out
}

/// Whether a directory entry is a produced table file: it carries the
/// table-file extension after a non-empty stem (a name that is nothing
/// but the extension has no extension at all).
pub open spec fn is_table_file(s: Seq<char>) -> bool {
    s.len() > ".gpkg"@.len() && strutil::ends_with(s, ".gpkg"@)
}

/// The files the archive takes: exactly the produced table files among
/// the directory entries.
pub open spec fn gpkg_members(names: Seq<String>) -> Seq<String> {
    names.filter(|s: String| is_table_file(s@))
}

/// Plan the packaging step over the output directory's entries: which
/// files go into the archive (and are removed once archived), in the
/// order given.
pub fn zip_plan(file_names: Vec<String>) -> (r: Vec<String>)
    ensures
        r@ == gpkg_members(file_names@),
{
    let ghost orig = file_names@;
    let mut rest = file_names;
    let mut members: Vec<String> = Vec::new();
    let ghost mut k: int = 0;
    proof {
        assert(orig.take(0) =~= Seq::<String>::empty());
        assert(orig.skip(0) =~= orig);
        reveal(Seq::filter);
    }
    while rest.len() > 0
        invariant
            0 <= k <= orig.len(),
            rest@ == orig.skip(k),
            members@ == gpkg_members(orig.take(k)),
        decreases rest@.len(),
    {
        let ghost prefix = orig.take(k);
        let name = rest.remove(0);
        proof {
            assert(name == orig[k]);
            assert(orig.skip(k).remove(0) =~= orig.skip(k + 1));
            assert(orig.take(k + 1).drop_last() =~= prefix);
            assert(orig.take(k + 1).last() == orig[k]);
            reveal(Seq::filter);
        }
        if table_file_test(name.as_str()) {
            members.push(name);
        }
        proof {
            k = k + 1;
        }
    }
    proof {
        assert(orig.take(k) =~= orig);
    }
    members
}

/// Decide whether one directory entry is a produced table file.
fn table_file_test(name: &str) -> (r: bool)
    ensures
        r == is_table_file(name@),
{
    let n = name.unicode_len();
    let m = ".gpkg".unicode_len();
    n > m && strutil::str_ends_with(name, ".gpkg")
}

/// The packaging plan is exhaustive and exact: every planned member is a
/// table file taken from the directory listing, and every table file in
/// the listing is planned — so archiving the members and removing just
/// them leaves no loose table file beside the archive.
pub proof fn lemma_zip_plan_exact(names: Seq<String>)
    ensures
        forall|i: int|
            0 <= i < gpkg_members(names).len() ==> is_table_file(
                #[trigger] gpkg_members(names)[i]@,
            ) && names.contains(gpkg_members(names)[i]),
        forall|i: int|
            0 <= i < names.len() && is_table_file(#[trigger] names[i]@) ==> gpkg_members(
                names,
            ).contains(names[i]),
{
    let pred = |s: String| is_table_file(s@);
    assert forall|i: int|
        0 <= i < gpkg_members(names).len() implies is_table_file(
        #[trigger] gpkg_members(names)[i]@,
    ) && names.contains(gpkg_members(names)[i]) by {
        Seq::lemma_filter_pred(names, pred, i);
        assert(names.filter(pred).contains(names.filter(pred)[i]));
        Seq::lemma_filter_contains_rev(names, pred, names.filter(pred)[i]);
    }
    assert forall|i: int|
        0 <= i < names.len() && is_table_file(#[trigger] names[i]@) implies gpkg_members(
        names,
    ).contains(names[i]) by {
        Seq::lemma_filter_contains(names, pred, i);
    }
}

/// The fixed name of the archive the packager writes.
pub fn archive_name() -> (r: String)
    ensures
        r@ == "PLATEAU.zip"@,
{
    String::from_str("PLATEAU.zip")
}

} // verus!
