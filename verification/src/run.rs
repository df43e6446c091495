//! The single-consumer run: table creation decisions, the in-memory merge
//! pass, per-table bounding boxes, and the run's terminal state.

use vstd::prelude::*;
use indexmap::IndexMap;

use crate::attrmap::{
    am_get, am_get_index, am_insert, am_remove, attr_entries, entries_remove, has_key,
    keys_unique, value_of,
};
use crate::bbox::{bbox_union, Bbox};
use crate::keyed::{
    keyed_find, keyed_has, lemma_keyed_find, lemma_keyed_find_is_first, lemma_keyed_find_push,
    lemma_keyed_find_update_value,
};
use crate::records::{record_wf, FeatureData, Record};
use crate::rename::renamed_entries;
use crate::sink::GpkgSink;
use crate::strutil;
use crate::strutil::short_name;
use crate::tables::name_seq_contains;
use crate::tables::TableSet;
use crate::values::{flattened_entries, normalized_entries};

verus! {

/// Model of a merged feature: table name, geometry bytes, attributes.
pub type FdV = (Seq<char>, Seq<u8>, Seq<(Seq<char>, Seq<char>)>);

/// Model of the merge index: object id to merged feature, in first-seen
/// order.
pub type IdxV = Seq<(Seq<char>, FdV)>;

/// Model of the per-table bounding boxes, in first-seen order.
pub type BbxV = Seq<(Seq<char>, Bbox)>;

pub open spec fn fd_model(fd: FeatureData) -> FdV {
    (fd.table_name@, fd.geometry@, attr_entries(fd.attributes))
}

pub open spec fn idx_model(items: Seq<(String, FeatureData)>) -> IdxV {
    items.map_values(|p: (String, FeatureData)| (p.0@, fd_model(p.1)))
}

pub open spec fn bbx_model(items: Seq<(String, Bbox)>) -> BbxV {
    items.map_values(|p: (String, Bbox)| (p.0@, p.1))
}

/// Overwriting insert into the merge index: a known id keeps its place, a
/// fresh id goes last.
pub open spec fn idx_put(idx: IdxV, id: Seq<char>, fd: FdV) -> IdxV {
    if keyed_has(idx, id) {
        idx.update(keyed_find(idx, id), (id, fd))
    } else {
        idx.push((id, fd))
    }
}

/// Union a feature's box into its table's entry, or open the entry.
pub open spec fn bbx_put(b: BbxV, t: Seq<char>, nb: Bbox) -> BbxV {
    if keyed_has(b, t) {
        b.update(keyed_find(b, t), (t, bbox_union(b[keyed_find(b, t)].1, nb)))
    } else {
        b.push((t, nb))
    }
}

/// First-writer-wins merge: keys the base already holds keep their value,
/// fresh keys are appended in the order they come.
pub open spec fn fww_fold(
    base: Seq<(Seq<char>, Seq<char>)>,
    add: Seq<(Seq<char>, Seq<char>)>,
) -> Seq<(Seq<char>, Seq<char>)>
    decreases add.len(),
{
    if add.len() == 0 {
        base
    } else {
        let b2 = if has_key(base, add[0].0) {
            base
        } else {
            base.push(add[0])
        };
        fww_fold(b2, add.drop_first())
    }
}

/// The detail tables whose keys are never renamed.
pub open spec fn is_exempt_detail(t: Seq<char>) -> bool {
    ||| t == "uro:BuildingIDAttribute"@
    ||| t == "uro:DataQualityAttribute"@
    ||| t == "uro:BuildingDetailAttribute"@
    ||| t == "uro:WaterBodyDetailAttribute"@
    ||| t == "uro:RoadStructureAttribute"@
}

/// Whether any of the three category tables has been created this run.
pub open spec fn category_present(created: Seq<String>) -> bool {
    ||| name_seq_contains(created, "bldg:Building"@)
    ||| name_seq_contains(created, "wtr:WaterBody"@)
    ||| name_seq_contains(created, "tran:Road"@)
}

/// Renaming is skipped only for an exempt detail table when a category
/// table exists.
pub open spec fn rename_applies(t: Seq<char>, created: Seq<String>) -> bool {
    !(category_present(created) && is_exempt_detail(t))
}

/// What an attribute record's entries look like by the time they are
/// merged into the parent: parent bookkeeping keys dropped, keys renamed
/// where renaming applies, values normalized.
pub open spec fn merged_attr_entries(
    t: Seq<char>,
    s: Seq<(Seq<char>, Seq<char>)>,
    created: Seq<String>,
) -> Seq<(Seq<char>, Seq<char>)> {
    let s1 = entries_remove(entries_remove(s, "parentId"@), "parentType"@);
    let s2 = if rename_applies(t, created) {
        renamed_entries(s1, short_name(t), ""@, created)
    } else {
        s1
    };
    normalized_entries(s2)
}

/// The merge pass over a sorted batch, one record at a time: features are
/// indexed (normalized and flattened) and union their boxes per table;
/// attribute records merge into their parent or are counted as dropped.
pub open spec fn merge_fold(
    recs: Seq<(String, Record)>,
    created: Seq<String>,
    idx: IdxV,
    bbx: BbxV,
    dropped: int,
) -> (IdxV, BbxV, int)
    decreases recs.len(),
{
    if recs.len() == 0 {
        (idx, bbx, dropped)
    } else {
        match recs[0].1 {
            Record::Feature { obj_id, geometry, bbox, attributes } => {
                let a2 = flattened_entries(normalized_entries(attr_entries(attributes)));
                merge_fold(
                    recs.drop_first(),
                    created,
                    idx_put(idx, obj_id@, (recs[0].0@, geometry@, a2)),
                    bbx_put(bbx, recs[0].0@, bbox),
                    dropped,
                )
            },
            Record::Attribute { attributes } => {
                let s = attr_entries(attributes);
                if has_key(s, "parentId"@) && keyed_has(idx, value_of(s, "parentId"@)) {
                    let pid = value_of(s, "parentId"@);
                    let f = keyed_find(idx, pid);
                    let fd = idx[f].1;
                    let a3 = merged_attr_entries(recs[0].0@, s, created);
                    merge_fold(
                        recs.drop_first(),
                        created,
                        idx.update(f, (pid, (fd.0, fd.1, fww_fold(fd.2, a3)))),
                        bbx,
                        dropped,
                    )
                } else {
                    merge_fold(recs.drop_first(), created, idx, bbx, dropped + 1)
                }
            },
        }
    }
}

/// The merge pass's result: the merged features keyed by object id, the
/// per-table boxes, and how many attribute records found no parent.
pub struct MergeOutcome {
    pub index: Vec<(String, FeatureData)>,
    pub bboxes: Vec<(String, Bbox)>,
    pub dropped: usize,
}

/// First position in the merge index holding the object id `k`.
fn feature_pos(items: &Vec<(String, FeatureData)>, k: &str) -> (r: Option<usize>)
    ensures
        match r {
            Some(j) => j < items@.len() && items@[j as int].0@ == k@ && (forall|l: int|
                0 <= l < j ==> items@[l].0@ != k@),
            None => forall|l: int| 0 <= l < items@.len() ==> items@[l].0@ != k@,
        },
{
    let mut i: usize = 0;
    while i < items.len()
        invariant
            i <= items@.len(),
            forall|l: int| 0 <= l < i ==> items@[l].0@ != k@,
        decreases items@.len() - i,
    {
        if strutil::str_eq(items[i].0.as_str(), k) {
            return Some(i);
        }
        i += 1;
    }
    None
}

/// First position in the bounding-box list holding the table name `k`.
fn bbox_pos(items: &Vec<(String, Bbox)>, k: &str) -> (r: Option<usize>)
    ensures
        match r {
            Some(j) => j < items@.len() && items@[j as int].0@ == k@ && (forall|l: int|
                0 <= l < j ==> items@[l].0@ != k@),
            None => forall|l: int| 0 <= l < items@.len() ==> items@[l].0@ != k@,
        },
{
    let mut i: usize = 0;
    while i < items.len()
        invariant
            i <= items@.len(),
            forall|l: int| 0 <= l < i ==> items@[l].0@ != k@,
        decreases items@.len() - i,
    {
        if strutil::str_eq(items[i].0.as_str(), k) {
            return Some(i);
        }
        i += 1;
    }
    None
}

/// Merge an attribute record's entries into a parent's map,
/// first-writer-wins.
fn merge_into(parent: &mut IndexMap<String, String>, add: &IndexMap<String, String>)
    requires
        keys_unique(attr_entries(*old(parent))),
    ensures
        attr_entries(*final(parent)) == fww_fold(attr_entries(*old(parent)), attr_entries(*add)),
        keys_unique(attr_entries(*final(parent))),
{
    let ghost addv = attr_entries(*add);
    let ghost base0 = attr_entries(*parent);
    proof {
        assert(addv.skip(0) =~= addv);
    }
    let n = crate::attrmap::am_len(add);
    let mut i: usize = 0;
    while i < n
        invariant
            n == addv.len(),
            addv == attr_entries(*add),
            i <= n,
            keys_unique(attr_entries(*parent)),
            fww_fold(attr_entries(*parent), addv.skip(i as int)) == fww_fold(base0, addv),
        decreases n - i,
    {
        let ghost cur = attr_entries(*parent);
        proof {
            assert(addv.skip(i as int)[0] == addv[i as int]);
            assert(addv.skip(i as int).drop_first() =~= addv.skip(i as int + 1));
        }
        match am_get_index(add, i) {
            Some(p) => {
                if !crate::attrmap::am_contains(parent, p.0.as_str()) {
                    am_insert(parent, p.0, p.1);
                    assert(attr_entries(*parent) == cur.push((addv[i as int].0, addv[i as int].1)));
                    assert((addv[i as int].0, addv[i as int].1) == addv[i as int]);
                }
            },
            None => {
                proof {
                    assert(false);
                }
            },
        }
        i += 1;
    }
    proof {
        assert(addv.skip(n as int) =~= Seq::<(Seq<char>, Seq<char>)>::empty());
    }
}

/// The full merge pass over a sorted record batch.
pub fn merge_records(records: Vec<(String, Record)>, created_tables: &TableSet) -> (r:
    MergeOutcome)
    requires
        forall|i: int| 0 <= i < records@.len() ==> record_wf(#[trigger] records@[i].1),
    ensures
        ({
            let out = merge_fold(
                records@,
                created_tables.items@,
                Seq::empty(),
                Seq::empty(),
                0,
            );
            &&& idx_model(r.index@) == out.0
            &&& bbx_model(r.bboxes@) == out.1
            &&& r.dropped as int == out.2
            &&& forall|l: int|
                0 <= l < r.index@.len() ==> keys_unique(
                    #[trigger] idx_model(r.index@)[l].1.2,
                )
        }),
{
    let ghost orig = records@;
    let ghost created = created_tables.items@;
    let ghost target = merge_fold(orig, created, Seq::empty(), Seq::empty(), 0);
    let total = records.len();
    let mut rest = records;
    let mut index: Vec<(String, FeatureData)> = Vec::new();
    let mut bboxes: Vec<(String, Bbox)> = Vec::new();
    let mut dropped: usize = 0;
    proof {
        assert(idx_model(index@) =~= Seq::<(Seq<char>, FdV)>::empty());
        assert(bbx_model(bboxes@) =~= Seq::<(Seq<char>, Bbox)>::empty());
    }
    while rest.len() > 0
        invariant
            created == created_tables.items@,
            rest@.len() + dropped <= total,
            forall|i: int| 0 <= i < rest@.len() ==> record_wf(#[trigger] rest@[i].1),
            forall|l: int|
                0 <= l < index@.len() ==> keys_unique(#[trigger] idx_model(index@)[l].1.2),
            merge_fold(rest@, created, idx_model(index@), bbx_model(bboxes@), dropped as int)
                == target,
        decreases rest@.len(),
    {
        let ghost rest0 = rest@;
        let ghost idx0 = idx_model(index@);
        let ghost bbx0 = bbx_model(bboxes@);
        let p = rest.remove(0);
        proof {
            assert(p == rest0[0]);
            assert(rest0.remove(0) =~= rest0.drop_first());
        }
        let table = p.0;
        match p.1 {
            Record::Feature { obj_id, geometry, bbox, attributes } => {
                let ghost gid = obj_id@;
                let ghost ggeom = geometry@;
                let ghost gattrs = attr_entries(attributes);
                let ghost gbox = bbox;
                // Per-table bounding box union.
                match bbox_pos(&bboxes, table.as_str()) {
                    Some(j) => {
                        proof {
                            assert(bbx0[j as int] == (bboxes@[j as int].0@, bboxes@[j as int].1));
                            lemma_keyed_find_is_first(bbx0, j as int, table@);
                        }
                        let q = bboxes.remove(j);
                        let mut bb = q.1;
                        bb.merge(&bbox);
                        bboxes.insert(j, (q.0, bb));
                        proof {
                            assert(bboxes@ =~= bboxes@.subrange(0, j as int) + seq![
                                (q.0, bb),
                            ] + bboxes@.subrange(j as int + 1, bboxes@.len() as int));
                            assert(bbx_model(bboxes@) =~= bbx_put(bbx0, table@, gbox));
                        }
                    },
                    None => {
                        proof {
                            lemma_keyed_find(bbx0, table@);
                            assert forall|l: int| 0 <= l < bbx0.len() implies bbx0[l].0
                                != table@ by {
                                assert(bbx0[l] == (bboxes@[l].0@, bboxes@[l].1));
                            }
                            assert(!keyed_has(bbx0, table@));
                        }
                        bboxes.push((table.clone(), bbox));
                        proof {
                            assert(bbx_model(bboxes@) =~= bbx_put(bbx0, table@, gbox));
                        }
                    },
                }
                // Normalize and flatten the feature's own attributes.
                let a1 = GpkgSink::process_all_values(attributes);
                let a2 = GpkgSink::flatten_generic_attribute(a1);
                let fd = FeatureData { table_name: table, geometry, attributes: a2 };
                let ghost gfd = fd_model(fd);
                match feature_pos(&index, obj_id.as_str()) {
                    Some(j) => {
                        proof {
                            assert(idx0[j as int] == (index@[j as int].0@, fd_model(
                                index@[j as int].1,
                            )));
                            lemma_keyed_find_is_first(idx0, j as int, gid);
                        }
                        let q = index.remove(j);
                        index.insert(j, (q.0, fd));
                        proof {
                            assert(index@ =~= index@.subrange(0, j as int) + seq![
                                (q.0, index@[j as int].1),
                            ] + index@.subrange(j as int + 1, index@.len() as int));
                            assert(idx_model(index@) =~= idx_put(idx0, gid, gfd));
                        }
                    },
                    None => {
                        proof {
                            lemma_keyed_find(idx0, gid);
                            assert forall|l: int| 0 <= l < idx0.len() implies idx0[l].0 != gid by {
                                assert(idx0[l] == (index@[l].0@, fd_model(index@[l].1)));
                            }
                            assert(!keyed_has(idx0, gid));
                        }
                        index.push((obj_id, fd));
                        proof {
                            assert(idx_model(index@) =~= idx_put(idx0, gid, gfd));
                        }
                    },
                }
                proof {
                    assert(idx_model(index@) == idx_put(
                        idx0,
                        gid,
                        (rest0[0].0@, ggeom, flattened_entries(normalized_entries(gattrs))),
                    ));
                }
            },
            Record::Attribute { attributes } => {
                let mut attributes = attributes;
                let ghost s = attr_entries(attributes);
                match am_get(&attributes, "parentId") {
                    Some(pid) => {
                        match feature_pos(&index, pid.as_str()) {
                            Some(j) => {
                                proof {
                                    assert(idx0[j as int] == (index@[j as int].0@, fd_model(
                                        index@[j as int].1,
                                    )));
                                    lemma_keyed_find_is_first(idx0, j as int, pid@);
                                }
                                am_remove(&mut attributes, "parentId");
                                am_remove(&mut attributes, "parentType");
                                let cat = created_tables.contains("bldg:Building")
                                    || created_tables.contains("wtr:WaterBody")
                                    || created_tables.contains("tran:Road");
                                let exempt = strutil::str_eq(
                                    table.as_str(),
                                    "uro:BuildingIDAttribute",
                                ) || strutil::str_eq(table.as_str(), "uro:DataQualityAttribute")
                                    || strutil::str_eq(
                                    table.as_str(),
                                    "uro:BuildingDetailAttribute",
                                ) || strutil::str_eq(table.as_str(), "uro:WaterBodyDetailAttribute")
                                    || strutil::str_eq(table.as_str(), "uro:RoadStructureAttribute");
                                if !(cat && exempt) {
                                    let short = strutil::table_short_name(table.as_str());
                                    GpkgSink::rename_all_attributes(
                                        &mut attributes,
                                        short.as_str(),
                                        "",
                                        created_tables,
                                    );
                                }
                                let attributes = GpkgSink::process_all_values(attributes);
                                assert(attr_entries(attributes) == merged_attr_entries(
                                    rest0[0].0@,
                                    s,
                                    created,
                                ));
                                let q = index.remove(j);
                                let mut fd = q.1;
                                merge_into(&mut fd.attributes, &attributes);
                                index.insert(j, (q.0, fd));
                                proof {
                                    assert(index@ =~= index@.subrange(0, j as int) + seq![
                                        (q.0, index@[j as int].1),
                                    ] + index@.subrange(j as int + 1, index@.len() as int));
                                    let f = keyed_find(idx0, pid@);
                                    let old_fd = idx0[f].1;
                                    assert(idx_model(index@) =~= idx0.update(
                                        f,
                                        (
                                            pid@,
                                            (
                                                old_fd.0,
                                                old_fd.1,
                                                fww_fold(
                                                    old_fd.2,
                                                    merged_attr_entries(rest0[0].0@, s, created),
                                                ),
                                            ),
                                        ),
                                    ));
                                }
                            },
                            None => {
                                proof {
                                    lemma_keyed_find(idx0, pid@);
                                    assert forall|l: int| 0 <= l < idx0.len() implies idx0[l].0
                                        != pid@ by {
                                        assert(idx0[l] == (index@[l].0@, fd_model(index@[l].1)));
                                    }
                                    assert(!keyed_has(idx0, pid@));
                                }
                                dropped += 1;
                            },
                        }
                    },
                    None => {
                        dropped += 1;
                    },
                }
            },
        }
    }
    proof {
        assert(rest@ =~= Seq::<(String, Record)>::empty());
    }
    MergeOutcome { index, bboxes, dropped }
}

/// Whether the arrival of a record for table `t` obliges the run to
/// materialize that table now: the run is live, the table is new, and its
/// declared type carries geometry.
pub open spec fn creation_due(
    infos: Seq<crate::tables::TableInfo>,
    created: Seq<String>,
    canceled: bool,
    t: Seq<char>,
) -> bool {
    &&& !canceled
    &&& !name_seq_contains(created, t)
    &&& crate::tables::infos_contain(infos, t)
    &&& infos[crate::tables::info_index(infos, t)].has_geometry
}

/// The created-tables set after one record of table `t` arrives.
pub open spec fn created_after(
    created: Seq<String>,
    infos: Seq<crate::tables::TableInfo>,
    canceled: bool,
    t: String,
) -> Seq<String> {
    if creation_due(infos, created, canceled, t@) {
        created.push(t)
    } else {
        created
    }
}

/// The store-side action a record can trigger: materialize a table under
/// its localized file name, declared with the run's spatial reference id.
pub struct CreateTable {
    pub table_name: String,
    pub file_name: String,
    pub srs_id: u32,
}

/// The consumer's run-scoped state: declared schema, the tables created so
/// far, the buffered records, and the cancellation flag.
pub struct RunState {
    pub table_infos: Vec<crate::tables::TableInfo>,
    pub srs_id: u32,
    pub created_tables: TableSet,
    pub records: Vec<(String, Record)>,
    pub canceled: bool,
}

impl RunState {
    pub open spec fn wf(&self) -> bool {
        self.created_tables.wf()
    }

    pub fn new(table_infos: Vec<crate::tables::TableInfo>, srs_id: u32) -> (r: RunState)
        ensures
            r.table_infos == table_infos,
            r.srs_id == srs_id,
            r.created_tables.items@ =~= Seq::<String>::empty(),
            r.records@ =~= Seq::<(String, Record)>::empty(),
            !r.canceled,
            r.wf(),
    {
        RunState {
            table_infos,
            srs_id,
            created_tables: TableSet::new(),
            records: Vec::new(),
            canceled: false,
        }
    }

    /// Observe the shared cancellation flag; from here on no record is
    /// buffered and no table is created.
    pub fn observe_cancel(&mut self)
        ensures
            final(self).canceled,
            final(self).table_infos == old(self).table_infos,
            final(self).srs_id == old(self).srs_id,
            final(self).created_tables == old(self).created_tables,
            final(self).records == old(self).records,
    {
        self.canceled = true;
    }

    /// Take one record off the channel: buffer it, and decide whether its
    /// table must be materialized first.  The caller performs the returned
    /// store action.
    pub fn on_record(&mut self, table_name: String, record: Record) -> (action: Option<
        CreateTable,
    >)
        requires
            old(self).wf(),
            !old(self).canceled && !old(self).created_tables.spec_contains(table_name@)
                ==> crate::tables::infos_contain(old(self).table_infos@, table_name@),
        ensures
            final(self).wf(),
            final(self).table_infos == old(self).table_infos,
            final(self).srs_id == old(self).srs_id,
            final(self).canceled == old(self).canceled,
            final(self).created_tables.items@ == created_after(
                old(self).created_tables.items@,
                old(self).table_infos@,
                old(self).canceled,
                table_name,
            ),
            old(self).canceled ==> final(self).records == old(self).records && action is None,
            !old(self).canceled ==> final(self).records@ == old(self).records@.push(
                (table_name, record),
            ),
            (action is Some) == creation_due(
                old(self).table_infos@,
                old(self).created_tables.items@,
                old(self).canceled,
                table_name@,
            ),
            action matches Some(a) ==> a.table_name@ == table_name@ && a.file_name@
                == crate::names::display_name(table_name@) + ".gpkg"@ && a.srs_id == old(
                self,
            ).srs_id,
    {
        if self.canceled {
            return None;
        }
        let mut action: Option<CreateTable> = None;
        if !self.created_tables.contains(table_name.as_str()) {
            let has_geometry = match crate::tables::find_info(
                &self.table_infos,
                table_name.as_str(),
            ) {
                Some(info) => info.has_geometry,
                None => {
                    proof {
                        assert(false);
                    }
                    false
                },
            };
            if has_geometry {
                let filename = GpkgSink::convert_filename(table_name.as_str());
                let file_name = filename.concat(".gpkg");
                action = Some(
                    CreateTable {
                        table_name: table_name.clone(),
                        file_name,
                        srs_id: self.srs_id,
                    },
                );
                self.created_tables.insert(table_name.clone());
            }
        }
        self.records.push((table_name, record));
        action
    }
}

/// The run's terminal state: cancellation is its own outcome, never a
/// generic failure; a store failure aborts the run with its cause.
pub enum RunOutcome {
    Success,
    Canceled,
    Failed(String),
}

/// Fold the cancellation flag and a possible store failure into the run's
/// terminal state.
pub fn run_outcome(canceled: bool, store_error: Option<String>) -> (r: RunOutcome)
    ensures
        canceled ==> r is Canceled,
        !canceled ==> match store_error {
            Some(e) => r matches RunOutcome::Failed(m) && m == e,
            None => r is Success,
        },
{
    if canceled {
        RunOutcome::Canceled
    } else {
        match store_error {
            Some(e) => RunOutcome::Failed(e),
            None => RunOutcome::Success,
        }
    }
}

/// The whole run's terminal state: a producer-side per-record failure
/// aborts the run just as a store failure does, so the run never ends as
/// an unreported partial result; cancellation stays its own outcome.
pub fn terminal_outcome(
    canceled: bool,
    producer_error: Option<String>,
    store_error: Option<String>,
) -> (r: RunOutcome)
    ensures
        canceled ==> r is Canceled,
        !canceled ==> match producer_error {
            Some(e) => r matches RunOutcome::Failed(m) && m == e,
            None => match store_error {
                Some(e) => r matches RunOutcome::Failed(m) && m == e,
                None => r is Success,
            },
        },
{
    if canceled {
        RunOutcome::Canceled
    } else {
        match producer_error {
            Some(e) => RunOutcome::Failed(e),
            None => match store_error {
                Some(e) => RunOutcome::Failed(e),
                None => RunOutcome::Success,
            },
        }
    }
}

/// How often a name occurs in a created-tables sequence.
pub open spec fn name_count(s: Seq<String>, n: Seq<char>) -> int
    decreases s.len(),
{
    if s.len() == 0 {
        0
    } else {
        (if s[0]@ == n {
            1int
        } else {
            0int
        }) + name_count(s.drop_first(), n)
    }
}

pub proof fn lemma_count_absent(s: Seq<String>, n: Seq<char>)
    requires
        !name_seq_contains(s, n),
    ensures
        name_count(s, n) == 0,
    decreases s.len(),
{
    if s.len() > 0 {
        assert forall|i: int| 0 <= i < s.drop_first().len() implies s.drop_first()[i]@ != n by {
            assert(s.drop_first()[i] == s[i + 1]);
        }
        lemma_count_absent(s.drop_first(), n);
    }
}

pub proof fn lemma_count_present(s: Seq<String>, n: Seq<char>)
    requires
        name_seq_contains(s, n),
    ensures
        name_count(s, n) >= 1,
    decreases s.len(),
{
    if s[0]@ == n {
        lemma_count_nonneg(s.drop_first(), n);
    } else {
        let i = choose|i: int| 0 <= i < s.len() && s[i]@ == n;
        assert(s.drop_first()[i - 1] == s[i]);
        lemma_count_present(s.drop_first(), n);
    }
}

pub proof fn lemma_count_nonneg(s: Seq<String>, n: Seq<char>)
    ensures
        name_count(s, n) >= 0,
    decreases s.len(),
{
    if s.len() > 0 {
        lemma_count_nonneg(s.drop_first(), n);
    }
}

pub proof fn lemma_count_unique(s: Seq<String>, n: Seq<char>)
    requires
        crate::tables::names_unique(s),
    ensures
        name_count(s, n) <= 1,
    decreases s.len(),
{
    if s.len() > 0 {
        assert forall|i: int, j: int|
            0 <= i < j < s.drop_first().len() implies s.drop_first()[i]@ != s.drop_first()[j]@ by {
            assert(s.drop_first()[i] == s[i + 1]);
            assert(s.drop_first()[j] == s[j + 1]);
        }
        if s[0]@ == n {
            assert forall|i: int| 0 <= i < s.drop_first().len() implies s.drop_first()[i]@ != n by {
                assert(s.drop_first()[i] == s[i + 1]);
            }
            lemma_count_absent(s.drop_first(), n);
        } else {
            lemma_count_unique(s.drop_first(), n);
        }
    }
}

/// A table is created at most once: a type already in the created set is
/// never re-created, and the first geometry-bearing record of a type puts
/// its name in the set exactly once, however many records of the type
/// follow.
pub proof fn lemma_table_created_once(
    created: Seq<String>,
    infos: Seq<crate::tables::TableInfo>,
    canceled: bool,
    t: String,
)
    requires
        crate::tables::names_unique(created),
    ensures
        crate::tables::names_unique(created_after(created, infos, canceled, t)),
        name_count(created_after(created, infos, canceled, t), t@) <= 1,
        name_seq_contains(created, t@) ==> created_after(created, infos, canceled, t) == created,
        creation_due(infos, created, canceled, t@) ==> name_count(
            created_after(created, infos, canceled, t),
            t@,
        ) == 1,
{
    let after = created_after(created, infos, canceled, t);
    if creation_due(infos, created, canceled, t@) {
        assert forall|i: int, j: int|
            0 <= i < j < after.len() implies after[i]@ != after[j]@ by {
            if j == created.len() {
                assert(after[i] == created[i]);
                assert(created[i]@ != t@);
            } else {
                assert(after[i] == created[i]);
                assert(after[j] == created[j]);
            }
        }
        lemma_count_unique(after, t@);
        assert(after[created.len() as int]@ == t@);
        lemma_count_present(after, t@);
    } else {
        lemma_count_unique(created, t@);
    }
}

/// After cancellation is observed, the arrival of a record creates no
/// table: the created set is left exactly as it was.
pub proof fn lemma_no_creation_after_cancel(
    created: Seq<String>,
    infos: Seq<crate::tables::TableInfo>,
    t: String,
)
    ensures
        created_after(created, infos, true, t) == created,
{
}

/// The boxes of the feature records of table `t`, in arrival order.
pub open spec fn feature_bboxes(recs: Seq<(String, Record)>, t: Seq<char>) -> Seq<Bbox>
    decreases recs.len(),
{
    if recs.len() == 0 {
        Seq::empty()
    } else {
        let rest = feature_bboxes(recs.drop_first(), t);
        match recs[0].1 {
            Record::Feature { bbox, .. } => if recs[0].0@ == t {
                seq![bbox] + rest
            } else {
                rest
            },
            Record::Attribute { .. } => rest,
        }
    }
}

/// The box recorded for table `t`, if any.
pub open spec fn bbx_value(b: BbxV, t: Seq<char>) -> Option<Bbox> {
    if keyed_has(b, t) {
        Some(b[keyed_find(b, t)].1)
    } else {
        None
    }
}

/// Union a sequence of boxes onto an optional accumulator, in order.
pub open spec fn extend_union(b0: Option<Bbox>, bs: Seq<Bbox>) -> Option<Bbox>
    decreases bs.len(),
{
    if bs.len() == 0 {
        b0
    } else {
        let b1 = match b0 {
            Some(b) => Some(bbox_union(b, bs[0])),
            None => Some(bs[0]),
        };
        extend_union(b1, bs.drop_first())
    }
}

/// Putting a feature's box into the per-table list changes only its own
/// table's entry, and changes it by one pairwise union.
pub proof fn lemma_bbx_put_value(b: BbxV, t0: Seq<char>, nb: Bbox, t: Seq<char>)
    ensures
        t0 == t ==> bbx_value(bbx_put(b, t0, nb), t) == match bbx_value(b, t) {
            Some(x) => Some(bbox_union(x, nb)),
            None => Some(nb),
        },
        t0 != t ==> bbx_value(bbx_put(b, t0, nb), t) == bbx_value(b, t),
{
    lemma_keyed_find(b, t0);
    lemma_keyed_find(b, t);
    let b2 = bbx_put(b, t0, nb);
    lemma_keyed_find(b2, t);
    if keyed_has(b, t0) {
        let f = keyed_find(b, t0);
        assert((b[f].0, bbox_union(b[f].1, nb)) == (t0, bbox_union(b[f].1, nb)));
        lemma_keyed_find_update_value(b, f, bbox_union(b[f].1, nb), t);
        if keyed_has(b, t) {
            assert(b2[keyed_find(b, t)].0 == t);
            assert(keyed_has(b2, t));
        } else {
            assert forall|i: int| 0 <= i < b2.len() implies b2[i].0 != t by {
                assert(b2[i].0 == b[i].0);
            }
            assert(!keyed_has(b2, t));
        }
    } else {
        lemma_keyed_find_push(b, (t0, nb), t);
        if keyed_has(b, t) {
            assert(b2[keyed_find(b, t)] == b[keyed_find(b, t)]);
            assert(keyed_has(b2, t));
        } else if t0 == t {
            assert(b2[b.len() as int].0 == t);
            assert(keyed_has(b2, t));
        } else {
            assert forall|i: int| 0 <= i < b2.len() implies b2[i].0 != t by {
                if i < b.len() {
                    assert(b2[i] == b[i]);
                }
            }
            assert(!keyed_has(b2, t));
        }
    }
}

pub proof fn lemma_table_bbox_fold(
    recs: Seq<(String, Record)>,
    created: Seq<String>,
    idx: IdxV,
    bbx: BbxV,
    dropped: int,
    t: Seq<char>,
)
    ensures
        bbx_value(merge_fold(recs, created, idx, bbx, dropped).1, t) == extend_union(
            bbx_value(bbx, t),
            feature_bboxes(recs, t),
        ),
    decreases recs.len(),
{
    if recs.len() == 0 {
    } else {
        match recs[0].1 {
            Record::Feature { obj_id, geometry, bbox, attributes } => {
                let t0 = recs[0].0@;
                let a2 = flattened_entries(normalized_entries(attr_entries(attributes)));
                let bbx2 = bbx_put(bbx, t0, bbox);
                lemma_bbx_put_value(bbx, t0, bbox, t);
                lemma_table_bbox_fold(
                    recs.drop_first(),
                    created,
                    idx_put(idx, obj_id@, (recs[0].0@, geometry@, a2)),
                    bbx2,
                    dropped,
                    t,
                );
                if t0 == t {
                    let fb = feature_bboxes(recs, t);
                    assert(fb[0] == bbox);
                    assert(fb.drop_first() =~= feature_bboxes(recs.drop_first(), t));
                }
            },
            Record::Attribute { attributes } => {
                let s = attr_entries(attributes);
                if has_key(s, "parentId"@) && keyed_has(idx, value_of(s, "parentId"@)) {
                    let pid = value_of(s, "parentId"@);
                    let f = keyed_find(idx, pid);
                    let fd = idx[f].1;
                    let a3 = merged_attr_entries(recs[0].0@, s, created);
                    lemma_table_bbox_fold(
                        recs.drop_first(),
                        created,
                        idx.update(f, (pid, (fd.0, fd.1, fww_fold(fd.2, a3)))),
                        bbx,
                        dropped,
                        t,
                    );
                } else {
                    lemma_table_bbox_fold(recs.drop_first(), created, idx, bbx, dropped + 1, t);
                }
            },
        }
    }
}

/// Per-table bounding box after the merge pass: each table's recorded box
/// is exactly the pairwise min/max union of the boxes of that table's
/// feature records, in arrival order; a table with no feature records gets
/// no box.
pub proof fn lemma_run_bbox(recs: Seq<(String, Record)>, created: Seq<String>, t: Seq<char>)
    ensures
        bbx_value(merge_fold(recs, created, Seq::empty(), Seq::empty(), 0).1, t) == extend_union(
            None,
            feature_bboxes(recs, t),
        ),
{
    assert(!keyed_has(Seq::<(Seq<char>, Bbox)>::empty(), t));
    lemma_table_bbox_fold(recs, created, Seq::empty(), Seq::empty(), 0, t);
}

/// First-writer-wins merging: every key the merged-in record brings
/// appears in the result; a key the parent already had keeps the parent's
/// value, and a fresh key gets the record's value.
pub proof fn lemma_first_writer_wins(
    base: Seq<(Seq<char>, Seq<char>)>,
    add: Seq<(Seq<char>, Seq<char>)>,
    k: Seq<char>,
)
    requires
        keys_unique(add),
    ensures
        has_key(base, k) ==> has_key(fww_fold(base, add), k) && value_of(fww_fold(base, add), k)
            == value_of(base, k),
        !has_key(base, k) && has_key(add, k) ==> has_key(fww_fold(base, add), k) && value_of(
            fww_fold(base, add),
            k,
        ) == value_of(add, k),
        !has_key(base, k) && !has_key(add, k) ==> !has_key(fww_fold(base, add), k),
    decreases add.len(),
{
    crate::attrmap::lemma_find_key(base, k);
    crate::attrmap::lemma_find_key(add, k);
    if add.len() > 0 {
        let x = add[0];
        let b2 = if has_key(base, x.0) {
            base
        } else {
            base.push(x)
        };
        assert forall|i: int, j: int|
            0 <= i < j < add.drop_first().len() implies add.drop_first()[i].0
            != add.drop_first()[j].0 by {
            assert(add.drop_first()[i] == add[i + 1]);
            assert(add.drop_first()[j] == add[j + 1]);
        }
        lemma_first_writer_wins(b2, add.drop_first(), k);
        crate::attrmap::lemma_find_key(b2, k);
        if !has_key(base, x.0) {
            lemma_keyed_find_push(base, x, k);
            assert forall|i: int|
                0 <= i < base.len() implies b2[i] == base[i] by {}
            if has_key(base, k) {
                assert(b2[crate::attrmap::find_key(base, k)].0 == k);
                assert(has_key(b2, k));
            }
            if x.0 == k {
                assert(b2[base.len() as int].0 == k);
                assert(has_key(b2, k));
            }
            if !has_key(base, k) && x.0 != k {
                assert forall|i: int| 0 <= i < b2.len() implies b2[i].0 != k by {
                    if i < base.len() {
                        assert(b2[i] == base[i]);
                    }
                }
                assert(!has_key(b2, k));
            }
        }
        if has_key(add, k) && x.0 != k {
            let i = choose|i: int| 0 <= i < add.len() && add[i].0 == k;
            assert(add.drop_first()[i - 1] == add[i]);
            assert(has_key(add.drop_first(), k));
            let f = crate::attrmap::find_key(add, k);
            assert(add.drop_first()[f - 1] == add[f]);
            crate::keyed::lemma_keyed_find_is_first(add.drop_first(), f - 1, k);
            assert(value_of(add.drop_first(), k) == value_of(add, k));
        }
        if x.0 == k {
            assert forall|i: int|
                0 <= i < add.drop_first().len() implies add.drop_first()[i].0 != k by {
                assert(add.drop_first()[i] == add[i + 1]);
            }
            assert(!has_key(add.drop_first(), k));
            if !has_key(base, k) {
                assert(crate::attrmap::find_key(b2, k) == base.len());
                assert(value_of(b2, k) == x.1);
                crate::keyed::lemma_keyed_find_is_first(add, 0, k);
                assert(value_of(add, k) == x.1);
            }
        }
    }
}

} // verus!
