//! The records classification produces and the merge pass consumes.

use vstd::prelude::*;
use indexmap::IndexMap;

use crate::attrmap::{attr_entries, keys_unique};
use crate::bbox::Bbox;

verus! {

/// One classified unit on its way from the producers to the merge pass: a
/// renderable feature with its encoded geometry, or a plain attribute bag.
pub enum Record {
    Feature { obj_id: String, geometry: Vec<u8>, bbox: Bbox, attributes: IndexMap<String, String> },
    Attribute { attributes: IndexMap<String, String> },
}

/// The merged, final per-object record the write pass consumes.
pub struct FeatureData {
    pub table_name: String,
    pub geometry: Vec<u8>,
    pub attributes: IndexMap<String, String>,
}

/// The attribute bag a record carries.
pub open spec fn record_attrs(r: Record) -> Seq<(Seq<char>, Seq<char>)> {
    match r {
        Record::Feature { attributes, .. } => attr_entries(attributes),
        Record::Attribute { attributes } => attr_entries(attributes),
    }
}

/// A record's attribute keys are distinct (as an attribute map's always
/// are).
pub open spec fn record_wf(r: Record) -> bool {
    keys_unique(record_attrs(r))
}

/// The feature records of a batch, in their arrival order.
pub open spec fn feature_part(s: Seq<(String, Record)>) -> Seq<(String, Record)> {
    s.filter(|p: (String, Record)| p.1 is Feature)
}

/// The attribute records of a batch, in their arrival order.
pub open spec fn attribute_part(s: Seq<(String, Record)>) -> Seq<(String, Record)> {
    s.filter(|p: (String, Record)| !(p.1 is Feature))
}

/// Stable partition of a batch: every feature record precedes every
/// attribute record, and the relative order within each group is kept.
pub fn sort_records(records: Vec<(String, Record)>) -> (r: Vec<(String, Record)>)
    ensures
        r@ == feature_part(records@) + attribute_part(records@),
{
    let ghost orig = records@;
    let mut rest = records;
    let mut feats: Vec<(String, Record)> = Vec::new();
    let mut attrs: Vec<(String, Record)> = Vec::new();
    let ghost mut k: int = 0;
    proof {
        assert(orig.take(0) =~= Seq::<(String, Record)>::empty());
        assert(orig.skip(0) =~= orig);
        reveal(Seq::filter);
    }
    while rest.len() > 0
        invariant
            0 <= k <= orig.len(),
            rest@ == orig.skip(k),
            feats@ == feature_part(orig.take(k)),
            attrs@ == attribute_part(orig.take(k)),
        decreases rest@.len(),
    {
        let ghost prefix = orig.take(k);
        let p = rest.remove(0);
        proof {
            assert(p == orig[k]);
            assert(orig.skip(k).remove(0) =~= orig.skip(k + 1));
            assert(orig.take(k + 1).drop_last() =~= prefix);
            assert(orig.take(k + 1).last() == orig[k]);
            reveal(Seq::filter);
        }
        if matches!(&p.1, Record::Feature { .. }) {
            feats.push(p);
        } else {
            attrs.push(p);
        }
        proof {
            k = k + 1;
        }
    }
    proof {
        assert(orig.take(k) =~= orig);
    }
    let mut feats = feats;
    let mut attrs = attrs;
    feats.append(&mut attrs);
    feats
}

} // verus!
