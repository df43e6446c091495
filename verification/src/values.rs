//! Attribute value normalization and generic-attribute flattening.

use vstd::prelude::*;
use indexmap::IndexMap;

use crate::attrmap::{
    am_insert, am_remove, attr_entries, entries_insert, entries_remove, has_key, keys_unique,
    value_of,
};
use crate::json::{
    json_array_elems, json_as_array, json_as_str, json_object_entries, json_object_fields,
    json_parse, json_str_content, json_text_of, json_to_text, json_value_of,
};
use crate::sink::GpkgSink;
use crate::strutil;

verus! {

/// What a raw attribute value normalizes to: text that parses as a JSON
/// array of exactly one string is replaced by that string; anything else
/// is kept as it came.
pub open spec fn normalized_value(s: Seq<char>) -> Seq<char> {
    match json_value_of(s) {
        Some(v) => match json_array_elems(v) {
            Some(es) => if es.len() == 1 {
                match json_str_content(es[0]) {
                    Some(t) => t,
                    None => s,
                }
            } else {
                s
            },
            None => s,
        },
        None => s,
    }
}

/// Normalization applied to every value of an entry sequence; keys and
/// order are untouched.
pub open spec fn normalized_entries(s: Seq<(Seq<char>, Seq<char>)>) -> Seq<(Seq<char>, Seq<char>)> {
    s.map_values(|p: (Seq<char>, Seq<char>)| (p.0, normalized_value(p.1)))
}

/// The text a flattened field contributes: a JSON string keeps its bare
/// content, any other value its serialized form.
pub open spec fn field_text(v: serde_json::Value) -> Seq<char> {
    match json_str_content(v) {
        Some(t) => t,
        None => json_text_of(v),
    }
}

/// Folding the fields of a generic-attribute object into an entry
/// sequence, in field order, skipping the `type` field.
pub open spec fn flatten_fold(
    base: Seq<(Seq<char>, Seq<char>)>,
    fs: Seq<(Seq<char>, serde_json::Value)>,
) -> Seq<(Seq<char>, Seq<char>)>
    decreases fs.len(),
{
    if fs.len() == 0 {
        base
    } else {
        let b2 = if fs[0].0 == "type"@ {
            base
        } else {
            entries_insert(base, fs[0].0, field_text(fs[0].1))
        };
        flatten_fold(b2, fs.drop_first())
    }
}

/// What flattening does to an entry sequence: the `genericAttribute` entry
/// disappears; when its value parses as a JSON object, that object's
/// fields (minus `type`) are merged in at top level.
pub open spec fn flattened_entries(s: Seq<(Seq<char>, Seq<char>)>) -> Seq<(Seq<char>, Seq<char>)> {
    if has_key(s, "genericAttribute"@) {
        let raw = value_of(s, "genericAttribute"@);
        let base = entries_remove(s, "genericAttribute"@);
        match json_value_of(raw) {
            Some(v) => match json_object_fields(v) {
                Some(fs) => flatten_fold(base, fs),
                None => base,
            },
            None => base,
        }
    } else {
        s
    }
}

impl GpkgSink {
    /// Normalize one raw attribute value.
    pub fn process_value(value: String) -> (r: String)
        ensures
            r@ == normalized_value(value@),
    {
        match json_parse(value.as_str()) {
            Some(v) => match json_as_array(&v) {
                Some(es) => {
                    if es.len() == 1 {
                        match json_as_str(&es[0]) {
                            Some(t) => t,
                            None => value,
                        }
                    } else {
                        value
                    }
                },
                None => value,
            },
            None => value,
        }
    }

    /// Normalize every value of an attribute map in place.
    pub fn process_all_values(updated_attributes: IndexMap<String, String>) -> (r: IndexMap<
        String,
        String,
    >)
        requires
            keys_unique(attr_entries(updated_attributes)),
        ensures
            attr_entries(r) == normalized_entries(attr_entries(updated_attributes)),
            keys_unique(attr_entries(r)),
    {
        let ghost orig = attr_entries(updated_attributes);
        let mut m = updated_attributes;
        let n = crate::attrmap::am_len(&m);
        let mut i: usize = 0;
        while i < n
            invariant
                n == orig.len(),
                attr_entries(m).len() == orig.len(),
                keys_unique(attr_entries(m)),
                i <= n,
                forall|j: int|
                    0 <= j < i ==> attr_entries(m)[j] == (orig[j].0, normalized_value(orig[j].1)),
                forall|j: int| i <= j < orig.len() ==> attr_entries(m)[j] == orig[j],
            decreases n - i,
        {
            let ghost cur = attr_entries(m);
            match crate::attrmap::am_get_index(&m, i) {
                Some(p) => {
                    let nv = Self::process_value(p.1);
                    proof {
                        crate::attrmap::lemma_find_key_at(cur, i as int);
                    }
                    am_insert(&mut m, p.0, nv);
                    assert(attr_entries(m) =~= cur.update(
                        i as int,
                        (orig[i as int].0, normalized_value(orig[i as int].1)),
                    ));
                },
                None => {
                    proof {
                        assert(false);
                    }
                },
            }
            i += 1;
        }
        proof {
            assert(attr_entries(m) =~= normalized_entries(orig));
        }
        m
    }

    /// Flatten a `genericAttribute` JSON object into top-level entries.
    pub fn flatten_generic_attribute(updated_attributes: IndexMap<String, String>) -> (r: IndexMap<
        String,
        String,
    >)
        requires
            keys_unique(attr_entries(updated_attributes)),
        ensures
            attr_entries(r) == flattened_entries(attr_entries(updated_attributes)),
            keys_unique(attr_entries(r)),
    {
        let ghost orig = attr_entries(updated_attributes);
        let mut m = updated_attributes;
        match am_remove(&mut m, "genericAttribute") {
            Some(raw) => {
                match json_parse(raw.as_str()) {
                    Some(v) => {
                        match json_object_entries(&v) {
                            Some(fs) => {
                                let ghost gs = json_object_fields(v)->Some_0;
                                let ghost base = attr_entries(m);
                                proof {
                                    assert(gs.skip(0) =~= gs);
                                }
                                let mut i: usize = 0;
                                while i < fs.len()
                                    invariant
                                        fs@.len() == gs.len(),
                                        forall|j: int|
                                            0 <= j < gs.len() ==> gs[j].0 == #[trigger] fs@[j].0@
                                                && gs[j].1 == fs@[j].1,
                                        i <= fs.len(),
                                        keys_unique(attr_entries(m)),
                                        flatten_fold(attr_entries(m), gs.skip(i as int))
                                            == flatten_fold(base, gs),
                                    decreases fs.len() - i,
                                {
                                    let ghost cur = attr_entries(m);
                                    let p = &fs[i];
                                    proof {
                                        assert(gs.skip(i as int)[0] == gs[i as int]);
                                        assert(gs.skip(i as int).drop_first() =~= gs.skip(
                                            i as int + 1,
                                        ));
                                    }
                                    if !strutil::str_eq(p.0.as_str(), "type") {
                                        let text = match json_as_str(&p.1) {
                                            Some(t) => t,
                                            None => json_to_text(&p.1),
                                        };
                                        let key = p.0.clone();
                                        am_insert(&mut m, key, text);
                                        assert(attr_entries(m) == entries_insert(
                                            cur,
                                            gs[i as int].0,
                                            field_text(gs[i as int].1),
                                        ));
                                    }
                                    i += 1;
                                }
                                proof {
                                    assert(gs.skip(gs.len() as int) =~= Seq::<
                                        (Seq<char>, serde_json::Value),
                                    >::empty());
                                }
                                m
                            },
                            None => m,
                        }
                    },
                    None => m,
                }
            },
            None => m,
        }
    }
}

} // verus!
