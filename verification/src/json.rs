//! Trusted view of the JSON values that attribute strings may carry.
//!
//! Attribute values sometimes hold serialized JSON (a singleton array, or
//! the object stored under `genericAttribute`).  Parsing and inspecting
//! such text is delegated to `serde_json`; each call the library makes is
//! wrapped here, and the wrappers' contracts name what the calls return so
//! that the normalization and flattening logic can be verified against
//! exact statements.

use vstd::prelude::*;

verus! {

#[verifier::external_type_specification]
#[verifier::external_body]
pub struct ExJsonValue(serde_json::Value);

/// The JSON value a piece of text parses to, if it parses at all.
pub uninterp spec fn json_value_of(s: Seq<char>) -> Option<serde_json::Value>;

/// The elements of a JSON value, when the value is an array.
pub uninterp spec fn json_array_elems(v: serde_json::Value) -> Option<Seq<serde_json::Value>>;

/// The character content of a JSON value, when the value is a string.
pub uninterp spec fn json_str_content(v: serde_json::Value) -> Option<Seq<char>>;

/// The fields of a JSON value in iteration order, when the value is an object.
pub uninterp spec fn json_object_fields(v: serde_json::Value) -> Option<
    Seq<(Seq<char>, serde_json::Value)>,
>;

/// The serialized text of a JSON value.
pub uninterp spec fn json_text_of(v: serde_json::Value) -> Seq<char>;

/// Relies on `serde_json::from_str::<Value>`: what a string parses to is a
/// function of its characters alone.
#[verifier::external_body]
pub(crate) fn json_parse(s: &str) -> (r: Option<serde_json::Value>)
    ensures
        r == json_value_of(s@),
{
    serde_json::from_str::<serde_json::Value>(s).ok()
}

/// Relies on `serde_json::Value::as_array`: `Some` exactly on arrays, with
/// the elements in order.
#[verifier::external_body]
pub(crate) fn json_as_array(v: &serde_json::Value) -> (r: Option<Vec<serde_json::Value>>)
    ensures
        match r {
            Some(es) => json_array_elems(*v) == Some(es@),
            None => json_array_elems(*v) is None,
        },
{
    v.as_array().cloned()
}

/// Relies on `serde_json::Value::as_str`: `Some` exactly on strings, with
/// the string's characters.
#[verifier::external_body]
pub(crate) fn json_as_str(v: &serde_json::Value) -> (r: Option<String>)
    ensures
        match r {
            Some(t) => json_str_content(*v) == Some(t@),
            None => json_str_content(*v) is None,
        },
{
    v.as_str().map(|t| t.to_owned())
}

/// Relies on `serde_json::Value::as_object` and `serde_json::Map::iter`:
/// `Some` exactly on objects; the fields come in the map's iteration order
/// and their keys are distinct.
#[verifier::external_body]
pub(crate) fn json_object_entries(v: &serde_json::Value) -> (r: Option<
    Vec<(String, serde_json::Value)>,
>)
    ensures
        match r {
            Some(fs) => {
                &&& json_object_fields(*v) matches Some(gs)
                &&& gs.len() == fs@.len()
                &&& forall|i: int|
                    0 <= i < gs.len() ==> gs[i].0 == #[trigger] fs@[i].0@ && gs[i].1 == fs@[i].1
                &&& forall|i: int, j: int| 0 <= i < j < gs.len() ==> gs[i].0 != gs[j].0
            },
            None => json_object_fields(*v) is None,
        },
{
    v.as_object().map(|m| m.iter().map(|(k, x)| (k.clone(), x.clone())).collect())
}

/// Relies on the `Display` of `serde_json::Value`: the compact serialized
/// form of the value.
#[verifier::external_body]
pub(crate) fn json_to_text(v: &serde_json::Value) -> (r: String)
    ensures
        r@ == json_text_of(*v),
{
    v.to_string()
}

} // verus!
