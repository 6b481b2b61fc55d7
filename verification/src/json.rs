//! JSON values as the broker carries them: free-form `parameters`,
//! `context`, display `metadata` and credential values.
//!
//! The broker never looks inside a JSON value; it only builds a few of
//! them and hands them on. Values are those of `serde_json`.

use vstd::prelude::*;

verus! {

/// `serde_json::Value`, carried through the broker as an opaque value.
#[verifier::external_type_specification]
#[verifier::external_body]
pub struct ExJsonValue(serde_json::Value);

/// The JSON string whose text is `text`.
pub uninterp spec fn json_string_of(text: Seq<char>) -> serde_json::Value;

/// The JSON array holding `items` in order.
pub uninterp spec fn json_array_of(items: Seq<serde_json::Value>) -> serde_json::Value;

/// The JSON object holding the given key/value entries.
pub uninterp spec fn json_object_of(entries: Seq<(Seq<char>, serde_json::Value)>) -> serde_json::Value;

/// Builds `serde_json::Value::String(text)`. Its contract claims only that
/// the value is a function of the text.
#[verifier::external_body]
pub fn json_string(text: &str) -> (v: serde_json::Value)
    ensures
        v == json_string_of(text@),
{
    serde_json::Value::String(text.to_string())
}

/// Builds `serde_json::Value::Array(items)`. Its contract claims only that
/// the value is a function of the items.
#[verifier::external_body]
pub fn json_array(items: Vec<serde_json::Value>) -> (v: serde_json::Value)
    ensures
        v == json_array_of(items@),
{
    serde_json::Value::Array(items)
}

/// The entries of an object as plain values: each key by its text.
pub open spec fn entries_view(entries: Seq<(String, serde_json::Value)>) -> Seq<(Seq<char>, serde_json::Value)> {
    entries.map_values(|e: (String, serde_json::Value)| (e.0@, e.1))
}

/// Builds `serde_json::Value::Object` from key/value entries, collected into
/// a `serde_json::Map`. Its contract claims only that the value is a
/// function of the entries.
#[verifier::external_body]
pub fn json_object(entries: Vec<(String, serde_json::Value)>) -> (v: serde_json::Value)
    ensures
        v == json_object_of(entries_view(entries@)),
{
    serde_json::Value::Object(entries.into_iter().collect())
}

/// Whether two JSON values are equal as `serde_json::Value`'s `==`
/// compares them.
pub uninterp spec fn json_equal(a: serde_json::Value, b: serde_json::Value) -> bool;

/// `serde_json::Value`'s `==`. Its contract claims that the answer is a
/// function of the two values, and that a value equals itself (a JSON
/// number is never NaN, so the derived comparison is reflexive).
#[verifier::external_body]
pub fn json_eq(a: &serde_json::Value, b: &serde_json::Value) -> (same: bool)
    ensures
        same == json_equal(*a, *b),
        *a == *b ==> same,
{
    a == b
}

/// The entries of `v` when it is a JSON object, in the map's order, each
/// key by its text; `None` when it is not an object.
pub uninterp spec fn object_entries_of(v: serde_json::Value) -> Option<Seq<(Seq<char>, serde_json::Value)>>;

/// The items of `v` when it is a JSON array, in order; `None` when it is
/// not an array.
pub uninterp spec fn array_items_of(v: serde_json::Value) -> Option<Seq<serde_json::Value>>;

/// `serde_json::Value::as_object`, its entries cloned in the map's order.
/// Its contract claims only that the entries (or `None`) are a function of
/// the value.
#[verifier::external_body]
pub fn json_object_entries(v: &serde_json::Value) -> (entries: Option<Vec<(String, serde_json::Value)>>)
    ensures
        match entries {
            Some(es) => object_entries_of(*v) == Some(entries_view(es@)),
            None => object_entries_of(*v) is None,
        },
{
    v.as_object().map(|m| m.iter().map(|(k, x)| (k.clone(), x.clone())).collect())
}

/// `serde_json::Value::as_array`, its items cloned. Its contract claims
/// only that the items (or `None`) are a function of the value.
#[verifier::external_body]
pub fn json_array_items(v: &serde_json::Value) -> (items: Option<Vec<serde_json::Value>>)
    ensures
        match items {
            Some(xs) => array_items_of(*v) == Some(xs@),
            None => array_items_of(*v) is None,
        },
{
    v.as_array().cloned()
}

} // verus!
