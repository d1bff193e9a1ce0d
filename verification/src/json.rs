//! JSON values of `serde_json`, and their mathematical content.

use vstd::prelude::*;

verus! {

/// What a JSON document holds.
///
/// An object is a map from keys to values: `serde_json` is built here without
/// its `preserve_order` feature, so an object keeps no insertion order.
/// A number is stood for by its decimal text.
pub enum JsonModel {
    Null,
    Bool(bool),
    Number(Seq<char>),
    Str(Seq<char>),
    Array(Seq<JsonModel>),
    Object(Map<Seq<char>, JsonModel>),
}

/// `serde_json::Value`, carried through verified code as an opaque value.
#[verifier::external_type_specification]
#[verifier::external_body]
pub struct ExValue(serde_json::Value);

/// `serde_json::Map`, the collection behind a JSON object.
#[verifier::external_type_specification]
#[verifier::external_body]
#[verifier::reject_recursive_types(K)]
#[verifier::reject_recursive_types(V)]
pub struct ExObject<K, V>(serde_json::Map<K, V>);

/// The content of a `serde_json::Value`.
pub uninterp spec fn value_model(v: serde_json::Value) -> JsonModel;

/// The entries of a `serde_json::Map`, by key.
pub uninterp spec fn object_entries(m: serde_json::Map<String, serde_json::Value>) -> Map<
    Seq<char>,
    JsonModel,
>;

/// The content of each value of a sequence, in order.
pub open spec fn value_models(items: Seq<serde_json::Value>) -> Seq<JsonModel> {
    items.map_values(|v: serde_json::Value| value_model(v))
}

/// `serde_json::Value::String`: the JSON string that holds exactly `s`.
/// Trusted: the variant stores the string as it is.
#[verifier::external_body]
pub(crate) fn json_string(s: String) -> (v: serde_json::Value)
    ensures
        value_model(v) == JsonModel::Str(s@),
{
    serde_json::Value::String(s)
}

/// `serde_json::Value::Bool`: the JSON boolean `b`.
/// Trusted: the variant stores the boolean as it is.
#[verifier::external_body]
pub(crate) fn json_bool(b: bool) -> (v: serde_json::Value)
    ensures
        value_model(v) == JsonModel::Bool(b),
{
    serde_json::Value::Bool(b)
}

/// `serde_json::Value::Array`: the JSON array of `items`, in their order.
/// Trusted: the variant stores the vector as it is.
#[verifier::external_body]
pub(crate) fn json_array(items: Vec<serde_json::Value>) -> (v: serde_json::Value)
    ensures
        value_model(v) == JsonModel::Array(value_models(items@)),
{
    serde_json::Value::Array(items)
}

/// `serde_json::Value::Object`: the JSON object with the entries of `m`.
/// Trusted: the variant stores the map as it is.
#[verifier::external_body]
pub(crate) fn json_object(m: serde_json::Map<String, serde_json::Value>) -> (v: serde_json::Value)
    ensures
        value_model(v) == JsonModel::Object(object_entries(m)),
{
    serde_json::Value::Object(m)
}

/// The entries of an object that has none.
pub open spec fn empty_entries() -> Map<Seq<char>, JsonModel> {
    Map::empty()
}

/// `serde_json::Map::new`. Trusted: the new map has no entry.
#[verifier::external_body]
pub(crate) fn object_new() -> (m: serde_json::Map<String, serde_json::Value>)
    ensures
        object_entries(m) == empty_entries(),
{
    serde_json::Map::new()
}

/// `serde_json::Map::insert`. Trusted: afterwards `key` maps to `value` and
/// every other key is as before; the value that `key` had, if any, comes back.
#[verifier::external_body]
pub(crate) fn object_insert(
    m: &mut serde_json::Map<String, serde_json::Value>,
    key: String,
    value: serde_json::Value,
) -> (prev: Option<serde_json::Value>)
    ensures
        object_entries(*final(m)) == object_entries(*old(m)).insert(key@, value_model(value)),
        prev is Some <==> object_entries(*old(m)).contains_key(key@),
        prev matches Some(p) ==> value_model(p) == object_entries(*old(m))[key@],
{
    m.insert(key, value)
}

} // verus!
