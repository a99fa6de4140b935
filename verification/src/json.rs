//! JSON values, as the template engine takes its data.
//!
//! A `serde_json::Value` is opaque here. [`json_model`] names the tree it
//! holds, and each constructor below states which tree its result holds.
//! None of these statements is proved: they say what `serde_json` does.

use serde_json::Value;
use vstd::prelude::*;

verus! {

/// `serde_json::Value`: a JSON value. What it holds is spoken of through
/// [`json_model`] only.
#[verifier::external_type_specification]
#[verifier::external_body]
pub struct ExValue(serde_json::Value);

/// A JSON value as a tree. An object maps each of its keys to one value; a
/// number stands as the text that JSON writes for it.
pub enum JsonModel {
    Null,
    Boolean(bool),
    Number(Seq<char>),
    Text(Seq<char>),
    Array(Seq<JsonModel>),
    Object(Map<Seq<char>, JsonModel>),
}

/// The tree that `value` holds.
pub uninterp spec fn json_model(value: Value) -> JsonModel;

/// The trees of a list of values, in order.
pub open spec fn json_models(values: Seq<Value>) -> Seq<JsonModel> {
    values.map_values(|value: Value| json_model(value))
}

/// No two of `fields` have the same key.
pub open spec fn distinct_keys(fields: Seq<(String, Value)>) -> bool {
    forall|i: int, j: int| 0 <= i < j < fields.len() ==> (#[trigger] fields[i]).0@ != (#[trigger] fields[j]).0@
}

/// The object made of `fields`: each key with the tree of its value.
pub open spec fn object_fields(fields: Seq<(String, Value)>) -> Map<Seq<char>, JsonModel>
    decreases fields.len(),
{
    if fields.len() == 0 {
        Map::empty()
    } else {
        object_fields(fields.drop_last()).insert(fields.last().0@, json_model(fields.last().1))
    }
}

/// `serde_json::Value::Null`: the result holds JSON's `null`.
#[verifier::external_body]
pub(crate) fn json_null() -> (value: Value)
    ensures
        json_model(value) == JsonModel::Null,
{
    Value::Null
}

/// `serde_json::Value::String`: the result holds a JSON string with the
/// characters of `text`.
#[verifier::external_body]
pub(crate) fn json_text(text: &str) -> (value: Value)
    ensures
        json_model(value) == JsonModel::Text(text@),
{
    Value::String(text.to_owned())
}

/// `serde_json::Value::Array`: the result holds a JSON array whose elements
/// are the trees of `items`, in the order of `items`.
#[verifier::external_body]
pub(crate) fn json_array(items: Vec<Value>) -> (value: Value)
    ensures
        json_model(value) == JsonModel::Array(json_models(items@)),
{
    Value::Array(items)
}

/// `serde_json::Value::Object` over `serde_json::Map::from_iter`: the
/// result holds a JSON object with exactly the keys of `fields`, each with
/// the tree of its value. Stated for fields whose keys all differ.
#[verifier::external_body]
pub(crate) fn json_object(fields: Vec<(String, Value)>) -> (value: Value)
    requires
        distinct_keys(fields@),
    ensures
        json_model(value) == JsonModel::Object(object_fields(fields@)),
{
    Value::Object(fields.into_iter().collect())
}

} // verus!
