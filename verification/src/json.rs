//! The JSON values that packets and transactions are made of.
//!
//! Values are `serde_json::Value`s. Verus cannot look inside one, so this
//! module gives every value a mathematical model, [`JsonModel`], and states
//! the few operations the builders need in terms of that model. Nothing in
//! this module is proved: the operations are the `serde_json` calls
//! themselves, and their contracts record what that crate does.

use vstd::prelude::*;
use serde_json::Value;

verus! {

/// `serde_json::Value`, opaque to the verifier.
#[verifier::external_type_specification]
#[verifier::external_body]
pub struct ExValue(serde_json::Value);

/// What a JSON value holds.
///
/// An object is a map: its keys are unique and carry no order. A number is
/// held as its decimal text, the way `serde_json` prints it.
pub enum JsonModel {
    Null,
    Bool(bool),
    Number(Seq<char>),
    String(Seq<char>),
    Array(Seq<JsonModel>),
    Object(Map<Seq<char>, JsonModel>),
}

/// The model of a `serde_json::Value`: `Value::String` is [`JsonModel::String`]
/// with the same characters, `Value::Array` is [`JsonModel::Array`] of its
/// elements' models in order, `Value::Object` is [`JsonModel::Object`] mapping
/// each key to its value's model, and so on for the other variants.
pub uninterp spec fn json_model(value: Value) -> JsonModel;

/// The compact text that `serde_json` prints for a value with the given
/// model, as `Value::to_string` returns it. Object members appear in the
/// order of their keys, so the text depends on the model alone.
pub uninterp spec fn json_text(model: JsonModel) -> Seq<char>;

/// The models of a sequence of values, element by element.
pub open spec fn json_models(values: Seq<Value>) -> Seq<JsonModel> {
    Seq::new(values.len(), |i: int| json_model(values[i]))
}

/// `Value::from(&str)`: the JSON string with the characters of `text`.
#[verifier::external_body]
pub(crate) fn json_string(text: &str) -> (value: Value)
    ensures
        json_model(value) == JsonModel::String(text@),
{
    Value::from(text)
}

/// `Value::from(Vec<Value>)`: the JSON array of the given values, in order.
#[verifier::external_body]
pub(crate) fn json_array(items: Vec<Value>) -> (value: Value)
    ensures
        json_model(value) == JsonModel::Array(json_models(items@)),
{
    Value::from(items)
}

/// `Value::Object(Map::new())`: the JSON object without members.
#[verifier::external_body]
pub(crate) fn json_object() -> (value: Value)
    ensures
        json_model(value) == JsonModel::Object(Map::empty()),
{
    Value::Object(serde_json::Map::new())
}

/// `object[key] = member`, the `IndexMut<&str>` of `Value`: on an object it
/// adds the member under `key`, replacing one that is already there. On
/// anything but an object or null the call panics, so objects only are
/// admitted.
#[verifier::external_body]
pub(crate) fn json_insert(object: &mut Value, key: &str, member: Value)
    requires
        json_model(*old(object)) is Object,
    ensures
        json_model(*final(object)) == JsonModel::Object(
            json_model(*old(object))->Object_0.insert(key@, json_model(member)),
        ),
{
    object[key] = member;
}

/// `Value::to_string`, the `Display` of `Value`: the compact JSON text.
#[verifier::external_body]
pub(crate) fn json_to_string(value: &Value) -> (text: String)
    ensures
        text@ == json_text(json_model(*value)),
{
    value.to_string()
}

/// `Value::clone`: the copy holds what the value holds.
pub assume_specification[ <Value as Clone>::clone ](value: &Value) -> (copy: Value)
    ensures
        json_model(copy) == json_model(*value),
;

} // verus!
