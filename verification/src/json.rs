//! JSON values, and reading and writing them as text.

use crate::error::{Error, ErrorModel};
use vstd::prelude::*;

verus! {

/// A JSON value. A number holds its decimal text.
#[derive(Debug)]
pub enum JsonValue {
    Null,
    Bool(bool),
    Number(String),
    String(String),
    Array(Vec<JsonValue>),
    Object(Vec<(String, JsonValue)>),
}

/// A [`JsonValue`] with its texts as character sequences.
pub enum JsonModel {
    Null,
    Bool(bool),
    Number(Seq<char>),
    String(Seq<char>),
    Array(Seq<JsonModel>),
    Object(Seq<(Seq<char>, JsonModel)>),
}

/// The model of a value: the same shape, with every text as a character sequence.
pub open spec fn model_of(v: JsonValue) -> JsonModel
    decreases v,
{
    match v {
        JsonValue::Null => JsonModel::Null,
        JsonValue::Bool(b) => JsonModel::Bool(b),
        JsonValue::Number(t) => JsonModel::Number(t@),
        JsonValue::String(t) => JsonModel::String(t@),
        JsonValue::Array(items) => JsonModel::Array(
            Seq::new(
                items@.len(),
                |i: int|
                    if 0 <= i < items@.len() {
                        model_of(items@[i])
                    } else {
                        JsonModel::Null
                    },
            ),
        ),
        JsonValue::Object(entries) => JsonModel::Object(
            Seq::new(
                entries@.len(),
                |i: int|
                    if 0 <= i < entries@.len() {
                        (entries@[i].0@, model_of(entries@[i].1))
                    } else {
                        (Seq::empty(), JsonModel::Null)
                    },
            ),
        ),
    }
}

impl View for JsonValue {
    type V = JsonModel;

    open spec fn view(&self) -> JsonModel {
        model_of(*self)
    }
}

/// The models of the entries of an object, in their order.
pub open spec fn entries_model(entries: Seq<(String, JsonValue)>) -> Seq<(Seq<char>, JsonModel)> {
    Seq::new(entries.len(), |i: int| (entries[i].0@, entries[i].1@))
}

/// The models of the items of an array, in their order.
pub open spec fn items_model(items: Seq<JsonValue>) -> Seq<JsonModel> {
    Seq::new(items.len(), |i: int| items[i]@)
}

/// The entries of an object are modelled one by one, in their order.
pub proof fn lemma_object_view(v: JsonValue)
    requires
        v is Object,
    ensures
        v@ == JsonModel::Object(entries_model(v->Object_0@)),
        v@ is Object,
        v@->Object_0.len() == v->Object_0@.len(),
        forall|i: int|
            0 <= i < v->Object_0@.len() ==> (#[trigger] v@->Object_0[i]) == (
                v->Object_0@[i].0@,
                v->Object_0@[i].1@,
            ),
{
    assert(v@->Object_0 =~= entries_model(v->Object_0@));
}

/// The items of an array are modelled one by one, in their order.
pub proof fn lemma_array_view(v: JsonValue)
    requires
        v is Array,
    ensures
        v@ == JsonModel::Array(items_model(v->Array_0@)),
        v@ is Array,
        v@->Array_0.len() == v->Array_0@.len(),
        forall|i: int| 0 <= i < v->Array_0@.len() ==> (#[trigger] v@->Array_0[i]) == v->Array_0@[i]@,
{
    assert(v@->Array_0 =~= items_model(v->Array_0@));
}

/// `serde_json::Value`, which this module only hands to and takes from `serde_json`.
#[verifier::external_type_specification]
#[verifier::external_body]
pub struct ExOutsideValue(serde_json::Value);

/// What `serde_json::from_str` makes of a text when a value of any shape is asked
/// for: the value, or the message of the error.
pub uninterp spec fn json_of_text(text: Seq<char>) -> Result<JsonModel, Seq<char>>;

/// The bytes that `serde_json::to_vec` writes for a value.
pub uninterp spec fn json_bytes(value: JsonModel) -> Seq<u8>;

/// Copies a `serde_json::Value` variant by variant. A number is copied as the text
/// that `Display` of `serde_json::Number` gives, and the entries of an object in the
/// order in which `serde_json::Map` hands them out. Nothing is claimed of the result.
#[verifier::external_body]
fn from_outside(v: &serde_json::Value) -> JsonValue {
    match v {
        serde_json::Value::Null => JsonValue::Null,
        serde_json::Value::Bool(b) => JsonValue::Bool(*b),
        serde_json::Value::Number(n) => JsonValue::Number(n.to_string()),
        serde_json::Value::String(s) => JsonValue::String(s.clone()),
        serde_json::Value::Array(a) => JsonValue::Array(a.iter().map(from_outside).collect()),
        serde_json::Value::Object(m) => JsonValue::Object(
            m.iter().map(|(k, v)| (k.clone(), from_outside(v))).collect(),
        ),
    }
}

/// Copies a value into a `serde_json::Value` variant by variant. The text of a number
/// is read by `FromStr` of `serde_json::Number`, and a text that it refuses becomes
/// null; the entries of an object are collected into a `serde_json::Map`. Nothing is
/// claimed of the result.
#[verifier::external_body]
fn to_outside(v: &JsonValue) -> serde_json::Value {
    match v {
        JsonValue::Null => serde_json::Value::Null,
        JsonValue::Bool(b) => serde_json::Value::Bool(*b),
        JsonValue::Number(t) => t.parse().map_or(serde_json::Value::Null, serde_json::Value::Number),
        JsonValue::String(s) => serde_json::Value::String(s.clone()),
        JsonValue::Array(a) => serde_json::Value::Array(a.iter().map(to_outside).collect()),
        JsonValue::Object(m) => serde_json::Value::Object(
            m.iter().map(|(k, v)| (k.clone(), to_outside(v))).collect(),
        ),
    }
}

/// Calls `serde_json::from_str` for a value of any shape. The contract only names the
/// result: the value that was read, or the text that the error displays.
#[verifier::external_body]
fn parse_text(text: &str) -> (r: Result<JsonValue, String>)
    ensures
        match r {
            Ok(v) => json_of_text(text@) == Ok::<JsonModel, Seq<char>>(v@),
            Err(e) => json_of_text(text@) == Err::<JsonModel, Seq<char>>(e@),
        },
{
    match serde_json::from_str::<serde_json::Value>(text) {
        Ok(v) => Ok(from_outside(&v)),
        Err(e) => Err(format!("{}", e)),
    }
}

/// Calls `serde_json::to_vec`, which writes a value as compact JSON. The contract only
/// names the bytes.
#[verifier::external_body]
pub(crate) fn write_bytes(value: &JsonValue) -> (bytes: Vec<u8>)
    ensures
        bytes@ == json_bytes(value@),
{
    match serde_json::to_vec(&to_outside(value)) {
        Ok(bytes) => bytes,
        Err(_) => Vec::new(),
    }
}

/// What reading a request body gives: the value it writes, or an invalid input with
/// the reader's message.
pub open spec fn read(text: Seq<char>) -> Result<JsonModel, ErrorModel> {
    match json_of_text(text) {
        Ok(v) => Ok(v),
        Err(message) => Err(ErrorModel::InvalidInputError(message)),
    }
}

/// Reads a request body as JSON.
pub fn read_json(s: &str) -> (r: Result<JsonValue, Error>)
    ensures
        match r {
            Ok(v) => read(s@) == Ok::<JsonModel, ErrorModel>(v@),
            Err(e) => read(s@) == Err::<JsonModel, ErrorModel>(e@),
        },
{
    match parse_text(s) {
        Ok(v) => Ok(v),
        Err(message) => Err(Error::InvalidInputError(message)),
    }
}

} // verus!
