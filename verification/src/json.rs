//! JSON values, as `serde_json` holds them.
//!
//! A [`serde_json::Value`] is carried opaquely. What it holds is given by
//! [`json_of`], a tree of plain data, and the functions below tie each call
//! into `serde_json` to that tree.
use serde_json::{Number, Value};
use vstd::prelude::*;
use vstd::utf8::*;

verus! {

/// `serde_json::Value`, carried opaquely.
#[verifier::external_type_specification]
#[verifier::external_body]
pub struct ExValue(serde_json::Value);

/// `serde_json::Number`, carried opaquely.
#[verifier::external_type_specification]
#[verifier::external_body]
pub struct ExNumber(serde_json::Number);

/// `serde_json::Map`, carried opaquely.
#[verifier::external_type_specification]
#[verifier::external_body]
#[verifier::reject_recursive_types(K)]
#[verifier::reject_recursive_types(V)]
pub struct ExJsonMap<K, V>(serde_json::Map<K, V>);

/// `serde_json::Error`, carried opaquely.
#[verifier::external_type_specification]
#[verifier::external_body]
pub struct ExJsonError(serde_json::Error);

/// What a JSON value holds.
pub enum Json {
    Null,
    Bool(bool),
    Number(serde_json::Number),
    Text(Seq<char>),
    Array(Seq<Json>),
    Object(Map<Seq<char>, Json>),
}

/// The contents of a `serde_json::Value`.
pub uninterp spec fn json_of(value: serde_json::Value) -> Json;

/// The contents of a `serde_json::Map`.
pub uninterp spec fn map_entries(map: serde_json::Map<String, serde_json::Value>) -> Map<
    Seq<char>,
    Json,
>;

/// What `serde_json::from_str` reads out of a text; `None` where it refuses
/// the text.
pub uninterp spec fn json_parsed(text: Seq<char>) -> Option<Json>;

/// What `serde_json::to_vec` writes for a value; `None` where it fails.
pub uninterp spec fn json_bytes(value: Json) -> Option<Seq<u8>>;

/// The contents of a row of values.
pub open spec fn json_items(values: Seq<Value>) -> Seq<Json> {
    values.map_values(|value: Value| json_of(value))
}

/// `serde_json::Value::Null`: holds the JSON null.
#[verifier::external_body]
pub(crate) fn json_null() -> (value: Value)
    ensures
        json_of(value) == Json::Null,
{
    Value::Null
}

/// `serde_json::Value::Bool`: holds the truth value it is given.
#[verifier::external_body]
pub(crate) fn json_bool(truth: bool) -> (value: Value)
    ensures
        json_of(value) == Json::Bool(truth),
{
    Value::Bool(truth)
}

/// `serde_json::Value::Number` of a clone: holds the number it is given.
#[verifier::external_body]
pub(crate) fn json_number(number: &Number) -> (value: Value)
    ensures
        json_of(value) == Json::Number(*number),
{
    Value::Number(number.clone())
}

/// `serde_json::Value::String`: holds the text it is given.
#[verifier::external_body]
pub(crate) fn json_string(text: String) -> (value: Value)
    ensures
        json_of(value) == Json::Text(text@),
{
    Value::String(text)
}

/// `serde_json::Value::Array`: holds the values it is given, in their order.
#[verifier::external_body]
pub(crate) fn json_array(values: Vec<Value>) -> (value: Value)
    ensures
        json_of(value) == Json::Array(json_items(values@)),
{
    Value::Array(values)
}

/// `serde_json::Map::new`: holds no entry.
#[verifier::external_body]
pub(crate) fn map_new() -> (made: serde_json::Map<String, Value>)
    ensures
        map_entries(made).dom() == Set::<Seq<char>>::empty(),
{
    serde_json::Map::new()
}

/// `serde_json::Map::insert`: puts the value under the key, and returns the value
/// that stood there, if any.
#[verifier::external_body]
pub(crate) fn map_insert(
    map: &mut serde_json::Map<String, Value>,
    key: String,
    value: Value,
) -> (previous: Option<Value>)
    ensures
        map_entries(*final(map)) == map_entries(*old(map)).insert(key@, json_of(value)),
        previous is Some <==> map_entries(*old(map)).contains_key(key@),
        previous matches Some(former) ==> json_of(former) == map_entries(*old(map))[key@],
{
    map.insert(key, value)
}

/// `serde_json::Value::Object`: holds the entries of the map it is given.
#[verifier::external_body]
pub(crate) fn json_object(map: serde_json::Map<String, Value>) -> (value: Value)
    ensures
        json_of(value) == Json::Object(map_entries(map)),
{
    Value::Object(map)
}

/// `serde_json::from_str`: what is read, and whether the text is refused, rests
/// on the text alone.
#[verifier::external_body]
pub(crate) fn json_from_str(text: &str) -> (parsed: Result<Value, serde_json::Error>)
    ensures
        match parsed {
            Ok(value) => json_parsed(text@) == Some(json_of(value)),
            Err(_) => json_parsed(text@) is None,
        },
{
    serde_json::from_str(text)
}

/// `serde_json::to_vec` of a value: what is written, and whether that fails,
/// rests on what the value holds alone. The entries of an object are kept sorted
/// by key, so the order in which they were added does not show.
#[verifier::external_body]
pub(crate) fn json_to_vec(value: &Value) -> (written: Result<Vec<u8>, serde_json::Error>)
    ensures
        match written {
            Ok(bytes) => json_bytes(json_of(*value)) == Some(bytes@),
            Err(_) => json_bytes(json_of(*value)) is None,
        },
{
    serde_json::to_vec(value)
}

/// `serde_json::to_string` of a value: the text whose UTF-8 bytes are those
/// that `serde_json::to_vec` writes; it fails where that one fails.
#[verifier::external_body]
pub(crate) fn json_to_string(value: &Value) -> (written: Result<String, serde_json::Error>)
    ensures
        match written {
            Ok(text) => json_bytes(json_of(*value)) == Some(encode_utf8(text@)),
            Err(_) => json_bytes(json_of(*value)) is None,
        },
{
    serde_json::to_string(value)
}

/// What a text stands for as a JSON value, where a text that is no JSON stands
/// for null.
pub open spec fn json_or_null(text: Option<Seq<char>>) -> Json {
    match text {
        Some(text) => match json_parsed(text) {
            Some(json) => json,
            None => Json::Null,
        },
        None => Json::Null,
    }
}

/// A text that is JSON stands for what it says, whatever its length; only a missing
/// text, one that is no JSON and one that says null stand for null.
pub proof fn law_json_is_kept(text: Seq<char>, json: Json)
    ensures
        json_parsed(text) == Some(json) ==> json_or_null(Some(text)) == json,
        json_parsed(text) is None ==> json_or_null(Some(text)) == Json::Null,
        json_or_null(Some(text)) is Null ==> json_parsed(text) is None || json_parsed(text)
            == Some(Json::Null),
        json_or_null(None) == Json::Null,
{
}

} // verus!
