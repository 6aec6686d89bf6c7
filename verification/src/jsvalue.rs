//! The values that page scripts evaluate to.
use crate::json::{
    json_array, json_bool, json_bytes, json_items, json_null, json_number, json_object, json_of,
    json_string, json_to_string, map_entries, map_insert, map_new, Json,
};
use serde_json::{Number, Value};
use vstd::prelude::*;
use vstd::utf8::*;

verus! {

/// A value that a page script evaluated to.
pub enum JsValue {
    Undefined,
    Null,
    Boolean(bool),
    /// A number, `None` where it is not finite and JSON cannot hold it.
    Number(Option<Number>),
    Text(String),
    /// An element, by its id.
    Element(String),
    /// A shadow root, by its id.
    ShadowRoot(String),
    /// A frame, by its id.
    Frame(String),
    /// A window, by its id.
    Window(String),
    Array(Vec<JsValue>),
    Object(Vec<(String, JsValue)>),
}

/// The JSON value of a script value: what JSON cannot hold becomes null, and
/// elements, frames and the like become their ids.
pub open spec fn json_value(value: JsValue) -> Json
    decreases value,
{
    match value {
        JsValue::Undefined => Json::Null,
        JsValue::Null => Json::Null,
        JsValue::Boolean(truth) => Json::Bool(truth),
        JsValue::Number(Some(number)) => Json::Number(number),
        JsValue::Number(None) => Json::Null,
        JsValue::Text(text) => Json::Text(text@),
        JsValue::Element(id) => Json::Text(id@),
        JsValue::ShadowRoot(id) => Json::Text(id@),
        JsValue::Frame(id) => Json::Text(id@),
        JsValue::Window(id) => Json::Text(id@),
        JsValue::Array(items) => Json::Array(json_row(items@)),
        JsValue::Object(entries) => Json::Object(json_map(entries@)),
    }
}

/// The JSON values of a row of script values.
pub open spec fn json_row(items: Seq<JsValue>) -> Seq<Json>
    decreases items,
{
    if items.len() == 0 {
        seq![]
    } else {
        json_row(items.drop_last()).push(json_value(items.last()))
    }
}

/// The JSON values of named script values: of two with one name the later one
/// stays.
pub open spec fn json_map(entries: Seq<(String, JsValue)>) -> Map<Seq<char>, Json>
    decreases entries,
{
    if entries.len() == 0 {
        Map::empty()
    } else {
        json_map(entries.drop_last()).insert(entries.last().0@, json_value(entries.last().1))
    }
}

/// Converts an evaluated [`JsValue`] to JSON.
pub fn jsvalue_to_json(value: &JsValue) -> (json: Value)
    ensures
        json_of(json) == json_value(*value),
    decreases *value,
{
    match value {
        JsValue::Undefined | JsValue::Null => json_null(),
        JsValue::Boolean(truth) => json_bool(*truth),
        JsValue::Number(Some(number)) => json_number(number),
        JsValue::Number(None) => json_null(),
        JsValue::Text(text)
        | JsValue::Element(text)
        | JsValue::ShadowRoot(text)
        | JsValue::Frame(text)
        | JsValue::Window(text) => json_string(text.clone()),
        JsValue::Array(items) => {
            let mut values: Vec<Value> = Vec::new();
            let mut i: usize = 0;
            while i < items.len()
                invariant
                    i <= items@.len(),
                    *value == JsValue::Array(*items),
                    json_items(values@) == json_row(items@.take(i as int)),
                decreases items@.len() - i,
            {
                proof {
                    assert(decreases_to!(*value => value->Array_0));
                    assert(decreases_to!(*items => items@));
                    assert(decreases_to!(items@ => items@[i as int]));
                    assert(items@.take(i + 1).drop_last() =~= items@.take(i as int));
                }
                let ghost done = values@;
                let item = jsvalue_to_json(&items[i]);
                values.push(item);
                proof {
                    assert(json_items(values@) =~= json_items(done).push(json_of(item)));
                }
                i += 1;
            }
            proof {
                assert(items@.take(i as int) =~= items@);
            }
            json_array(values)
        },
        JsValue::Object(entries) => {
            let mut values: serde_json::Map<String, Value> = map_new();
            let mut i: usize = 0;
            proof {
                assert(map_entries(values) =~= json_map(entries@.take(0)));
            }
            while i < entries.len()
                invariant
                    i <= entries@.len(),
                    *value == JsValue::Object(*entries),
                    map_entries(values) == json_map(entries@.take(i as int)),
                decreases entries@.len() - i,
            {
                proof {
                    assert(decreases_to!(*value => value->Object_0));
                    assert(decreases_to!(*entries => entries@));
                    assert(decreases_to!(entries@ => entries@[i as int]));
                    assert(decreases_to!(entries@[i as int] => entries@[i as int].1));
                    assert(entries@.take(i + 1).drop_last() =~= entries@.take(i as int));
                }
                let item = jsvalue_to_json(&entries[i].1);
                map_insert(&mut values, entries[i].0.clone(), item);
                i += 1;
            }
            proof {
                assert(entries@.take(i as int) =~= entries@);
            }
            json_object(values)
        },
    }
}

/// The text of a JSON value, or `fallback` where it cannot be written.
pub open spec fn json_text_or(json: Json, fallback: Seq<char>) -> Seq<char> {
    match json_bytes(json) {
        Some(bytes) => decode_utf8(bytes),
        None => fallback,
    }
}

/// The JSON text that tells the outcome of a script: the value, or a string with
/// the error that ended it.
pub open spec fn eval_text(outcome: Result<JsValue, String>) -> Seq<char> {
    match outcome {
        Ok(value) => json_text_or(json_value(value), "null"@),
        Err(error) => json_text_or(
            Json::Text("eval error: "@ + error@),
            "\"eval error\""@,
        ),
    }
}

fn json_text(json: &Value, fallback: &str) -> (text: String)
    ensures
        text@ == json_text_or(json_of(*json), fallback@),
        match json_bytes(json_of(*json)) {
            Some(bytes) => encode_utf8(text@) == bytes,
            None => text@ == fallback@,
        },
{
    match json_to_string(json) {
        Ok(text) => {
            proof {
                encode_utf8_decode_utf8(text@);
            }
            text
        },
        Err(_) => fallback.to_owned(),
    }
}

/// The JSON text that tells the outcome of a script.
pub fn eval_reply(outcome: &Result<JsValue, String>) -> (text: String)
    ensures
        text@ == eval_text(*outcome),
        *outcome matches Ok(value) ==> match json_bytes(json_value(value)) {
            Some(bytes) => encode_utf8(text@) == bytes,
            None => text@ == "null"@,
        },
        *outcome matches Err(error) ==> match json_bytes(
            Json::Text("eval error: "@ + error@),
        ) {
            Some(bytes) => encode_utf8(text@) == bytes,
            None => text@ == "\"eval error\""@,
        },
{
    match outcome {
        Ok(value) => json_text(&jsvalue_to_json(value), "null"),
        Err(error) => {
            let mut message: String = "eval error: ".to_owned();
            message.append(error.as_str());
            json_text(&json_string(message), "\"eval error\"")
        },
    }
}

/// The JSON text that a script callback is given: what the main thread sent, or
/// null where it sent nothing.
pub fn eval_received(received: Option<String>) -> (text: String)
    ensures
        text@ == (match received {
            Some(text) => text@,
            None => "null"@,
        }),
{
    match received {
        Some(text) => text,
        None => "null".to_owned(),
    }
}

/// An array keeps its items, in their order.
pub proof fn law_array_items_are_kept(items: Seq<JsValue>)
    ensures
        json_row(items).len() == items.len(),
        forall|i: int|
            0 <= i < items.len() ==> #[trigger] json_row(items)[i] == json_value(items[i]),
    decreases items.len(),
{
    if items.len() > 0 {
        law_array_items_are_kept(items.drop_last());
        assert forall|i: int| 0 <= i < items.len() implies #[trigger] json_row(items)[i]
            == json_value(items[i]) by {
            if i < items.len() - 1 {
                assert(json_row(items)[i] == json_row(items.drop_last())[i]);
                assert(items.drop_last()[i] == items[i]);
            }
        }
    }
}

/// An object whose names differ keeps every value under its name, and has no
/// other names.
pub proof fn law_object_entries_are_kept(entries: Seq<(String, JsValue)>)
    requires
        forall|i: int, j: int|
            #![trigger entries[i], entries[j]]
            0 <= i < j < entries.len() ==> entries[i].0@ != entries[j].0@,
    ensures
        forall|i: int|
            0 <= i < entries.len() ==> json_map(entries).contains_key((#[trigger] entries[i]).0@)
                && json_map(entries)[entries[i].0@] == json_value(entries[i].1),
        forall|name: Seq<char>| #[trigger]
            json_map(entries).contains_key(name) ==> exists|i: int|
                0 <= i < entries.len() && (#[trigger] entries[i]).0@ == name,
    decreases entries.len(),
{
    if entries.len() > 0 {
        let rest = entries.drop_last();
        law_object_entries_are_kept(rest);
        assert forall|i: int| 0 <= i < entries.len() implies json_map(entries).contains_key(
            (#[trigger] entries[i]).0@,
        ) && json_map(entries)[entries[i].0@] == json_value(entries[i].1) by {
            if i < entries.len() - 1 {
                assert(rest[i] == entries[i]);
                assert(entries[i].0@ != entries[entries.len() - 1].0@);
            }
        }
        assert forall|name: Seq<char>| #[trigger]
            json_map(entries).contains_key(name) implies exists|i: int|
            0 <= i < entries.len() && (#[trigger] entries[i]).0@ == name by {
            if name == entries.last().0@ {
                assert(entries[entries.len() - 1].0@ == name);
            } else {
                assert(json_map(rest).contains_key(name));
                let i = choose|i: int| 0 <= i < rest.len() && (#[trigger] rest[i]).0@ == name;
                assert(entries[i].0@ == name);
            }
        }
    }
}

/// The text that tells the outcome of a script is the JSON text of its value, of
/// whatever kind, or the JSON text of a string with the error. Where there is no
/// such text it says null, or that there was an error.
pub proof fn law_script_reply_is_json(value: JsValue, error: String, text: Seq<char>)
    ensures
        json_bytes(json_value(value)) == Some(encode_utf8(text)) ==> eval_text(
            Ok::<JsValue, String>(value),
        ) == text,
        json_bytes(json_value(value)) is None ==> eval_text(Ok::<JsValue, String>(value))
            == "null"@,
        json_bytes(Json::Text("eval error: "@ + error@)) == Some(encode_utf8(text))
            ==> eval_text(Err::<JsValue, String>(error)) == text,
        json_bytes(Json::Text("eval error: "@ + error@)) is None ==> eval_text(
            Err::<JsValue, String>(error),
        ) == "\"eval error\""@,
{
    encode_utf8_decode_utf8(text);
}

/// Simple script values become the JSON values of the same kind, what stands for a
/// part of the page becomes its id, and what JSON cannot hold becomes null.
pub proof fn law_simple_values_become_json(truth: bool, number: Number, text: String)
    ensures
        json_value(JsValue::Undefined) == Json::Null,
        json_value(JsValue::Null) == Json::Null,
        json_value(JsValue::Boolean(truth)) == Json::Bool(truth),
        json_value(JsValue::Number(Some(number))) == Json::Number(number),
        json_value(JsValue::Number(None)) == Json::Null,
        json_value(JsValue::Text(text)) == Json::Text(text@),
        json_value(JsValue::Element(text)) == Json::Text(text@),
        json_value(JsValue::ShadowRoot(text)) == Json::Text(text@),
        json_value(JsValue::Frame(text)) == Json::Text(text@),
        json_value(JsValue::Window(text)) == Json::Text(text@),
{
}

/// An array becomes the array of what its items become, in their order.
pub proof fn law_arrays_become_arrays(items: Vec<JsValue>)
    ensures
        json_value(JsValue::Array(items)) matches Json::Array(row) && row.len() == items@.len() && (
        forall|i: int| 0 <= i < row.len() ==> #[trigger] row[i] == json_value(items@[i])),
{
    law_array_items_are_kept(items@);
}

/// An object becomes an object with the same names, each with what its value
/// becomes; of two values with one name it is the later one.
pub proof fn law_objects_become_objects(entries: Vec<(String, JsValue)>)
    ensures
        json_value(JsValue::Object(entries)) matches Json::Object(map) && (forall|i: int|
            0 <= i < entries@.len() ==> #[trigger] map.contains_key(entries@[i].0@)) && (forall|
            i: int,
        |
            0 <= i < entries@.len() && (forall|j: int|
                i < j < entries@.len() ==> (#[trigger] entries@[j]).0@ != entries@[i].0@)
                ==> map[(#[trigger] entries@[i]).0@] == json_value(entries@[i].1)) && (forall|
            name: Seq<char>,
        | #[trigger]
            map.contains_key(name) ==> exists|i: int|
                0 <= i < entries@.len() && (#[trigger] entries@[i]).0@ == name),
{
    lemma_map_of_entries(entries@);
}

proof fn lemma_map_of_entries(entries: Seq<(String, JsValue)>)
    ensures
        forall|i: int|
            0 <= i < entries.len() ==> json_map(entries).contains_key((#[trigger] entries[i]).0@),
        forall|i: int|
            0 <= i < entries.len() && (forall|j: int|
                i < j < entries.len() ==> (#[trigger] entries[j]).0@ != entries[i].0@)
                ==> json_map(entries)[(#[trigger] entries[i]).0@] == json_value(entries[i].1),
        forall|name: Seq<char>| #[trigger]
            json_map(entries).contains_key(name) ==> exists|i: int|
                0 <= i < entries.len() && (#[trigger] entries[i]).0@ == name,
    decreases entries.len(),
{
    if entries.len() > 0 {
        let rest = entries.drop_last();
        let last = entries.len() - 1;
        lemma_map_of_entries(rest);
        assert forall|i: int| 0 <= i < entries.len() implies json_map(entries).contains_key(
            (#[trigger] entries[i]).0@,
        ) by {
            if i < last {
                assert(rest[i] == entries[i]);
            }
        }
        assert forall|i: int|
            0 <= i < entries.len() && (forall|j: int|
                i < j < entries.len() ==> (#[trigger] entries[j]).0@
                    != entries[i].0@) implies json_map(entries)[(#[trigger] entries[i]).0@]
            == json_value(entries[i].1) by {
            if i < last {
                assert(entries[last].0@ != entries[i].0@);
                assert(rest[i] == entries[i]);
                assert forall|j: int| i < j < rest.len() implies (#[trigger] rest[j]).0@
                    != rest[i].0@ by {
                    assert(rest[j] == entries[j]);
                }
            }
        }
        assert forall|name: Seq<char>| #[trigger]
            json_map(entries).contains_key(name) implies exists|i: int|
            0 <= i < entries.len() && (#[trigger] entries[i]).0@ == name by {
            if name == entries.last().0@ {
                assert(entries[last].0@ == name);
            } else {
                assert(json_map(rest).contains_key(name));
                let i = choose|i: int| 0 <= i < rest.len() && (#[trigger] rest[i]).0@ == name;
                assert(entries[i].0@ == name);
            }
        }
    }
}

} // verus!
