use serde_json::{Number, Value};
use tauri_runtime_servo::jsvalue::{eval_received, eval_reply, jsvalue_to_json, JsValue};

fn number(value: f64) -> JsValue {
    JsValue::Number(Number::from_f64(value))
}

fn text(value: &str) -> String {
    value.to_string()
}

#[test]
fn simple_values_become_json() {
    assert_eq!(jsvalue_to_json(&JsValue::Undefined), Value::Null);
    assert_eq!(jsvalue_to_json(&JsValue::Null), Value::Null);
    assert_eq!(jsvalue_to_json(&JsValue::Boolean(true)), Value::Bool(true));
    assert_eq!(jsvalue_to_json(&JsValue::Boolean(false)), Value::Bool(false));
    assert_eq!(jsvalue_to_json(&number(1.5)), Value::from(1.5));
    assert_eq!(jsvalue_to_json(&JsValue::Text(text("x"))), Value::String(text("x")));
}

#[test]
fn numbers_that_json_cannot_hold_become_null() {
    assert_eq!(jsvalue_to_json(&number(f64::NAN)), Value::Null);
    assert_eq!(jsvalue_to_json(&number(f64::INFINITY)), Value::Null);
}

#[test]
fn page_objects_become_their_ids() {
    assert_eq!(jsvalue_to_json(&JsValue::Element(text("e"))), Value::String(text("e")));
    assert_eq!(jsvalue_to_json(&JsValue::ShadowRoot(text("s"))), Value::String(text("s")));
    assert_eq!(jsvalue_to_json(&JsValue::Frame(text("f"))), Value::String(text("f")));
    assert_eq!(jsvalue_to_json(&JsValue::Window(text("w"))), Value::String(text("w")));
}

#[test]
fn arrays_and_objects_keep_their_parts() {
    let value = JsValue::Object(vec![
        (
            text("list"),
            JsValue::Array(vec![number(1.0), JsValue::Undefined, JsValue::Array(vec![])]),
        ),
        (text("name"), JsValue::Text(text("servo"))),
    ]);
    let mut object = serde_json::Map::new();
    object.insert(
        text("list"),
        Value::Array(vec![Value::from(1.0), Value::Null, Value::Array(vec![])]),
    );
    object.insert(text("name"), Value::String(text("servo")));
    assert_eq!(jsvalue_to_json(&value), Value::Object(object));
}

#[test]
fn later_value_of_a_repeated_name_stays() {
    let value = JsValue::Object(vec![
        (text("a"), JsValue::Boolean(false)),
        (text("b"), JsValue::Null),
        (text("a"), JsValue::Boolean(true)),
    ]);
    let mut object = serde_json::Map::new();
    object.insert(text("a"), Value::Bool(true));
    object.insert(text("b"), Value::Null);
    assert_eq!(jsvalue_to_json(&value), Value::Object(object));
}

#[test]
fn outcome_of_a_script_is_told_as_json() {
    let outcome = Ok(JsValue::Array(vec![JsValue::Null, JsValue::Text(text("a\"b"))]));
    assert_eq!(eval_reply(&outcome), "[null,\"a\\\"b\"]");
    assert_eq!(eval_reply(&Ok(number(1.5))), "1.5");
}

#[test]
fn failed_script_is_told_as_a_json_string() {
    assert_eq!(
        eval_reply(&Err(text("EvaluationFailure(None)"))),
        "\"eval error: EvaluationFailure(None)\""
    );
}

#[test]
fn script_without_an_answer_gives_null() {
    assert_eq!(eval_received(None), "null");
    assert_eq!(eval_received(Some(text("[1]"))), "[1]");
}
