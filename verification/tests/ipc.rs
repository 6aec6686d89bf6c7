use serde_json::Value;
use tauri_runtime_servo::ipc::{
    answer, hex, percent_decode, registry, respond, IpcProtocolHandler, IpcRegistry, INIT_SCRIPT,
    IPC_SCHEME,
};
use tauri_runtime_servo::webview::register_ipc;
use url::Url;

type Handler = Box<dyn Fn(Value) -> Value>;

fn echo() -> Handler {
    Box::new(|payload: Value| payload)
}

fn table() -> IpcRegistry<Handler> {
    let mut table: IpcRegistry<Handler> = registry();
    register_ipc(Some(&mut table), "echo".to_string(), echo());
    let greet: Handler = Box::new(|args: Value| {
        let name = args.get("name").and_then(|name| name.as_str()).unwrap_or("stranger");
        Value::String(format!("hello, {} (from rust)", name))
    });
    register_ipc(Some(&mut table), "greet".to_string(), greet);
    table
}

fn fetch(address: &str) -> String {
    let table = table();
    let handler = IpcProtocolHandler::new(Some(&table));
    let response = handler.load(&Url::parse(address).unwrap());
    assert_eq!(response.content_type.unwrap().to_str().unwrap(), "application/json");
    String::from_utf8(response.body).unwrap()
}

#[test]
fn percent_escapes_are_decoded() {
    assert_eq!(percent_decode("a%20b+c"), "a b c");
    assert_eq!(percent_decode("%41"), "A");
    assert_eq!(percent_decode("%e2%82%AC"), "\u{20ac}");
    assert_eq!(percent_decode(""), "");
}

#[test]
fn broken_escapes_stay() {
    assert_eq!(percent_decode("100%"), "100%");
    assert_eq!(percent_decode("%4"), "%4");
    assert_eq!(percent_decode("%zz%4g"), "%zz%4g");
    assert_eq!(percent_decode("%%41"), "%A");
}

#[test]
fn decoded_bytes_that_are_no_text_are_replaced() {
    assert_eq!(percent_decode("a%ffb"), "a\u{fffd}b");
}

#[test]
fn hexadecimal_digits_have_values() {
    assert_eq!(hex(b'0'), Some(0));
    assert_eq!(hex(b'9'), Some(9));
    assert_eq!(hex(b'a'), Some(10));
    assert_eq!(hex(b'F'), Some(15));
    assert_eq!(hex(b'g'), None);
    assert_eq!(hex(b'/'), None);
    assert_eq!(hex(b':'), None);
}

#[test]
fn registered_command_is_called_with_its_payload() {
    let body = fetch("ipc://legatus/greet?payload=%7B%22name%22%3A%22servo%22%7D");
    assert_eq!(body, "\"hello, servo (from rust)\"");
    assert_eq!(fetch("ipc://legatus/greet?payload=null"), "\"hello, stranger (from rust)\"");
}

#[test]
fn unknown_command_is_answered_with_an_error() {
    assert_eq!(
        fetch("ipc://legatus/nope?payload=1"),
        "{\"error\":\"unknown IPC command: nope\"}"
    );
    assert_eq!(fetch("ipc://legatus/"), "{\"error\":\"unknown IPC command: \"}");
}

#[test]
fn leading_slashes_are_no_part_of_the_command() {
    assert_eq!(fetch("ipc://legatus///echo?payload=7"), "7");
    assert_eq!(
        fetch("ipc://legatus/echo/?payload=7"),
        "{\"error\":\"unknown IPC command: echo/\"}"
    );
}

#[test]
fn missing_or_broken_payload_is_null() {
    assert_eq!(fetch("ipc://legatus/echo"), "null");
    assert_eq!(fetch("ipc://legatus/echo?other=1"), "null");
    assert_eq!(fetch("ipc://legatus/echo?payload="), "null");
    assert_eq!(fetch("ipc://legatus/echo?payload=%7B"), "null");
}

#[test]
fn first_payload_counts() {
    assert_eq!(fetch("ipc://legatus/echo?x=0&payload=1&payload=2"), "1");
    assert_eq!(fetch("ipc://legatus/echo?payload=%7B&payload=2"), "null");
}

#[test]
fn payload_is_decoded_once() {
    assert_eq!(fetch("ipc://legatus/echo?payload=%22%2B%22"), "\"+\"");
    assert_eq!(fetch("ipc://legatus/echo?payload=%22%2541%22"), "\"%41\"");
    assert_eq!(fetch("ipc://legatus/echo?payload=%221%2B1%22"), "\"1+1\"");
    assert_eq!(fetch("ipc://legatus/echo?payload=%22a+b%22"), "\"a b\"");
}

#[test]
fn command_is_decoded() {
    let mut table: IpcRegistry<Handler> = registry();
    let ok: Handler = Box::new(|payload: Value| {
        assert_eq!(payload, Value::Null);
        Value::String("ok".to_string())
    });
    register_ipc(Some(&mut table), "get user".to_string(), ok);
    register_ipc(Some(&mut table), "a+b".to_string(), echo());
    register_ipc(Some(&mut table), "/\u{20ac}".to_string(), echo());
    let handler = IpcProtocolHandler::new(Some(&table));
    let body = |address: &str| handler.load(&Url::parse(address).unwrap()).body;
    assert_eq!(body("ipc://legatus/get%20user?payload=null"), b"\"ok\"".to_vec());
    assert_eq!(body("ipc://legatus/a+b?payload=1"), b"1".to_vec());
    assert_eq!(body("ipc://legatus/a%2Bb?payload=2"), b"2".to_vec());
    assert_eq!(body("ipc://legatus/%2F%E2%82%AC?payload=3"), b"3".to_vec());
    assert_eq!(
        body("ipc://legatus/no%20pe"),
        b"{\"error\":\"unknown IPC command: no pe\"}".to_vec()
    );
}

#[test]
fn joined_texts_are_decoded_one_after_the_other() {
    let (left, right) = ("a%41+\u{e9}", "%e2%82%ac%");
    assert_eq!(percent_decode("a%41+\u{e9}%e2%82%ac%"), "aA \u{e9}\u{20ac}%");
    assert_eq!(
        percent_decode(&format!("{}{}", left, right)),
        format!("{}{}", percent_decode(left), percent_decode(right))
    );
    assert_eq!(percent_decode("\u{e9}%41%ff+%e9"), "\u{e9}A\u{fffd} \u{fffd}");
    assert_eq!(
        percent_decode("\u{e9}%41%ff+%e9"),
        format!("{}{}", percent_decode("\u{e9}%41"), percent_decode("%ff+%e9"))
    );
    assert_ne!(
        percent_decode("%41"),
        format!("{}{}", percent_decode("%4"), percent_decode("1"))
    );
}

#[test]
fn without_a_table_every_command_is_unknown() {
    let handler: IpcProtocolHandler<'_, Handler> = IpcProtocolHandler::new(None);
    let response = handler.load(&Url::parse("ipc://legatus/echo?payload=1").unwrap());
    assert_eq!(response.body, b"{\"error\":\"unknown IPC command: echo\"}".to_vec());
}

#[test]
fn registration_is_live_and_the_last_one_wins() {
    let mut table = table();
    let url = Url::parse("ipc://legatus/late?payload=1").unwrap();
    assert_eq!(
        IpcProtocolHandler::new(Some(&table)).load(&url).body,
        b"{\"error\":\"unknown IPC command: late\"}".to_vec()
    );
    register_ipc(Some(&mut table), "late".to_string(), echo());
    assert_eq!(IpcProtocolHandler::new(Some(&table)).load(&url).body, b"1".to_vec());
    let other: Handler = Box::new(|_payload: Value| Value::Bool(true));
    register_ipc(Some(&mut table), "late".to_string(), other);
    assert_eq!(IpcProtocolHandler::new(Some(&table)).load(&url).body, b"true".to_vec());
    let kept = Url::parse("ipc://legatus/echo?payload=1").unwrap();
    assert_eq!(IpcProtocolHandler::new(Some(&table)).load(&kept).body, b"1".to_vec());
}

#[test]
fn registration_without_a_table_is_dropped() {
    register_ipc::<Handler>(None, "echo".to_string(), echo());
}

#[test]
fn request_is_routed_before_it_is_answered() {
    let table = table();
    let handler = IpcProtocolHandler::new(Some(&table));
    let call = handler.route("/echo", Some("payload=%5B1%2C2%5D"));
    assert_eq!(call.command, "echo");
    assert_eq!(call.payload, Value::Array(vec![Value::from(1), Value::from(2)]));
    assert!(call.handler.is_some());
    let response = respond(call.command.as_str(), call.handler, call.payload);
    assert_eq!(response.body, b"[1,2]".to_vec());
    let call = handler.route("nope", None);
    assert_eq!(call.payload, Value::Null);
    assert!(call.handler.is_none());
}

#[test]
fn reply_is_marked_as_json() {
    let response = answer(&Value::String("\u{20ac}\"".to_string()));
    assert_eq!(response.content_type.unwrap().as_bytes(), b"application/json");
    assert_eq!(response.body, "\"\u{20ac}\\\"\"".as_bytes().to_vec());
}

#[test]
fn pages_may_fetch_the_scheme() {
    let handler: IpcProtocolHandler<'_, Handler> = IpcProtocolHandler::new(None);
    assert!(handler.is_fetchable());
    assert!(handler.is_secure());
    assert_eq!(IPC_SCHEME, "ipc");
    assert!(INIT_SCRIPT.contains("\"ipc://legatus/\" + encodeURIComponent(cmd) + \"?payload=\""));
}
