//! IPC bridge: JavaScript-to-Rust commands over an `ipc://` scheme.
//!
//! Page side ([`INIT_SCRIPT`]): `window.__legatusInvoke(cmd, args)` fetches
//! `ipc://legatus/<cmd>?payload=<urlencoded-json>` and resolves the JSON reply.
//!
//! Rust side ([`IpcProtocolHandler`]): finds the command in the dispatch table,
//! hands it the payload and answers with the JSON result.
//!
//! Arguments travel in the URL query because only GET fetches are issued.
use crate::address::{path_of, query_of, url_path, url_query};
use crate::encoding::{
    begins_with_escape, decoded_with, form_fields, form_parse, hex_digit,
    law_escaping_is_undone, law_form_field_is_read_back, law_path_without_escapes,
    lemma_component_is_ascii, lemma_text_is_kept, path_decoded, percent_decoded, text_of,
    text_pairs, unescaped_value, uri_component, uri_escaped, utf8_lossy,
};
use crate::json::{
    json_bytes, json_from_str, json_null, json_object, json_of, json_or_null, json_parsed,
    json_string, json_to_vec, map_entries, map_insert, map_new, Json,
};
use crate::table::NameTable;
use http::header::{HeaderValue, InvalidHeaderValue};
use serde_json::Value;
use url::Url;
use vstd::prelude::*;
use vstd::utf8::*;

verus! {

/// URL scheme carrying IPC calls.
pub const IPC_SCHEME: &'static str = "ipc";

/// Bootstraps `window.__legatusInvoke` in every page before its own scripts.
pub const INIT_SCRIPT: &'static str = r#"(function () {
  if (window.__legatusInvoke) return;
  window.__legatusInvoke = function (cmd, args) {
    var payload = encodeURIComponent(JSON.stringify(args ?? null));
    return fetch("ipc://legatus/" + encodeURIComponent(cmd) + "?payload=" + payload).then(
      function (response) {
        return response.json();
      },
    );
  };
})();"#;

/// The dispatch table: command handlers by command.
pub type IpcRegistry<H> = NameTable<H>;

/// A dispatch table without any command.
pub fn registry<H>() -> (registry: IpcRegistry<H>)
    ensures
        registry.wf(),
        registry@ == Map::<Seq<char>, H>::empty(),
{
    NameTable::new()
}

/// `http::HeaderValue`, carried opaquely.
#[verifier::external_type_specification]
#[verifier::external_body]
pub struct ExHeaderValue(http::header::HeaderValue);

/// `http::header::InvalidHeaderValue`, carried opaquely.
#[verifier::external_type_specification]
#[verifier::external_body]
pub struct ExInvalidHeaderValue(http::header::InvalidHeaderValue);

/// The bytes that a header value holds.
pub uninterp spec fn header_bytes(value: http::header::HeaderValue) -> Seq<u8>;

/// Whether a header value may hold `bytes`: no control byte occurs but the tab.
pub open spec fn header_allows(bytes: Seq<u8>) -> bool {
    forall|i: int|
        0 <= i < bytes.len() ==> (#[trigger] bytes[i] >= 32 && bytes[i] != 127) || bytes[i] == 9
}

/// `str::parse` into an `http::HeaderValue`: holds the bytes of the text, and is
/// refused where the text has a control byte other than the tab.
#[verifier::external_body]
fn header_value(text: &str) -> (parsed: Result<HeaderValue, InvalidHeaderValue>)
    ensures
        match parsed {
            Ok(value) => header_allows(encode_utf8(text@)) && header_bytes(value) == encode_utf8(
                text@,
            ),
            Err(_) => !header_allows(encode_utf8(text@)),
        },
{
    text.parse()
}

/// What follows the slashes at the beginning of a path.
pub open spec fn command_name(path: Seq<char>) -> Seq<char>
    decreases path.len(),
{
    if path.len() > 0 && path[0] == '/' {
        command_name(path.skip(1))
    } else {
        path
    }
}

/// The command that a path calls: what follows the slashes at its beginning,
/// with the escapes decoded.
pub open spec fn called_command(path: Seq<char>) -> Seq<char> {
    text_of(path_decoded(encode_utf8(command_name(path))))
}

/// The first value under `name` among the fields of a form.
pub open spec fn first_value(fields: Seq<(Seq<char>, Seq<char>)>, name: Seq<char>) -> Option<
    Seq<char>,
>
    decreases fields.len(),
{
    if fields.len() == 0 {
        None
    } else if fields[0].0 == name {
        Some(fields[0].1)
    } else {
        first_value(fields.skip(1), name)
    }
}

/// The text of the payload in a query: the first field `payload`.
pub open spec fn payload_text(query: Option<Seq<char>>) -> Option<Seq<char>> {
    let bytes = match query {
        Some(query) => encode_utf8(query),
        None => seq![],
    };
    first_value(form_fields(bytes), "payload"@)
}

/// The reply to a command that no handler is registered for.
pub open spec fn unknown_command(command: Seq<char>) -> Json {
    Json::Object(map!["error"@ => Json::Text("unknown IPC command: "@ + command)])
}

/// The answer to an IPC request.
pub struct IpcResponse {
    /// Value of the `Content-Type` header.
    pub content_type: Option<HeaderValue>,
    /// The JSON reply.
    pub body: Vec<u8>,
}

/// The bytes of the JSON null.
pub open spec fn null_bytes() -> Seq<u8> {
    seq![0x6e, 0x75, 0x6c, 0x6c]
}

impl IpcResponse {
    /// Whether the answer is the JSON `reply`, marked as JSON. A reply that
    /// cannot be written becomes null.
    pub open spec fn carries(self, reply: Json) -> bool {
        &&& self.content_type is Some
        &&& header_bytes(self.content_type->0) == encode_utf8("application/json"@)
        &&& self.body@ == (match json_bytes(reply) {
            Some(bytes) => bytes,
            None => null_bytes(),
        })
    }
}

/// An IPC request as the dispatch table reads it.
pub struct IpcCall<'a, H> {
    /// The command that is called.
    pub command: String,
    /// The argument of the call.
    pub payload: Value,
    /// The handler registered for the command, if any.
    pub handler: Option<&'a H>,
}

/// Protocol handler serving `ipc://legatus/<cmd>?payload=<json>`.
///
/// It reads the dispatch table as it is when the request arrives, so commands
/// registered after the engine was built are served at once. `None` stands for
/// a table that cannot be locked; no command is found in it.
pub struct IpcProtocolHandler<'a, H> {
    dispatch: Option<&'a IpcRegistry<H>>,
}

impl<'a, H> IpcProtocolHandler<'a, H> {
    /// The dispatch table.
    pub closed spec fn table(self) -> Option<&'a IpcRegistry<H>> {
        self.dispatch
    }

    /// Each command of the dispatch table occurs once.
    pub open spec fn wf(self) -> bool {
        self.table() is Some ==> self.table()->0.wf()
    }

    /// The handler registered for a command.
    pub open spec fn handler_of(self, command: Seq<char>) -> Option<&'a H> {
        match self.table() {
            Some(table) => if table@.contains_key(command) {
                Some(&table@[command])
            } else {
                None
            },
            None => None,
        }
    }

    /// A handler that serves the commands of `dispatch`.
    pub fn new(dispatch: Option<&'a IpcRegistry<H>>) -> (handler: Self)
        ensures
            handler.table() == dispatch,
    {
        IpcProtocolHandler { dispatch }
    }

    /// Reads the command and the payload out of a request and finds the handler.
    pub fn route(&self, path: &str, query: Option<&str>) -> (call: IpcCall<'a, H>)
        requires
            self.wf(),
        ensures
            call.command@ == called_command(path@),
            json_of(call.payload) == json_or_null(
                payload_text(
                    match query {
                        Some(query) => Some(query@),
                        None => None,
                    },
                ),
            ),
            call.handler == self.handler_of(called_command(path@)),
            query matches Some(query) ==> (payload_text(Some(query@)) matches Some(text) ==> (
            json_parsed(text) matches Some(json) ==> json_of(call.payload) == json)),
    {
        let command = command_of(path);
        let payload = payload_of(query);
        let handler = match self.dispatch {
            Some(table) => table.get(command.as_str()),
            None => None,
        };
        IpcCall { command, payload, handler }
    }
}

/// The command that a path calls.
fn command_of(path: &str) -> (command: String)
    ensures
        command@ == called_command(path@),
{
    let length: usize = path.unicode_len();
    let mut i: usize = 0;
    proof {
        assert(path@.skip(0) =~= path@);
    }
    while i < length && path.get_char(i) == '/'
        invariant
            length == path@.len(),
            i <= length,
            command_name(path@.skip(i as int)) == command_name(path@),
        decreases length - i,
    {
        proof {
            assert(path@.skip(i as int).skip(1) =~= path@.skip(i + 1));
        }
        i += 1;
    }
    proof {
        assert(path@.skip(i as int) =~= path@.subrange(i as int, length as int));
    }
    decode(path.substring_char(i, length), 0x2b)
}

/// The payload in a query: the first field `payload`, read as JSON. Where there
/// is none, or where it is no JSON, the payload is null.
fn payload_of(query: Option<&str>) -> (payload: Value)
    ensures
        json_of(payload) == json_or_null(
            payload_text(
                match query {
                    Some(query) => Some(query@),
                    None => None,
                },
            ),
        ),
{
    let text: &str = match query {
        Some(query) => query,
        None => "",
    };
    let fields = form_parse(text);
    proof {
        reveal_strlit("");
        assert(encode_utf8(""@) =~= seq![]);
    }
    match find_value(&fields, "payload") {
        Some(value) => match json_from_str(value.as_str()) {
            Ok(payload) => payload,
            Err(_) => json_null(),
        },
        None => json_null(),
    }
}

/// The first value under `name`.
fn find_value<'a>(fields: &'a Vec<(String, String)>, name: &str) -> (value: Option<&'a String>)
    ensures
        match value {
            Some(value) => first_value(text_pairs(fields@), name@) == Some(value@),
            None => first_value(text_pairs(fields@), name@) is None,
        },
{
    let wanted: String = name.to_owned();
    let mut i: usize = 0;
    let ghost pairs = text_pairs(fields@);
    proof {
        assert(pairs.skip(0) =~= pairs);
    }
    while i < fields.len()
        invariant
            wanted@ == name@,
            i <= fields@.len(),
            pairs == text_pairs(fields@),
            first_value(pairs.skip(i as int), name@) == first_value(pairs, name@),
        decreases fields@.len() - i,
    {
        if fields[i].0 == wanted {
            return Some(&fields[i].1);
        }
        proof {
            assert(pairs.skip(i as int).skip(1) =~= pairs.skip(i + 1));
        }
        i += 1;
    }
    None
}

/// The JSON reply to a command that no handler is registered for.
fn unknown_command_reply(command: &str) -> (reply: Value)
    ensures
        json_of(reply) == unknown_command(command@),
{
    let mut message: String = "unknown IPC command: ".to_owned();
    message.append(command);
    let mut entries: serde_json::Map<String, Value> = map_new();
    map_insert(&mut entries, "error".to_owned(), json_string(message));
    proof {
        assert(map_entries(entries) =~= map![
            "error"@ => Json::Text("unknown IPC command: "@ + command@),
        ]);
    }
    json_object(entries)
}

/// Marks a JSON reply as such and writes it out.
pub fn answer(reply: &Value) -> (response: IpcResponse)
    ensures
        response.carries(json_of(*reply)),
        response.content_type matches Some(content_type) && header_bytes(content_type)
            == encode_utf8("application/json"@),
        json_bytes(json_of(*reply)) matches Some(bytes) ==> response.body@ == bytes,
        json_bytes(json_of(*reply)) is None ==> response.body@ == seq![0x6eu8, 0x75, 0x6c, 0x6c],
{
    let body: Vec<u8> = match json_to_vec(reply) {
        Ok(body) => body,
        Err(_) => vec![0x6e, 0x75, 0x6c, 0x6c],
    };
    proof {
        reveal_strlit("application/json");
        is_ascii_chars_encode_utf8("application/json"@);
    }
    let content_type: Option<HeaderValue> = match header_value("application/json") {
        Ok(content_type) => Some(content_type),
        Err(_) => None,
    };
    IpcResponse { content_type, body }
}

/// Runs the handler of a command, if there is one, and answers with its reply.
pub fn respond<H: Fn(Value) -> Value>(command: &str, handler: Option<&H>, payload: Value) -> (
    response: IpcResponse)
    requires
        handler is Some ==> call_requires(*handler->0, (payload,)),
    ensures
        match handler {
            Some(handler) => exists|reply: Value| #[trigger]
                call_ensures(*handler, (payload,), reply) && response.carries(json_of(reply)),
            None => response.carries(unknown_command(command@)),
        },
        exists|reply: Json| response.carries(reply),
{
    let reply: Value = match handler {
        Some(handler) => handler(payload),
        None => unknown_command_reply(command),
    };
    answer(&reply)
}

impl<'a, H: Fn(Value) -> Value> IpcProtocolHandler<'a, H> {
    /// Whether every registered handler takes every payload.
    pub open spec fn callable(self) -> bool {
        forall|command: Seq<char>, payload: Value|
            self.handler_of(command) is Some ==> #[trigger] call_requires(
                *self.handler_of(command)->0,
                (payload,),
            )
    }

    /// Serves one request.
    pub fn load(&self, url: &Url) -> (response: IpcResponse)
        requires
            self.wf(),
            forall|payload: Value|
                json_of(payload) == json_or_null(payload_text(url_query(*url)))
                    && self.handler_of(called_command(url_path(*url))) is Some
                    ==> #[trigger] call_requires(
                    *self.handler_of(called_command(url_path(*url)))->0,
                    (payload,),
                ),
        ensures
            match self.handler_of(called_command(url_path(*url))) {
                Some(handler) => exists|payload: Value, reply: Value|
                    {
                        &&& json_of(payload) == json_or_null(payload_text(url_query(*url)))
                        &&& #[trigger] call_ensures(*handler, (payload,), reply)
                        &&& response.carries(json_of(reply))
                    },
                None => response.carries(unknown_command(called_command(url_path(*url)))),
            },
            exists|reply: Json| response.carries(reply),
    {
        let call = self.route(path_of(url), query_of(url));
        respond(call.command.as_str(), call.handler, call.payload)
    }

    /// Page scripts may read the answer.
    pub fn is_fetchable(&self) -> (fetchable: bool)
        ensures
            fetchable,
    {
        true
    }

    /// Exempts the answers from mixed-content blocking: they never touch the
    /// network, the handler runs in-process.
    pub fn is_secure(&self) -> (secure: bool)
        ensures
            secure,
    {
        true
    }
}

/// Decodes percent escapes, reads `+` as a space, and takes the bytes that
/// result as UTF-8, with U+FFFD in place of what is none.
pub fn percent_decode(input: &str) -> (decoded: String)
    ensures
        decoded@ == text_of(percent_decoded(encode_utf8(input@))),
{
    decode(input, 0x20)
}

/// Decodes percent escapes, reads `+` as the byte `plus`, and takes the bytes that
/// result as UTF-8, with U+FFFD in place of what is none.
fn decode(input: &str, plus: u8) -> (decoded: String)
    ensures
        decoded@ == text_of(decoded_with(encode_utf8(input@), plus)),
{
    let bytes = input.as_bytes();
    let mut out: Vec<u8> = Vec::with_capacity(bytes.len());
    let mut i: usize = 0;
    proof {
        assert(bytes@.skip(0) =~= bytes@);
    }
    while i < bytes.len()
        invariant
            i <= bytes@.len(),
            out@ + decoded_with(bytes@.skip(i as int), plus) == decoded_with(bytes@, plus),
        decreases bytes@.len() - i,
    {
        let ghost rest = bytes@.skip(i as int);
        if bytes[i] == 0x25 && bytes.len() - i > 2 {
            if let (Some(h), Some(l)) = (hex(bytes[i + 1]), hex(bytes[i + 2])) {
                proof {
                    assert(h < 16 && l < 16);
                    assert((h << 4 | l) == h * 16 + l) by (bit_vector)
                        requires
                            h < 16,
                            l < 16,
                    ;
                    assert(rest.skip(3) =~= bytes@.skip(i + 3));
                    assert(out@.push((h << 4 | l)) + decoded_with(bytes@.skip(i + 3), plus)
                        =~= out@ + decoded_with(rest, plus));
                }
                out.push(h << 4 | l);
                i += 3;
                continue ;
            }
        }
        proof {
            assert(!begins_with_escape(rest));
            assert(rest.skip(1) =~= bytes@.skip(i + 1));
            assert(out@.push(unescaped_value(rest[0], plus)) + decoded_with(
                bytes@.skip(i + 1),
                plus,
            ) =~= out@ + decoded_with(rest, plus));
        }
        out.push(if bytes[i] == 0x2b { plus } else { bytes[i] });
        i += 1;
    }
    proof {
        assert(out@ =~= decoded_with(bytes@, plus));
    }
    utf8_lossy(&out)
}

/// The value of one hexadecimal digit.
pub fn hex(byte: u8) -> (digit: Option<u8>)
    ensures
        digit == hex_digit(byte),
{
    match byte {
        0x30..=0x39 => Some(byte - 0x30),
        0x61..=0x66 => Some(byte - 0x61 + 10),
        0x41..=0x46 => Some(byte - 0x41 + 10),
        _ => None,
    }
}

/// The path that a page fetches to call a command.
///
/// An address does not keep a path of one dot or two: those two commands cannot be
/// called.
pub open spec fn invoked_path(command: Seq<char>) -> Seq<char> {
    seq!['/'] + uri_component(command)
}

/// The query that a page fetches to hand over the JSON text of an argument.
pub open spec fn invoked_query(text: Seq<char>) -> Seq<char> {
    "payload="@ + uri_component(text)
}

/// What a page calls and hands over is what is read: the command, and the JSON text
/// of the argument.
pub proof fn law_invocation_is_read(command: Seq<char>, text: Seq<char>)
    ensures
        called_command(invoked_path(command)) == command,
        payload_text(Some(invoked_query(text))) == Some(text),
{
    let component = uri_component(command);
    let escaped = uri_escaped(encode_utf8(command));
    lemma_component_is_ascii(command);
    assert(invoked_path(command).skip(1) =~= component);
    assert(command_name(component) == component);
    assert(is_ascii_chars(component));
    is_ascii_chars_encode_utf8(component);
    assert(encode_utf8(component) =~= escaped);
    law_escaping_is_undone(encode_utf8(command));
    lemma_text_is_kept(command);
    let payload = "payload"@;
    lemma_payload_is_unreserved();
    reveal_strlit("payload");
    reveal_strlit("payload=");
    assert(invoked_query(text) =~= uri_component(payload) + seq!['='] + uri_component(text));
    law_form_field_is_read_back(payload, text);
}

/// A call from a page reaches the handler registered for the command, with the
/// argument that the page handed over.
pub proof fn law_invocation_reaches_handler<'a, H>(
    handler: IpcProtocolHandler<'a, H>,
    command: Seq<char>,
    text: Seq<char>,
)
    ensures
        handler.handler_of(called_command(invoked_path(command))) == handler.handler_of(command),
        json_or_null(payload_text(Some(invoked_query(text)))) == json_or_null(Some(text)),
{
    law_invocation_is_read(command, text);
}

/// A command is served from the moment it is registered, by the handler
/// registered last; what other commands do stays as it was.
pub proof fn law_registration_is_live<'a, H>(
    before: IpcProtocolHandler<'a, H>,
    after: IpcProtocolHandler<'a, H>,
    command: Seq<char>,
    handler: H,
    other: Seq<char>,
)
    requires
        before.table() is Some,
        after.table() is Some,
        after.table()->0@ == before.table()->0@.insert(command, handler),
    ensures
        after.handler_of(command) == Some(&handler),
        other != command ==> after.handler_of(other) == before.handler_of(other),
{
}

proof fn lemma_payload_is_unreserved()
    ensures
        uri_component("payload"@) == "payload"@,
{
    reveal_strlit("payload");
    let text = "payload"@;
    is_ascii_chars_encode_utf8(text);
    let bytes = encode_utf8(text);
    assert(bytes =~= seq![0x70u8, 0x61, 0x79, 0x6c, 0x6f, 0x61, 0x64]);
    reveal_with_fuel(uri_escaped, 8);
    assert(uri_escaped(bytes) =~= bytes);
    assert(uri_component(text) =~= text);
}

/// The argument that a page hands over reaches the handler: for every JSON text the
/// payload is what the text says, and it is null only where the text says null or
/// is no JSON.
pub proof fn law_argument_is_handed_over(text: Seq<char>, json: Json)
    ensures
        json_parsed(text) == Some(json) ==> json_or_null(payload_text(Some(invoked_query(text))))
            == json,
        json_or_null(payload_text(Some(invoked_query(text)))) is Null ==> json_parsed(text) is None
            || json_parsed(text) == Some(Json::Null),
        json_or_null(payload_text(None)) == Json::Null,
{
    law_invocation_is_read(seq![], text);
    assert(form_fields(seq![]) =~= seq![]);
}

/// Of the fields of a query the first one with the name `payload` counts, and
/// without such a field there is no payload.
pub proof fn law_first_payload_counts(query: Seq<char>, at: int)
    ensures
        ({
            let fields = form_fields(encode_utf8(query));
            &&& 0 <= at < fields.len() && fields[at].0 == "payload"@ && (forall|i: int|
                0 <= i < at ==> (#[trigger] fields[i]).0 != "payload"@) ==> payload_text(
                Some(query),
            ) == Some(fields[at].1)
            &&& (forall|i: int|
                0 <= i < fields.len() ==> (#[trigger] fields[i]).0 != "payload"@)
                ==> payload_text(Some(query)) is None
        }),
        payload_text(None) is None,
{
    let fields = form_fields(encode_utf8(query));
    lemma_first_value(fields, "payload"@, at);
    assert(form_fields(seq![]) =~= seq![]);
}

proof fn lemma_first_value(fields: Seq<(Seq<char>, Seq<char>)>, name: Seq<char>, at: int)
    ensures
        0 <= at < fields.len() && fields[at].0 == name && (forall|i: int|
            0 <= i < at ==> (#[trigger] fields[i]).0 != name) ==> first_value(fields, name)
            == Some(fields[at].1),
        (forall|i: int| 0 <= i < fields.len() ==> (#[trigger] fields[i]).0 != name)
            ==> first_value(fields, name) is None,
    decreases fields.len(),
{
    if fields.len() > 0 && fields[0].0 != name {
        let rest = fields.skip(1);
        lemma_first_value(rest, name, at - 1);
        assert(forall|i: int| 0 <= i < rest.len() ==> (#[trigger] rest[i]) == fields[i + 1]);
        if forall|i: int| 0 <= i < fields.len() ==> (#[trigger] fields[i]).0 != name {
            assert forall|i: int| 0 <= i < rest.len() implies (#[trigger] rest[i]).0 != name by {
                assert(fields[i + 1].0 != name);
            }
        }
        if 0 < at < fields.len() && fields[at].0 == name && (forall|i: int|
            0 <= i < at ==> (#[trigger] fields[i]).0 != name) {
            assert forall|i: int| 0 <= i < at - 1 implies (#[trigger] rest[i]).0 != name by {
                assert(fields[i + 1].0 != name);
            }
        }
    }
}

/// Slashes at the beginning of a path are no part of the command, the rest is
/// decoded as a path, and where it holds no escape it is the command.
pub proof fn law_command_in_a_path(path: Seq<char>)
    ensures
        called_command(seq!['/'] + path) == called_command(path),
        path.len() == 0 || path[0] != '/' ==> called_command(path) == text_of(
            path_decoded(encode_utf8(path)),
        ),
        (path.len() == 0 || path[0] != '/') && (forall|i: int|
            #![trigger encode_utf8(path)[i]]
            0 <= i < encode_utf8(path).len() ==> !begins_with_escape(encode_utf8(path).skip(i)))
            ==> called_command(path) == path,
{
    assert((seq!['/'] + path).skip(1) =~= path);
    if forall|i: int|
        #![trigger encode_utf8(path)[i]]
        0 <= i < encode_utf8(path).len() ==> !begins_with_escape(encode_utf8(path).skip(i)) {
        law_path_without_escapes(encode_utf8(path));
        lemma_text_is_kept(path);
    }
}

/// A command has the handler that the dispatch table holds for it, and none where
/// the table holds none or cannot be locked.
pub proof fn law_handlers_come_from_the_table<'a, H>(
    handler: IpcProtocolHandler<'a, H>,
    command: Seq<char>,
)
    ensures
        handler.table() is None ==> handler.handler_of(command) is None,
        handler.table() matches Some(table) ==> (table@.contains_key(command)
            ==> handler.handler_of(command) == Some(&table@[command])),
        handler.table() matches Some(table) ==> (!table@.contains_key(command)
            ==> handler.handler_of(command) is None),
{
}

/// A command that no handler is registered for is answered with an object that holds
/// one text under `error`, which ends in the command.
pub proof fn law_unknown_command_is_named(command: Seq<char>)
    ensures
        unknown_command(command) matches Json::Object(map) && map.dom() == set!["error"@]
            && map["error"@] == Json::Text("unknown IPC command: "@ + command),
{
    let map = unknown_command(command)->Object_0;
    assert(map.dom() =~= set!["error"@]);
}

/// An answer is marked as JSON and is the written reply, or null where the reply
/// cannot be written.
pub proof fn law_answer_is_the_reply(response: IpcResponse, reply: Json)
    requires
        response.carries(reply),
    ensures
        response.content_type matches Some(content_type) && header_bytes(content_type)
            == encode_utf8("application/json"@),
        json_bytes(reply) matches Some(bytes) ==> response.body@ == bytes,
        json_bytes(reply) is None ==> response.body@ == encode_utf8("null"@),
{
    reveal_strlit("null");
    is_ascii_chars_encode_utf8("null"@);
    assert(encode_utf8("null"@) =~= null_bytes());
}

/// Handlers that take every payload take the one of every request.
pub proof fn law_callable_handlers_take_the_payload<'a, H: Fn(Value) -> Value>(
    handler: IpcProtocolHandler<'a, H>,
    command: Seq<char>,
    payload: Value,
)
    requires
        handler.callable(),
        handler.handler_of(command) is Some,
    ensures
        call_requires(*handler.handler_of(command)->0, (payload,)),
{
}

/// The page script encodes the command and the JSON text of the argument once each,
/// fetches the address made of them, and reads the answer as JSON.
pub proof fn law_page_script_encodes_once()
    ensures
        INIT_SCRIPT@.subrange(121, 169)
            == r#"encodeURIComponent(JSON.stringify(args ?? null))"#@,
        INIT_SCRIPT@.subrange(182, 255)
            == r#"fetch("ipc://legatus/" + encodeURIComponent(cmd) + "?payload=" + payload)"#@,
        INIT_SCRIPT@.subrange(298, 321)
            == r#"return response.json();"#@,
{
    reveal_strlit(
        r#"(function () {
  if (window.__legatusInvoke) return;
  window.__legatusInvoke = function (cmd, args) {
    var payload = encodeURIComponent(JSON.stringify(args ?? null));
    return fetch("ipc://legatus/" + encodeURIComponent(cmd) + "?payload=" + payload).then(
      function (response) {
        return response.json();
      },
    );
  };
})();"#,
    );
    reveal_strlit(r#"encodeURIComponent(JSON.stringify(args ?? null))"#);
    reveal_strlit(r#"fetch("ipc://legatus/" + encodeURIComponent(cmd) + "?payload=" + payload)"#);
    reveal_strlit(r#"return response.json();"#);
}

} // verus!
