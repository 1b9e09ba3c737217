//! The wire format of messages: a message is a JSON object whose fields say
//! what it is, written as one line of UTF-8 text.
use crate::errors::TransportError;
use crate::json::{
    as_i64, as_string, as_u64, i64_value, into_object, is_null, json_text, new_object,
    null_value, object_entries, object_insert, object_remove, object_value, parse_json,
    parsed_json, string_value, u64_value, value_as_i64, value_as_object, value_as_str,
    value_as_u64, value_is_null, write_json, JsonObject,
};
use crate::protocol::{
    discriminate, opt_error_view, opt_view, version_2_0, ErrorData, ErrorDataModel,
    JsonRpcMessage, JsonRpcRaw, MessageModel, RawModel,
};
use serde_json::Value;
use vstd::prelude::*;
use vstd::string::*;
use vstd::utf8::{decode_utf8, valid_utf8};

verus! {

/// An optional field of an object: absent and `null` both count as unset.
pub open spec fn opt_field(e: Map<Seq<char>, Value>, k: Seq<char>) -> Option<Value> {
    if e.contains_key(k) && !value_is_null(e[k]) {
        Some(e[k])
    } else {
        None
    }
}

/// Reads an optional id: unset, or a non-negative integer. The outer `None`
/// means that the field holds something else.
pub open spec fn read_id(o: Option<Value>) -> Option<Option<u64>> {
    match o {
        None => Some(None),
        Some(v) => match value_as_u64(v) {
            Some(x) => Some(Some(x)),
            None => None,
        },
    }
}

/// Reads an optional string field. The outer `None` means that the field
/// holds something else.
pub open spec fn read_text(o: Option<Value>) -> Option<Option<Seq<char>>> {
    match o {
        None => Some(None),
        Some(v) => match value_as_str(v) {
            Some(s) => Some(Some(s)),
            None => None,
        },
    }
}

/// Reads an error code: an integer that fits in 32 bits.
pub open spec fn read_code(v: Value) -> Option<i32> {
    match value_as_i64(v) {
        Some(x) => if i32::MIN <= x <= i32::MAX {
            Some(x as i32)
        } else {
            None
        },
        None => None,
    }
}

/// Reads an error body: an object with an integer `code`, a string `message`
/// and optional `data`.
pub open spec fn read_error_data(v: Value) -> Option<ErrorDataModel> {
    match value_as_object(v) {
        None => None,
        Some(e) => match (opt_field(e, "code"@), read_text(opt_field(e, "message"@))) {
            (Some(c), Some(Some(message))) => match read_code(c) {
                Some(code) => Some(ErrorDataModel { code, message, data: opt_field(e, "data"@) }),
                None => None,
            },
            _ => None,
        },
    }
}

/// Reads an optional error body. The outer `None` means that the field holds
/// something else.
pub open spec fn read_error(o: Option<Value>) -> Option<Option<ErrorDataModel>> {
    match o {
        None => Some(None),
        Some(v) => match read_error_data(v) {
            Some(d) => Some(Some(d)),
            None => None,
        },
    }
}

/// Reads the fields of a raw message from an object's entries; fields other
/// than the six of a message are ignored.
pub open spec fn read_raw(e: Map<Seq<char>, Value>) -> Option<RawModel> {
    match (
        read_text(opt_field(e, "jsonrpc"@)),
        read_id(opt_field(e, "id"@)),
        read_text(opt_field(e, "method"@)),
        read_error(opt_field(e, "error"@)),
    ) {
        (Some(Some(jsonrpc)), Some(id), Some(method), Some(error)) => Some(
            RawModel {
                jsonrpc,
                id,
                method,
                params: opt_field(e, "params"@),
                result: opt_field(e, "result"@),
                error,
            },
        ),
        _ => None,
    }
}

/// Whether an object says that it speaks JSON-RPC 2.0.
pub open spec fn has_version(e: Map<Seq<char>, Value>) -> bool {
    e.contains_key("jsonrpc"@) && value_as_str(e["jsonrpc"@]) == Some(version_2_0())
}

/// The message that a JSON value holds, if any: it must be an object that
/// speaks JSON-RPC 2.0, whose fields have the right types and make one of
/// the kinds of message.
pub open spec fn decode_value(v: Value) -> Option<MessageModel> {
    match value_as_object(v) {
        None => None,
        Some(e) => if has_version(e) {
            match read_raw(e) {
                Some(raw) => discriminate(raw),
                None => None,
            }
        } else {
            None
        },
    }
}

/// The entry `k` holds the string `s`.
pub open spec fn holds_text(e: Map<Seq<char>, Value>, k: Seq<char>, s: Seq<char>) -> bool {
    e.contains_key(k) && value_as_str(e[k]) == Some(s) && !value_is_null(e[k])
}

/// The entry `k` holds the id, or is absent if there is none.
pub open spec fn holds_id(e: Map<Seq<char>, Value>, k: Seq<char>, id: Option<u64>) -> bool {
    match id {
        Some(x) => e.contains_key(k) && value_as_u64(e[k]) == Some(x) && !value_is_null(e[k]),
        None => !e.contains_key(k),
    }
}

/// The entry `k` of an error reply holds the id, or `null` if there is none.
pub open spec fn holds_reply_id(e: Map<Seq<char>, Value>, k: Seq<char>, id: Option<u64>) -> bool {
    match id {
        Some(x) => e.contains_key(k) && value_as_u64(e[k]) == Some(x) && !value_is_null(e[k]),
        None => e.contains_key(k) && value_is_null(e[k]),
    }
}

/// The entry `k` holds the value, or is absent if there is none.
pub open spec fn holds_value(e: Map<Seq<char>, Value>, k: Seq<char>, o: Option<Value>) -> bool {
    match o {
        Some(x) => e.contains_key(k) && e[k] == x,
        None => !e.contains_key(k),
    }
}

/// A JSON value is the object that writes an error body.
pub open spec fn encodes_error(v: Value, d: ErrorDataModel) -> bool {
    &&& !value_is_null(v)
    &&& value_as_object(v) matches Some(f)
    &&& f.contains_key("code"@)
    &&& value_as_i64(f["code"@]) == Some(d.code as i64)
    &&& !value_is_null(f["code"@])
    &&& holds_text(f, "message"@, d.message)
    &&& holds_value(f, "data"@, d.data)
}

/// The entry `k` holds the error body, or is absent if there is none.
pub open spec fn holds_error(
    e: Map<Seq<char>, Value>,
    k: Seq<char>,
    o: Option<ErrorDataModel>,
) -> bool {
    match o {
        Some(d) => e.contains_key(k) && encodes_error(e[k], d),
        None => !e.contains_key(k),
    }
}

/// A JSON value is what a message is written as: `Nil` as `null`, any other
/// message as an object with its set fields under their names and nothing
/// else, but that an error reply without id has the id `null`.
pub open spec fn encodes(v: Value, m: MessageModel) -> bool {
    match m {
        MessageModel::Nil => value_is_null(v),
        MessageModel::Request { jsonrpc, id, method, params } => {
            &&& value_as_object(v) matches Some(e)
            &&& holds_text(e, "jsonrpc"@, jsonrpc)
            &&& holds_id(e, "id"@, id)
            &&& holds_text(e, "method"@, method)
            &&& holds_value(e, "params"@, params)
            &&& !e.contains_key("result"@)
            &&& !e.contains_key("error"@)
        },
        MessageModel::Response { jsonrpc, id, result, error } => {
            &&& value_as_object(v) matches Some(e)
            &&& holds_text(e, "jsonrpc"@, jsonrpc)
            &&& holds_id(e, "id"@, id)
            &&& holds_value(e, "result"@, result)
            &&& holds_error(e, "error"@, error)
            &&& !e.contains_key("method"@)
            &&& !e.contains_key("params"@)
        },
        MessageModel::Notification { jsonrpc, method, params } => {
            &&& value_as_object(v) matches Some(e)
            &&& holds_text(e, "jsonrpc"@, jsonrpc)
            &&& !e.contains_key("id"@)
            &&& holds_text(e, "method"@, method)
            &&& holds_value(e, "params"@, params)
            &&& !e.contains_key("result"@)
            &&& !e.contains_key("error"@)
        },
        MessageModel::Error { jsonrpc, id, error } => {
            &&& value_as_object(v) matches Some(e)
            &&& holds_text(e, "jsonrpc"@, jsonrpc)
            &&& holds_reply_id(e, "id"@, id)
            &&& holds_error(e, "error"@, Some(error))
            &&& !e.contains_key("method"@)
            &&& !e.contains_key("params"@)
            &&& !e.contains_key("result"@)
        },
    }
}

/// An optional value that is not `null` (a `null` reads back as unset).
pub open spec fn not_null(o: Option<Value>) -> bool {
    o matches Some(v) ==> !value_is_null(v)
}

/// A message that can travel: it speaks JSON-RPC 2.0; a request has an id; a
/// response has a result and no error; optional values are not `null`; it is
/// not `Nil`.
pub open spec fn is_wire_message(m: MessageModel) -> bool {
    match m {
        MessageModel::Request { jsonrpc, id, params, .. } => {
            &&& jsonrpc == version_2_0()
            &&& id is Some
            &&& not_null(params)
        },
        MessageModel::Response { jsonrpc, result, error, .. } => {
            &&& jsonrpc == version_2_0()
            &&& result is Some
            &&& not_null(result)
            &&& error is None
        },
        MessageModel::Notification { jsonrpc, params, .. } => {
            &&& jsonrpc == version_2_0()
            &&& not_null(params)
        },
        MessageModel::Error { jsonrpc, error, .. } => {
            &&& jsonrpc == version_2_0()
            &&& not_null(error.data)
        },
        MessageModel::Nil => false,
    }
}

proof fn lemma_keys_differ()
    ensures
        "jsonrpc"@ != "id"@,
        "jsonrpc"@ != "method"@,
        "jsonrpc"@ != "params"@,
        "jsonrpc"@ != "result"@,
        "jsonrpc"@ != "error"@,
        "id"@ != "method"@,
        "id"@ != "params"@,
        "id"@ != "result"@,
        "id"@ != "error"@,
        "method"@ != "params"@,
        "method"@ != "result"@,
        "method"@ != "error"@,
        "params"@ != "result"@,
        "params"@ != "error"@,
        "result"@ != "error"@,
        "code"@ != "message"@,
        "code"@ != "data"@,
        "message"@ != "data"@,
        "2.0"@ == version_2_0(),
{
    reveal_strlit("jsonrpc");
    reveal_strlit("id");
    reveal_strlit("method");
    reveal_strlit("params");
    reveal_strlit("result");
    reveal_strlit("error");
    reveal_strlit("code");
    reveal_strlit("message");
    reveal_strlit("data");
    reveal_strlit("2.0");
    assert("jsonrpc"@[0] != "id"@[0]);
    assert("jsonrpc"@[0] != "method"@[0]);
    assert("jsonrpc"@[0] != "params"@[0]);
    assert("jsonrpc"@[0] != "result"@[0]);
    assert("jsonrpc"@[0] != "error"@[0]);
    assert("id"@[0] != "method"@[0]);
    assert("id"@[0] != "params"@[0]);
    assert("id"@[0] != "result"@[0]);
    assert("id"@[0] != "error"@[0]);
    assert("method"@[0] != "params"@[0]);
    assert("method"@[0] != "result"@[0]);
    assert("method"@[0] != "error"@[0]);
    assert("params"@[0] != "result"@[0]);
    assert("params"@[0] != "error"@[0]);
    assert("result"@[0] != "error"@[0]);
    assert("code"@[0] != "message"@[0]);
    assert("code"@[0] != "data"@[0]);
    assert("message"@[0] != "data"@[0]);
    assert("2.0"@ =~= version_2_0());
}

/// A message read back from the value that it was written as is the same
/// message, for every message that can travel.
pub proof fn lemma_round_trip(m: MessageModel, v: Value)
    requires
        is_wire_message(m),
        encodes(v, m),
    ensures
        decode_value(v) == Some(m),
{
    lemma_keys_differ();
    if let MessageModel::Error { error, .. } = m {
        let e = value_as_object(v).unwrap();
        assert(read_error_data(e["error"@]) == Some(error));
    }
}

/// Whether two strings are equal.
pub fn str_equals(a: &str, b: &str) -> (r: bool)
    ensures
        r == (a@ == b@),
{
    let n = a.unicode_len();
    if n != b.unicode_len() {
        return false;
    }
    let mut i: usize = 0;
    while i < n
        invariant
            n == a@.len(),
            n == b@.len(),
            i <= n,
            a@.subrange(0, i as int) == b@.subrange(0, i as int),
        decreases n - i,
    {
        if a.get_char(i) != b.get_char(i) {
            return false;
        }
        assert(a@.subrange(0, i + 1) =~= a@.subrange(0, i as int).push(a@[i as int]));
        assert(b@.subrange(0, i + 1) =~= b@.subrange(0, i as int).push(b@[i as int]));
        i = i + 1;
    }
    assert(a@ =~= a@.subrange(0, n as int));
    assert(b@ =~= b@.subrange(0, n as int));
    true
}

/// Takes an optional value out of an object; `null` counts as unset.
fn take_value(obj: &mut JsonObject, k: &str) -> (r: Option<Value>)
    ensures
        r == opt_field(object_entries(*old(obj)), k@),
        object_entries(*final(obj)) == object_entries(*old(obj)).remove(k@),
{
    match object_remove(obj, k) {
        Some(v) => if is_null(&v) {
            None
        } else {
            Some(v)
        },
        None => None,
    }
}

/// Takes an optional string out of an object.
fn take_text(obj: &mut JsonObject, k: &str) -> (r: Option<Option<String>>)
    ensures
        (r is Some) == (read_text(opt_field(object_entries(*old(obj)), k@)) is Some),
        r matches Some(o) ==> read_text(opt_field(object_entries(*old(obj)), k@)) == Some(
            opt_view(o),
        ),
        object_entries(*final(obj)) == object_entries(*old(obj)).remove(k@),
{
    match take_value(obj, k) {
        None => Some(None),
        Some(v) => match as_string(&v) {
            Some(s) => Some(Some(s)),
            None => None,
        },
    }
}

/// Takes an optional id out of an object.
fn take_id(obj: &mut JsonObject, k: &str) -> (r: Option<Option<u64>>)
    ensures
        r == read_id(opt_field(object_entries(*old(obj)), k@)),
        object_entries(*final(obj)) == object_entries(*old(obj)).remove(k@),
{
    match take_value(obj, k) {
        None => Some(None),
        Some(v) => match as_u64(&v) {
            Some(x) => Some(Some(x)),
            None => None,
        },
    }
}

/// Reads an error body out of a value.
fn error_data_from_value(v: Value) -> (r: Option<ErrorData>)
    ensures
        (r is Some) == (read_error_data(v) is Some),
        r matches Some(d) ==> read_error_data(v) == Some(d@),
{
    proof {
        lemma_keys_differ();
    }
    let mut obj = match into_object(v) {
        Some(o) => o,
        None => return None,
    };
    let code = match take_value(&mut obj, "code") {
        Some(c) => match as_i64(&c) {
            Some(x) => if i32::MIN as i64 <= x && x <= i32::MAX as i64 {
                x as i32
            } else {
                return None;
            },
            None => return None,
        },
        None => return None,
    };
    let message = match take_text(&mut obj, "message") {
        Some(Some(s)) => s,
        _ => return None,
    };
    let data = take_value(&mut obj, "data");
    Some(ErrorData { code, message, data })
}

/// Takes an optional error body out of an object.
fn take_error(obj: &mut JsonObject, k: &str) -> (r: Option<Option<ErrorData>>)
    ensures
        (r is Some) == (read_error(opt_field(object_entries(*old(obj)), k@)) is Some),
        r matches Some(o) ==> read_error(opt_field(object_entries(*old(obj)), k@)) == Some(
            opt_error_view(o),
        ),
        object_entries(*final(obj)) == object_entries(*old(obj)).remove(k@),
{
    match take_value(obj, k) {
        None => Some(None),
        Some(v) => match error_data_from_value(v) {
            Some(d) => Some(Some(d)),
            None => None,
        },
    }
}

/// Whether a JSON value is framed as a JSON-RPC 2.0 message: an object whose
/// `jsonrpc` is the string `"2.0"`.
pub open spec fn is_framed(v: Value) -> bool {
    value_as_object(v) matches Some(e) && has_version(e)
}

/// Relies on `serde::de::Error::custom` for `serde_json::Error`: an error that
/// carries the message; nothing is claimed of it.
#[verifier::external_body]
fn json_error(message: &str) -> (r: serde_json::Error)
{
    <serde_json::Error as serde::de::Error>::custom(message)
}

/// The error for a framed value whose fields fit no message.
fn shape_error(message: &str) -> (r: TransportError)
    ensures
        r is Json,
{
    TransportError::Json(json_error(message))
}

/// Reads the message that a JSON value holds (see [`decode_value`]). A value
/// that is no object, or whose `jsonrpc` is not `"2.0"`, is an invalid
/// message; a framed value whose fields have the wrong types or make no kind
/// of message is a JSON error.
pub fn message_from_value(v: Value) -> (r: Result<JsonRpcMessage, TransportError>)
    ensures
        !is_framed(v) ==> (r matches Err(TransportError::InvalidMessage(_))),
        is_framed(v) ==> match decode_value(v) {
            Some(m) => r matches Ok(x) && x@ == m,
            None => r matches Err(TransportError::Json(_)),
        },
{
    proof {
        lemma_keys_differ();
    }
    let mut obj = match into_object(v) {
        Some(o) => o,
        None => {
            return Err(TransportError::InvalidMessage("Message must be a JSON object".to_string()));
        },
    };
    let ghost e = object_entries(obj);
    let version = match object_remove(&mut obj, "jsonrpc") {
        Some(value) => value,
        None => {
            return Err(
                TransportError::InvalidMessage("Missing or invalid jsonrpc version".to_string()),
            );
        },
    };
    let jsonrpc = match as_string(&version) {
        Some(s) => s,
        None => {
            return Err(
                TransportError::InvalidMessage("Missing or invalid jsonrpc version".to_string()),
            );
        },
    };
    if !str_equals(jsonrpc.as_str(), "2.0") {
        return Err(
            TransportError::InvalidMessage("Missing or invalid jsonrpc version".to_string()),
        );
    }
    if is_null(&version) {
        return Err(shape_error("invalid type: null, expected a string"));
    }
    let id = match take_id(&mut obj, "id") {
        Some(id) => id,
        None => {
            return Err(shape_error("invalid id: expected a non-negative integer"));
        },
    };
    let method = match take_text(&mut obj, "method") {
        Some(method) => method,
        None => {
            return Err(shape_error("invalid method: expected a string"));
        },
    };
    let params = take_value(&mut obj, "params");
    let result = take_value(&mut obj, "result");
    let error = match take_error(&mut obj, "error") {
        Some(error) => error,
        None => {
            return Err(shape_error("invalid error: expected an object with a code and a message"));
        },
    };
    let raw = JsonRpcRaw { jsonrpc, id, method, params, result, error };
    assert(read_raw(e) == Some(raw@));
    match JsonRpcMessage::try_from(raw) {
        Ok(m) => Ok(m),
        Err(msg) => Err(shape_error(msg.as_str())),
    }
}

/// Writes an error body as a JSON object.
fn error_data_to_value(d: ErrorData) -> (r: Value)
    ensures
        encodes_error(r, d@),
{
    proof {
        lemma_keys_differ();
    }
    let mut obj = new_object();
    object_insert(&mut obj, "code".to_string(), i64_value(d.code as i64));
    object_insert(&mut obj, "message".to_string(), string_value(d.message));
    if let Some(data) = d.data {
        object_insert(&mut obj, "data".to_string(), data);
    }
    object_value(obj)
}

/// Writes a message as a JSON value (see [`encodes`]).
pub fn message_to_value(m: JsonRpcMessage) -> (r: Value)
    ensures
        encodes(r, m@),
{
    proof {
        lemma_keys_differ();
    }
    match m {
        JsonRpcMessage::Nil => null_value(),
        JsonRpcMessage::Request(q) => {
            let mut obj = new_object();
            object_insert(&mut obj, "jsonrpc".to_string(), string_value(q.jsonrpc));
            if let Some(id) = q.id {
                object_insert(&mut obj, "id".to_string(), u64_value(id));
            }
            object_insert(&mut obj, "method".to_string(), string_value(q.method));
            if let Some(params) = q.params {
                object_insert(&mut obj, "params".to_string(), params);
            }
            object_value(obj)
        },
        JsonRpcMessage::Response(s) => {
            let mut obj = new_object();
            object_insert(&mut obj, "jsonrpc".to_string(), string_value(s.jsonrpc));
            if let Some(id) = s.id {
                object_insert(&mut obj, "id".to_string(), u64_value(id));
            }
            if let Some(result) = s.result {
                object_insert(&mut obj, "result".to_string(), result);
            }
            if let Some(error) = s.error {
                object_insert(&mut obj, "error".to_string(), error_data_to_value(error));
            }
            object_value(obj)
        },
        JsonRpcMessage::Notification(n) => {
            let mut obj = new_object();
            object_insert(&mut obj, "jsonrpc".to_string(), string_value(n.jsonrpc));
            object_insert(&mut obj, "method".to_string(), string_value(n.method));
            if let Some(params) = n.params {
                object_insert(&mut obj, "params".to_string(), params);
            }
            object_value(obj)
        },
        JsonRpcMessage::Error(x) => {
            let mut obj = new_object();
            object_insert(&mut obj, "jsonrpc".to_string(), string_value(x.jsonrpc));
            match x.id {
                Some(id) => object_insert(&mut obj, "id".to_string(), u64_value(id)),
                None => object_insert(&mut obj, "id".to_string(), null_value()),
            };
            object_insert(&mut obj, "error".to_string(), error_data_to_value(x.error));
            object_value(obj)
        },
    }
}

/// Relies on `String::from_utf8`: it succeeds exactly on valid UTF-8, and
/// then holds the characters that the bytes encode.
#[verifier::external_body]
fn utf8_string(bytes: Vec<u8>) -> (r: Result<String, std::string::FromUtf8Error>)
    ensures
        r is Ok <==> valid_utf8(bytes@),
        r matches Ok(s) ==> s@ == decode_utf8(bytes@),
{
    String::from_utf8(bytes)
}

/// Reads the message of one line of input (its newline may stay at its end):
/// the bytes must be UTF-8 and the text JSON; JSON that is no object with
/// `jsonrpc` `"2.0"` is an invalid message, and one whose fields make no
/// message is a JSON error.
pub fn decode_frame(line: Vec<u8>) -> (r: Result<JsonRpcMessage, TransportError>)
    ensures
        !valid_utf8(line@) ==> r matches Err(TransportError::Utf8(_)),
        valid_utf8(line@) ==> match parsed_json(decode_utf8(line@)) {
            None => r matches Err(TransportError::Json(_)),
            Some(v) => if is_framed(v) {
                match decode_value(v) {
                    Some(m) => r matches Ok(x) && x@ == m,
                    None => r matches Err(TransportError::Json(_)),
                }
            } else {
                r matches Err(TransportError::InvalidMessage(_))
            },
        },
{
    let text = match utf8_string(line) {
        Ok(t) => t,
        Err(e) => return Err(TransportError::Utf8(e)),
    };
    match parse_json(text.as_str()) {
        Ok(v) => message_from_value(v),
        Err(e) => Err(TransportError::Json(e)),
    }
}

/// Writes a message as one line: its JSON text and a newline.
pub fn encode_frame(m: JsonRpcMessage) -> (r: String)
    ensures
        exists|v: Value| encodes(v, m@) && r@ == json_text(v).push('\n'),
{
    let v = message_to_value(m);
    let mut line = match write_json(&v) {
        Ok(text) => text,
        Err(_) => String::new(),
    };
    line.append("\n");
    proof {
        reveal_strlit("\n");
        assert(line@ =~= json_text(v).push('\n'));
    }
    line
}

} // verus!
