use mcp_core::errors::TransportError;
use mcp_core::framing::{decode_frame, encode_frame, message_from_value, message_to_value};
use mcp_core::protocol::{
    ErrorData, JsonRpcError, JsonRpcMessage, JsonRpcNotification, JsonRpcRaw, JsonRpcRequest,
    JsonRpcResponse,
};
use serde_json::Value;

fn key_value() -> Value {
    let mut m = serde_json::Map::new();
    m.insert("key".to_string(), Value::String("value".to_string()));
    Value::Object(m)
}

fn json(text: &str) -> Value {
    serde_json::from_str(text).unwrap()
}

#[test]
fn test_notification_conversion() {
    let raw = JsonRpcRaw {
        jsonrpc: "2.0".to_string(),
        id: None,
        method: Some("notify".to_string()),
        params: Some(key_value()),
        result: None,
        error: None,
    };

    let message = JsonRpcMessage::try_from(raw).unwrap();
    match message {
        JsonRpcMessage::Notification(n) => {
            assert_eq!(n.jsonrpc, "2.0");
            assert_eq!(n.method, "notify");
            assert_eq!(n.params.unwrap(), key_value());
        }
        _ => panic!("Expected Notification"),
    }
}

#[test]
fn test_request_conversion() {
    let raw = JsonRpcRaw {
        jsonrpc: "2.0".to_string(),
        id: Some(1),
        method: Some("request".to_string()),
        params: Some(key_value()),
        result: None,
        error: None,
    };

    let message = JsonRpcMessage::try_from(raw).unwrap();
    match message {
        JsonRpcMessage::Request(r) => {
            assert_eq!(r.jsonrpc, "2.0");
            assert_eq!(r.id, Some(1));
            assert_eq!(r.method, "request");
            assert_eq!(r.params.unwrap(), key_value());
        }
        _ => panic!("Expected Request"),
    }
}

fn raw(id: Option<u64>, method: Option<&str>, result: Option<Value>, error: Option<ErrorData>) -> JsonRpcRaw {
    JsonRpcRaw {
        jsonrpc: "2.0".to_string(),
        id,
        method: method.map(String::from),
        params: None,
        result,
        error,
    }
}

#[test]
fn discriminator_follows_field_presence() {
    let err = ErrorData { code: -1, message: "m".to_string(), data: None };
    let m = JsonRpcMessage::try_from(raw(Some(1), Some("x"), Some(Value::Bool(true)), Some(err))).unwrap();
    assert!(matches!(m, JsonRpcMessage::Error(_)));
    let m = JsonRpcMessage::try_from(raw(Some(1), Some("x"), Some(Value::Bool(true)), None)).unwrap();
    assert!(matches!(m, JsonRpcMessage::Response(_)));
    let m = JsonRpcMessage::try_from(raw(None, None, None, None)).unwrap();
    assert_eq!(m, JsonRpcMessage::Nil);
    assert!(JsonRpcMessage::try_from(raw(Some(3), None, None, None)).is_err());
}

fn samples() -> Vec<JsonRpcMessage> {
    vec![
        JsonRpcMessage::Request(JsonRpcRequest {
            jsonrpc: "2.0".to_string(),
            id: Some(7),
            method: "tools/list".to_string(),
            params: Some(key_value()),
        }),
        JsonRpcMessage::Request(JsonRpcRequest {
            jsonrpc: "2.0".to_string(),
            id: Some(0),
            method: "ping".to_string(),
            params: None,
        }),
        JsonRpcMessage::Response(JsonRpcResponse {
            jsonrpc: "2.0".to_string(),
            id: Some(7),
            result: Some(json(r#"{"tools":[]}"#)),
            error: None,
        }),
        JsonRpcMessage::Notification(JsonRpcNotification {
            jsonrpc: "2.0".to_string(),
            method: "notifications/initialized".to_string(),
            params: Some(json("{}")),
        }),
        JsonRpcMessage::Error(JsonRpcError {
            jsonrpc: "2.0".to_string(),
            id: None,
            error: ErrorData { code: -32700, message: "bad".to_string(), data: Some(json("[1]")) },
        }),
        JsonRpcMessage::Error(JsonRpcError {
            jsonrpc: "2.0".to_string(),
            id: Some(u64::MAX),
            error: ErrorData { code: i32::MIN, message: String::new(), data: None },
        }),
    ]
}

#[test]
fn wire_messages_round_trip() {
    for m in samples() {
        let back = message_from_value(message_to_value(m.clone())).unwrap();
        assert_eq!(back, m);
        let line = encode_frame(m.clone());
        assert!(line.ends_with('\n'));
        assert_eq!(line.matches('\n').count(), 1);
        assert_eq!(decode_frame(line.into_bytes()).unwrap(), m);
    }
}

#[test]
fn encoded_request_has_the_wire_fields() {
    let line = encode_frame(samples().remove(0));
    assert_eq!(
        json(&line),
        json(r#"{"jsonrpc":"2.0","id":7,"method":"tools/list","params":{"key":"value"}}"#)
    );
}

#[test]
fn error_reply_without_id_has_null_id() {
    let line = encode_frame(JsonRpcMessage::Error(JsonRpcError {
        jsonrpc: "2.0".to_string(),
        id: None,
        error: ErrorData { code: -32700, message: "bad".to_string(), data: None },
    }));
    assert_eq!(
        json(&line),
        json(r#"{"jsonrpc":"2.0","id":null,"error":{"code":-32700,"message":"bad"}}"#)
    );
}

#[test]
fn nil_is_written_as_null() {
    assert_eq!(encode_frame(JsonRpcMessage::Nil), "null\n");
}

#[test]
fn frames_that_are_no_message_are_rejected() {
    assert!(matches!(decode_frame(b"not json\n".to_vec()), Err(TransportError::Json(_))));
    assert!(matches!(decode_frame(vec![0xff, 0xfe]), Err(TransportError::Utf8(_))));
    assert!(matches!(decode_frame(b"[1,2]".to_vec()), Err(TransportError::InvalidMessage(_))));
    assert!(matches!(
        decode_frame(br#"{"id":1,"method":"x"}"#.to_vec()),
        Err(TransportError::InvalidMessage(_))
    ));
    assert!(matches!(
        decode_frame(br#"{"jsonrpc":"1.0","id":1,"method":"x"}"#.to_vec()),
        Err(TransportError::InvalidMessage(_))
    ));
    assert!(matches!(
        decode_frame(br#"{"jsonrpc":2,"id":1,"method":"x"}"#.to_vec()),
        Err(TransportError::InvalidMessage(_))
    ));
    assert!(matches!(
        decode_frame(br#"{"jsonrpc":"2.0","id":"one","method":"x"}"#.to_vec()),
        Err(TransportError::Json(_))
    ));
    assert!(matches!(
        decode_frame(br#"{"jsonrpc":"2.0","id":4}"#.to_vec()),
        Err(TransportError::Json(_))
    ));
    assert!(matches!(
        decode_frame(br#"{"jsonrpc":"2.0","id":4,"error":{"code":"x","message":"m"}}"#.to_vec()),
        Err(TransportError::Json(_))
    ));
}

#[test]
fn null_fields_read_as_unset() {
    let m = decode_frame(
        br#"{"jsonrpc":"2.0","id":2,"result":null,"error":{"code":-32600,"message":"Tool nope not found","data":null}}"#
            .to_vec(),
    )
    .unwrap();
    assert_eq!(
        m,
        JsonRpcMessage::Error(JsonRpcError {
            jsonrpc: "2.0".to_string(),
            id: Some(2),
            error: ErrorData { code: -32600, message: "Tool nope not found".to_string(), data: None },
        })
    );
    let m = decode_frame(br#"{"jsonrpc":"2.0","method":"n","params":null,"extra":5}"#.to_vec()).unwrap();
    assert_eq!(
        m,
        JsonRpcMessage::Notification(JsonRpcNotification {
            jsonrpc: "2.0".to_string(),
            method: "n".to_string(),
            params: None,
        })
    );
}
