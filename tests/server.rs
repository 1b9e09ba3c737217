use mcp_core::errors::{RouterError, TransportError};
use mcp_core::framing::{decode_frame, encode_frame};
use mcp_core::handler::{PromptError, ResourceError, ToolError};
use mcp_core::protocol::{
    ErrorData, JsonRpcMessage, INTERNAL_ERROR, INVALID_PARAMS, INVALID_REQUEST, METHOD_NOT_FOUND,
    PARSE_ERROR,
};
use mcp_core::server::{route, RouterMethod, Server, ServerStep};
use serde_json::Value;

#[test]
fn error_codes_are_bit_exact() {
    assert_eq!(PARSE_ERROR, -32700);
    assert_eq!(INVALID_REQUEST, -32600);
    assert_eq!(METHOD_NOT_FOUND, -32601);
    assert_eq!(INVALID_PARAMS, -32602);
    assert_eq!(INTERNAL_ERROR, -32603);
}

#[test]
fn parse_error_is_answered_and_reading_goes_on() {
    let step = Server::<()>::step(decode_frame(b"not json\n".to_vec()));
    let reply = match step {
        ServerStep::Reply(m) => m,
        _ => panic!("expected a reply"),
    };
    match &reply {
        JsonRpcMessage::Error(e) => {
            assert_eq!(e.id, None);
            assert_eq!(e.jsonrpc, "2.0");
            assert_eq!(e.error.code, -32700);
            assert!(e.error.message.starts_with("JSON serialization error: "));
        }
        _ => panic!("expected an error reply"),
    }
    let written: Value = serde_json::from_str(&encode_frame(reply)).unwrap();
    assert_eq!(written["jsonrpc"], "2.0");
    assert!(written.get("id").map_or(false, |id| id.is_null()));
    assert_eq!(written["error"]["code"], -32700);

    let next = decode_frame(br#"{"jsonrpc":"2.0","id":9,"method":"tools/list"}"#.to_vec());
    match Server::<()>::step(next) {
        ServerStep::Handle(q) => {
            assert_eq!(q.id, Some(9));
            assert_eq!(q.method, "tools/list");
        }
        _ => panic!("expected the request to be handled"),
    }
}

#[test]
fn transport_errors_map_to_codes() {
    let step = Server::<()>::step(Err(TransportError::Protocol("p".to_string())));
    match step {
        ServerStep::Reply(JsonRpcMessage::Error(e)) => {
            assert_eq!(e.error.code, INVALID_REQUEST);
            assert_eq!(e.error.message, "Protocol error: p");
        }
        _ => panic!("expected an error reply"),
    }
    let step = Server::<()>::step(Err(TransportError::InvalidMessage("bad".to_string())));
    match step {
        ServerStep::Reply(JsonRpcMessage::Error(e)) => {
            assert_eq!(e.error.code, PARSE_ERROR);
            assert_eq!(e.error.message, "Invalid message format: bad");
        }
        _ => panic!("expected an error reply"),
    }
    let io = std::io::Error::new(std::io::ErrorKind::Other, "boom");
    match Server::<()>::step(Err(TransportError::Io(io))) {
        ServerStep::Reply(JsonRpcMessage::Error(e)) => {
            assert_eq!(e.error.code, INTERNAL_ERROR);
            assert_eq!(e.error.message, "IO error: boom");
        }
        _ => panic!("expected an error reply"),
    }
}

#[test]
fn other_messages_need_no_answer() {
    let n = decode_frame(br#"{"jsonrpc":"2.0","method":"notifications/initialized","params":{}}"#.to_vec());
    assert!(matches!(Server::<()>::step(n), ServerStep::Skip));
    let r = decode_frame(br#"{"jsonrpc":"2.0","id":1,"result":{}}"#.to_vec());
    assert!(matches!(Server::<()>::step(r), ServerStep::Skip));
}

#[test]
fn message_without_a_shape_is_a_parse_error() {
    let frame = decode_frame(br#"{"jsonrpc":"2.0","id":3}"#.to_vec());
    assert!(matches!(frame, Err(TransportError::Json(_))));
    match Server::<()>::step(frame) {
        ServerStep::Reply(JsonRpcMessage::Error(e)) => {
            assert_eq!(e.id, None);
            assert_eq!(e.error.code, PARSE_ERROR);
            assert!(e.error.message.starts_with("JSON serialization error: "));
            assert!(e.error.message.len() > "JSON serialization error: ".len());
        }
        _ => panic!("expected an error reply"),
    }
}

#[test]
fn failure_response_keeps_id() {
    let r = Server::<()>::failure_response(Some(4), "oops".to_string());
    assert_eq!(r.jsonrpc, "2.0");
    assert_eq!(r.id, Some(4));
    assert_eq!(r.result, None);
    assert_eq!(
        r.error,
        Some(ErrorData { code: INTERNAL_ERROR, message: "oops".to_string(), data: None })
    );
}

#[test]
fn server_keeps_its_service() {
    let server = Server::new(41u32);
    assert_eq!(server.into_service(), 41);
}

#[test]
fn router_errors_map_to_codes() {
    let cases = vec![
        (RouterError::MethodNotFound("a".to_string()), METHOD_NOT_FOUND),
        (RouterError::InvalidParams("b".to_string()), INVALID_PARAMS),
        (RouterError::Internal("c".to_string()), INTERNAL_ERROR),
        (RouterError::ToolNotFound("d".to_string()), INVALID_REQUEST),
        (RouterError::ResourceNotFound("e".to_string()), INVALID_REQUEST),
        (RouterError::PromptNotFound("f".to_string()), INVALID_REQUEST),
    ];
    for (err, code) in cases {
        let expected_message = match &err {
            RouterError::MethodNotFound(m)
            | RouterError::InvalidParams(m)
            | RouterError::Internal(m)
            | RouterError::ToolNotFound(m)
            | RouterError::ResourceNotFound(m)
            | RouterError::PromptNotFound(m) => m.clone(),
        };
        let data = ErrorData::from(err);
        assert_eq!(data.code, code);
        assert_eq!(data.message, expected_message);
        assert_eq!(data.data, None);
    }
}

#[test]
fn handler_errors_map_to_router_errors() {
    assert_eq!(
        RouterError::from(ResourceError::NotFound("r".to_string())),
        RouterError::ResourceNotFound("r".to_string())
    );
    assert_eq!(
        RouterError::from(ResourceError::ExecutionError("x".to_string())),
        RouterError::Internal("Unknown resource error".to_string())
    );
    assert_eq!(
        RouterError::from_tool_error(ToolError::NotFound("t".to_string())),
        RouterError::ToolNotFound("t".to_string())
    );
    assert_eq!(
        RouterError::from_tool_error(ToolError::InvalidParameters("p".to_string())),
        RouterError::InvalidParams("p".to_string())
    );
    assert_eq!(
        RouterError::from_tool_error(ToolError::SchemaError("s".to_string())),
        RouterError::Internal("s".to_string())
    );
    assert_eq!(
        RouterError::from_prompt_error(PromptError::NotFound("q".to_string())),
        RouterError::PromptNotFound("q".to_string())
    );
    assert_eq!(
        RouterError::from_prompt_error(PromptError::InternalError("i".to_string())),
        RouterError::Internal("i".to_string())
    );
}

#[test]
fn methods_are_routed_by_name() {
    assert_eq!(route("initialize"), Ok(RouterMethod::Initialize));
    assert_eq!(route("tools/list"), Ok(RouterMethod::ListTools));
    assert_eq!(route("tools/call"), Ok(RouterMethod::CallTool));
    assert_eq!(route("resources/list"), Ok(RouterMethod::ListResources));
    assert_eq!(route("resources/read"), Ok(RouterMethod::ReadResource));
    assert_eq!(route("prompts/list"), Ok(RouterMethod::ListPrompts));
    assert_eq!(route("prompts/get"), Ok(RouterMethod::GetPrompt));
    assert_eq!(route("tools/lis"), Err(RouterError::MethodNotFound("tools/lis".to_string())));
}
