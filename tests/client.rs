use mcp_core::client::{ClientCapabilities, ClientError, ClientInfo, ClientStep, McpClient};
use mcp_core::framing::{decode_frame, encode_frame};
use mcp_core::prompt::{PromptMessage, PromptMessageContent, PromptMessageRole};
use mcp_core::handler::PromptError;
use mcp_core::protocol::{
    Implementation, JsonRpcMessage, ServerCapabilities, ToolsCapability,
};
use mcp_core::transport::{reply_id, PendingRequests};
use serde_json::Value;

fn json(text: &str) -> Value {
    serde_json::from_str(text).unwrap()
}

fn handshake() -> McpClient {
    let mut client = McpClient::new();
    let request = client.initialize(
        ClientInfo { name: "x".to_string(), version: "1".to_string() },
        ClientCapabilities {},
    );
    let line = encode_frame(JsonRpcMessage::Request(request));
    assert_eq!(
        json(&line),
        json(r#"{"jsonrpc":"2.0","id":1,"method":"initialize","params":{"protocolVersion":"1.0.0","capabilities":{},"clientInfo":{"name":"x","version":"1"}}}"#)
    );
    let reply = decode_frame(
        br#"{"jsonrpc":"2.0","id":1,"result":{"protocolVersion":"1.0.0","capabilities":{"tools":{"listChanged":null}},"serverInfo":{"name":"s","version":"1"}}}"#
            .to_vec(),
    )
    .unwrap();
    let result = McpClient::finish_request(1, reply).unwrap();
    assert_eq!(result["serverInfo"]["name"], "s");
    assert!(result["capabilities"].get("tools").is_some());
    let notification = McpClient::initialized_notification();
    assert_eq!(
        json(&encode_frame(JsonRpcMessage::Notification(notification))),
        json(r#"{"jsonrpc":"2.0","method":"notifications/initialized","params":{}}"#)
    );
    client.complete_initialization(
        ServerCapabilities {
            prompts: None,
            resources: None,
            tools: Some(ToolsCapability { list_changed: None }),
        },
        Implementation { name: "s".to_string(), version: "1".to_string() },
    );
    client
}

#[test]
fn handshake_initializes_the_session() {
    let client = handshake();
    assert!(client.completed_initialization());
    assert_eq!(client.next_id(), 2);
    assert_eq!(client.server_info().map(|i| i.name.clone()), Some("s".to_string()));
}

#[test]
fn unknown_tool_surfaces_rpc_error() {
    let mut client = handshake();
    let request = match client.call_tool("nope", json("{}")) {
        ClientStep::Send(q) => q,
        ClientStep::Done(_) => panic!("expected a request"),
    };
    assert_eq!(request.method, "tools/call");
    assert_eq!(request.id, Some(2));
    assert_eq!(request.params, Some(json(r#"{"name":"nope","arguments":{}}"#)));
    let reply = decode_frame(
        br#"{"jsonrpc":"2.0","id":2,"result":null,"error":{"code":-32600,"message":"Tool nope not found","data":null}}"#
            .to_vec(),
    )
    .unwrap();
    match McpClient::finish_request(2, reply) {
        Err(ClientError::RpcError { code, message }) => {
            assert_eq!(code, -32600);
            assert_eq!(message, "Tool nope not found");
        }
        other => panic!("unexpected outcome: {:?}", other),
    }
}

#[test]
fn out_of_order_replies_reach_their_callers() {
    let mut table: PendingRequests<&str> = PendingRequests::new();
    table.insert(3, "caller three");
    table.insert(4, "caller four");
    let reply4 = decode_frame(br#"{"jsonrpc":"2.0","id":4,"result":{"n":4}}"#.to_vec()).unwrap();
    let reply3 = decode_frame(br#"{"jsonrpc":"2.0","id":3,"result":{"n":3}}"#.to_vec()).unwrap();

    let id = reply_id(&reply4).unwrap();
    assert_eq!(table.respond(id), Some("caller four"));
    assert_eq!(McpClient::finish_request(4, reply4).unwrap(), json(r#"{"n":4}"#));

    let id = reply_id(&reply3).unwrap();
    assert_eq!(table.respond(id), Some("caller three"));
    assert_eq!(McpClient::finish_request(3, reply3).unwrap(), json(r#"{"n":3}"#));

    assert_eq!(table.respond(3), None);
    assert!(!table.contains(4));
}

#[test]
fn reply_with_another_id_is_unexpected() {
    let reply = decode_frame(br#"{"jsonrpc":"2.0","id":5,"result":{}}"#.to_vec()).unwrap();
    assert!(matches!(
        McpClient::finish_request(6, reply),
        Err(ClientError::UnexpectedResponse(_))
    ));
    let reply = decode_frame(br#"{"jsonrpc":"2.0","id":5,"error":{"code":1,"message":"m"}}"#.to_vec()).unwrap();
    assert!(matches!(
        McpClient::finish_request(6, reply),
        Err(ClientError::UnexpectedResponse(_))
    ));
    assert!(matches!(
        McpClient::finish_request(6, JsonRpcMessage::Nil),
        Err(ClientError::UnexpectedResponse(_))
    ));
}

fn reason(outcome: Result<Value, ClientError>) -> String {
    match outcome {
        Err(ClientError::UnexpectedResponse(reason)) => reason,
        other => panic!("expected an unexpected response, got {:?}", other),
    }
}

#[test]
fn unexpected_replies_give_their_reason() {
    let reply = decode_frame(br#"{"jsonrpc":"2.0","id":5,"result":{}}"#.to_vec()).unwrap();
    assert_eq!(reason(McpClient::finish_request(6, reply)), "id mismatch for JsonRpcResponse");
    let reply = decode_frame(br#"{"jsonrpc":"2.0","id":5,"error":{"code":1,"message":"m"}}"#.to_vec()).unwrap();
    assert_eq!(reason(McpClient::finish_request(6, reply)), "id mismatch for JsonRpcError");
    let reply = JsonRpcMessage::Response(mcp_core::protocol::JsonRpcResponse {
        jsonrpc: "2.0".to_string(),
        id: Some(6),
        result: None,
        error: None,
    });
    assert_eq!(reason(McpClient::finish_request(6, reply)), "missing result");
    assert_eq!(reason(McpClient::finish_request(6, JsonRpcMessage::Nil)), "unexpected message type");
}

#[test]
fn capability_gating_sends_nothing() {
    let mut client = handshake();
    match client.list_resources(None) {
        ClientStep::Done(Ok(page)) => {
            assert!(page.resources.is_empty());
            assert_eq!(page.next_cursor, None);
        }
        _ => panic!("expected an empty page"),
    }
    match client.read_resource("x://y") {
        ClientStep::Done(Err(ClientError::RpcError { code, message })) => {
            assert_eq!(code, -32601);
            assert_eq!(message, "Server does not support 'resources' capability");
        }
        _ => panic!("expected a local error"),
    }
    match client.list_prompts(None) {
        ClientStep::Done(Err(ClientError::RpcError { code, message })) => {
            assert_eq!(code, -32601);
            assert_eq!(message, "Server does not support 'prompts' capability");
        }
        _ => panic!("expected a local error"),
    }
    assert!(matches!(client.get_prompt("p", json("{}")), ClientStep::Done(Err(_))));
    assert_eq!(client.next_id(), 2);
    match client.list_tools(Some("c1".to_string())) {
        ClientStep::Send(q) => {
            assert_eq!(q.method, "tools/list");
            assert_eq!(q.params, Some(json(r#"{"cursor":"c1"}"#)));
        }
        _ => panic!("expected a request"),
    }
    assert_eq!(client.next_id(), 3);
}

#[test]
fn nothing_but_initialize_before_initialization() {
    let mut client = McpClient::new();
    assert!(matches!(client.list_tools(None), ClientStep::Done(Err(ClientError::NotInitialized))));
    assert!(matches!(client.list_resources(None), ClientStep::Done(Err(ClientError::NotInitialized))));
    assert!(matches!(client.read_resource("a://b"), ClientStep::Done(Err(ClientError::NotInitialized))));
    assert!(matches!(client.call_tool("t", json("{}")), ClientStep::Done(Err(ClientError::NotInitialized))));
    assert!(matches!(client.list_prompts(None), ClientStep::Done(Err(ClientError::NotInitialized))));
    assert!(matches!(client.get_prompt("p", json("{}")), ClientStep::Done(Err(ClientError::NotInitialized))));
    assert_eq!(client.next_id(), 1);
    assert!(!client.completed_initialization());
}

#[test]
fn transport_close_fans_out() {
    let mut table = PendingRequests::new();
    let mut receivers = Vec::new();
    for id in [5u64, 6, 7] {
        let (tx, rx) = std::sync::mpsc::channel::<JsonRpcMessage>();
        table.insert(id, tx);
        receivers.push(rx);
    }
    table.clear();
    for rx in receivers {
        assert!(rx.recv().is_err());
    }
    for id in [5u64, 6, 7] {
        assert!(!table.contains(id));
    }
}

#[test]
fn call_failure_names_method_and_server() {
    let client = handshake();
    match client.call_failed("tools/list", ClientError::NotReady) {
        ClientError::McpServerError { method, server, source } => {
            assert_eq!(method, "tools/list");
            assert_eq!(server, "s");
            assert!(matches!(*source, ClientError::NotReady));
        }
        _ => panic!("expected a server error"),
    }
    match McpClient::new().call_failed("initialize", ClientError::NotReady) {
        ClientError::McpServerError { server, .. } => assert_eq!(server, ""),
        _ => panic!("expected a server error"),
    }
}

#[test]
fn image_messages_need_base64_and_an_image_type() {
    let ok = PromptMessage::new_image(
        PromptMessageRole::User,
        "aGVsbG8=".to_string(),
        "image/png".to_string(),
        None,
    )
    .unwrap();
    match ok.content {
        PromptMessageContent::Image { image } => {
            assert_eq!(image.data, "aGVsbG8=");
            assert_eq!(image.mime_type, "image/png");
        }
        _ => panic!("expected an image"),
    }
    assert!(matches!(
        PromptMessage::new_image(PromptMessageRole::User, "not base64!".to_string(), "image/png".to_string(), None),
        Err(PromptError::InvalidParameters(_))
    ));
    assert!(matches!(
        PromptMessage::new_image(PromptMessageRole::User, "aGVsbG8=".to_string(), "text/plain".to_string(), None),
        Err(PromptError::InvalidParameters(_))
    ));
    assert!(matches!(
        PromptMessage::new_image(PromptMessageRole::User, "aGVsbG8=".to_string(), "image".to_string(), None),
        Err(PromptError::InvalidParameters(_))
    ));
    assert!(PromptMessage::new_image_checked(
        PromptMessageRole::Assistant,
        "x".to_string(),
        "image/jpeg".to_string(),
        None,
        true
    )
    .is_ok());
    assert!(PromptMessage::new_image_checked(
        PromptMessageRole::Assistant,
        "x".to_string(),
        "image/jpeg".to_string(),
        None,
        false
    )
    .is_err());
}

#[test]
fn resource_message_defaults_to_empty_text() {
    let m = PromptMessage::new_resource(
        PromptMessageRole::User,
        "file:///a".to_string(),
        "text".to_string(),
        None,
        None,
    );
    match m.content {
        PromptMessageContent::Resource { resource } => assert_eq!(resource.get_text(), ""),
        _ => panic!("expected a resource"),
    }
}
