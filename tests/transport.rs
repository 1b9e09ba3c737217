use mcp_core::content::{Annotations, Priority, Timestamp};
use mcp_core::prompt::{Prompt, PromptMessage, PromptMessageContent, PromptMessageRole};
use mcp_core::protocol::{JsonRpcMessage, JsonRpcNotification, JsonRpcRequest};
use mcp_core::tool::{Tool, ToolCall};
use mcp_core::transport::{
    outbound, post_outcome, ClientTransportError, Outbound, SseAction, SseSession, TransportState,
};
use serde_json::Value;

#[test]
fn only_requests_and_notifications_go_out() {
    let request = JsonRpcRequest {
        jsonrpc: "2.0".to_string(),
        id: Some(1),
        method: "m".to_string(),
        params: None,
    };
    assert!(matches!(outbound(JsonRpcMessage::Request(request)), Ok(Outbound::Request(q)) if q.id == Some(1)));
    let notification = JsonRpcNotification { jsonrpc: "2.0".to_string(), method: "n".to_string(), params: None };
    assert!(matches!(outbound(JsonRpcMessage::Notification(notification)), Ok(Outbound::Notification(_))));
    assert!(matches!(outbound(JsonRpcMessage::Nil), Err(ClientTransportError::UnsupportedMessage)));
}

#[test]
fn closed_transport_refuses_sends() {
    let mut state = TransportState::NotStarted;
    assert!(matches!(state.admit_send(), Err(ClientTransportError::NotConnected)));
    assert!(state.start().is_ok());
    assert!(state.admit_send().is_ok());
    assert!(matches!(state.start(), Err(ClientTransportError::NotConnected)));
    state.close();
    assert_eq!(state, TransportState::Closed);
    assert!(matches!(state.admit_send(), Err(ClientTransportError::NotConnected)));
    assert!(state.start().is_err());
}

#[test]
fn post_status_decides_delivery() {
    assert!(post_outcome(200, String::new()).is_ok());
    assert!(post_outcome(202, String::new()).is_ok());
    assert!(post_outcome(299, String::new()).is_ok());
    match post_outcome(404, "missing".to_string()) {
        Err(ClientTransportError::HttpError { status, message }) => {
            assert_eq!(status, 404);
            assert_eq!(message, "missing");
        }
        _ => panic!("expected an HTTP error"),
    }
    assert!(post_outcome(199, String::new()).is_err());
    assert!(post_outcome(300, String::new()).is_err());
}

#[test]
fn event_stream_names_endpoint_first() {
    let mut session = SseSession::new();
    assert!(session.endpoint().is_none());
    assert_eq!(
        session.on_event("endpoint", "/messages?session=1".to_string()).unwrap(),
        SseAction::Endpoint("/messages?session=1".to_string())
    );
    assert_eq!(session.endpoint().map(|s| s.as_str()), Some("/messages?session=1"));
    assert_eq!(
        session.on_event("message", "{}".to_string()).unwrap(),
        SseAction::Deliver("{}".to_string())
    );
    assert_eq!(session.on_event("ping", String::new()).unwrap(), SseAction::Ignore);

    let mut early = SseSession::new();
    assert!(matches!(
        early.on_event("message", "{}".to_string()),
        Err(ClientTransportError::SseConnection(_))
    ));
    assert!(early.endpoint().is_none());
}

#[test]
fn builders_keep_their_fields() {
    let schema: Value = serde_json::from_str(r#"{"type":"object"}"#).unwrap();
    let tool = Tool::new("add".to_string(), "adds".to_string(), schema.clone());
    assert_eq!(tool.name, "add");
    assert_eq!(tool.description, "adds");
    assert_eq!(tool.input_schema, schema);

    let call = ToolCall::new("add".to_string(), Value::Null);
    assert_eq!(call.name, "add");
    assert_eq!(call.arguments, Value::Null);

    let prompt = Prompt::new("p".to_string(), Some("d".to_string()), None);
    assert_eq!(prompt.name, "p");
    assert_eq!(prompt.description, Some("d".to_string()));
    assert_eq!(prompt.arguments, None);

    let text = PromptMessage::new_text(PromptMessageRole::Assistant, "hi".to_string());
    assert_eq!(text.role, PromptMessageRole::Assistant);
    assert_eq!(text.content, PromptMessageContent::Text { text: "hi".to_string() });

    let a = Annotations::for_resource(Priority::one(), Timestamp { millis: 5 });
    assert_eq!(a.audience, None);
    assert_eq!(a.priority.map(|p| p.millionths()), Some(1_000_000));
    assert_eq!(a.timestamp, Some(Timestamp { millis: 5 }));
}
