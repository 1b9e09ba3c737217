//! JSON-RPC 2.0 messages as they travel between client and server, and the
//! shape-based rule that tells the four kinds of message apart.

use crate::content::Content;
use crate::prompt::{Prompt, PromptMessage};
use crate::resource::{Resource, ResourceContents};
use crate::tool::Tool;
use serde_json::Value;
use vstd::prelude::*;

verus! {

/// Invalid JSON was received.
pub const PARSE_ERROR: i32 = -32700;

/// The JSON sent is not a valid request object, or names an unknown entity.
pub const INVALID_REQUEST: i32 = -32600;

/// The method does not exist or is not available.
pub const METHOD_NOT_FOUND: i32 = -32601;

/// Invalid method parameters.
pub const INVALID_PARAMS: i32 = -32602;

/// Internal JSON-RPC error.
pub const INTERNAL_ERROR: i32 = -32603;

/// The version string that every message carries.
pub open spec fn version_2_0() -> Seq<char> {
    seq!['2', '.', '0']
}

/// The view of an optional string.
pub open spec fn opt_view(o: Option<String>) -> Option<Seq<char>> {
    match o {
        Some(s) => Some(s@),
        None => None,
    }
}

/// Error information for JSON-RPC error replies.
#[derive(Debug, Clone, PartialEq)]
pub struct ErrorData {
    /// The kind of error that occurred.
    pub code: i32,
    /// A short description of the error.
    pub message: String,
    /// Additional information, defined by the sender.
    pub data: Option<Value>,
}

/// The mathematical model of [`ErrorData`].
pub struct ErrorDataModel {
    pub code: i32,
    pub message: Seq<char>,
    pub data: Option<Value>,
}

impl View for ErrorData {
    type V = ErrorDataModel;

    open spec fn view(&self) -> ErrorDataModel {
        ErrorDataModel { code: self.code, message: self.message@, data: self.data }
    }
}

/// A JSON-RPC request.
#[derive(Debug, Clone, PartialEq)]
pub struct JsonRpcRequest {
    pub jsonrpc: String,
    pub id: Option<u64>,
    pub method: String,
    pub params: Option<Value>,
}

/// A JSON-RPC response.
#[derive(Debug, Clone, PartialEq)]
pub struct JsonRpcResponse {
    pub jsonrpc: String,
    pub id: Option<u64>,
    pub result: Option<Value>,
    pub error: Option<ErrorData>,
}

/// A JSON-RPC notification.
#[derive(Debug, Clone, PartialEq)]
pub struct JsonRpcNotification {
    pub jsonrpc: String,
    pub method: String,
    pub params: Option<Value>,
}

/// A JSON-RPC error reply.
#[derive(Debug, Clone, PartialEq)]
pub struct JsonRpcError {
    pub jsonrpc: String,
    pub id: Option<u64>,
    pub error: ErrorData,
}

/// A JSON-RPC message: a request, a response, a notification or an error
/// reply; `Nil` is what a caller gets back for a notification, and never
/// travels.
#[derive(Debug, Clone, PartialEq)]
pub enum JsonRpcMessage {
    Request(JsonRpcRequest),
    Response(JsonRpcResponse),
    Notification(JsonRpcNotification),
    Error(JsonRpcError),
    Nil,
}

/// The mathematical model of [`JsonRpcMessage`].
pub enum MessageModel {
    Request { jsonrpc: Seq<char>, id: Option<u64>, method: Seq<char>, params: Option<Value> },
    Response {
        jsonrpc: Seq<char>,
        id: Option<u64>,
        result: Option<Value>,
        error: Option<ErrorDataModel>,
    },
    Notification { jsonrpc: Seq<char>, method: Seq<char>, params: Option<Value> },
    Error { jsonrpc: Seq<char>, id: Option<u64>, error: ErrorDataModel },
    Nil,
}

pub open spec fn opt_error_view(o: Option<ErrorData>) -> Option<ErrorDataModel> {
    match o {
        Some(e) => Some(e@),
        None => None,
    }
}

impl View for JsonRpcMessage {
    type V = MessageModel;

    open spec fn view(&self) -> MessageModel {
        match self {
            JsonRpcMessage::Request(r) => MessageModel::Request {
                jsonrpc: r.jsonrpc@,
                id: r.id,
                method: r.method@,
                params: r.params,
            },
            JsonRpcMessage::Response(r) => MessageModel::Response {
                jsonrpc: r.jsonrpc@,
                id: r.id,
                result: r.result,
                error: opt_error_view(r.error),
            },
            JsonRpcMessage::Notification(n) => MessageModel::Notification {
                jsonrpc: n.jsonrpc@,
                method: n.method@,
                params: n.params,
            },
            JsonRpcMessage::Error(e) => MessageModel::Error {
                jsonrpc: e.jsonrpc@,
                id: e.id,
                error: e.error@,
            },
            JsonRpcMessage::Nil => MessageModel::Nil,
        }
    }
}

/// A message with every field optional, as read off the wire before its kind
/// is known.
#[derive(Debug, Clone, PartialEq)]
pub struct JsonRpcRaw {
    pub jsonrpc: String,
    pub id: Option<u64>,
    pub method: Option<String>,
    pub params: Option<Value>,
    pub result: Option<Value>,
    pub error: Option<ErrorData>,
}

/// The mathematical model of [`JsonRpcRaw`].
pub struct RawModel {
    pub jsonrpc: Seq<char>,
    pub id: Option<u64>,
    pub method: Option<Seq<char>>,
    pub params: Option<Value>,
    pub result: Option<Value>,
    pub error: Option<ErrorDataModel>,
}

impl View for JsonRpcRaw {
    type V = RawModel;

    open spec fn view(&self) -> RawModel {
        RawModel {
            jsonrpc: self.jsonrpc@,
            id: self.id,
            method: opt_view(self.method),
            params: self.params,
            result: self.result,
            error: opt_error_view(self.error),
        }
    }
}

/// The kind of message that a raw message is, by which fields it has: an
/// error makes an error reply; else a result makes a response; else a method
/// makes a request if there is an id and a notification if not; a message
/// with none of these and no id is `Nil`. Anything else is no message.
pub open spec fn discriminate(raw: RawModel) -> Option<MessageModel> {
    if raw.error is Some {
        Some(MessageModel::Error { jsonrpc: raw.jsonrpc, id: raw.id, error: raw.error.unwrap() })
    } else if raw.result is Some {
        Some(
            MessageModel::Response {
                jsonrpc: raw.jsonrpc,
                id: raw.id,
                result: raw.result,
                error: None,
            },
        )
    } else if raw.method is Some {
        if raw.id is None {
            Some(
                MessageModel::Notification {
                    jsonrpc: raw.jsonrpc,
                    method: raw.method.unwrap(),
                    params: raw.params,
                },
            )
        } else {
            Some(
                MessageModel::Request {
                    jsonrpc: raw.jsonrpc,
                    id: raw.id,
                    method: raw.method.unwrap(),
                    params: raw.params,
                },
            )
        }
    } else if raw.id is None {
        Some(MessageModel::Nil)
    } else {
        None
    }
}

impl JsonRpcMessage {
    /// Tells which kind of message a raw message is (see [`discriminate`]).
    pub fn try_from(raw: JsonRpcRaw) -> (r: Result<JsonRpcMessage, String>)
        ensures
            r is Err <==> discriminate(raw@) is None,
            r matches Ok(m) ==> discriminate(raw@) == Some(m@),
    {
        let JsonRpcRaw { jsonrpc, id, method, params, result, error } = raw;
        if let Some(error) = error {
            return Ok(JsonRpcMessage::Error(JsonRpcError { jsonrpc, id, error }));
        }
        if result.is_some() {
            return Ok(
                JsonRpcMessage::Response(JsonRpcResponse { jsonrpc, id, result, error: None }),
            );
        }
        if let Some(method) = method {
            if id.is_none() {
                return Ok(
                    JsonRpcMessage::Notification(JsonRpcNotification { jsonrpc, method, params }),
                );
            }
            return Ok(JsonRpcMessage::Request(JsonRpcRequest { jsonrpc, id, method, params }));
        }
        if id.is_none() {
            return Ok(JsonRpcMessage::Nil);
        }
        Err("Invalid JSON-RPC message format: an id without a method, a result or an error".to_string())
    }
}

/// What a server answers to `initialize`.
#[derive(Debug, Clone, PartialEq)]
pub struct InitializeResult {
    pub protocol_version: String,
    pub capabilities: ServerCapabilities,
    pub server_info: Implementation,
    pub instructions: Option<String>,
}

/// The name and version of an implementation.
#[derive(Debug, Clone, PartialEq)]
pub struct Implementation {
    pub name: String,
    pub version: String,
}

/// What a server supports: a category is supported when its entry is set.
#[derive(Clone, Copy, Debug, PartialEq, Eq, Structural)]
pub struct ServerCapabilities {
    pub prompts: Option<PromptsCapability>,
    pub resources: Option<ResourcesCapability>,
    pub tools: Option<ToolsCapability>,
}

/// The server offers prompts.
#[derive(Clone, Copy, Debug, PartialEq, Eq, Structural)]
pub struct PromptsCapability {
    pub list_changed: Option<bool>,
}

/// The server offers resources.
#[derive(Clone, Copy, Debug, PartialEq, Eq, Structural)]
pub struct ResourcesCapability {
    pub subscribe: Option<bool>,
    pub list_changed: Option<bool>,
}

/// The server offers tools.
#[derive(Clone, Copy, Debug, PartialEq, Eq, Structural)]
pub struct ToolsCapability {
    pub list_changed: Option<bool>,
}

/// A page of resources.
#[derive(Debug, Clone, PartialEq)]
pub struct ListResourcesResult {
    pub resources: Vec<Resource>,
    pub next_cursor: Option<String>,
}

/// The contents of a resource that was read.
#[derive(Debug, Clone, PartialEq)]
pub struct ReadResourceResult {
    pub contents: Vec<ResourceContents>,
}

/// A page of tools.
#[derive(Debug, Clone, PartialEq)]
pub struct ListToolsResult {
    pub tools: Vec<Tool>,
    pub next_cursor: Option<String>,
}

/// What a tool call produced.
#[derive(Debug)]
pub struct CallToolResult {
    pub content: Vec<Content>,
    pub is_error: Option<bool>,
}

/// The prompts of a server.
#[derive(Debug, Clone, PartialEq)]
pub struct ListPromptsResult {
    pub prompts: Vec<Prompt>,
}

/// A prompt, made into messages.
#[derive(Debug, Clone, PartialEq)]
pub struct GetPromptResult {
    pub description: Option<String>,
    pub messages: Vec<PromptMessage>,
}

/// A result with nothing in it.
#[derive(Debug)]
pub struct EmptyResult {}

} // verus!
