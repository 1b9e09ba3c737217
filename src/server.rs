//! The decisions of the server loop: what to do with each frame read from
//! the transport, and which reply reports a failure.
use crate::errors::{RouterError, TransportError};
use crate::framing::str_equals;
use crate::protocol::{
    version_2_0, ErrorData, JsonRpcError, JsonRpcMessage, JsonRpcRequest, JsonRpcResponse,
    INTERNAL_ERROR, INVALID_REQUEST, PARSE_ERROR,
};
use vstd::prelude::*;
use vstd::string::*;
use vstd::string::to_string_from_display_ensures;

verus! {

/// The prefix of the text that describes a transport error.
pub open spec fn transport_error_prefix(e: TransportError) -> Seq<char> {
    match e {
        TransportError::Io(_) => "IO error: "@,
        TransportError::Json(_) => "JSON serialization error: "@,
        TransportError::Utf8(_) => "Invalid UTF-8 sequence: "@,
        TransportError::Protocol(_) => "Protocol error: "@,
        TransportError::InvalidMessage(_) => "Invalid message format: "@,
    }
}

/// The JSON-RPC error code that reports a transport error to the peer: a
/// frame that is no message is a parse error, a protocol breach an invalid
/// request, anything else an internal error.
pub open spec fn transport_error_code(e: TransportError) -> i32 {
    match e {
        TransportError::Json(_) | TransportError::InvalidMessage(_) => PARSE_ERROR,
        TransportError::Protocol(_) => INVALID_REQUEST,
        _ => INTERNAL_ERROR,
    }
}

/// The text that describes a transport error: the prefix of its kind, then
/// its details, which for the errors of I/O, JSON and UTF-8 are what their
/// `Display` writes.
pub open spec fn describes(e: TransportError, text: Seq<char>) -> bool {
    match e {
        TransportError::Io(x) => exists|d: String|
            to_string_from_display_ensures::<std::io::Error>(&x, d) && text
                == transport_error_prefix(e) + d@,
        TransportError::Json(x) => exists|d: String|
            to_string_from_display_ensures::<serde_json::Error>(&x, d) && text
                == transport_error_prefix(e) + d@,
        TransportError::Utf8(x) => exists|d: String|
            to_string_from_display_ensures::<std::string::FromUtf8Error>(&x, d) && text
                == transport_error_prefix(e) + d@,
        TransportError::Protocol(m) => text == transport_error_prefix(e) + m@,
        TransportError::InvalidMessage(m) => text == transport_error_prefix(e) + m@,
    }
}

/// A prefix followed by details.
fn prefixed(prefix: &str, details: &str) -> (r: String)
    ensures
        r@ == prefix@ + details@,
{
    let mut text = prefix.to_string();
    text.append(details);
    text
}

impl TransportError {
    /// Describes the error: a prefix that names its kind, then the details
    /// (see [`describes`]).
    pub fn to_string(&self) -> (r: String)
        ensures
            describes(*self, r@),
            r@.len() >= transport_error_prefix(*self).len(),
            r@.subrange(0, transport_error_prefix(*self).len() as int) == transport_error_prefix(
                *self,
            ),
    {
        proof {
            reveal_strlit("IO error: ");
            reveal_strlit("JSON serialization error: ");
            reveal_strlit("Invalid UTF-8 sequence: ");
            reveal_strlit("Protocol error: ");
            reveal_strlit("Invalid message format: ");
        }
        let r = match self {
            TransportError::Io(e) => {
                let d = e.to_string();
                let r = prefixed("IO error: ", d.as_str());
                assert(to_string_from_display_ensures::<std::io::Error>(e, d));
                r
            },
            TransportError::Json(e) => {
                let d = e.to_string();
                let r = prefixed("JSON serialization error: ", d.as_str());
                assert(to_string_from_display_ensures::<serde_json::Error>(e, d));
                r
            },
            TransportError::Utf8(e) => {
                let d = e.to_string();
                let r = prefixed("Invalid UTF-8 sequence: ", d.as_str());
                assert(to_string_from_display_ensures::<std::string::FromUtf8Error>(e, d));
                r
            },
            TransportError::Protocol(m) => prefixed("Protocol error: ", m.as_str()),
            TransportError::InvalidMessage(m) => prefixed("Invalid message format: ", m.as_str()),
        };
        assert(r@.subrange(0, transport_error_prefix(*self).len() as int)
            =~= transport_error_prefix(*self));
        r
    }
}

/// What the server does with one frame read from the transport.
pub enum ServerStep {
    /// Hand the request to the service, and write back what it answers.
    Handle(JsonRpcRequest),
    /// Write this message back.
    Reply(JsonRpcMessage),
    /// Nothing: the frame needs no answer.
    Skip,
}

/// A server: it reads requests from a transport, hands each to its service,
/// and writes back the answers.
pub struct Server<S> {
    service: S,
}

impl<S> Server<S> {
    /// The service that answers requests.
    pub closed spec fn spec_service(&self) -> S {
        self.service
    }

    /// A server around a service.
    pub fn new(service: S) -> (r: Self)
        ensures
            r.spec_service() == service,
    {
        Self { service }
    }

    /// The service that answers requests.
    pub fn into_service(self) -> (r: S)
        ensures
            r == self.spec_service(),
    {
        self.service
    }

    /// What to do with a frame: a request goes to the service; other messages
    /// need no answer; a frame that could not be read is answered with an
    /// error reply without id, whose message describes the error.
    pub fn step(frame: Result<JsonRpcMessage, TransportError>) -> (r: ServerStep)
        ensures
            frame matches Ok(JsonRpcMessage::Request(q)) ==> r == ServerStep::Handle(q),
            frame matches Ok(m) && !(m is Request) ==> r is Skip,
            frame matches Err(e) ==> r matches ServerStep::Reply(JsonRpcMessage::Error(x)) && x.id
                is None && x.jsonrpc@ == version_2_0() && x.error.code == transport_error_code(e)
                && x.error.data is None && describes(e, x.error.message@),
    {
        match frame {
            Ok(JsonRpcMessage::Request(request)) => ServerStep::Handle(request),
            Ok(_) => ServerStep::Skip,
            Err(e) => {
                let code = match &e {
                    TransportError::Json(_) | TransportError::InvalidMessage(_) => PARSE_ERROR,
                    TransportError::Protocol(_) => INVALID_REQUEST,
                    _ => INTERNAL_ERROR,
                };
                let message = e.to_string();
                ServerStep::Reply(
                    JsonRpcMessage::Error(
                        JsonRpcError {
                            jsonrpc: version_string(),
                            id: None,
                            error: ErrorData { code, message, data: None },
                        },
                    ),
                )
            },
        }
    }

    /// The response that reports the service's failure on a request: it keeps
    /// the request's id and carries an internal error with the failure's text.
    pub fn failure_response(id: Option<u64>, message: String) -> (r: JsonRpcResponse)
        ensures
            r.jsonrpc@ == version_2_0(),
            r.id == id,
            r.result is None,
            r.error matches Some(d) && d.code == INTERNAL_ERROR && d.message == message
                && d.data is None,
    {
        JsonRpcResponse {
            jsonrpc: version_string(),
            id,
            result: None,
            error: Some(ErrorData { code: INTERNAL_ERROR, message, data: None }),
        }
    }
}

/// The version string `"2.0"`.
pub fn version_string() -> (r: String)
    ensures
        r@ == version_2_0(),
{
    let r = "2.0".to_string();
    proof {
        reveal_strlit("2.0");
        assert(r@ =~= version_2_0());
    }
    r
}

/// The methods that a router answers.
#[derive(Clone, Copy, Debug, PartialEq, Eq, Structural)]
pub enum RouterMethod {
    Initialize,
    ListTools,
    CallTool,
    ListResources,
    ReadResource,
    ListPrompts,
    GetPrompt,
}

/// The method that a name stands for, if a router answers it.
pub open spec fn method_named(name: Seq<char>) -> Option<RouterMethod> {
    if name == "initialize"@ {
        Some(RouterMethod::Initialize)
    } else if name == "tools/list"@ {
        Some(RouterMethod::ListTools)
    } else if name == "tools/call"@ {
        Some(RouterMethod::CallTool)
    } else if name == "resources/list"@ {
        Some(RouterMethod::ListResources)
    } else if name == "resources/read"@ {
        Some(RouterMethod::ReadResource)
    } else if name == "prompts/list"@ {
        Some(RouterMethod::ListPrompts)
    } else if name == "prompts/get"@ {
        Some(RouterMethod::GetPrompt)
    } else {
        None
    }
}

/// Routes a request's method: a method that the router answers, or
/// `MethodNotFound` with the method's name.
pub fn route(method: &str) -> (r: Result<RouterMethod, RouterError>)
    ensures
        method_named(method@) matches Some(m) ==> r == Ok::<RouterMethod, RouterError>(m),
        method_named(method@) is None ==> (r matches Err(RouterError::MethodNotFound(n)) && n@
            == method@),
{
    if str_equals(method, "initialize") {
        Ok(RouterMethod::Initialize)
    } else if str_equals(method, "tools/list") {
        Ok(RouterMethod::ListTools)
    } else if str_equals(method, "tools/call") {
        Ok(RouterMethod::CallTool)
    } else if str_equals(method, "resources/list") {
        Ok(RouterMethod::ListResources)
    } else if str_equals(method, "resources/read") {
        Ok(RouterMethod::ReadResource)
    } else if str_equals(method, "prompts/list") {
        Ok(RouterMethod::ListPrompts)
    } else if str_equals(method, "prompts/get") {
        Ok(RouterMethod::GetPrompt)
    } else {
        Err(RouterError::MethodNotFound(method.to_string()))
    }
}

} // verus!
