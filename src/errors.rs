//! Errors of the server side: of the byte transport, of the server loop, and
//! of routing a request to a handler.
use crate::handler::{PromptError, ResourceError, ToolError};
use crate::protocol::{
    ErrorData, INTERNAL_ERROR, INVALID_PARAMS, INVALID_REQUEST, METHOD_NOT_FOUND,
};
use vstd::prelude::*;

verus! {

/// `std::io::Error`, carried as the cause of a failure.
#[verifier::external_type_specification]
#[verifier::external_body]
pub struct ExIoError(std::io::Error);

/// `std::string::FromUtf8Error`, carried as the cause of a failure.
#[verifier::external_type_specification]
#[verifier::external_body]
pub struct ExFromUtf8Error(std::string::FromUtf8Error);

/// `tower::timeout::error::Elapsed`, carried as the cause of a timeout.
#[verifier::external_type_specification]
#[verifier::external_body]
pub struct ExElapsed(tower::timeout::error::Elapsed);

/// What can go wrong while reading or writing framed messages.
#[derive(Debug)]
pub enum TransportError {
    /// Reading or writing the byte stream failed.
    Io(std::io::Error),
    /// A frame is not JSON.
    Json(serde_json::Error),
    /// A frame is not UTF-8.
    Utf8(std::string::FromUtf8Error),
    /// The peer broke the protocol.
    Protocol(String),
    /// A frame is JSON but no JSON-RPC message.
    InvalidMessage(String),
}

/// What can stop the server.
#[derive(Debug)]
pub enum ServerError {
    /// The transport failed.
    Transport(TransportError),
    /// The service failed.
    Service(String),
    /// Something went wrong inside the server.
    Internal(String),
    /// A request took too long.
    Timeout(tower::timeout::error::Elapsed),
}

/// What can go wrong while routing a request to a handler.
#[derive(Debug, Clone, PartialEq)]
pub enum RouterError {
    MethodNotFound(String),
    InvalidParams(String),
    Internal(String),
    ToolNotFound(String),
    ResourceNotFound(String),
    PromptNotFound(String),
}

/// The JSON-RPC error code of a routing error: an unknown method is
/// `METHOD_NOT_FOUND`, bad arguments `INVALID_PARAMS`, an unknown tool,
/// resource or prompt `INVALID_REQUEST`, anything else `INTERNAL_ERROR`.
pub open spec fn router_error_code(e: RouterError) -> i32 {
    match e {
        RouterError::MethodNotFound(_) => METHOD_NOT_FOUND,
        RouterError::InvalidParams(_) => INVALID_PARAMS,
        RouterError::Internal(_) => INTERNAL_ERROR,
        RouterError::ToolNotFound(_) => INVALID_REQUEST,
        RouterError::ResourceNotFound(_) => INVALID_REQUEST,
        RouterError::PromptNotFound(_) => INVALID_REQUEST,
    }
}

/// The message that a routing error carries.
pub open spec fn router_error_message(e: RouterError) -> String {
    match e {
        RouterError::MethodNotFound(m) => m,
        RouterError::InvalidParams(m) => m,
        RouterError::Internal(m) => m,
        RouterError::ToolNotFound(m) => m,
        RouterError::ResourceNotFound(m) => m,
        RouterError::PromptNotFound(m) => m,
    }
}

impl From<RouterError> for ErrorData {
    /// The error body that reports a routing error to the peer.
    fn from(err: RouterError) -> (r: ErrorData)
        ensures
            r.code == router_error_code(err),
            r.message == router_error_message(err),
            r.data is None,
    {
        match err {
            RouterError::MethodNotFound(msg) => ErrorData {
                code: METHOD_NOT_FOUND,
                message: msg,
                data: None,
            },
            RouterError::InvalidParams(msg) => ErrorData {
                code: INVALID_PARAMS,
                message: msg,
                data: None,
            },
            RouterError::Internal(msg) => ErrorData {
                code: INTERNAL_ERROR,
                message: msg,
                data: None,
            },
            RouterError::ToolNotFound(msg) => ErrorData {
                code: INVALID_REQUEST,
                message: msg,
                data: None,
            },
            RouterError::ResourceNotFound(msg) => ErrorData {
                code: INVALID_REQUEST,
                message: msg,
                data: None,
            },
            RouterError::PromptNotFound(msg) => ErrorData {
                code: INVALID_REQUEST,
                message: msg,
                data: None,
            },
        }
    }
}

impl vstd::std_specs::convert::FromSpecImpl<RouterError> for ErrorData {
    open spec fn obeys_from_spec() -> bool {
        true
    }

    open spec fn from_spec(err: RouterError) -> ErrorData {
        ErrorData { code: router_error_code(err), message: router_error_message(err), data: None }
    }
}

impl RouterError {
    /// The routing error that reports a resource handler's failure: an unknown
    /// resource stays one; any other failure becomes an internal error.
    pub fn from(err: ResourceError) -> (r: RouterError)
        ensures
            err matches ResourceError::NotFound(m) ==> r == RouterError::ResourceNotFound(m),
            err is ExecutionError ==> (r matches RouterError::Internal(m) && m@
                == "Unknown resource error"@),
    {
        match err {
            ResourceError::NotFound(msg) => RouterError::ResourceNotFound(msg),
            ResourceError::ExecutionError(_) => RouterError::Internal(
                "Unknown resource error".to_string(),
            ),
        }
    }
}

/// The routing error that reports a tool handler's failure: an unknown tool
/// stays one, bad arguments stay bad arguments, anything else is internal.
pub open spec fn router_error_of_tool(err: ToolError) -> RouterError {
    match err {
        ToolError::InvalidParameters(m) => RouterError::InvalidParams(m),
        ToolError::ExecutionError(m) => RouterError::Internal(m),
        ToolError::SchemaError(m) => RouterError::Internal(m),
        ToolError::NotFound(m) => RouterError::ToolNotFound(m),
    }
}

/// The routing error that reports a prompt handler's failure: an unknown
/// prompt stays one, bad arguments stay bad arguments, anything else is
/// internal.
pub open spec fn router_error_of_prompt(err: PromptError) -> RouterError {
    match err {
        PromptError::InvalidParameters(m) => RouterError::InvalidParams(m),
        PromptError::InternalError(m) => RouterError::Internal(m),
        PromptError::NotFound(m) => RouterError::PromptNotFound(m),
    }
}

impl RouterError {
    /// The routing error that reports a tool handler's failure (see
    /// [`router_error_of_tool`]).
    pub fn from_tool_error(err: ToolError) -> (r: RouterError)
        ensures
            r == router_error_of_tool(err),
    {
        match err {
            ToolError::InvalidParameters(m) => RouterError::InvalidParams(m),
            ToolError::ExecutionError(m) => RouterError::Internal(m),
            ToolError::SchemaError(m) => RouterError::Internal(m),
            ToolError::NotFound(m) => RouterError::ToolNotFound(m),
        }
    }

    /// The routing error that reports a prompt handler's failure (see
    /// [`router_error_of_prompt`]).
    pub fn from_prompt_error(err: PromptError) -> (r: RouterError)
        ensures
            r == router_error_of_prompt(err),
    {
        match err {
            PromptError::InvalidParameters(m) => RouterError::InvalidParams(m),
            PromptError::InternalError(m) => RouterError::Internal(m),
            PromptError::NotFound(m) => RouterError::PromptNotFound(m),
        }
    }
}

} // verus!
