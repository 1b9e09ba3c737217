//! The client façade: the typed operations of a client session, with the
//! checks that keep a session from sending what it may not, and the reading
//! of replies. Each operation either finishes at once, without a byte on the
//! wire, or yields the one request to send; the reply to that request is then
//! read by [`McpClient::finish_request`].
use crate::framing::holds_text;
use crate::json::{
    new_object, object_entries, object_insert, object_value, string_value, value_as_object,
    value_as_str,
};
use crate::protocol::{
    version_2_0, Implementation, JsonRpcMessage, JsonRpcNotification, JsonRpcRequest,
    ListPromptsResult, CallToolResult, GetPromptResult, ListResourcesResult, ListToolsResult,
    ReadResourceResult, ServerCapabilities, METHOD_NOT_FOUND,
};
use crate::server::version_string;
use crate::transport::{spec_reply_id, ClientTransportError};
use serde_json::Value;
use vstd::prelude::*;

verus! {

/// The name and version of a client.
#[derive(Debug, Clone, PartialEq)]
pub struct ClientInfo {
    pub name: String,
    pub version: String,
}

/// What a client supports; nothing so far.
#[derive(Debug, Clone, PartialEq, Default)]
pub struct ClientCapabilities {}

/// The parameters of `initialize`.
#[derive(Debug, Clone, PartialEq)]
pub struct InitializeParams {
    pub protocol_version: String,
    pub capabilities: ClientCapabilities,
    pub client_info: ClientInfo,
}

/// What can go wrong in a client operation.
#[derive(Debug)]
pub enum ClientError {
    /// The transport failed.
    Transport(ClientTransportError),
    /// The server answered with an error.
    RpcError { code: i32, message: String },
    /// A result did not have the expected shape.
    Serialization(serde_json::Error),
    /// The server's reply made no sense for the request.
    UnexpectedResponse(String),
    /// The session has not been initialized.
    NotInitialized,
    /// The transport was not ready.
    NotReady,
    /// The reply did not come in time.
    Timeout(tower::timeout::error::Elapsed),
    /// The server failed.
    ServerBoxError(String),
    /// A call to a server failed.
    McpServerError { method: String, server: String, source: Box<ClientError> },
}

/// What a client operation comes to: finished at once, or a request to send.
pub enum ClientStep<T> {
    /// Finished, without anything sent.
    Done(Result<T, ClientError>),
    /// Send this request, and read its reply with [`McpClient::finish_request`].
    Send(JsonRpcRequest),
}

/// The state of a client session: the id of the next request, and what the
/// server said of itself when the session was initialized.
pub struct McpClient {
    next_id: u64,
    server_capabilities: Option<ServerCapabilities>,
    server_info: Option<Implementation>,
}

/// The parameters that ask for a page: the cursor if there is one, else none.
pub open spec fn cursor_params(p: Value, cursor: Option<String>) -> bool {
    value_as_object(p) matches Some(e) && match cursor {
        Some(c) => e == Map::<Seq<char>, Value>::empty().insert("cursor"@, e["cursor"@])
            && value_as_str(e["cursor"@]) == Some(c@),
        None => e == Map::<Seq<char>, Value>::empty(),
    }
}

/// The parameters that name a URI.
pub open spec fn uri_params(p: Value, uri: Seq<char>) -> bool {
    value_as_object(p) matches Some(e) && e == Map::<Seq<char>, Value>::empty().insert(
        "uri"@,
        e["uri"@],
    ) && value_as_str(e["uri"@]) == Some(uri)
}

/// The parameters that name a tool or prompt and carry its arguments.
pub open spec fn call_params(p: Value, name: Seq<char>, arguments: Value) -> bool {
    value_as_object(p) matches Some(e) && e == Map::<Seq<char>, Value>::empty().insert(
        "name"@,
        e["name"@],
    ).insert("arguments"@, arguments) && value_as_str(e["name"@]) == Some(name)
}

/// The parameters of `initialize`: protocol version `1.0.0`, no client
/// capabilities, and the client's name and version.
pub open spec fn initialize_params(p: Value, info: ClientInfo) -> bool {
    &&& value_as_object(p) matches Some(e)
    &&& e.dom() == set!["protocolVersion"@, "capabilities"@, "clientInfo"@]
    &&& holds_text(e, "protocolVersion"@, "1.0.0"@)
    &&& value_as_object(e["capabilities"@]) == Some(Map::<Seq<char>, Value>::empty())
    &&& value_as_object(e["clientInfo"@]) matches Some(c)
    &&& c.dom() == set!["name"@, "version"@]
    &&& holds_text(c, "name"@, info.name@)
    &&& holds_text(c, "version"@, info.version@)
}

/// The request is the one with this id, method and parameters.
pub open spec fn is_request(q: JsonRpcRequest, id: u64, method: Seq<char>) -> bool {
    q.jsonrpc@ == version_2_0() && q.id == Some(id) && q.method@ == method && q.params is Some
}

/// The error that a session reports for a category that the server lacks.
pub open spec fn unsupported(r: ClientError, category: Seq<char>) -> bool {
    r matches ClientError::RpcError { code, message } && code == METHOD_NOT_FOUND && message@
        == "Server does not support '"@ + category + "' capability"@
}

/// The step ends the operation with `NotInitialized`.
pub open spec fn fails_uninitialized<T>(r: ClientStep<T>) -> bool {
    r matches ClientStep::Done(Err(ClientError::NotInitialized))
}

/// The step ends the operation with the error for a missing category.
pub open spec fn fails_unsupported<T>(r: ClientStep<T>, category: Seq<char>) -> bool {
    r matches ClientStep::Done(Err(e)) && unsupported(e, category)
}

/// The step sends the request with this id and method.
pub open spec fn sends<T>(r: ClientStep<T>, id: u64, method: Seq<char>) -> bool {
    r matches ClientStep::Send(q) && is_request(q, id, method)
}

/// The parameters of the request that the step sends.
pub open spec fn sent_params<T>(r: ClientStep<T>) -> Value {
    match r {
        ClientStep::Send(q) => q.params.unwrap(),
        _ => arbitrary(),
    }
}

/// The step ends the operation with an empty page of resources.
pub open spec fn no_resources(r: ClientStep<ListResourcesResult>) -> bool {
    r matches ClientStep::Done(Ok(x)) && x.resources@.len() == 0 && x.next_cursor is None
}

/// The step ends the operation with an empty page of tools.
pub open spec fn no_tools(r: ClientStep<ListToolsResult>) -> bool {
    r matches ClientStep::Done(Ok(x)) && x.tools@.len() == 0 && x.next_cursor is None
}

/// The session after a request: one id used up, nothing else changed.
pub open spec fn advanced(before: McpClient, after: McpClient) -> bool {
    &&& after.spec_next_id() == before.spec_next_id() + 1
    &&& after.spec_capabilities() == before.spec_capabilities()
    &&& after.spec_server_info() == before.spec_server_info()
}

/// The session is initialized, and the server supports resources.
pub open spec fn offers_resources(c: McpClient) -> bool {
    c.spec_capabilities() is Some && c.spec_capabilities().unwrap().resources is Some
}

/// The session is initialized, and the server supports tools.
pub open spec fn offers_tools(c: McpClient) -> bool {
    c.spec_capabilities() is Some && c.spec_capabilities().unwrap().tools is Some
}

/// The session is initialized, and the server supports prompts.
pub open spec fn offers_prompts(c: McpClient) -> bool {
    c.spec_capabilities() is Some && c.spec_capabilities().unwrap().prompts is Some
}

/// The outcome of reading a reply whose id is the request's: an error reply,
/// or a response that carries an error, gives that error; a response with a
/// result gives the result; anything else is unexpected.
pub open spec fn reads_reply(r: Result<Value, ClientError>, reply: JsonRpcMessage) -> bool {
    match reply {
        JsonRpcMessage::Response(s) => match s.error {
            Some(e) => r == Err::<Value, ClientError>(
                ClientError::RpcError { code: e.code, message: e.message },
            ),
            None => match s.result {
                Some(v) => r == Ok::<Value, ClientError>(v),
                None => unexpected(r, "missing result"@),
            },
        },
        JsonRpcMessage::Error(x) => r == Err::<Value, ClientError>(
            ClientError::RpcError { code: x.error.code, message: x.error.message },
        ),
        _ => unexpected(r, "unexpected message type"@),
    }
}

/// The outcome is an unexpected response, for this reason.
pub open spec fn unexpected(r: Result<Value, ClientError>, reason: Seq<char>) -> bool {
    r is Err && (r.unwrap_err() matches ClientError::UnexpectedResponse(m) && m@ == reason)
}

/// What reading the reply to the request with this id comes to: a response
/// or error reply with another id is an id mismatch; a reply with the id is
/// read by [`reads_reply`]; any other message is of an unexpected type.
pub open spec fn settles(id: u64, reply: JsonRpcMessage, r: Result<Value, ClientError>) -> bool {
    match reply {
        JsonRpcMessage::Response(s) => if s.id == Some(id) {
            reads_reply(r, reply)
        } else {
            unexpected(r, "id mismatch for JsonRpcResponse"@)
        },
        JsonRpcMessage::Error(x) => if x.id == Some(id) {
            reads_reply(r, reply)
        } else {
            unexpected(r, "id mismatch for JsonRpcError"@)
        },
        _ => unexpected(r, "unexpected message type"@),
    }
}

/// A reply settles its request with one outcome, never two: every reading of
/// it succeeds or fails alike; a success is the reply's result and an RPC
/// error the reply's code and message, both only for a reply with the
/// request's own id; any other outcome is an unexpected response.
pub proof fn lemma_one_outcome(
    id: u64,
    reply: JsonRpcMessage,
    r1: Result<Value, ClientError>,
    r2: Result<Value, ClientError>,
)
    requires
        settles(id, reply, r1),
        settles(id, reply, r2),
    ensures
        r1 is Ok <==> r2 is Ok,
        r1 is Ok ==> r1 == r2,
        r1 is Err ==> (r1.unwrap_err() is RpcError <==> r2.unwrap_err() is RpcError),
        r1 is Err && r1.unwrap_err() is RpcError ==> r1 == r2,
        r1 is Ok || (r1 is Err && r1.unwrap_err() is RpcError) ==> spec_reply_id(reply) == Some(
            id,
        ),
        r1 is Err && !(r1.unwrap_err() is RpcError) ==> r1.unwrap_err() is UnexpectedResponse,
{
}

impl McpClient {
    /// The id of the next request.
    pub closed spec fn spec_next_id(&self) -> u64 {
        self.next_id
    }

    /// What the server supports, once the session is initialized.
    pub closed spec fn spec_capabilities(&self) -> Option<ServerCapabilities> {
        self.server_capabilities
    }

    /// The server's name and version, once the session is initialized.
    pub closed spec fn spec_server_info(&self) -> Option<Implementation> {
        self.server_info
    }

    /// Whether another request can get a fresh id.
    pub open spec fn has_ids(&self) -> bool {
        self.spec_next_id() < u64::MAX
    }

    /// What the server said of itself is recorded all at once: the
    /// capabilities are known exactly when the server's name and version are.
    pub open spec fn wf(&self) -> bool {
        self.spec_capabilities() is Some <==> self.spec_server_info() is Some
    }

    /// A session that has not been initialized; its first request has id 1.
    pub fn new() -> (r: McpClient)
        ensures
            r.wf(),
            r.spec_next_id() == 1,
            r.spec_capabilities() is None,
            r.spec_server_info() is None,
    {
        McpClient { next_id: 1, server_capabilities: None, server_info: None }
    }

    /// The id that the next request will get.
    pub fn next_id(&self) -> (r: u64)
        ensures
            r == self.spec_next_id(),
    {
        self.next_id
    }

    /// Whether the session has been initialized.
    pub fn completed_initialization(&self) -> (r: bool)
        ensures
            r == self.spec_capabilities() is Some,
    {
        self.server_capabilities.is_some()
    }

    /// What the server supports, once the session is initialized.
    pub fn server_capabilities(&self) -> (r: Option<ServerCapabilities>)
        ensures
            r == self.spec_capabilities(),
    {
        self.server_capabilities
    }

    /// The server's name and version, once the session is initialized.
    pub fn server_info(&self) -> (r: Option<&Implementation>)
        ensures
            r matches Some(i) ==> self.spec_server_info() == Some(*i),
            r is None <==> self.spec_server_info() is None,
    {
        match &self.server_info {
            Some(i) => Some(i),
            None => None,
        }
    }

    /// A request with the next id; the id is used up.
    fn request(&mut self, method: &str, params: Value) -> (r: JsonRpcRequest)
        requires
            old(self).has_ids(),
        ensures
            r.jsonrpc@ == version_2_0(),
            r.id == Some(old(self).spec_next_id()),
            r.method@ == method@,
            r.params == Some(params),
            final(self).spec_next_id() == old(self).spec_next_id() + 1,
            final(self).spec_capabilities() == old(self).spec_capabilities(),
            final(self).spec_server_info() == old(self).spec_server_info(),
    {
        let id = self.next_id;
        self.next_id = self.next_id + 1;
        JsonRpcRequest {
            jsonrpc: version_string(),
            id: Some(id),
            method: method.to_string(),
            params: Some(params),
        }
    }

    /// The `initialize` request, with the client's name and version.
    pub fn initialize(&mut self, info: ClientInfo, capabilities: ClientCapabilities) -> (r:
        JsonRpcRequest)
        requires
            old(self).has_ids(),
        ensures
            is_request(r, old(self).spec_next_id(), "initialize"@),
            initialize_params(r.params.unwrap(), info),
            final(self).spec_next_id() == old(self).spec_next_id() + 1,
            final(self).spec_capabilities() == old(self).spec_capabilities(),
            final(self).spec_server_info() == old(self).spec_server_info(),
    {
        proof {
            reveal_strlit("protocolVersion");
            reveal_strlit("capabilities");
            reveal_strlit("clientInfo");
            reveal_strlit("name");
            reveal_strlit("version");
            assert("protocolVersion"@[0] != "capabilities"@[0]);
            assert("protocolVersion"@[0] != "clientInfo"@[0]);
            assert("capabilities"@[1] != "clientInfo"@[1]);
            assert("name"@[0] != "version"@[0]);
        }
        let mut client_info = new_object();
        object_insert(&mut client_info, "name".to_string(), string_value(info.name));
        object_insert(&mut client_info, "version".to_string(), string_value(info.version));
        let ghost c = object_entries(client_info);
        assert(c.dom() =~= set!["name"@, "version"@]);
        let mut params = new_object();
        object_insert(
            &mut params,
            "protocolVersion".to_string(),
            string_value("1.0.0".to_string()),
        );
        object_insert(&mut params, "capabilities".to_string(), object_value(new_object()));
        object_insert(&mut params, "clientInfo".to_string(), object_value(client_info));
        let ghost e = object_entries(params);
        assert(e.dom() =~= set!["protocolVersion"@, "capabilities"@, "clientInfo"@]);
        self.request("initialize", object_value(params))
    }

    /// A notification of a method, with parameters.
    pub fn notification(method: &str, params: Value) -> (r: JsonRpcNotification)
        ensures
            r.jsonrpc@ == version_2_0(),
            r.method@ == method@,
            r.params == Some(params),
    {
        JsonRpcNotification {
            jsonrpc: version_string(),
            method: method.to_string(),
            params: Some(params),
        }
    }

    /// The notification that tells the server that the session is initialized.
    pub fn initialized_notification() -> (r: JsonRpcNotification)
        ensures
            r.jsonrpc@ == version_2_0(),
            r.method@ == "notifications/initialized"@,
            r.params matches Some(p) && value_as_object(p) == Some(
                Map::<Seq<char>, Value>::empty(),
            ),
    {
        Self::notification("notifications/initialized", object_value(new_object()))
    }

    /// Records what the server said of itself: the session is then initialized.
    pub fn complete_initialization(
        &mut self,
        capabilities: ServerCapabilities,
        server_info: Implementation,
    )
        ensures
            final(self).spec_capabilities() == Some(capabilities),
            final(self).spec_server_info() == Some(server_info),
            final(self).spec_next_id() == old(self).spec_next_id(),
            final(self).wf(),
    {
        self.server_capabilities = Some(capabilities);
        self.server_info = Some(server_info);
    }

    /// The parameters that ask for a page.
    fn cursor_payload(next_cursor: Option<String>) -> (r: Value)
        ensures
            cursor_params(r, next_cursor),
    {
        let mut obj = new_object();
        match next_cursor {
            Some(cursor) => {
                object_insert(&mut obj, "cursor".to_string(), string_value(cursor));
                assert(object_entries(obj) =~= Map::<Seq<char>, Value>::empty().insert(
                    "cursor"@,
                    object_entries(obj)["cursor"@],
                ));
            },
            None => {},
        }
        object_value(obj)
    }

    /// The parameters that name a URI.
    fn uri_payload(uri: &str) -> (r: Value)
        ensures
            uri_params(r, uri@),
    {
        let mut obj = new_object();
        object_insert(&mut obj, "uri".to_string(), string_value(uri.to_string()));
        assert(object_entries(obj) =~= Map::<Seq<char>, Value>::empty().insert(
            "uri"@,
            object_entries(obj)["uri"@],
        ));
        object_value(obj)
    }

    /// The parameters that name a tool or prompt and carry its arguments.
    fn call_payload(name: &str, arguments: Value) -> (r: Value)
        ensures
            call_params(r, name@, arguments),
    {
        proof {
            reveal_strlit("name");
            reveal_strlit("arguments");
            assert("name"@[0] != "arguments"@[0]);
        }
        let mut obj = new_object();
        object_insert(&mut obj, "name".to_string(), string_value(name.to_string()));
        let ghost n = object_entries(obj)["name"@];
        object_insert(&mut obj, "arguments".to_string(), arguments);
        assert(object_entries(obj) =~= Map::<Seq<char>, Value>::empty().insert("name"@, n).insert(
            "arguments"@,
            arguments,
        ));
        object_value(obj)
    }

    /// The error for a category that the server lacks.
    fn unsupported_error(category: &str) -> (r: ClientError)
        ensures
            unsupported(r, category@),
    {
        let mut message = "Server does not support '".to_string();
        message.append(category);
        message.append("' capability");
        ClientError::RpcError { code: METHOD_NOT_FOUND, message }
    }

    /// Lists resources. Before initialization it fails with `NotInitialized`;
    /// if the server has no resources it answers an empty page; either way
    /// nothing is sent. Otherwise it yields `resources/list` with the cursor.
    pub fn list_resources(&mut self, next_cursor: Option<String>) -> (r: ClientStep<
        ListResourcesResult,
    >)
        requires
            old(self).has_ids(),
        ensures
            old(self).spec_capabilities() is None ==> fails_uninitialized(r) && *final(self)
                == *old(self),
            old(self).spec_capabilities() is Some && !offers_resources(*old(self)) ==>
                no_resources(r)
                && *final(self) == *old(self),
            offers_resources(*old(self)) ==> sends(r, old(self).spec_next_id(), "resources/list"@)
                && cursor_params(sent_params(r), next_cursor) && advanced(*old(self), *final(self)),
    {
        match self.server_capabilities {
            None => ClientStep::Done(Err(ClientError::NotInitialized)),
            Some(c) => {
                if c.resources.is_none() {
                    return ClientStep::Done(
                        Ok(ListResourcesResult { resources: Vec::new(), next_cursor: None }),
                    );
                }
                let params = Self::cursor_payload(next_cursor);
                ClientStep::Send(self.request("resources/list", params))
            },
        }
    }

    /// Reads a resource. Before initialization it fails with `NotInitialized`;
    /// if the server has no resources it fails with `METHOD_NOT_FOUND`; either
    /// way nothing is sent. Otherwise it yields `resources/read` with the URI.
    pub fn read_resource(&mut self, uri: &str) -> (r: ClientStep<ReadResourceResult>)
        requires
            old(self).has_ids(),
        ensures
            old(self).spec_capabilities() is None ==> fails_uninitialized(r) && *final(self)
                == *old(self),
            old(self).spec_capabilities() is Some && !offers_resources(*old(self)) ==>
                fails_unsupported(r, "resources"@)
                && *final(self) == *old(self),
            offers_resources(*old(self)) ==> sends(r, old(self).spec_next_id(), "resources/read"@)
                && uri_params(sent_params(r), uri@) && advanced(*old(self), *final(self)),
    {
        match self.server_capabilities {
            None => ClientStep::Done(Err(ClientError::NotInitialized)),
            Some(c) => {
                if c.resources.is_none() {
                    return ClientStep::Done(Err(Self::unsupported_error("resources")));
                }
                let params = Self::uri_payload(uri);
                ClientStep::Send(self.request("resources/read", params))
            },
        }
    }

    /// Lists tools. Before initialization it fails with `NotInitialized`; if
    /// the server has no tools it answers an empty page; either way nothing is
    /// sent. Otherwise it yields `tools/list` with the cursor.
    pub fn list_tools(&mut self, next_cursor: Option<String>) -> (r: ClientStep<ListToolsResult>)
        requires
            old(self).has_ids(),
        ensures
            old(self).spec_capabilities() is None ==> fails_uninitialized(r) && *final(self)
                == *old(self),
            old(self).spec_capabilities() is Some && !offers_tools(*old(self)) ==> no_tools(r)
                && *final(self) == *old(self),
            offers_tools(*old(self)) ==> sends(r, old(self).spec_next_id(), "tools/list"@)
                && cursor_params(sent_params(r), next_cursor) && advanced(*old(self), *final(self)),
    {
        match self.server_capabilities {
            None => ClientStep::Done(Err(ClientError::NotInitialized)),
            Some(c) => {
                if c.tools.is_none() {
                    return ClientStep::Done(
                        Ok(ListToolsResult { tools: Vec::new(), next_cursor: None }),
                    );
                }
                let params = Self::cursor_payload(next_cursor);
                ClientStep::Send(self.request("tools/list", params))
            },
        }
    }

    /// Calls a tool. Before initialization it fails with `NotInitialized`; if
    /// the server has no tools it fails with `METHOD_NOT_FOUND`; either way
    /// nothing is sent. Otherwise it yields `tools/call` with the name and the
    /// arguments.
    pub fn call_tool(&mut self, name: &str, arguments: Value) -> (r: ClientStep<CallToolResult>)
        requires
            old(self).has_ids(),
        ensures
            old(self).spec_capabilities() is None ==> fails_uninitialized(r) && *final(self)
                == *old(self),
            old(self).spec_capabilities() is Some && !offers_tools(*old(self)) ==>
                fails_unsupported(r, "tools"@)
                && *final(self) == *old(self),
            offers_tools(*old(self)) ==> sends(r, old(self).spec_next_id(), "tools/call"@)
                && call_params(sent_params(r), name@, arguments) && advanced(*old(self), *final(self)),
    {
        match self.server_capabilities {
            None => ClientStep::Done(Err(ClientError::NotInitialized)),
            Some(c) => {
                if c.tools.is_none() {
                    return ClientStep::Done(Err(Self::unsupported_error("tools")));
                }
                let params = Self::call_payload(name, arguments);
                ClientStep::Send(self.request("tools/call", params))
            },
        }
    }

    /// Lists prompts. Before initialization it fails with `NotInitialized`; if
    /// the server has no prompts it fails with `METHOD_NOT_FOUND`; either way
    /// nothing is sent. Otherwise it yields `prompts/list` with the cursor.
    pub fn list_prompts(&mut self, next_cursor: Option<String>) -> (r: ClientStep<
        ListPromptsResult,
    >)
        requires
            old(self).has_ids(),
        ensures
            old(self).spec_capabilities() is None ==> fails_uninitialized(r) && *final(self)
                == *old(self),
            old(self).spec_capabilities() is Some && !offers_prompts(*old(self)) ==>
                fails_unsupported(r, "prompts"@)
                && *final(self) == *old(self),
            offers_prompts(*old(self)) ==> sends(r, old(self).spec_next_id(), "prompts/list"@)
                && cursor_params(sent_params(r), next_cursor) && advanced(*old(self), *final(self)),
    {
        match self.server_capabilities {
            None => ClientStep::Done(Err(ClientError::NotInitialized)),
            Some(c) => {
                if c.prompts.is_none() {
                    return ClientStep::Done(Err(Self::unsupported_error("prompts")));
                }
                let params = Self::cursor_payload(next_cursor);
                ClientStep::Send(self.request("prompts/list", params))
            },
        }
    }

    /// Gets a prompt. Before initialization it fails with `NotInitialized`; if
    /// the server has no prompts it fails with `METHOD_NOT_FOUND`; either way
    /// nothing is sent. Otherwise it yields `prompts/get` with the name and
    /// the arguments.
    pub fn get_prompt(&mut self, name: &str, arguments: Value) -> (r: ClientStep<GetPromptResult>)
        requires
            old(self).has_ids(),
        ensures
            old(self).spec_capabilities() is None ==> fails_uninitialized(r) && *final(self)
                == *old(self),
            old(self).spec_capabilities() is Some && !offers_prompts(*old(self)) ==>
                fails_unsupported(r, "prompts"@)
                && *final(self) == *old(self),
            offers_prompts(*old(self)) ==> sends(r, old(self).spec_next_id(), "prompts/get"@)
                && call_params(sent_params(r), name@, arguments) && advanced(*old(self), *final(self)),
    {
        match self.server_capabilities {
            None => ClientStep::Done(Err(ClientError::NotInitialized)),
            Some(c) => {
                if c.prompts.is_none() {
                    return ClientStep::Done(Err(Self::unsupported_error("prompts")));
                }
                let params = Self::call_payload(name, arguments);
                ClientStep::Send(self.request("prompts/get", params))
            },
        }
    }

    /// Reads the reply to the request with this id. A response or error reply
    /// with another id, a response with neither result nor error, and any
    /// other message are unexpected; an error reply, or a response that
    /// carries an error, gives that error; a response with a result gives the
    /// result.
    pub fn finish_request(id: u64, reply: JsonRpcMessage) -> (r: Result<Value, ClientError>)
        ensures
            r is Ok || (r is Err && r.unwrap_err() is RpcError) ==>
                spec_reply_id(reply) == Some(id),
            spec_reply_id(reply) != Some(id) ==> r is Err && r.unwrap_err() is UnexpectedResponse,
            spec_reply_id(reply) == Some(id) ==> reads_reply(r, reply),
            settles(id, reply, r),
    {
        match reply {
            JsonRpcMessage::Response(response) => {
                if response.id != Some(id) {
                    return Err(
                        ClientError::UnexpectedResponse(
                            "id mismatch for JsonRpcResponse".to_string(),
                        ),
                    );
                }
                match response.error {
                    Some(err) => Err(
                        ClientError::RpcError { code: err.code, message: err.message },
                    ),
                    None => match response.result {
                        Some(v) => Ok(v),
                        None => Err(ClientError::UnexpectedResponse("missing result".to_string())),
                    },
                }
            },
            JsonRpcMessage::Error(error) => {
                if error.id != Some(id) {
                    return Err(
                        ClientError::UnexpectedResponse("id mismatch for JsonRpcError".to_string()),
                    );
                }
                Err(ClientError::RpcError { code: error.error.code, message: error.error.message })
            },
            _ => Err(ClientError::UnexpectedResponse("unexpected message type".to_string())),
        }
    }

    /// The error that reports a failed call of a method: it names the method
    /// and the server, if the session knows the server's name.
    pub fn call_failed(&self, method: &str, source: ClientError) -> (r: ClientError)
        ensures
            r matches ClientError::McpServerError { method: m, server, source: s } && m@ == method@
                && *s == source && server@ == match self.spec_server_info() {
                Some(i) => i.name@,
                None => Seq::<char>::empty(),
            },
    {
        let server = match &self.server_info {
            Some(i) => i.name.clone(),
            None => String::new(),
        };
        ClientError::McpServerError {
            method: method.to_string(),
            server,
            source: Box::new(source),
        }
    }
}

impl From<ClientTransportError> for ClientError {
    /// A transport failure, as a client error.
    fn from(e: ClientTransportError) -> (r: ClientError)
        ensures
            r == ClientError::Transport(e),
    {
        ClientError::Transport(e)
    }
}

impl vstd::std_specs::convert::FromSpecImpl<ClientTransportError> for ClientError {
    open spec fn obeys_from_spec() -> bool {
        true
    }

    open spec fn from_spec(e: ClientTransportError) -> ClientError {
        ClientError::Transport(e)
    }
}

} // verus!
