//! What every client transport shares: its errors, the rule for what may be
//! sent, and the table that routes each reply to the caller that waits for it.
use crate::framing::str_equals;
use crate::protocol::{JsonRpcMessage, JsonRpcNotification, JsonRpcRequest};
use std::collections::HashMap;
use vstd::prelude::*;

verus! {

broadcast use vstd::std_specs::hash::group_hash_axioms;

/// What can go wrong on a client transport.
#[derive(Debug)]
pub enum ClientTransportError {
    /// Reading or writing failed.
    Io(std::io::Error),
    /// The transport was never connected or is closed.
    NotConnected,
    /// The transport closed while a reply was awaited.
    ChannelClosed,
    /// A message could not be written or read as JSON.
    Serialization(serde_json::Error),
    /// Only requests and notifications can be sent.
    UnsupportedMessage,
    /// The child process failed.
    StdioProcessError(String),
    /// The event stream failed.
    SseConnection(String),
    /// The peer answered a POST with a non-success status.
    HttpError { status: u16, message: String },
}

/// A message on its way out, with what its sender waits for.
pub enum Outbound {
    /// A request: its sender waits for the reply with its id.
    Request(JsonRpcRequest),
    /// A notification: its sender is answered with `Nil` once it is written.
    Notification(JsonRpcNotification),
}

/// Sorts a message for sending: requests and notifications can go out, any
/// other message cannot.
pub fn outbound(message: JsonRpcMessage) -> (r: Result<Outbound, ClientTransportError>)
    ensures
        message matches JsonRpcMessage::Request(q) ==> r matches Ok(Outbound::Request(x)) && x
            == q,
        message matches JsonRpcMessage::Notification(n) ==> r matches Ok(
            Outbound::Notification(x),
        ) && x == n,
        !(message is Request || message is Notification) ==> r matches Err(
            ClientTransportError::UnsupportedMessage,
        ),
{
    match message {
        JsonRpcMessage::Request(request) => Ok(Outbound::Request(request)),
        JsonRpcMessage::Notification(notification) => Ok(Outbound::Notification(notification)),
        _ => Err(ClientTransportError::UnsupportedMessage),
    }
}

/// The id of the caller that an inbound message answers: responses and error
/// replies that carry an id answer one; nothing else does.
pub open spec fn spec_reply_id(m: JsonRpcMessage) -> Option<u64> {
    match m {
        JsonRpcMessage::Response(r) => r.id,
        JsonRpcMessage::Error(e) => e.id,
        _ => None,
    }
}

/// The id of the caller that an inbound message answers (see
/// [`spec_reply_id`]).
pub fn reply_id(m: &JsonRpcMessage) -> (r: Option<u64>)
    ensures
        r == spec_reply_id(*m),
{
    match m {
        JsonRpcMessage::Response(r) => r.id,
        JsonRpcMessage::Error(e) => e.id,
        _ => None,
    }
}

/// The requests in flight: each id maps to the slot through which its caller
/// receives the reply.
pub struct PendingRequests<S> {
    requests: HashMap<u64, S>,
}

impl<S> View for PendingRequests<S> {
    type V = Map<u64, S>;

    closed spec fn view(&self) -> Map<u64, S> {
        self.requests@
    }
}

impl<S> PendingRequests<S> {
    /// An empty table.
    pub fn new() -> (r: Self)
        ensures
            r@ == Map::<u64, S>::empty(),
    {
        Self { requests: HashMap::new() }
    }

    /// Records the slot of the request with this id, just before it is written.
    pub fn insert(&mut self, id: u64, slot: S)
        ensures
            final(self)@ == old(self)@.insert(id, slot),
    {
        self.requests.insert(id, slot);
    }

    /// Takes out the slot of the caller that waits for this id, to hand it
    /// its reply; a reply that nobody waits for finds none.
    pub fn respond(&mut self, id: u64) -> (r: Option<S>)
        ensures
            final(self)@ == old(self)@.remove(id),
            old(self)@.contains_key(id) ==> r == Some(old(self)@[id]),
            !old(self)@.contains_key(id) ==> r is None,
    {
        self.requests.remove(&id)
    }

    /// Whether a caller waits for this id.
    pub fn contains(&self, id: u64) -> (r: bool)
        ensures
            r == self@.contains_key(id),
    {
        self.requests.contains_key(&id)
    }

    /// Drops every slot, when the transport closes: each waiting caller then
    /// learns that the channel closed.
    pub fn clear(&mut self)
        ensures
            final(self)@ == Map::<u64, S>::empty(),
    {
        self.requests.clear();
    }
}

/// The state of a transport: not started, running, or closed.
#[derive(Clone, Copy, Debug, PartialEq, Eq, Structural)]
pub enum TransportState {
    NotStarted,
    Running,
    Closed,
}

impl TransportState {
    /// Starts the transport: only one that has not started can.
    pub fn start(&mut self) -> (r: Result<(), ClientTransportError>)
        ensures
            *old(self) == TransportState::NotStarted ==> r is Ok && *final(self)
                == TransportState::Running,
            *old(self) != TransportState::NotStarted ==> (r matches Err(
                ClientTransportError::NotConnected,
            )) && *final(self) == *old(self),
    {
        match self {
            TransportState::NotStarted => {
                *self = TransportState::Running;
                Ok(())
            },
            _ => Err(ClientTransportError::NotConnected),
        }
    }

    /// Closes the transport, whatever its state; it stays closed.
    pub fn close(&mut self)
        ensures
            *final(self) == TransportState::Closed,
    {
        *self = TransportState::Closed;
    }

    /// Whether a message may be sent: only while the transport runs; else
    /// the sender learns that it is not connected.
    pub fn admit_send(&self) -> (r: Result<(), ClientTransportError>)
        ensures
            *self == TransportState::Running <==> r is Ok,
            r is Err ==> (r matches Err(ClientTransportError::NotConnected)),
    {
        match self {
            TransportState::Running => Ok(()),
            _ => Err(ClientTransportError::NotConnected),
        }
    }
}

/// Whether an HTTP status means success.
pub open spec fn is_success(status: u16) -> bool {
    200 <= status <= 299
}

/// The outcome of posting a message: a success status means delivered; any
/// other is an HTTP error with that status and the response's text.
pub fn post_outcome(status: u16, message: String) -> (r: Result<(), ClientTransportError>)
    ensures
        is_success(status) ==> r is Ok,
        !is_success(status) ==> (r matches Err(ClientTransportError::HttpError { status: s, message: m })
            && s == status && m == message),
{
    if 200 <= status && status <= 299 {
        Ok(())
    } else {
        Err(ClientTransportError::HttpError { status, message })
    }
}

/// What an event of the server's event stream asks of the client.
#[derive(Debug, Clone, PartialEq)]
pub enum SseAction {
    /// Post outbound messages to this endpoint from now on.
    Endpoint(String),
    /// Read this text as an inbound message.
    Deliver(String),
    /// Nothing.
    Ignore,
}

/// The state of an event stream: whether the server has named the endpoint
/// that outbound messages are posted to.
pub struct SseSession {
    endpoint: Option<String>,
}

impl SseSession {
    /// The endpoint, once the server has named it.
    pub closed spec fn spec_endpoint(&self) -> Option<String> {
        self.endpoint
    }

    /// A stream on which no event has come yet.
    pub fn new() -> (r: SseSession)
        ensures
            r.spec_endpoint() is None,
    {
        SseSession { endpoint: None }
    }

    /// The endpoint, once the server has named it.
    pub fn endpoint(&self) -> (r: Option<&String>)
        ensures
            r matches Some(e) ==> self.spec_endpoint() == Some(*e),
            r is None <==> self.spec_endpoint() is None,
    {
        match &self.endpoint {
            Some(e) => Some(e),
            None => None,
        }
    }

    /// Handles an event. The first event must be `endpoint`, whose data is the
    /// endpoint; any other first event breaks the stream. After it, `message`
    /// events carry inbound messages and other events are ignored.
    pub fn on_event(&mut self, event: &str, data: String) -> (r: Result<SseAction, ClientTransportError>)
        ensures
            old(self).spec_endpoint() is None && event@ == "endpoint"@ ==> r == Ok::<
                SseAction,
                ClientTransportError,
            >(SseAction::Endpoint(data)) && final(self).spec_endpoint() == Some(data),
            old(self).spec_endpoint() is None && event@ != "endpoint"@ ==> (r matches Err(
                ClientTransportError::SseConnection(_),
            )) && final(self).spec_endpoint() is None,
            old(self).spec_endpoint() is Some && event@ == "message"@ ==> r == Ok::<
                SseAction,
                ClientTransportError,
            >(SseAction::Deliver(data)) && final(self).spec_endpoint() == old(self).spec_endpoint(),
            old(self).spec_endpoint() is Some && event@ != "message"@ ==> r == Ok::<
                SseAction,
                ClientTransportError,
            >(SseAction::Ignore) && final(self).spec_endpoint() == old(self).spec_endpoint(),
    {
        if self.endpoint.is_none() {
            if str_equals(event, "endpoint") {
                self.endpoint = Some(data.clone());
                return Ok(SseAction::Endpoint(data));
            }
            return Err(
                ClientTransportError::SseConnection(
                    "the first event must name the endpoint".to_string(),
                ),
            );
        }
        if str_equals(event, "message") {
            Ok(SseAction::Deliver(data))
        } else {
            Ok(SseAction::Ignore)
        }
    }
}

/// A request in flight is settled once. Its slot is the one recorded under
/// its id; the reply with that id takes the slot out, after which a second
/// reply with the id finds none, and the other requests keep their slots;
/// closing the table settles every request still in flight.
pub proof fn lemma_request_settled_once<S>(table: Map<u64, S>, id: u64, slot: S)
    ensures
        table.insert(id, slot).contains_key(id),
        table.insert(id, slot)[id] == slot,
        !table.insert(id, slot).remove(id).contains_key(id),
        forall|other: u64|
            other != id ==> #[trigger] table.insert(id, slot).remove(id).contains_key(other)
                == table.contains_key(other),
        forall|other: u64|
            other != id && table.contains_key(other) ==> #[trigger] table.insert(id, slot).remove(
                id,
            )[other] == table[other],
        !Map::<u64, S>::empty().contains_key(id),
{
}

} // verus!
