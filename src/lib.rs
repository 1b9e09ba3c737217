//! Core of a Model Context Protocol implementation: the JSON-RPC wire model
//! and its framing, the domain types exchanged by clients and servers, the
//! pending-request table, and the decisions of the client and server loops.
pub mod client;
pub mod content;
pub mod errors;
pub mod framing;
pub mod handler;
pub mod json;
pub mod prompt;
pub mod protocol;
pub mod resource;
pub mod role;
pub mod server;
pub mod tool;
pub mod transport;
