//! Client-side transport core for JSON-RPC tool invocation over an SSE channel:
//! the message model, the pending-request table, the connection state machine,
//! the reconnect driver and the routing of stream events.

pub mod capabilities;
pub mod client;
pub mod config;
pub mod error;
pub mod events;
pub mod message;
pub mod pending;
pub mod protocol;
pub mod role;
pub mod router;
pub mod transport;
