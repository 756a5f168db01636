use vstd::prelude::*;

verus! {

/// Failures that the transport reports to its callers.
#[derive(Debug, Clone, PartialEq, Eq)]
pub enum Error {
    /// A wire payload that is not a well-formed JSON-RPC message.
    InvalidMessage(String),
    /// An operation attempted in a state that does not allow it: sending while
    /// not connected, or before the endpoint is known.
    System(String),
    /// Endpoint discovery or a shutdown wait exceeded its bound.
    Timeout(String),
    /// A pending request's completion slot was dropped before a reply came.
    ChannelClosed,
    /// The server answered with a JSON-RPC error object.
    Rpc { code: i32, message: String },
}

} // verus!
