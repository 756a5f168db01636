use crate::error::Error;
use crate::message::{JsonRpcMessage, JsonRpcRequest};
use crate::pending::PendingRequests;
use crate::transport::{ConnectionState, SseTransport};
use vstd::prelude::*;

verus! {

/// The result that a typed call reads from its reply: a response's result;
/// the server's code and message for an error reply; a parsing failure for
/// anything else, a response without a result included.
pub fn expect_result(msg: JsonRpcMessage) -> (r: Result<serde_json::Value, Error>)
    ensures
        match msg {
            JsonRpcMessage::Response(q) => match q.result {
                Some(v) => r == Ok::<serde_json::Value, Error>(v),
                None => (r matches Err(e) && e is InvalidMessage),
            },
            JsonRpcMessage::Error(e) => r == Err::<serde_json::Value, Error>(
                Error::Rpc { code: e.error.code, message: e.error.message },
            ),
            _ => (r matches Err(e) && e is InvalidMessage),
        },
{
    match msg {
        JsonRpcMessage::Response(q) => match q.result {
            Some(v) => Ok(v),
            None => Err(Error::InvalidMessage("response carries no result".to_owned())),
        },
        JsonRpcMessage::Error(e) => Err(Error::Rpc { code: e.error.code, message: e.error.message }),
        _ => Err(Error::InvalidMessage("unexpected response type".to_owned())),
    }
}

/// The send path of a request: it must carry a correlation id, and the
/// transport must be connecting or connected with a discovered endpoint. Then
/// its slot is registered under the id and the endpoint to post to is
/// returned; otherwise the table is left as it was.
pub fn prepare_request<S>(
    transport: &SseTransport,
    table: &mut PendingRequests<S>,
    request: &JsonRpcRequest,
    slot: S,
) -> (r: Result<String, Error>)
    ensures
        request.id is None ==> (r matches Err(e) && e is System) && final(table)@ == old(table)@,
        request.id is Some && (transport.state_spec() == ConnectionState::Disconnected
            || transport.state_spec() == ConnectionState::Closing || transport.state_spec()
            == ConnectionState::Closed) ==> (r matches Err(e) && e is System) && final(table)@
            == old(table)@,
        request.id is Some && (transport.state_spec() == ConnectionState::Connecting
            || transport.state_spec() == ConnectionState::Connected) ==> match transport.endpoint_spec() {
            None => (r matches Err(e) && e is System) && final(table)@ == old(table)@,
            Some(u) => (r matches Ok(e) && e@ == u) && final(table)@ == old(table)@.insert(
                request.id->Some_0,
                slot,
            ),
        },
{
    let id = match request.id {
        Some(id) => id,
        None => {
            return Err(Error::System("outbound request has no correlation id".to_owned()));
        },
    };
    let target = transport.request_target();
    match target {
        Ok(url) => {
            table.insert(id, slot);
            Ok(url)
        },
        Err(e) => Err(e),
    }
}

} // verus!
