use crate::message::{JsonRpcMessage, JsonRpcNotification};
use crate::pending::PendingRequests;
use vstd::prelude::*;

verus! {

/// The kinds of SSE event that the transport consumes.
#[derive(Debug, Clone, Copy, PartialEq, Eq, Structural)]
pub enum EventKind {
    /// Names the POST endpoint.
    Endpoint,
    /// Carries one JSON-RPC message.
    Message,
    /// Anything else; skipped.
    Other,
}

pub open spec fn endpoint_event_name() -> Seq<char> {
    seq!['e', 'n', 'd', 'p', 'o', 'i', 'n', 't']
}

pub open spec fn message_event_name() -> Seq<char> {
    seq!['m', 'e', 's', 's', 'a', 'g', 'e']
}

fn same_text(a: &str, b: &str) -> (r: bool)
    ensures
        r == (a@ == b@),
{
    a.to_owned() == b.to_owned()
}

pub fn classify_event(event_type: &str) -> (r: EventKind)
    ensures
        r == (if event_type@ == endpoint_event_name() {
            EventKind::Endpoint
        } else if event_type@ == message_event_name() {
            EventKind::Message
        } else {
            EventKind::Other
        }),
{
    proof {
        reveal_strlit("endpoint");
        reveal_strlit("message");
        assert("endpoint"@ =~= endpoint_event_name());
        assert("message"@ =~= message_event_name());
    }
    if same_text(event_type, "endpoint") {
        EventKind::Endpoint
    } else if same_text(event_type, "message") {
        EventKind::Message
    } else {
        EventKind::Other
    }
}

/// Where a message that arrived on the stream goes.
#[derive(Debug)]
pub enum Route {
    /// A reply, to the request waiting under this id.
    Reply(u64, JsonRpcMessage),
    /// A server-pushed notification, to the notification sinks.
    Notify(JsonRpcNotification),
    /// A reply without an id, a request or an empty reply: dropped.
    Drop(JsonRpcMessage),
}

pub open spec fn route_of(msg: JsonRpcMessage) -> Route {
    match msg {
        JsonRpcMessage::Response(q) => match q.id {
            Some(id) => Route::Reply(id, msg),
            None => Route::Drop(msg),
        },
        JsonRpcMessage::Error(e) => match e.id {
            Some(id) => Route::Reply(id, msg),
            None => Route::Drop(msg),
        },
        JsonRpcMessage::Notification(n) => Route::Notify(n),
        _ => Route::Drop(msg),
    }
}

pub fn route_message(msg: JsonRpcMessage) -> (r: Route)
    ensures
        r == route_of(msg),
{
    match msg {
        JsonRpcMessage::Notification(n) => Route::Notify(n),
        _ => match msg.reply_id() {
            Some(id) => Route::Reply(id, msg),
            None => Route::Drop(msg),
        },
    }
}

/// What handling one stream message produced.
pub enum Delivery<S> {
    /// The slot of the waiting request, taken out of the table, and its reply.
    Complete(S, JsonRpcMessage),
    /// A notification for the notification sinks.
    Notify(JsonRpcNotification),
    /// Nothing to deliver.
    Nothing,
}

/// Routes a message: a reply takes the slot of its id out of the table (and
/// only that slot); a notification leaves the table as it was.
pub fn deliver<S>(table: &mut PendingRequests<S>, msg: JsonRpcMessage) -> (r: Delivery<S>)
    ensures
        match route_of(msg) {
            Route::Reply(id, m) => {
                &&& final(table)@ == old(table)@.remove(id)
                &&& old(table)@.contains_key(id) ==> r == Delivery::Complete(old(table)@[id], m)
                &&& !old(table)@.contains_key(id) ==> r == Delivery::<S>::Nothing
            },
            Route::Notify(n) => final(table)@ == old(table)@ && r == Delivery::<S>::Notify(n),
            Route::Drop(_) => final(table)@ == old(table)@ && r == Delivery::<S>::Nothing,
        },
{
    match route_message(msg) {
        Route::Reply(id, m) => match table.respond(id) {
            Some(slot) => Delivery::Complete(slot, m),
            None => Delivery::Nothing,
        },
        Route::Notify(n) => Delivery::Notify(n),
        Route::Drop(_) => Delivery::Nothing,
    }
}

} // verus!
