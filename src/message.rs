use crate::error::Error;
use vstd::prelude::*;

verus! {

/// A JSON value carried through the message model without being inspected.
#[verifier::external_type_specification]
#[verifier::external_body]
pub struct ExValue(serde_json::Value);

/// The protocol version that every message carries in its `jsonrpc` field.
pub open spec fn jsonrpc_version() -> Seq<char> {
    seq!['2', '.', '0']
}

fn version_string() -> (r: String)
    ensures
        r@ == jsonrpc_version(),
{
    proof {
        reveal_strlit("2.0");
    }
    "2.0".to_owned()
}

/// Error information carried by a JSON-RPC error reply.
#[derive(Debug, Clone, PartialEq)]
pub struct ErrorData {
    pub code: i32,
    pub message: String,
    pub data: Option<serde_json::Value>,
}

#[derive(Debug, Clone, PartialEq)]
pub struct JsonRpcRequest {
    pub jsonrpc: String,
    pub id: Option<u64>,
    pub method: String,
    pub params: Option<serde_json::Value>,
}

#[derive(Debug, Clone, PartialEq)]
pub struct JsonRpcResponse {
    pub jsonrpc: String,
    pub id: Option<u64>,
    pub result: Option<serde_json::Value>,
    pub error: Option<ErrorData>,
}

#[derive(Debug, Clone, PartialEq)]
pub struct JsonRpcNotification {
    pub jsonrpc: String,
    pub method: String,
    pub params: Option<serde_json::Value>,
}

#[derive(Debug, Clone, PartialEq)]
pub struct JsonRpcError {
    pub jsonrpc: String,
    pub id: Option<u64>,
    pub error: ErrorData,
}

/// One JSON-RPC message; which variant it is follows from the fields present.
#[derive(Debug, Clone, PartialEq)]
pub enum JsonRpcMessage {
    Request(JsonRpcRequest),
    Response(JsonRpcResponse),
    Notification(JsonRpcNotification),
    Error(JsonRpcError),
    /// The empty reply to a notification.
    Nil,
}

/// A message as it stands on the wire: every field but the version optional.
#[derive(Debug, Clone, PartialEq)]
pub struct JsonRpcRaw {
    pub jsonrpc: String,
    pub id: Option<u64>,
    pub method: Option<String>,
    pub params: Option<serde_json::Value>,
    pub result: Option<serde_json::Value>,
    pub error: Option<ErrorData>,
}

/// The variant that the fields present in `raw` select: `error` first, then
/// `result`, then `method` (a request when an id is present, else a
/// notification); with none of these and no id, the empty reply. An id alone
/// selects nothing.
pub open spec fn classify(raw: JsonRpcRaw) -> Option<JsonRpcMessage> {
    if raw.error is Some {
        Some(JsonRpcMessage::Error(JsonRpcError { jsonrpc: raw.jsonrpc, id: raw.id, error: raw.error->Some_0 }))
    } else if raw.result is Some {
        Some(JsonRpcMessage::Response(JsonRpcResponse { jsonrpc: raw.jsonrpc, id: raw.id, result: raw.result, error: None }))
    } else if raw.method is Some {
        if raw.id is None {
            Some(JsonRpcMessage::Notification(JsonRpcNotification { jsonrpc: raw.jsonrpc, method: raw.method->Some_0, params: raw.params }))
        } else {
            Some(JsonRpcMessage::Request(JsonRpcRequest { jsonrpc: raw.jsonrpc, id: raw.id, method: raw.method->Some_0, params: raw.params }))
        }
    } else if raw.id is None {
        Some(JsonRpcMessage::Nil)
    } else {
        None
    }
}

/// What parsing a raw message yields: nothing when the version is wrong,
/// otherwise its classification.
pub open spec fn parse_spec(raw: JsonRpcRaw) -> Option<JsonRpcMessage> {
    if raw.jsonrpc@ == jsonrpc_version() {
        classify(raw)
    } else {
        None
    }
}

/// `raw` is the wire form of `m`: the fields of `m` and no others are present.
pub open spec fn serializes_to(m: JsonRpcMessage, raw: JsonRpcRaw) -> bool {
    match m {
        JsonRpcMessage::Request(r) => raw == JsonRpcRaw {
            jsonrpc: r.jsonrpc, id: r.id, method: Some(r.method), params: r.params, result: None, error: None,
        },
        JsonRpcMessage::Response(r) => raw == JsonRpcRaw {
            jsonrpc: r.jsonrpc, id: r.id, method: None, params: None, result: r.result, error: r.error,
        },
        JsonRpcMessage::Notification(n) => raw == JsonRpcRaw {
            jsonrpc: n.jsonrpc, id: None, method: Some(n.method), params: n.params, result: None, error: None,
        },
        JsonRpcMessage::Error(e) => raw == JsonRpcRaw {
            jsonrpc: e.jsonrpc, id: e.id, method: None, params: None, result: None, error: Some(e.error),
        },
        JsonRpcMessage::Nil => raw.jsonrpc@ == jsonrpc_version() && raw.id is None && raw.method is None
            && raw.params is None && raw.result is None && raw.error is None,
    }
}

/// A message as the constructors build it: the version is set, a request has
/// an id, and a response carries a result and no error object.
pub open spec fn well_formed(m: JsonRpcMessage) -> bool {
    match m {
        JsonRpcMessage::Request(r) => r.jsonrpc@ == jsonrpc_version() && r.id is Some,
        JsonRpcMessage::Response(r) => r.jsonrpc@ == jsonrpc_version() && r.result is Some && r.error is None,
        JsonRpcMessage::Notification(n) => n.jsonrpc@ == jsonrpc_version(),
        JsonRpcMessage::Error(e) => e.jsonrpc@ == jsonrpc_version(),
        JsonRpcMessage::Nil => true,
    }
}

impl JsonRpcRequest {
    pub fn new(id: Option<u64>, method: &str, params: Option<serde_json::Value>) -> (r: Self)
        ensures
            r.jsonrpc@ == jsonrpc_version(),
            r.id == id,
            r.method@ == method@,
            r.params == params,
    {
        JsonRpcRequest { jsonrpc: version_string(), id, method: method.to_owned(), params }
    }
}

impl JsonRpcResponse {
    /// A reply with neither result nor error.
    pub fn new_empty(id: Option<u64>) -> (r: Self)
        ensures
            r.jsonrpc@ == jsonrpc_version(),
            r.id == id,
            r.result is None,
            r.error is None,
    {
        JsonRpcResponse { jsonrpc: version_string(), id, result: None, error: None }
    }

    pub fn with_error(id: Option<u64>, error: ErrorData) -> (r: Self)
        ensures
            r.jsonrpc@ == jsonrpc_version(),
            r.id == id,
            r.result is None,
            r.error == Some(error),
    {
        JsonRpcResponse { jsonrpc: version_string(), id, result: None, error: Some(error) }
    }
}

impl JsonRpcNotification {
    pub fn new(method: &str, params: Option<serde_json::Value>) -> (r: Self)
        ensures
            r.jsonrpc@ == jsonrpc_version(),
            r.method@ == method@,
            r.params == params,
    {
        JsonRpcNotification { jsonrpc: version_string(), method: method.to_owned(), params }
    }
}

impl JsonRpcMessage {
    /// Classifies a raw message by the fields it holds; the version is not
    /// looked at here.
    pub fn try_from(raw: JsonRpcRaw) -> (r: Result<Self, Error>)
        ensures
            match r {
                Ok(m) => classify(raw) == Some(m),
                Err(e) => classify(raw) is None && e is InvalidMessage,
            },
    {
        let JsonRpcRaw { jsonrpc, id, method, params, result, error } = raw;
        match error {
            Some(error) => {
                return Ok(JsonRpcMessage::Error(JsonRpcError { jsonrpc, id, error }));
            },
            None => {},
        }
        if result.is_some() {
            return Ok(JsonRpcMessage::Response(JsonRpcResponse { jsonrpc, id, result, error: None }));
        }
        match method {
            Some(method) => {
                if id.is_none() {
                    Ok(JsonRpcMessage::Notification(JsonRpcNotification { jsonrpc, method, params }))
                } else {
                    Ok(JsonRpcMessage::Request(JsonRpcRequest { jsonrpc, id, method, params }))
                }
            },
            None => {
                if id.is_none() {
                    Ok(JsonRpcMessage::Nil)
                } else {
                    Err(Error::InvalidMessage("message has an id but no method, result or error".to_owned()))
                }
            },
        }
    }

    /// The wire form of this message, with absent fields left absent.
    pub fn into_raw(self) -> (r: JsonRpcRaw)
        ensures
            serializes_to(self, r),
    {
        match self {
            JsonRpcMessage::Request(q) => JsonRpcRaw {
                jsonrpc: q.jsonrpc, id: q.id, method: Some(q.method), params: q.params, result: None, error: None,
            },
            JsonRpcMessage::Response(q) => JsonRpcRaw {
                jsonrpc: q.jsonrpc, id: q.id, method: None, params: None, result: q.result, error: q.error,
            },
            JsonRpcMessage::Notification(n) => JsonRpcRaw {
                jsonrpc: n.jsonrpc, id: None, method: Some(n.method), params: n.params, result: None, error: None,
            },
            JsonRpcMessage::Error(e) => JsonRpcRaw {
                jsonrpc: e.jsonrpc, id: e.id, method: None, params: None, result: None, error: Some(e.error),
            },
            JsonRpcMessage::Nil => JsonRpcRaw {
                jsonrpc: version_string(), id: None, method: None, params: None, result: None, error: None,
            },
        }
    }

    /// The correlation id of a reply (a response or an error), if it has one.
    pub fn reply_id(&self) -> (r: Option<u64>)
        ensures
            r == match *self {
                JsonRpcMessage::Response(q) => q.id,
                JsonRpcMessage::Error(e) => e.id,
                _ => None,
            },
    {
        match self {
            JsonRpcMessage::Response(q) => q.id,
            JsonRpcMessage::Error(e) => e.id,
            _ => None,
        }
    }
}

/// Validates the version field and classifies a raw message.
pub fn parse_json_rpc_message(raw: JsonRpcRaw) -> (r: Result<JsonRpcMessage, Error>)
    ensures
        match r {
            Ok(m) => parse_spec(raw) == Some(m),
            Err(e) => parse_spec(raw) is None && e is InvalidMessage,
        },
{
    if raw.jsonrpc != version_string() {
        return Err(Error::InvalidMessage("missing or invalid jsonrpc version".to_owned()));
    }
    JsonRpcMessage::try_from(raw)
}

/// Parsing a raw message picks the variant that its fields select, for every
/// raw message with the right version: an error object makes an error reply, a
/// result makes a response, a method makes a request (with an id) or a
/// notification (without one), and no field at all makes the empty reply.
/// It fails exactly when an id stands alone.
pub proof fn lemma_parse_selects_variant(raw: JsonRpcRaw)
    requires
        raw.jsonrpc@ == jsonrpc_version(),
    ensures
        raw.error is Some ==> (parse_spec(raw) matches Some(JsonRpcMessage::Error(e)) && e.id == raw.id
            && Some(e.error) == raw.error),
        raw.error is None && raw.result is Some ==> (parse_spec(raw) matches Some(JsonRpcMessage::Response(q))
            && q.id == raw.id && q.result == raw.result),
        raw.error is None && raw.result is None && raw.method is Some && raw.id is Some
            ==> (parse_spec(raw) matches Some(JsonRpcMessage::Request(q)) && q.id == raw.id
            && Some(q.method) == raw.method && q.params == raw.params),
        raw.error is None && raw.result is None && raw.method is Some && raw.id is None
            ==> (parse_spec(raw) matches Some(JsonRpcMessage::Notification(n)) && Some(n.method)
            == raw.method && n.params == raw.params),
        raw.error is None && raw.result is None && raw.method is None && raw.id is None
            ==> parse_spec(raw) == Some(JsonRpcMessage::Nil),
        parse_spec(raw) is None <==> (raw.error is None && raw.result is None && raw.method is None
            && raw.id is Some),
{
}

/// A message with a wrong or missing version never parses.
pub proof fn lemma_wrong_version_rejected(raw: JsonRpcRaw)
    requires
        raw.jsonrpc@ != jsonrpc_version(),
    ensures
        parse_spec(raw) is None,
{
}

/// Parsing the wire form of a well-formed message gives the message back.
pub proof fn lemma_round_trip(m: JsonRpcMessage, raw: JsonRpcRaw)
    requires
        well_formed(m),
        serializes_to(m, raw),
    ensures
        parse_spec(raw) == Some(m),
{
}

} // verus!
