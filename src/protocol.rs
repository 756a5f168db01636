use crate::capabilities::ServerCapabilities;
use vstd::prelude::*;

verus! {

/// The name and version of a client or server.
#[derive(Debug, Clone, PartialEq)]
pub struct Implementation {
    pub name: String,
    pub version: String,
}

/// What a server answers to `initialize`.
#[derive(Debug, Clone, PartialEq)]
pub struct InitializeResult {
    pub protocol_version: String,
    pub capabilities: ServerCapabilities,
    pub server_info: Implementation,
    pub instructions: Option<String>,
}

/// A tool that a server offers: its name, what it does, and the JSON schema
/// of its arguments.
#[derive(Debug, PartialEq)]
pub struct Tool {
    pub name: String,
    pub description: String,
    pub input_schema: serde_json::Value,
}

/// What a server answers to `tools/list`.
#[derive(Debug, PartialEq)]
pub struct ListToolsResult {
    pub tools: Vec<Tool>,
    pub next_cursor: Option<String>,
}

/// The result of a call that returns nothing.
#[derive(Debug, Clone, PartialEq)]
pub struct EmptyResult {}

/// How a resource's contents are encoded.
#[derive(Debug, Clone, Copy, PartialEq, Eq, Structural)]
pub enum MimeType {
    Text,
    Blob,
}

/// The contents of a resource, as text or as an encoded blob.
#[derive(Debug, Clone, PartialEq)]
pub enum ResourceContents {
    TextResourceContents { uri: String, mime_type: Option<String>, text: String },
    BlobResourceContents { uri: String, mime_type: Option<String>, blob: String },
}

#[derive(Debug, Clone, PartialEq)]
pub struct ReadResourceResult {
    pub contents: Vec<ResourceContents>,
}

} // verus!
