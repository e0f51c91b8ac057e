//! The JSON-RPC messages exchanged between client and server, and the results
//! that requests are answered with.
use vstd::prelude::*;

use super::content::Content;
use super::prompt::{Prompt, PromptMessage};
use super::resource::ResourceContents;
use crate::json::JsonValue;
use crate::text::{concat, decimal, decimal_string};

verus! {

#[derive(Debug, PartialEq)]
pub struct JsonRpcRequest {
    pub jsonrpc: String,
    pub id: Option<u64>,
    pub method: String,
    pub params: Option<JsonValue>,
}

#[derive(Debug, PartialEq)]
pub struct JsonRpcResponse {
    pub jsonrpc: String,
    pub id: Option<u64>,
    pub result: Option<JsonValue>,
    pub error: Option<ErrorData>,
}

#[derive(Debug, PartialEq)]
pub struct JsonRpcNotification {
    pub jsonrpc: String,
    pub method: String,
    pub params: Option<JsonValue>,
}

#[derive(Debug, PartialEq)]
pub struct JsonRpcError {
    pub jsonrpc: String,
    pub id: Option<u64>,
    pub error: ErrorData,
}

/// A JSON-RPC message; `Nil` answers a notification.
#[derive(Debug, PartialEq)]
pub enum JsonRpcMessage {
    Request(JsonRpcRequest),
    Response(JsonRpcResponse),
    Notification(JsonRpcNotification),
    Error(JsonRpcError),
    Nil,
}

/// Every field a JSON-RPC message may carry, before it is classified.
#[derive(Debug, PartialEq)]
pub struct JsonRpcRaw {
    pub jsonrpc: String,
    pub id: Option<u64>,
    pub method: Option<String>,
    pub params: Option<JsonValue>,
    pub result: Option<JsonValue>,
    pub error: Option<ErrorData>,
}

/// The text of the error for a raw message that is none of the kinds: it
/// carries an id and nothing else.
pub open spec fn invalid_format_text(id: u64) -> Seq<char> {
    "Invalid JSON-RPC message format: id=Some("@ + decimal(id as nat)
        + "), method=None, result=None, error=None"@
}

/// How a raw message is classified: an error field makes an error, then a
/// result makes a response, then a method makes a notification (without id)
/// or a request (with one); a message with none of these and no id is `Nil`.
pub open spec fn classify_raw(raw: JsonRpcRaw) -> Result<JsonRpcMessage, Seq<char>> {
    if raw.error is Some {
        Ok(JsonRpcMessage::Error(JsonRpcError { jsonrpc: raw.jsonrpc, id: raw.id, error: raw.error.unwrap() }))
    } else if raw.result is Some {
        Ok(JsonRpcMessage::Response(JsonRpcResponse { jsonrpc: raw.jsonrpc, id: raw.id, result: raw.result, error: None }))
    } else if raw.method is Some {
        if raw.id is None {
            Ok(JsonRpcMessage::Notification(JsonRpcNotification { jsonrpc: raw.jsonrpc, method: raw.method.unwrap(), params: raw.params }))
        } else {
            Ok(JsonRpcMessage::Request(JsonRpcRequest { jsonrpc: raw.jsonrpc, id: raw.id, method: raw.method.unwrap(), params: raw.params }))
        }
    } else if raw.id is None {
        Ok(JsonRpcMessage::Nil)
    } else {
        Err(invalid_format_text(raw.id.unwrap()))
    }
}

impl JsonRpcMessage {
    /// Classifies a raw message (what deserialising a message does once its fields are read).
    pub fn try_from_raw(raw: JsonRpcRaw) -> (r: Result<Self, String>)
        ensures
            match (r, classify_raw(raw)) {
                (Ok(m), Ok(n)) => m == n,
                (Err(e), Err(t)) => e@ == t,
                _ => false,
            },
    {
        if let Some(error) = raw.error {
            return Ok(JsonRpcMessage::Error(JsonRpcError { jsonrpc: raw.jsonrpc, id: raw.id, error }));
        }
        if raw.result.is_some() {
            return Ok(
                JsonRpcMessage::Response(
                    JsonRpcResponse { jsonrpc: raw.jsonrpc, id: raw.id, result: raw.result, error: None },
                ),
            );
        }
        if let Some(method) = raw.method {
            if raw.id.is_none() {
                return Ok(
                    JsonRpcMessage::Notification(
                        JsonRpcNotification { jsonrpc: raw.jsonrpc, method, params: raw.params },
                    ),
                );
            }
            return Ok(
                JsonRpcMessage::Request(JsonRpcRequest { jsonrpc: raw.jsonrpc, id: raw.id, method, params: raw.params }),
            );
        }
        match raw.id {
            None => Ok(JsonRpcMessage::Nil),
            Some(id) => {
                let head = concat("Invalid JSON-RPC message format: id=Some(", decimal_string(id).as_str());
                let text = concat(head.as_str(), "), method=None, result=None, error=None");
                Err(text)
            },
        }
    }
}

/// Invalid JSON was received.
pub const PARSE_ERROR: i32 = -32700;
/// The JSON sent is not a valid request.
pub const INVALID_REQUEST: i32 = -32600;
/// The method does not exist.
pub const METHOD_NOT_FOUND: i32 = -32601;
/// Invalid method parameters.
pub const INVALID_PARAMS: i32 = -32602;
/// Internal JSON-RPC error.
pub const INTERNAL_ERROR: i32 = -32603;

/// Error information for JSON-RPC error responses.
#[derive(Debug, PartialEq)]
pub struct ErrorData {
    pub code: i32,
    pub message: String,
    pub data: Option<JsonValue>,
}

#[derive(Debug, Clone, PartialEq)]
pub struct InitializeResult {
    pub protocol_version: String,
    pub capabilities: ServerCapabilities,
    pub server_info: Implementation,
    pub instructions: Option<String>,
}

#[derive(Debug, PartialEq)]
pub struct Implementation {
    pub name: String,
    pub version: String,
}

impl Clone for Implementation {
    fn clone(&self) -> (r: Self)
        ensures
            r == *self,
    {
        Implementation { name: self.name.clone(), version: self.version.clone() }
    }
}

#[derive(Debug, Clone, Copy, PartialEq, Eq, Structural)]
pub struct ServerCapabilities {
    pub prompts: Option<PromptsCapability>,
    pub resources: Option<ResourcesCapability>,
    pub tools: Option<ToolsCapability>,
}

#[derive(Debug, Clone, Copy, PartialEq, Eq, Structural)]
pub struct PromptsCapability {
    pub list_changed: Option<bool>,
}

#[derive(Debug, Clone, Copy, PartialEq, Eq, Structural)]
pub struct ResourcesCapability {
    pub subscribe: Option<bool>,
    pub list_changed: Option<bool>,
}

#[derive(Debug, Clone, Copy, PartialEq, Eq, Structural)]
pub struct ToolsCapability {
    pub list_changed: Option<bool>,
}

/// The resources a server offers, each as the JSON a handler describes it with.
#[derive(Debug, PartialEq)]
pub struct ListResourcesResult {
    pub resources: Vec<JsonValue>,
    pub next_cursor: Option<String>,
}

#[derive(Debug, PartialEq)]
pub struct ReadResourceResult {
    pub contents: Vec<ResourceContents>,
}

/// The tools a server offers, each as the JSON a handler describes it with.
#[derive(Debug, PartialEq)]
pub struct ListToolsResult {
    pub tools: Vec<JsonValue>,
    pub next_cursor: Option<String>,
}

#[derive(Debug)]
pub struct CallToolResult {
    pub content: Vec<Content>,
    pub is_error: Option<bool>,
}

#[derive(Debug, Clone, PartialEq)]
pub struct ListPromptsResult {
    pub prompts: Vec<Prompt>,
}

#[derive(Debug, PartialEq)]
pub struct GetPromptResult {
    pub description: Option<String>,
    pub messages: Vec<PromptMessage>,
}

#[derive(Debug)]
pub struct EmptyResult {}

} // verus!
