//! A server for the first-generation MCP crates: its errors, request routing,
//! and the decisions of its message loop.
use vstd::prelude::*;

pub mod router;

use crate::json::{json_deep_wf, json_get, json_wf, JsonValue};
use crate::mcp_core::handler::ResourceError;
use crate::mcp_core::protocol::{
    ErrorData, JsonRpcError, JsonRpcMessage, JsonRpcRequest, JsonRpcResponse, INTERNAL_ERROR, INVALID_PARAMS,
    INVALID_REQUEST, METHOD_NOT_FOUND, PARSE_ERROR,
};
use crate::text::concat;

verus! {

/// Why a router could not answer a request.
#[derive(Debug, PartialEq)]
pub enum RouterError {
    MethodNotFound(String),
    InvalidParams(String),
    Internal(String),
    ToolNotFound(String),
    ResourceNotFound(String),
    PromptNotFound(String),
}

/// A router error with its text as characters.
pub enum RouterErrorView {
    MethodNotFound(Seq<char>),
    InvalidParams(Seq<char>),
    Internal(Seq<char>),
    ToolNotFound(Seq<char>),
    ResourceNotFound(Seq<char>),
    PromptNotFound(Seq<char>),
}

impl View for RouterError {
    type V = RouterErrorView;

    open spec fn view(&self) -> RouterErrorView {
        match self {
            RouterError::MethodNotFound(s) => RouterErrorView::MethodNotFound(s@),
            RouterError::InvalidParams(s) => RouterErrorView::InvalidParams(s@),
            RouterError::Internal(s) => RouterErrorView::Internal(s@),
            RouterError::ToolNotFound(s) => RouterErrorView::ToolNotFound(s@),
            RouterError::ResourceNotFound(s) => RouterErrorView::ResourceNotFound(s@),
            RouterError::PromptNotFound(s) => RouterErrorView::PromptNotFound(s@),
        }
    }
}

/// The text of a router error.
pub open spec fn router_error_text(e: RouterErrorView) -> Seq<char> {
    match e {
        RouterErrorView::MethodNotFound(s) => "Method not found: "@ + s,
        RouterErrorView::InvalidParams(s) => "Invalid parameters: "@ + s,
        RouterErrorView::Internal(s) => "Internal error: "@ + s,
        RouterErrorView::ToolNotFound(s) => "Tool not found: "@ + s,
        RouterErrorView::ResourceNotFound(s) => "Resource not found: "@ + s,
        RouterErrorView::PromptNotFound(s) => "Not found: "@ + s,
    }
}

/// The JSON-RPC code a router error is answered with.
pub open spec fn router_error_code(e: RouterErrorView) -> i32 {
    match e {
        RouterErrorView::MethodNotFound(_) => METHOD_NOT_FOUND,
        RouterErrorView::InvalidParams(_) => INVALID_PARAMS,
        RouterErrorView::Internal(_) => INTERNAL_ERROR,
        _ => INVALID_REQUEST,
    }
}

impl RouterError {
    /// The text of the error (what `Display` writes).
    pub fn to_string(&self) -> (r: String)
        ensures
            r@ == router_error_text(self@),
    {
        match self {
            RouterError::MethodNotFound(s) => concat("Method not found: ", s.as_str()),
            RouterError::InvalidParams(s) => concat("Invalid parameters: ", s.as_str()),
            RouterError::Internal(s) => concat("Internal error: ", s.as_str()),
            RouterError::ToolNotFound(s) => concat("Tool not found: ", s.as_str()),
            RouterError::ResourceNotFound(s) => concat("Resource not found: ", s.as_str()),
            RouterError::PromptNotFound(s) => concat("Not found: ", s.as_str()),
        }
    }

    /// The error data a router error is answered with.
    pub fn to_error_data(&self) -> (r: ErrorData)
        ensures
            r.code == router_error_code(self@),
            r.message@ == router_error_text(self@),
            r.data is None,
    {
        let code = match self {
            RouterError::MethodNotFound(_) => METHOD_NOT_FOUND,
            RouterError::InvalidParams(_) => INVALID_PARAMS,
            RouterError::Internal(_) => INTERNAL_ERROR,
            _ => INVALID_REQUEST,
        };
        ErrorData { code, message: self.to_string(), data: None }
    }

    /// A resource error as a router error: a missing resource stays one, any
    /// other failure becomes an internal error.
    pub fn from_resource_error(e: ResourceError) -> (r: RouterError)
        ensures
            match e {
                ResourceError::NotFound(m) => r@ == RouterErrorView::ResourceNotFound(m@),
                _ => r@ == RouterErrorView::Internal("Unknown resource error"@),
            },
    {
        match e {
            ResourceError::NotFound(m) => RouterError::ResourceNotFound(m),
            _ => RouterError::Internal("Unknown resource error".to_owned()),
        }
    }
}

/// Why the transport could not hand over a message; each carries the text of the cause.
#[derive(Debug, PartialEq)]
pub enum TransportError {
    Io(String),
    Json(String),
    Utf8(String),
    Protocol(String),
    InvalidMessage(String),
}

/// The text of a transport error.
pub open spec fn transport_error_text(e: TransportError) -> Seq<char> {
    match e {
        TransportError::Io(s) => "IO error: "@ + s@,
        TransportError::Json(s) => "JSON serialization error: "@ + s@,
        TransportError::Utf8(s) => "Invalid UTF-8 sequence: "@ + s@,
        TransportError::Protocol(s) => "Protocol error: "@ + s@,
        TransportError::InvalidMessage(s) => "Invalid message format: "@ + s@,
    }
}

/// The JSON-RPC code a transport error is answered with: malformed input is a
/// parse error, a protocol violation an invalid request, the rest internal.
pub open spec fn transport_error_code(e: TransportError) -> i32 {
    match e {
        TransportError::Json(_) | TransportError::InvalidMessage(_) => PARSE_ERROR,
        TransportError::Protocol(_) => INVALID_REQUEST,
        _ => INTERNAL_ERROR,
    }
}

impl TransportError {
    /// The text of the error (what `Display` writes).
    pub fn to_string(&self) -> (r: String)
        ensures
            r@ == transport_error_text(*self),
    {
        match self {
            TransportError::Io(s) => concat("IO error: ", s.as_str()),
            TransportError::Json(s) => concat("JSON serialization error: ", s.as_str()),
            TransportError::Utf8(s) => concat("Invalid UTF-8 sequence: ", s.as_str()),
            TransportError::Protocol(s) => concat("Protocol error: ", s.as_str()),
            TransportError::InvalidMessage(s) => concat("Invalid message format: ", s.as_str()),
        }
    }
}

/// Whether a parsed line is shaped as a JSON-RPC message: an object whose
/// `jsonrpc` member is the string `2.0`.
pub open spec fn incoming_check(v: JsonValue) -> Result<(), Seq<char>> {
    if !(v is Object) {
        Err("Message must be a JSON object"@)
    } else if !(json_get(v, "jsonrpc"@) matches Some(JsonValue::String(s)) && s@ == "2.0"@) {
        Err("Missing or invalid jsonrpc version"@)
    } else {
        Ok(())
    }
}

/// The version check a byte transport makes on each parsed line before it
/// reads it as a message.
pub fn check_incoming(v: &JsonValue) -> (r: Result<(), TransportError>)
    requires
        json_wf(*v),
    ensures
        match (r, incoming_check(*v)) {
            (Ok(()), Ok(())) => true,
            (Err(TransportError::InvalidMessage(m)), Err(t)) => m@ == t,
            _ => false,
        },
{
    if !v.is_object() {
        return Err(TransportError::InvalidMessage("Message must be a JSON object".to_owned()));
    }
    let ok = match v.get("jsonrpc") {
        Some(JsonValue::String(s)) => {
            let two = "2.0".to_owned();
            s.eq(&two)
        },
        _ => false,
    };
    if !ok {
        return Err(TransportError::InvalidMessage("Missing or invalid jsonrpc version".to_owned()));
    }
    Ok(())
}

/// A server: it hands each request it reads to its service.
pub struct Server<S> {
    service: S,
}

impl<S> Server<S> {
    pub closed spec fn service_spec(&self) -> S {
        self.service
    }

    pub fn new(service: S) -> (r: Self)
        ensures
            r.service_spec() == service,
    {
        Server { service }
    }

    /// The service, for the loop that runs the server.
    pub fn into_service(self) -> (r: S)
        ensures
            r == self.service_spec(),
    {
        self.service
    }
}

/// What the server does with one item its transport yields.
#[derive(Debug, PartialEq)]
pub enum ServerAction {
    /// Hand the request to the service and send back its response.
    Call(JsonRpcRequest),
    /// Responses, notifications, errors and `Nil` are not answered.
    Ignore,
    /// Send this error message back.
    Reply(JsonRpcError),
}

/// The server's decision on one item from its transport.
pub fn next_action(incoming: Result<JsonRpcMessage, TransportError>) -> (r: ServerAction)
    ensures
        match incoming {
            Ok(JsonRpcMessage::Request(req)) => r == ServerAction::Call(req),
            Ok(_) => r == ServerAction::Ignore,
            Err(e) => r matches ServerAction::Reply(j) && j.jsonrpc@ == "2.0"@ && j.id is None && j.error.code
                == transport_error_code(e) && j.error.message@ == transport_error_text(e) && j.error.data is None,
        },
{
    match incoming {
        Ok(JsonRpcMessage::Request(req)) => ServerAction::Call(req),
        Ok(_) => ServerAction::Ignore,
        Err(e) => {
            let code = match &e {
                TransportError::Json(_) | TransportError::InvalidMessage(_) => PARSE_ERROR,
                TransportError::Protocol(_) => INVALID_REQUEST,
                _ => INTERNAL_ERROR,
            };
            ServerAction::Reply(
                JsonRpcError {
                    jsonrpc: "2.0".to_owned(),
                    id: None,
                    error: ErrorData { code, message: e.to_string(), data: None },
                },
            )
        },
    }
}

/// The response sent when the service fails on a request: an internal error
/// carrying the failure's text, under the request's id.
pub fn service_failure_response(id: Option<u64>, message: String) -> (r: JsonRpcResponse)
    ensures
        r.jsonrpc@ == "2.0"@,
        r.id == id,
        r.result is None,
        r.error matches Some(e) && e.code == INTERNAL_ERROR && e.message == message && e.data is None,
{
    JsonRpcResponse {
        jsonrpc: "2.0".to_owned(),
        id,
        result: None,
        error: Some(ErrorData { code: INTERNAL_ERROR, message, data: None }),
    }
}

} // verus!
