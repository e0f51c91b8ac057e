//! JSON-RPC messages of the MCP protocol, generic over what requests,
//! responses and notifications carry.
use vstd::prelude::*;

use super::{ConstString, ErrorData, RequestId};

verus! {

/// The `"2.0"` version tag every message carries.
#[derive(Debug, Clone, Copy, PartialEq, Eq, Default, Structural)]
pub struct JsonRpcVersion2_0;

impl ConstString for JsonRpcVersion2_0 {
    open spec fn spec_value() -> Seq<char> {
        "2.0"@
    }

    fn value() -> (r: &'static str) {
        "2.0"
    }
}

/// A request: its method, its parameters.
#[derive(Debug, Clone, PartialEq)]
pub struct Request<M, P> {
    pub method: M,
    pub params: P,
}

impl<M: Default, P> Request<M, P> {
    /// A request of the method its type names.
    pub fn new(params: P) -> (r: Self)
        ensures
            r.params == params,
    {
        Request { method: M::default(), params }
    }
}

/// A request whose parameters may be left out.
#[derive(Debug, Clone, PartialEq)]
pub struct RequestOptionalParam<M, P> {
    pub method: M,
    pub params: Option<P>,
}

impl<M: Default, P> RequestOptionalParam<M, P> {
    /// A request with parameters.
    pub fn with_param(params: P) -> (r: Self)
        ensures
            r.params == Some(params),
    {
        RequestOptionalParam { method: M::default(), params: Some(params) }
    }
}

/// A notification: its method, its parameters.
#[derive(Debug, Clone, PartialEq)]
pub struct Notification<M, P> {
    pub method: M,
    pub params: P,
}

impl<M: Default, P> Notification<M, P> {
    /// A notification of the method its type names.
    pub fn new(params: P) -> (r: Self)
        ensures
            r.params == params,
    {
        Notification { method: M::default(), params }
    }
}

#[derive(Debug, PartialEq)]
pub struct JsonRpcRequest<R> {
    pub jsonrpc: JsonRpcVersion2_0,
    pub id: RequestId,
    pub request: R,
}

#[derive(Debug, PartialEq)]
pub struct JsonRpcResponse<R> {
    pub jsonrpc: JsonRpcVersion2_0,
    pub id: RequestId,
    pub result: R,
}

#[derive(Debug, PartialEq)]
pub struct JsonRpcError {
    pub jsonrpc: JsonRpcVersion2_0,
    pub id: RequestId,
    pub error: ErrorData,
}

#[derive(Debug, PartialEq)]
pub struct JsonRpcNotification<N> {
    pub jsonrpc: JsonRpcVersion2_0,
    pub notification: N,
}

/// An item of a batch of requests.
#[derive(Debug, PartialEq)]
pub enum JsonRpcBatchRequestItem<Req, Not> {
    Request(JsonRpcRequest<Req>),
    Notification(JsonRpcNotification<Not>),
}

/// An item of a batch of responses.
#[derive(Debug, PartialEq)]
pub enum JsonRpcBatchResponseItem<Resp> {
    Response(JsonRpcResponse<Resp>),
    Error(JsonRpcError),
}

/// Any JSON-RPC message.
#[derive(Debug, PartialEq)]
pub enum JsonRpcMessage<Req, Resp, Noti> {
    Request(JsonRpcRequest<Req>),
    Response(JsonRpcResponse<Resp>),
    Notification(JsonRpcNotification<Noti>),
    BatchRequest(Vec<JsonRpcBatchRequestItem<Req, Noti>>),
    BatchResponse(Vec<JsonRpcBatchResponseItem<Resp>>),
    Error(JsonRpcError),
}

impl<Req, Not> JsonRpcBatchRequestItem<Req, Not> {
    /// The item as a message of its own.
    pub fn into_non_batch_message<Resp>(self) -> (r: JsonRpcMessage<Req, Resp, Not>)
        ensures
            match self {
                JsonRpcBatchRequestItem::Request(q) => r == JsonRpcMessage::<Req, Resp, Not>::Request(q),
                JsonRpcBatchRequestItem::Notification(n) => r == JsonRpcMessage::<Req, Resp, Not>::Notification(n),
            },
    {
        match self {
            JsonRpcBatchRequestItem::Request(q) => JsonRpcMessage::Request(q),
            JsonRpcBatchRequestItem::Notification(n) => JsonRpcMessage::Notification(n),
        }
    }
}

impl<Resp> JsonRpcBatchResponseItem<Resp> {
    /// The item as a message of its own.
    pub fn into_non_batch_message<Req, Not>(self) -> (r: JsonRpcMessage<Req, Resp, Not>)
        ensures
            match self {
                JsonRpcBatchResponseItem::Response(p) => r == JsonRpcMessage::<Req, Resp, Not>::Response(p),
                JsonRpcBatchResponseItem::Error(e) => r == JsonRpcMessage::<Req, Resp, Not>::Error(e),
            },
    {
        match self {
            JsonRpcBatchResponseItem::Response(p) => JsonRpcMessage::Response(p),
            JsonRpcBatchResponseItem::Error(e) => JsonRpcMessage::Error(e),
        }
    }
}

impl<Req, Resp, Not> JsonRpcMessage<Req, Resp, Not> {
    pub fn request(request: Req, id: RequestId) -> (r: Self)
        ensures
            r == JsonRpcMessage::<Req, Resp, Not>::Request(JsonRpcRequest { jsonrpc: JsonRpcVersion2_0, id, request }),
    {
        JsonRpcMessage::Request(JsonRpcRequest { jsonrpc: JsonRpcVersion2_0, id, request })
    }

    pub fn response(response: Resp, id: RequestId) -> (r: Self)
        ensures
            r == JsonRpcMessage::<Req, Resp, Not>::Response(
                JsonRpcResponse { jsonrpc: JsonRpcVersion2_0, id, result: response },
            ),
    {
        JsonRpcMessage::Response(JsonRpcResponse { jsonrpc: JsonRpcVersion2_0, id, result: response })
    }

    pub fn error(error: ErrorData, id: RequestId) -> (r: Self)
        ensures
            r == JsonRpcMessage::<Req, Resp, Not>::Error(JsonRpcError { jsonrpc: JsonRpcVersion2_0, id, error }),
    {
        JsonRpcMessage::Error(JsonRpcError { jsonrpc: JsonRpcVersion2_0, id, error })
    }

    pub fn notification(notification: Not) -> (r: Self)
        ensures
            r == JsonRpcMessage::<Req, Resp, Not>::Notification(
                JsonRpcNotification { jsonrpc: JsonRpcVersion2_0, notification },
            ),
    {
        JsonRpcMessage::Notification(JsonRpcNotification { jsonrpc: JsonRpcVersion2_0, notification })
    }

    /// The request and its id, for a request.
    pub fn into_request(self) -> (r: Option<(Req, RequestId)>)
        ensures
            match self {
                JsonRpcMessage::Request(q) => r == Some((q.request, q.id)),
                _ => r is None,
            },
    {
        match self {
            JsonRpcMessage::Request(q) => Some((q.request, q.id)),
            _ => None,
        }
    }

    /// The result and its id, for a response.
    pub fn into_response(self) -> (r: Option<(Resp, RequestId)>)
        ensures
            match self {
                JsonRpcMessage::Response(p) => r == Some((p.result, p.id)),
                _ => r is None,
            },
    {
        match self {
            JsonRpcMessage::Response(p) => Some((p.result, p.id)),
            _ => None,
        }
    }

    /// The notification, for a notification.
    pub fn into_notification(self) -> (r: Option<Not>)
        ensures
            match self {
                JsonRpcMessage::Notification(n) => r == Some(n.notification),
                _ => r is None,
            },
    {
        match self {
            JsonRpcMessage::Notification(n) => Some(n.notification),
            _ => None,
        }
    }

    /// The error and its id, for an error.
    pub fn into_error(self) -> (r: Option<(ErrorData, RequestId)>)
        ensures
            match self {
                JsonRpcMessage::Error(e) => r == Some((e.error, e.id)),
                _ => r is None,
            },
    {
        match self {
            JsonRpcMessage::Error(e) => Some((e.error, e.id)),
            _ => None,
        }
    }

    /// The outcome and its id, for a response or an error.
    pub fn into_result(self) -> (r: Option<(Result<Resp, ErrorData>, RequestId)>)
        ensures
            match self {
                JsonRpcMessage::Response(p) => r == Some((Ok::<Resp, ErrorData>(p.result), p.id)),
                JsonRpcMessage::Error(e) => r == Some((Err::<Resp, ErrorData>(e.error), e.id)),
                _ => r is None,
            },
    {
        match self {
            JsonRpcMessage::Response(p) => Some((Ok(p.result), p.id)),
            JsonRpcMessage::Error(e) => Some((Err(e.error), e.id)),
            _ => None,
        }
    }
}

/// What a message is built from it gives back: a request, response, error
/// or notification read back out of the message built from it is what went in.
pub proof fn lemma_message_round_trip<Req, Resp, Not>(
    q: Req,
    p: Resp,
    e: ErrorData,
    n: Not,
    id: RequestId,
)
    ensures
        (match JsonRpcMessage::<Req, Resp, Not>::Request(JsonRpcRequest { jsonrpc: JsonRpcVersion2_0, id, request: q }) {
            JsonRpcMessage::Request(x) => Some((x.request, x.id)),
            _ => None,
        }) == Some((q, id)),
        (match JsonRpcMessage::<Req, Resp, Not>::Response(JsonRpcResponse { jsonrpc: JsonRpcVersion2_0, id, result: p }) {
            JsonRpcMessage::Response(x) => Some((Ok::<Resp, ErrorData>(x.result), x.id)),
            JsonRpcMessage::Error(x) => Some((Err::<Resp, ErrorData>(x.error), x.id)),
            _ => None,
        }) == Some((Ok::<Resp, ErrorData>(p), id)),
        (match JsonRpcMessage::<Req, Resp, Not>::Error(JsonRpcError { jsonrpc: JsonRpcVersion2_0, id, error: e }) {
            JsonRpcMessage::Response(x) => Some((Ok::<Resp, ErrorData>(x.result), x.id)),
            JsonRpcMessage::Error(x) => Some((Err::<Resp, ErrorData>(x.error), x.id)),
            _ => None,
        }) == Some((Err::<Resp, ErrorData>(e), id)),
        (match JsonRpcMessage::<Req, Resp, Not>::Notification(JsonRpcNotification { jsonrpc: JsonRpcVersion2_0, notification: n }) {
            JsonRpcMessage::Notification(x) => Some(x.notification),
            _ => None,
        }) == Some(n),
{
}

} // verus!
