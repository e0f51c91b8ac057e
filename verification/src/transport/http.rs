//! What the streamable HTTP server answers: which session a request goes to,
//! and the status and text of each refusal.
use vstd::prelude::*;

use super::session::{event_id_error_text, parse_event_id, EventId};
use crate::text::concat;

verus! {

/// A refusal: an HTTP status and its text.
#[derive(Debug, PartialEq)]
pub struct HttpReply {
    pub status: u16,
    pub body: String,
}

/// Where a POST goes.
#[derive(Debug, PartialEq)]
pub enum PostRoute {
    /// A request (or batch) of the session: open a stream for its answers.
    OpenRequestStream(String),
    /// A notification or response of the session: forward it.
    Forward(String),
    /// No session yet: the message must initialize a new one.
    Initialize,
}

/// Routes a POST: `header` is the session id header, `Err` with its
/// conversion error's text where it is not text; `known` says whether the
/// session exists; `is_request` whether the message is a request or batch.
pub fn post_route(header: Option<Result<String, String>>, known: bool, is_request: bool) -> (r: Result<
    PostRoute,
    HttpReply,
>)
    ensures
        match header {
            None => r == Ok::<PostRoute, HttpReply>(PostRoute::Initialize),
            Some(Err(e)) => r matches Err(h) && h.status == 400 && h.body == e,
            Some(Ok(id)) => if !known {
                r matches Err(h) && h.status == 404 && h.body@ == "session not found"@
            } else if is_request {
                r == Ok::<PostRoute, HttpReply>(PostRoute::OpenRequestStream(id))
            } else {
                r == Ok::<PostRoute, HttpReply>(PostRoute::Forward(id))
            },
        },
{
    match header {
        None => Ok(PostRoute::Initialize),
        Some(Err(e)) => Err(HttpReply { status: 400, body: e }),
        Some(Ok(id)) => {
            if !known {
                Err(HttpReply { status: 404, body: "session not found".to_owned() })
            } else if is_request {
                Ok(PostRoute::OpenRequestStream(id))
            } else {
                Ok(PostRoute::Forward(id))
            }
        },
    }
}

/// Opening the stream for a request failed.
pub fn request_stream_failed(cause: &str) -> (r: HttpReply)
    ensures
        r.status == 500,
        r.body@ == "fail to to establish request channel: "@ + cause@,
{
    HttpReply { status: 500, body: concat("fail to to establish request channel: ", cause) }
}

/// Handing a request to the session failed.
pub fn push_failed(cause: &str) -> (r: HttpReply)
    ensures
        r.status == 500,
        r.body@ == "fail to push message: "@ + cause@,
{
    HttpReply { status: 500, body: concat("fail to push message: ", cause) }
}

/// The session is gone.
pub fn session_terminated() -> (r: HttpReply)
    ensures
        r.status == 410,
        r.body@ == "session terminated"@,
{
    HttpReply { status: 410, body: "session terminated".to_owned() }
}

/// Initializing a new session failed.
pub fn initialize_failed(cause: &str) -> (r: HttpReply)
    ensures
        r.status == 500,
        r.body@ == "fail to initialize: "@ + cause@,
{
    HttpReply { status: 500, body: concat("fail to initialize: ", cause) }
}

/// Where a GET goes: a resumed stream from an event, or the common stream.
#[derive(Debug, PartialEq)]
pub enum GetRoute {
    Resume { session: String, from: EventId },
    Common { session: String },
}

/// Routes a GET: `header` is the session id header where it is text, `known`
/// whether the session exists, `last_event_id` the last event the client saw.
pub fn get_route(header: Option<String>, known: bool, last_event_id: Option<&str>) -> (r: Result<
    GetRoute,
    HttpReply,
>)
    ensures
        match header {
            None => r matches Err(h) && h.status == 400 && h.body@ == "missing session id"@,
            Some(id) => if !known {
                r matches Err(h) && h.status == 404 && h.body@ == "session "@ + id@ + " not found"@
            } else {
                match last_event_id {
                    None => r == Ok::<GetRoute, HttpReply>(GetRoute::Common { session: id }),
                    Some(t) => match parse_event_id(t@) {
                        Ok(e) => r == Ok::<GetRoute, HttpReply>(GetRoute::Resume { session: id, from: e }),
                        Err(e) => r matches Err(h) && h.status == 400 && h.body@ == "invalid event_id "@
                            + event_id_error_text(e),
                    },
                }
            },
        },
{
    let id = match header {
        None => {
            return Err(HttpReply { status: 400, body: "missing session id".to_owned() });
        },
        Some(id) => id,
    };
    if !known {
        let head = concat("session ", id.as_str());
        return Err(HttpReply { status: 404, body: concat(head.as_str(), " not found") });
    }
    match last_event_id {
        None => Ok(GetRoute::Common { session: id }),
        Some(t) => match EventId::from_str(t) {
            Ok(e) => Ok(GetRoute::Resume { session: id, from: e }),
            Err(e) => Err(HttpReply { status: 400, body: concat("invalid event_id ", e.to_string().as_str()) }),
        },
    }
}

/// Resuming a stream failed.
pub fn resume_failed(cause: &str) -> (r: HttpReply)
    ensures
        r.status == 500,
        r.body@ == "resume error "@ + cause@,
{
    HttpReply { status: 500, body: concat("resume error ", cause) }
}

/// Opening the common stream failed.
pub fn common_stream_failed(cause: &str) -> (r: HttpReply)
    ensures
        r.status == 500,
        r.body@ == "establish common channel error "@ + cause@,
{
    HttpReply { status: 500, body: concat("establish common channel error ", cause) }
}

/// Routes a DELETE: the session to close, or the refusal.
pub fn delete_route(header: Option<Result<String, String>>, known: bool) -> (r: Result<String, HttpReply>)
    ensures
        match header {
            None => r matches Err(h) && h.status == 400 && h.body@ == "missing session id"@,
            Some(Err(e)) => r matches Err(h) && h.status == 400 && h.body == e,
            Some(Ok(id)) => if known {
                r == Ok::<String, HttpReply>(id)
            } else {
                r matches Err(h) && h.status == 404 && h.body@ == "session not found"@
            },
        },
{
    match header {
        None => Err(HttpReply { status: 400, body: "missing session id".to_owned() }),
        Some(Err(e)) => Err(HttpReply { status: 400, body: e }),
        Some(Ok(id)) => if known {
            Ok(id)
        } else {
            Err(HttpReply { status: 404, body: "session not found".to_owned() })
        },
    }
}

/// Closing a session failed.
pub fn close_failed(session: &str, cause: &str) -> (r: HttpReply)
    ensures
        r.status == 500,
        r.body@ == "fail to cancel session "@ + session@ + ": tokio join error: "@ + cause@,
{
    let a = concat("fail to cancel session ", session);
    let b = concat(a.as_str(), ": tokio join error: ");
    HttpReply { status: 500, body: concat(b.as_str(), cause) }
}

/// A message was taken in: 202 with no body.
pub fn accepted() -> (r: HttpReply)
    ensures
        r.status == 202,
        r.body@.len() == 0,
{
    HttpReply { status: 202, body: String::new() }
}

/// The client sent another kind of message than the one expected.
pub fn unexpected_message(expect: &str) -> (r: HttpReply)
    ensures
        r.status == 422,
        r.body@ == "Unexpected message, expect "@ + expect@,
{
    HttpReply { status: 422, body: concat("Unexpected message, expect ", expect) }
}

/// The server failed while doing `context`.
pub fn internal_error(context: &str, error: &str) -> (r: HttpReply)
    ensures
        r.status == 500,
        r.body@ == "Encounter an error when "@ + context@ + ": "@ + error@,
{
    let a = concat("Encounter an error when ", context);
    let b = concat(a.as_str(), ": ");
    HttpReply { status: 500, body: concat(b.as_str(), error) }
}

/// A request body that is not a JSON-RPC message.
pub fn body_not_a_message(cause: &str) -> (r: HttpReply)
    ensures
        r.status == 415,
        r.body@ == "fail to deserialize request body "@ + cause@,
{
    HttpReply { status: 415, body: concat("fail to deserialize request body ", cause) }
}

/// A request body that could not be read.
pub fn body_unreadable(cause: &str) -> (r: HttpReply)
    ensures
        r.status == 500,
        r.body@ == "Failed to read request body: "@ + cause@,
{
    HttpReply { status: 500, body: concat("Failed to read request body: ", cause) }
}

} // verus!
