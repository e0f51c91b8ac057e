//! The SSE client transport: its settings, and how it finds the endpoint
//! that messages are posted to.
use vstd::prelude::*;

verus! {

/// Settings of an SSE client: where the event stream is, and, if known in
/// advance, where messages go (the server's `endpoint` event is then not
/// awaited). How reconnection is retried is set beside these, in the
/// program that runs the transport.
#[derive(Debug, Clone, PartialEq)]
pub struct SseClientConfig {
    pub sse_endpoint: String,
    pub use_message_endpoint: Option<String>,
}

impl SseClientConfig {
    /// No endpoint yet, and none given for messages.
    pub fn default() -> (r: Self)
        ensures
            r.sse_endpoint@.len() == 0,
            r.use_message_endpoint is None,
    {
        SseClientConfig { sse_endpoint: String::new(), use_message_endpoint: None }
    }
}

/// What an SSE event says of the message endpoint: an `endpoint` event gives
/// its data (empty when it has none); any other event says nothing.
pub fn endpoint_from_event(event: Option<&str>, data: Option<String>) -> (r: Option<String>)
    ensures
        match event {
            Some(e) => if e@ == "endpoint"@ {
                r matches Some(s) && s@ == match data {
                    Some(d) => d@,
                    None => Seq::<char>::empty(),
                }
            } else {
                r is None
            },
            None => r is None,
        },
{
    match event {
        Some(e) => {
            let name = e.to_owned();
            let endpoint = "endpoint".to_owned();
            if name.eq(&endpoint) {
                match data {
                    Some(d) => Some(d),
                    None => Some(String::new()),
                }
            } else {
                None
            }
        },
        None => None,
    }
}

} // verus!
