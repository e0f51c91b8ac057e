//! The service side of a connection: what a server knows of its peer, how it
//! settles the protocol version, the steps of its initialization handshake,
//! and how it reads the answer to an elicitation.
use vstd::prelude::*;

use crate::json::JsonValue;
use crate::model::version::ProtocolVersion;
use crate::model::{ClientInfo, ErrorData};
use crate::text::{chars_of, compare_chars, text_compare};

verus! {

/// The server's side of a connection.
#[derive(Debug, Clone, Copy, PartialEq, Eq, Default)]
pub struct RoleServer;

/// The other side of a connection, as one side sees it: what it said of
/// itself when it initialized, if it has.
pub struct Peer<R> {
    pub role: R,
    pub peer_info: Option<ClientInfo>,
}

impl Peer<RoleServer> {
    /// A server's view of a client that described itself with `peer_info`.
    pub fn new(peer_info: Option<ClientInfo>) -> (r: Self)
        ensures
            r.peer_info == peer_info,
    {
        Peer { role: RoleServer, peer_info }
    }

    /// What the client said of itself when it initialized.
    pub fn peer_info(&self) -> (r: Option<&ClientInfo>)
        ensures
            match self.peer_info {
                Some(i) => r == Some(&i),
                None => r is None,
            },
    {
        match &self.peer_info {
            Some(i) => Some(i),
            None => None,
        }
    }

    /// Whether the client declared the elicitation capability when it initialized.
    pub fn supports_elicitation(&self) -> (r: bool)
        ensures
            r == (self.peer_info matches Some(i) && i.capabilities.elicitation is Some),
    {
        match &self.peer_info {
            Some(i) => i.capabilities.elicitation.is_some(),
            None => false,
        }
    }

    /// Refuses to elicit from a client that did not declare the capability.
    pub fn check_elicitation(&self) -> (r: Result<(), ElicitationError>)
        ensures
            r is Ok <==> (self.peer_info matches Some(i) && i.capabilities.elicitation is Some),
            r matches Err(e) ==> e == ElicitationError::CapabilityNotSupported,
    {
        if self.supports_elicitation() {
            Ok(())
        } else {
            Err(ElicitationError::CapabilityNotSupported)
        }
    }
}

/// What the user did with an elicitation request.
#[derive(Debug, Clone, Copy, PartialEq, Eq, Structural)]
pub enum ElicitationAction {
    Accept,
    Decline,
    Cancel,
}

/// Why an elicitation gave no data. A failure of the service or of parsing
/// the data is carried as its text.
#[derive(Debug, PartialEq)]
pub enum ElicitationError {
    Service(String),
    UserDeclined,
    UserCancelled,
    ParseError { error: String, data: JsonValue },
    NoContent,
    CapabilityNotSupported,
}

/// The data an elicitation answer carries for parsing, or why there is none:
/// an accepted answer must carry content; a declined or cancelled one fails.
pub fn elicitation_content(action: ElicitationAction, content: Option<JsonValue>) -> (r: Result<
    JsonValue,
    ElicitationError,
>)
    ensures
        match action {
            ElicitationAction::Accept => match content {
                Some(v) => r == Ok::<JsonValue, ElicitationError>(v),
                None => r == Err::<JsonValue, ElicitationError>(ElicitationError::NoContent),
            },
            ElicitationAction::Decline => r == Err::<JsonValue, ElicitationError>(ElicitationError::UserDeclined),
            ElicitationAction::Cancel => r == Err::<JsonValue, ElicitationError>(ElicitationError::UserCancelled),
        },
{
    match action {
        ElicitationAction::Accept => match content {
            Some(v) => Ok(v),
            None => Err(ElicitationError::NoContent),
        },
        ElicitationAction::Decline => Err(ElicitationError::UserDeclined),
        ElicitationAction::Cancel => Err(ElicitationError::UserCancelled),
    }
}

/// The protocol version a server answers with: the client's when it comes
/// before the server's own, else the server's.
pub open spec fn negotiated_version(client: Seq<char>, server: Seq<char>) -> Seq<char> {
    if text_compare(client, server) < 0 {
        client
    } else {
        server
    }
}

/// Settles the protocol version of a connection.
pub fn negotiate_protocol_version(client: &ProtocolVersion, server: ProtocolVersion) -> (r: ProtocolVersion)
    ensures
        r.0@ == negotiated_version(client.0@, server.0@),
{
    let a = chars_of(client.0.as_str());
    let b = chars_of(server.0.as_str());
    if compare_chars(a.as_slice(), b.as_slice()) < 0 {
        client.clone()
    } else {
        server
    }
}

/// The settled version is one of the two offered, and no later than either.
pub proof fn lemma_negotiated_version_is_earliest(client: Seq<char>, server: Seq<char>)
    ensures
        negotiated_version(client, server) == client || negotiated_version(client, server) == server,
        text_compare(negotiated_version(client, server), client) <= 0,
        text_compare(negotiated_version(client, server), server) <= 0,
{
    crate::text::lemma_text_compare_order(client, server, server);
    crate::text::lemma_text_compare_order(server, client, client);
}

/// Where a server is in its initialization handshake.
#[derive(Debug, PartialEq)]
pub enum InitStage {
    /// Waiting for the client's `initialize` request.
    ExpectRequest,
    /// Waiting for the service's answer to it.
    ExpectResult,
    /// Sending the initialize result to the client.
    SendingResult,
    /// Sending the service's error to the client.
    SendingError(ErrorData),
    /// Waiting for the client's `initialized` notification.
    ExpectNotification,
    /// Initialized: the service now serves the connection.
    Serving,
    /// The handshake failed.
    Failed,
}

/// What happened while the server waited.
#[derive(Debug, PartialEq)]
pub enum InitEvent {
    /// The transport closed.
    Closed,
    /// A request arrived; whether it is `initialize`.
    Request { initialize: bool },
    /// A notification arrived; whether it is `initialized`.
    Notification { initialized: bool },
    /// A response or an error arrived.
    OtherMessage,
    /// The service answered the request with an initialize result.
    InitializeResult,
    /// The service answered it with another result.
    OtherResult,
    /// The service failed on it with this error.
    ServiceError(ErrorData),
    /// The transport took the message being sent (`ok`), or failed to.
    Sent { ok: bool },
    /// The handshake's cancellation token fired.
    Cancelled,
}

/// Which message the server was sending when its transport failed.
#[derive(Debug, Clone, Copy, PartialEq, Eq, Structural)]
pub enum SendContext {
    ErrorResponse,
    InitializeResponse,
}

/// The text that says when the transport failed.
pub open spec fn send_context_text(c: SendContext) -> Seq<char> {
    match c {
        SendContext::ErrorResponse => "sending error response"@,
        SendContext::InitializeResponse => "sending initialize response"@,
    }
}

impl SendContext {
    /// The text that says when the transport failed.
    pub fn to_string(&self) -> (r: String)
        ensures
            r@ == send_context_text(*self),
    {
        match self {
            SendContext::ErrorResponse => "sending error response".to_owned(),
            SendContext::InitializeResponse => "sending initialize response".to_owned(),
        }
    }
}

/// Why a handshake failed.
#[derive(Debug, PartialEq)]
pub enum InitFailure {
    /// The transport closed while waiting for the request.
    ClosedBeforeRequest,
    /// The transport closed while waiting for the notification.
    ClosedBeforeNotification,
    ExpectedInitializeRequest,
    ExpectedInitializedNotification,
    UnexpectedInitializeResponse,
    /// The service failed on the initialize request with this error, which
    /// was sent to the client.
    InitializeFailed(ErrorData),
    /// The transport failed while the server sent this message.
    TransportError(SendContext),
    /// The handshake was cancelled.
    Cancelled,
    /// An event that cannot come at this stage.
    OutOfOrder,
}

/// What the server does on an event.
#[derive(Debug, PartialEq)]
pub enum InitAction {
    /// Hand the request to the service.
    CallService,
    /// Send the initialize result, with the settled version.
    SendResult,
    /// Send the service's error, which the new stage holds, to the client under
    /// the request's id.
    SendError,
    /// Wait for the client's `initialized` notification.
    AwaitNotification,
    /// Hand the notification to the service and serve the connection.
    Serve,
    /// Fail.
    Fail(InitFailure),
}

/// The next stage and action of the handshake.
pub open spec fn init_transition(stage: InitStage, event: InitEvent) -> (InitStage, InitAction) {
    match (stage, event) {
        (InitStage::Failed, _) => (InitStage::Failed, InitAction::Fail(InitFailure::OutOfOrder)),
        (_, InitEvent::Cancelled) => (InitStage::Failed, InitAction::Fail(InitFailure::Cancelled)),
        (InitStage::ExpectRequest, InitEvent::Closed) => (
            InitStage::Failed,
            InitAction::Fail(InitFailure::ClosedBeforeRequest),
        ),
        (InitStage::ExpectRequest, InitEvent::Request { initialize: true }) => (
            InitStage::ExpectResult,
            InitAction::CallService,
        ),
        (InitStage::ExpectRequest, InitEvent::Request { initialize: false })
        | (InitStage::ExpectRequest, InitEvent::Notification { .. })
        | (InitStage::ExpectRequest, InitEvent::OtherMessage) => (
            InitStage::Failed,
            InitAction::Fail(InitFailure::ExpectedInitializeRequest),
        ),
        (InitStage::ExpectResult, InitEvent::InitializeResult) => (InitStage::SendingResult, InitAction::SendResult),
        (InitStage::ExpectResult, InitEvent::OtherResult) => (
            InitStage::Failed,
            InitAction::Fail(InitFailure::UnexpectedInitializeResponse),
        ),
        (InitStage::ExpectResult, InitEvent::ServiceError(e)) => (InitStage::SendingError(e), InitAction::SendError),
        (InitStage::SendingResult, InitEvent::Sent { ok: true }) => (
            InitStage::ExpectNotification,
            InitAction::AwaitNotification,
        ),
        (InitStage::SendingResult, InitEvent::Sent { ok: false }) => (
            InitStage::Failed,
            InitAction::Fail(InitFailure::TransportError(SendContext::InitializeResponse)),
        ),
        (InitStage::SendingError(e), InitEvent::Sent { ok: true }) => (
            InitStage::Failed,
            InitAction::Fail(InitFailure::InitializeFailed(e)),
        ),
        (InitStage::SendingError(_), InitEvent::Sent { ok: false }) => (
            InitStage::Failed,
            InitAction::Fail(InitFailure::TransportError(SendContext::ErrorResponse)),
        ),
        (InitStage::ExpectNotification, InitEvent::Closed) => (
            InitStage::Failed,
            InitAction::Fail(InitFailure::ClosedBeforeNotification),
        ),
        (InitStage::ExpectNotification, InitEvent::Notification { initialized: true }) => (
            InitStage::Serving,
            InitAction::Serve,
        ),
        (InitStage::ExpectNotification, InitEvent::Notification { initialized: false })
        | (InitStage::ExpectNotification, InitEvent::Request { .. })
        | (InitStage::ExpectNotification, InitEvent::OtherMessage) => (
            InitStage::Failed,
            InitAction::Fail(InitFailure::ExpectedInitializedNotification),
        ),
        _ => (InitStage::Failed, InitAction::Fail(InitFailure::OutOfOrder)),
    }
}
/// One step of a server's initialization handshake.
pub fn init_step(stage: InitStage, event: InitEvent) -> (r: (InitStage, InitAction))
    ensures
        r == init_transition(stage, event),
{
    match (stage, event) {
        (InitStage::Failed, _) => (InitStage::Failed, InitAction::Fail(InitFailure::OutOfOrder)),
        (_, InitEvent::Cancelled) => (InitStage::Failed, InitAction::Fail(InitFailure::Cancelled)),
        (InitStage::ExpectRequest, InitEvent::Closed) => (
            InitStage::Failed,
            InitAction::Fail(InitFailure::ClosedBeforeRequest),
        ),
        (InitStage::ExpectRequest, InitEvent::Request { initialize: true }) => (
            InitStage::ExpectResult,
            InitAction::CallService,
        ),
        (InitStage::ExpectRequest, InitEvent::Request { initialize: false })
        | (InitStage::ExpectRequest, InitEvent::Notification { .. })
        | (InitStage::ExpectRequest, InitEvent::OtherMessage) => (
            InitStage::Failed,
            InitAction::Fail(InitFailure::ExpectedInitializeRequest),
        ),
        (InitStage::ExpectResult, InitEvent::InitializeResult) => (InitStage::SendingResult, InitAction::SendResult),
        (InitStage::ExpectResult, InitEvent::OtherResult) => (
            InitStage::Failed,
            InitAction::Fail(InitFailure::UnexpectedInitializeResponse),
        ),
        (InitStage::ExpectResult, InitEvent::ServiceError(e)) => (InitStage::SendingError(e), InitAction::SendError),
        (InitStage::SendingResult, InitEvent::Sent { ok: true }) => (
            InitStage::ExpectNotification,
            InitAction::AwaitNotification,
        ),
        (InitStage::SendingResult, InitEvent::Sent { ok: false }) => (
            InitStage::Failed,
            InitAction::Fail(InitFailure::TransportError(SendContext::InitializeResponse)),
        ),
        (InitStage::SendingError(e), InitEvent::Sent { ok: true }) => (
            InitStage::Failed,
            InitAction::Fail(InitFailure::InitializeFailed(e)),
        ),
        (InitStage::SendingError(_), InitEvent::Sent { ok: false }) => (
            InitStage::Failed,
            InitAction::Fail(InitFailure::TransportError(SendContext::ErrorResponse)),
        ),
        (InitStage::ExpectNotification, InitEvent::Closed) => (
            InitStage::Failed,
            InitAction::Fail(InitFailure::ClosedBeforeNotification),
        ),
        (InitStage::ExpectNotification, InitEvent::Notification { initialized: true }) => (
            InitStage::Serving,
            InitAction::Serve,
        ),
        (InitStage::ExpectNotification, InitEvent::Notification { initialized: false })
        | (InitStage::ExpectNotification, InitEvent::Request { .. })
        | (InitStage::ExpectNotification, InitEvent::OtherMessage) => (
            InitStage::Failed,
            InitAction::Fail(InitFailure::ExpectedInitializedNotification),
        ),
        _ => (InitStage::Failed, InitAction::Fail(InitFailure::OutOfOrder)),
    }
}

/// A server serves only after the four steps in order: an `initialize`
/// request, an initialize result from its service, that result sent, an
/// `initialized` notification; any other event, at any stage, ends in failure,
/// and a failed handshake stays failed.
pub proof fn lemma_serving_needs_full_handshake(e1: InitEvent, e2: InitEvent, e3: InitEvent, e4: InitEvent)
    ensures
        ({
            let (s1, _) = init_transition(InitStage::ExpectRequest, e1);
            let (s2, _) = init_transition(s1, e2);
            let (s3, _) = init_transition(s2, e3);
            let (s4, _) = init_transition(s3, e4);
            s4 == InitStage::Serving <==> (e1 == InitEvent::Request { initialize: true } && e2
                == InitEvent::InitializeResult && e3 == InitEvent::Sent { ok: true } && e4 == InitEvent::Notification {
                initialized: true,
            })
        }),
        forall|e: InitEvent| #[trigger] init_transition(InitStage::Failed, e).0 == InitStage::Failed,
{
}

/// When the service fails on the initialize request, its error is sent to the
/// client, and the handshake then fails with that error, or with the
/// transport's failure when the send failed.
pub proof fn lemma_initialize_failure_reports_the_error(e: ErrorData, ok: bool)
    ensures
        init_transition(InitStage::ExpectResult, InitEvent::ServiceError(e)) == (
            InitStage::SendingError(e),
            InitAction::SendError,
        ),
        init_transition(InitStage::SendingError(e), InitEvent::Sent { ok }) == (InitStage::Failed, InitAction::Fail(
            if ok {
                InitFailure::InitializeFailed(e)
            } else {
                InitFailure::TransportError(SendContext::ErrorResponse)
            },
        )),
{
}

} // verus!
