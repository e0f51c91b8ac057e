//! A client for the first-generation MCP crates: the state it keeps about a
//! server, how it frames requests and reads their answers, and how its stdio
//! transport pairs answers with the requests that wait for them.
use vstd::prelude::*;

use std::sync::Arc;
use std::time::Duration;
use tower::timeout::Timeout;

use crate::assoc::AssocList;
use crate::json::{empty_object, json_object, json_string, put, JsonObject, JsonValue};
use crate::mcp_core::protocol::{
    Implementation, InitializeResult, JsonRpcError, JsonRpcMessage, JsonRpcNotification, JsonRpcRequest,
    JsonRpcResponse, ListResourcesResult, ListToolsResult, ServerCapabilities, METHOD_NOT_FOUND,
};
use crate::text::{concat, decimal, decimal_string, signed_decimal, signed_decimal_string};

verus! {

/// Why a client operation failed. Causes that come from outside the client
/// (the transport, serialisation, the service) are carried as their text.
#[derive(Debug, PartialEq)]
pub enum Error {
    Transport(String),
    RpcError { code: i32, message: String },
    Serialization(String),
    UnexpectedResponse(String),
    NotInitialized,
    NotReady,
    Timeout,
    ServerBoxError(String),
    McpServerError { method: String, server: String, source: String },
}

/// The text of a client error.
pub open spec fn client_error_text(e: Error) -> Seq<char> {
    match e {
        Error::Transport(s) => "Transport error: "@ + s@,
        Error::RpcError { code, message } => "RPC error: code="@ + signed_decimal(code as int) + ", message="@
            + message@,
        Error::Serialization(s) => "Serialization error: "@ + s@,
        Error::UnexpectedResponse(s) => "Unexpected response from server: "@ + s@,
        Error::NotInitialized => "Not initialized"@,
        Error::NotReady => "Timeout or service not ready"@,
        Error::Timeout => "Request timed out"@,
        Error::ServerBoxError(s) => "Error from mcp-server: "@ + s@,
        Error::McpServerError { method, server, source } => "Call to '"@ + server@ + "' failed for '"@ + method@
            + "'. "@ + source@,
    }
}

impl Error {
    /// The text of the error (what `Display` writes).
    pub fn to_string(&self) -> (r: String)
        ensures
            r@ == client_error_text(*self),
    {
        match self {
            Error::Transport(s) => concat("Transport error: ", s.as_str()),
            Error::RpcError { code, message } => {
                let a = concat("RPC error: code=", signed_decimal_string(*code as i64).as_str());
                let b = concat(a.as_str(), ", message=");
                concat(b.as_str(), message.as_str())
            },
            Error::Serialization(s) => concat("Serialization error: ", s.as_str()),
            Error::UnexpectedResponse(s) => concat("Unexpected response from server: ", s.as_str()),
            Error::NotInitialized => "Not initialized".to_owned(),
            Error::NotReady => "Timeout or service not ready".to_owned(),
            Error::Timeout => "Request timed out".to_owned(),
            Error::ServerBoxError(s) => concat("Error from mcp-server: ", s.as_str()),
            Error::McpServerError { method, server, source } => {
                let a = concat("Call to '", server.as_str());
                let b = concat(a.as_str(), "' failed for '");
                let c = concat(b.as_str(), method.as_str());
                let d = concat(c.as_str(), "'. ");
                concat(d.as_str(), source.as_str())
            },
        }
    }
}

/// How a client introduces itself.
#[derive(Debug, Clone, PartialEq)]
pub struct ClientInfo {
    pub name: String,
    pub version: String,
}

/// What a client supports: nothing beyond the base protocol yet.
#[derive(Debug, Clone, Copy, PartialEq, Eq, Default)]
pub struct ClientCapabilities {}

/// What a client sends to initialize a connection.
#[derive(Debug, Clone, PartialEq)]
pub struct InitializeParams {
    pub protocol_version: String,
    pub capabilities: ClientCapabilities,
    pub client_info: ClientInfo,
}

/// The protocol version this client announces.
pub open spec fn client_protocol_version() -> Seq<char> {
    "1.0.0"@
}

/// The parameters of the `initialize` request.
pub fn initialize_params(info: ClientInfo, capabilities: ClientCapabilities) -> (r: InitializeParams)
    ensures
        r.protocol_version@ == client_protocol_version(),
        r.capabilities == capabilities,
        r.client_info == info,
{
    InitializeParams { protocol_version: "1.0.0".to_owned(), capabilities, client_info: info }
}

/// An MCP client: a service that carries its messages, the id of its next
/// request, and what the server told it at initialization.
pub struct McpClient<S> {
    service: S,
    next_id: u64,
    server_capabilities: Option<ServerCapabilities>,
    server_info: Option<Implementation>,
}

/// What a client operation does next: fail, finish without asking the
/// server, or send a request with this method and these parameters.
#[derive(Debug, PartialEq)]
pub enum ClientStep<R> {
    Fail(Error),
    Done(R),
    Send { method: String, params: JsonValue },
}

impl<S> McpClient<S> {
    pub closed spec fn spec_next_id(&self) -> u64 {
        self.next_id
    }

    pub closed spec fn spec_capabilities(&self) -> Option<ServerCapabilities> {
        self.server_capabilities
    }

    pub closed spec fn spec_server_info(&self) -> Option<Implementation> {
        self.server_info
    }

    pub closed spec fn spec_service(&self) -> S {
        self.service
    }

    /// The state is well formed: request ids start at 1.
    pub closed spec fn wf(&self) -> bool {
        self.next_id >= 1
    }

    /// A client that has sent nothing yet.
    pub fn new(service: S) -> (r: Self)
        ensures
            r.wf(),
            r.spec_next_id() == 1,
            r.spec_capabilities() is None,
            r.spec_server_info() is None,
            r.spec_service() == service,
    {
        McpClient { service, next_id: 1, server_capabilities: None, server_info: None }
    }

    /// The service that carries the client's messages.
    pub fn service(&self) -> (r: &S)
        ensures
            *r == self.spec_service(),
    {
        &self.service
    }

    /// Whether initialization has completed.
    pub fn completed_initialization(&self) -> (r: bool)
        ensures
            r == self.spec_capabilities() is Some,
    {
        self.server_capabilities.is_some()
    }

    /// The server's name, or the empty text before initialization.
    pub fn server_name(&self) -> (r: String)
        ensures
            r@ == match self.spec_server_info() {
                Some(i) => i.name@,
                None => Seq::<char>::empty(),
            },
    {
        match &self.server_info {
            Some(i) => i.name.clone(),
            None => String::new(),
        }
    }

    /// The error for a failed call of `method` on the service, naming the
    /// server (empty before initialization) and the cause.
    pub fn service_error(&self, method: &str, source: String) -> (r: Error)
        ensures
            r matches Error::McpServerError { method: m, server, source: s } && m@ == method@ && s == source
                && server@ == match self.spec_server_info() {
                Some(i) => i.name@,
                None => Seq::<char>::empty(),
            },
    {
        Error::McpServerError { method: method.to_owned(), server: self.server_name(), source }
    }

    /// Frames a request under the next id, which it takes.
    pub fn next_request(&mut self, method: &str, params: JsonValue) -> (r: JsonRpcMessage)
        requires
            old(self).wf(),
            old(self).spec_next_id() < u64::MAX,
        ensures
            final(self).wf(),
            final(self).spec_next_id() == old(self).spec_next_id() + 1,
            final(self).spec_capabilities() == old(self).spec_capabilities(),
            final(self).spec_server_info() == old(self).spec_server_info(),
            final(self).spec_service() == old(self).spec_service(),
            r matches JsonRpcMessage::Request(q) && q.jsonrpc@ == "2.0"@ && q.id == Some(old(self).spec_next_id())
                && q.method@ == method@ && q.params == Some(params),
    {
        let id = self.next_id;
        self.next_id = self.next_id + 1;
        JsonRpcMessage::Request(
            JsonRpcRequest { jsonrpc: "2.0".to_owned(), id: Some(id), method: method.to_owned(), params: Some(params) },
        )
    }

    /// Frames a request under the next id, as [`Self::next_request`] does, where
    /// an id is left; `None`, with nothing changed, once the ids are used up.
    pub fn try_next_request(&mut self, method: &str, params: JsonValue) -> (r: Option<JsonRpcMessage>)
        requires
            old(self).wf(),
        ensures
            final(self).wf(),
            old(self).spec_next_id() == u64::MAX <==> r is None,
            r is None ==> *final(self) == *old(self),
            r is Some ==> final(self).spec_next_id() == old(self).spec_next_id() + 1,
            final(self).spec_capabilities() == old(self).spec_capabilities(),
            final(self).spec_server_info() == old(self).spec_server_info(),
            final(self).spec_service() == old(self).spec_service(),
            r matches Some(JsonRpcMessage::Request(q)) ==> q.jsonrpc@ == "2.0"@ && q.id == Some(
                old(self).spec_next_id(),
            ) && q.method@ == method@ && q.params == Some(params),
            r matches Some(m) ==> m is Request,
    {
        if self.next_id == u64::MAX {
            None
        } else {
            Some(self.next_request(method, params))
        }
    }

    /// Reads the answer to the request last framed: its result, or why it is refused.
    pub fn read_response(&self, msg: JsonRpcMessage) -> (r: Result<JsonValue, Error>)
        requires
            self.wf(),
        ensures
            match msg {
                JsonRpcMessage::Response(resp) => if resp.id != Some((self.spec_next_id() - 1) as u64) {
                    r matches Err(Error::UnexpectedResponse(m)) && m@ == "id mismatch for JsonRpcResponse"@
                } else if resp.error is Some {
                    r == Err::<JsonValue, Error>(
                        Error::RpcError { code: resp.error.unwrap().code, message: resp.error.unwrap().message },
                    )
                } else if resp.result is Some {
                    r == Ok::<JsonValue, Error>(resp.result.unwrap())
                } else {
                    r matches Err(Error::UnexpectedResponse(m)) && m@ == "missing result"@
                },
                JsonRpcMessage::Error(e) => if e.id != Some((self.spec_next_id() - 1) as u64) {
                    r matches Err(Error::UnexpectedResponse(m)) && m@ == "id mismatch for JsonRpcError"@
                } else {
                    r == Err::<JsonValue, Error>(Error::RpcError { code: e.error.code, message: e.error.message })
                },
                _ => r matches Err(Error::UnexpectedResponse(m)) && m@ == "unexpected message type"@,
            },
    {
        let expected = self.next_id - 1;
        match msg {
            JsonRpcMessage::Response(resp) => {
                if resp.id != Some(expected) {
                    return Err(Error::UnexpectedResponse("id mismatch for JsonRpcResponse".to_owned()));
                }
                match resp.error {
                    Some(err) => Err(Error::RpcError { code: err.code, message: err.message }),
                    None => match resp.result {
                        Some(r) => Ok(r),
                        None => Err(Error::UnexpectedResponse("missing result".to_owned())),
                    },
                }
            },
            JsonRpcMessage::Error(e) => {
                if e.id != Some(expected) {
                    return Err(Error::UnexpectedResponse("id mismatch for JsonRpcError".to_owned()));
                }
                Err(Error::RpcError { code: e.error.code, message: e.error.message })
            },
            _ => Err(Error::UnexpectedResponse("unexpected message type".to_owned())),
        }
    }

    /// Records what the server said at initialization.
    pub fn complete_initialization(&mut self, result: &InitializeResult)
        ensures
            final(self).spec_capabilities() == Some(result.capabilities),
            final(self).spec_server_info() == Some(result.server_info),
            final(self).spec_next_id() == old(self).spec_next_id(),
            final(self).spec_service() == old(self).spec_service(),
            old(self).wf() ==> final(self).wf(),
    {
        self.server_capabilities = Some(result.capabilities);
        self.server_info = Some(result.server_info.clone());
    }

    /// What listing resources does: fail before initialization, give an
    /// empty list when the server has no resources, else ask for a page.
    pub fn list_resources(&self, next_cursor: Option<String>) -> (r: ClientStep<ListResourcesResult>)
        ensures
            self.spec_capabilities() is None ==> r == ClientStep::<ListResourcesResult>::Fail(Error::NotInitialized),
            self.spec_capabilities() matches Some(c) && c.resources is None ==> (r matches ClientStep::Done(l)
                && l.resources@.len() == 0 && l.next_cursor is None),
            self.spec_capabilities() matches Some(c) && c.resources is Some ==> (r matches ClientStep::Send {
                method,
                params,
            } && method@ == "resources/list"@ && params@ == cursor_params_spec(next_cursor)),
    {
        match &self.server_capabilities {
            None => ClientStep::Fail(Error::NotInitialized),
            Some(c) => {
                if c.resources.is_none() {
                    ClientStep::Done(ListResourcesResult { resources: Vec::new(), next_cursor: None })
                } else {
                    ClientStep::Send { method: "resources/list".to_owned(), params: cursor_params(next_cursor) }
                }
            },
        }
    }

    /// What reading a resource does: fail before initialization or when the
    /// server has no resources, else ask for the URI.
    pub fn read_resource(&self, uri: &str) -> (r: ClientStep<()>)
        ensures
            self.spec_capabilities() is None ==> r == ClientStep::<()>::Fail(Error::NotInitialized),
            self.spec_capabilities() matches Some(c) && c.resources is None ==> (r matches ClientStep::Fail(
                Error::RpcError { code, message },
            ) && code == METHOD_NOT_FOUND && message@ == "Server does not support 'resources' capability"@),
            self.spec_capabilities() matches Some(c) && c.resources is Some ==> (r matches ClientStep::Send {
                method,
                params,
            } && method@ == "resources/read"@ && params@ == crate::json::JsonSpec::Object(
                map![ "uri"@ => crate::json::JsonSpec::String(uri@) ],
            )),
    {
        match &self.server_capabilities {
            None => ClientStep::Fail(Error::NotInitialized),
            Some(c) => {
                if c.resources.is_none() {
                    ClientStep::Fail(
                        Error::RpcError {
                            code: METHOD_NOT_FOUND,
                            message: "Server does not support 'resources' capability".to_owned(),
                        },
                    )
                } else {
                    let mut o = empty_object();
                    put(&mut o, "uri", json_string(uri));
                    let v = json_object(o);
                    assert(v@ == crate::json::JsonSpec::Object(map!["uri"@ => crate::json::JsonSpec::String(uri@)]))
                        by {
                        assert(o.view().map_values(|v: JsonValue| crate::json::json_view(v)) =~= map![
                            "uri"@ => crate::json::JsonSpec::String(uri@),
                        ]);
                    }
                    ClientStep::Send { method: "resources/read".to_owned(), params: v }
                }
            },
        }
    }

    /// What listing tools does: fail before initialization, give an empty
    /// list when the server has no tools, else ask for a page.
    pub fn list_tools(&self, next_cursor: Option<String>) -> (r: ClientStep<ListToolsResult>)
        ensures
            self.spec_capabilities() is None ==> r == ClientStep::<ListToolsResult>::Fail(Error::NotInitialized),
            self.spec_capabilities() matches Some(c) && c.tools is None ==> (r matches ClientStep::Done(l)
                && l.tools@.len() == 0 && l.next_cursor is None),
            self.spec_capabilities() matches Some(c) && c.tools is Some ==> (r matches ClientStep::Send {
                method,
                params,
            } && method@ == "tools/list"@ && params@ == cursor_params_spec(next_cursor)),
    {
        match &self.server_capabilities {
            None => ClientStep::Fail(Error::NotInitialized),
            Some(c) => {
                if c.tools.is_none() {
                    ClientStep::Done(ListToolsResult { tools: Vec::new(), next_cursor: None })
                } else {
                    ClientStep::Send { method: "tools/list".to_owned(), params: cursor_params(next_cursor) }
                }
            },
        }
    }

    /// What calling a tool does: fail before initialization or when the
    /// server has no tools, else ask for the call.
    pub fn call_tool(&self, name: &str, arguments: JsonValue) -> (r: ClientStep<()>)
        ensures
            self.spec_capabilities() is None ==> r == ClientStep::<()>::Fail(Error::NotInitialized),
            self.spec_capabilities() matches Some(c) && c.tools is None ==> (r matches ClientStep::Fail(
                Error::RpcError { code, message },
            ) && code == METHOD_NOT_FOUND && message@ == "Server does not support 'tools' capability"@),
            self.spec_capabilities() matches Some(c) && c.tools is Some ==> (r matches ClientStep::Send {
                method,
                params,
            } && method@ == "tools/call"@ && params@ == crate::json::JsonSpec::Object(
                map![
                    "name"@ => crate::json::JsonSpec::String(name@),
                    "arguments"@ => arguments@,
                ],
            )),
    {
        match &self.server_capabilities {
            None => ClientStep::Fail(Error::NotInitialized),
            Some(c) => {
                if c.tools.is_none() {
                    ClientStep::Fail(
                        Error::RpcError {
                            code: METHOD_NOT_FOUND,
                            message: "Server does not support 'tools' capability".to_owned(),
                        },
                    )
                } else {
                    let ghost a = arguments;
                    let mut o = empty_object();
                    put(&mut o, "name", json_string(name));
                    proof {
                        reveal_strlit("name");
                        reveal_strlit("arguments");
                    }
                    put(&mut o, "arguments", arguments);
                    let v = json_object(o);
                    assert(v@ == crate::json::JsonSpec::Object(
                        map!["name"@ => crate::json::JsonSpec::String(name@), "arguments"@ => a@],
                    )) by {
                        assert(o.view().map_values(|v: JsonValue| crate::json::json_view(v)) =~= map![
                            "name"@ => crate::json::JsonSpec::String(name@),
                            "arguments"@ => a@,
                        ]);
                    }
                    ClientStep::Send { method: "tools/call".to_owned(), params: v }
                }
            },
        }
    }
}

/// The parameters of a paged listing: the cursor, when there is one.
pub open spec fn cursor_params_spec(next_cursor: Option<String>) -> crate::json::JsonSpec {
    match next_cursor {
        Some(c) => crate::json::JsonSpec::Object(map!["cursor"@ => crate::json::JsonSpec::String(c@)]),
        None => crate::json::JsonSpec::Object(Map::empty()),
    }
}

fn cursor_params(next_cursor: Option<String>) -> (r: JsonValue)
    ensures
        r@ == cursor_params_spec(next_cursor),
{
    let mut o = empty_object();
    match next_cursor {
        Some(c) => {
            put(&mut o, "cursor", json_string(c.as_str()));
            let v = json_object(o);
            assert(o.view().map_values(|v: JsonValue| crate::json::json_view(v)) =~= map![
                "cursor"@ => crate::json::JsonSpec::String(c@),
            ]);
            v
        },
        None => {
            let v = json_object(o);
            assert(o.view().map_values(|v: JsonValue| crate::json::json_view(v)) =~= Map::<
                Seq<char>,
                crate::json::JsonSpec,
            >::empty());
            v
        },
    }
}

/// A notification framed as the client sends it.
pub fn notification(method: &str, params: JsonValue) -> (r: JsonRpcMessage)
    ensures
        r matches JsonRpcMessage::Notification(n) && n.jsonrpc@ == "2.0"@ && n.method@ == method@ && n.params
            == Some(params),
{
    JsonRpcMessage::Notification(
        JsonRpcNotification { jsonrpc: "2.0".to_owned(), method: method.to_owned(), params: Some(params) },
    )
}

/// A service that carries messages over a transport.
pub struct McpService<T> {
    inner: Arc<T>,
}

impl<T> McpService<T> {
    pub closed spec fn transport(&self) -> T {
        *self.inner
    }

    pub fn new(transport: T) -> (r: Self)
        ensures
            r.transport() == transport,
    {
        McpService { inner: Arc::new(transport) }
    }

    /// The transport the service sends over.
    pub fn transport_ref(&self) -> (r: &T)
        ensures
            *r == self.transport(),
    {
        &*self.inner
    }
}

/// `tower`'s timeout middleware around a service.
#[verifier::external_type_specification]
#[verifier::external_body]
#[verifier::reject_recursive_types(T)]
pub struct ExTimeout<T>(Timeout<T>);

/// Wraps `inner` with `tower::timeout::Timeout::new`, so that each call that
/// takes longer than `timeout` fails. Nothing is claimed of the result.
#[verifier::external_body]
fn apply_timeout<T>(inner: T, timeout: Duration) -> Timeout<T> {
    Timeout::new(inner, timeout)
}

impl<T> McpService<T> {
    /// A service over `transport` whose calls fail after `timeout`.
    pub fn with_timeout(transport: T, timeout: Duration) -> Timeout<McpService<T>> {
        apply_timeout(McpService::new(transport), timeout)
    }
}

/// A transport that talks to a child process over its stdin and stdout.
pub struct StdioTransport {
    pub command: String,
    pub args: Vec<String>,
    pub env: AssocList<String, String>,
}

impl StdioTransport {
    pub fn new(command: &str, args: Vec<String>, env: AssocList<String, String>) -> (r: Self)
        ensures
            r.command@ == command@,
            r.args == args,
            r.env == env,
    {
        StdioTransport { command: command.to_owned(), args, env }
    }
}

/// The key under which a request waits for its answer: its id in decimal.
pub open spec fn request_key(id: u64) -> Seq<char> {
    decimal(id as nat)
}

/// The key an outgoing message waits under, if it waits: requests with an id do.
pub fn outgoing_key(msg: &JsonRpcMessage) -> (r: Option<String>)
    ensures
        match msg {
            JsonRpcMessage::Request(q) => match q.id {
                Some(id) => r matches Some(k) && k@ == request_key(id),
                None => r is None,
            },
            _ => r is None,
        },
{
    match msg {
        JsonRpcMessage::Request(q) => match q.id {
            Some(id) => Some(decimal_string(id)),
            None => None,
        },
        _ => None,
    }
}

/// The key of the waiting request an incoming message answers, if any:
/// responses and errors that carry an id do.
pub fn incoming_key(msg: &JsonRpcMessage) -> (r: Option<String>)
    ensures
        match msg {
            JsonRpcMessage::Response(p) => match p.id {
                Some(id) => r matches Some(k) && k@ == request_key(id),
                None => r is None,
            },
            JsonRpcMessage::Error(e) => match e.id {
                Some(id) => r matches Some(k) && k@ == request_key(id),
                None => r is None,
            },
            _ => r is None,
        },
{
    match msg {
        JsonRpcMessage::Response(p) => match p.id {
            Some(id) => Some(decimal_string(id)),
            None => None,
        },
        JsonRpcMessage::Error(e) => match e.id {
            Some(id) => Some(decimal_string(id)),
            None => None,
        },
        _ => None,
    }
}

/// An answer reaches exactly the request it answers: the key of an answer
/// with id `a` equals the key of a request with id `q` if and only if `a == q`.
pub proof fn lemma_answer_reaches_its_request(q: u64, a: u64)
    ensures
        request_key(a) == request_key(q) <==> a == q,
{
    if request_key(a) == request_key(q) {
        crate::text::lemma_parse_decimal(a as nat, u64::MAX as nat);
        crate::text::lemma_parse_decimal(q as nat, u64::MAX as nat);
    }
}

/// The error a stdio transport reports when its process ends: what the
/// process wrote to stderr, or a fixed text when it wrote nothing.
pub fn process_exit_message(stderr_text: String, bytes_read: usize) -> (r: String)
    ensures
        bytes_read > 0 ==> r == stderr_text,
        bytes_read == 0 ==> r@ == "Process ended unexpectedly"@,
{
    if bytes_read > 0 {
        stderr_text
    } else {
        "Process ended unexpectedly".to_owned()
    }
}

} // verus!
