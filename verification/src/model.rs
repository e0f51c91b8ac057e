//! Basic data types of the MCP specification.
use vstd::prelude::*;

use crate::assoc::{AssocList, KeyEq};
use crate::json::JsonValue;
use crate::mcp_core::resource::ResourceContents;
use crate::text::{concat, decimal, decimal_string};

pub mod content;
pub mod jsonrpc;
pub mod methods;
pub mod version;

pub use version::ProtocolVersion;

verus! {

/// A type that stands for one fixed string, such as a method name.
pub trait ConstString: Default {
    /// The string the type stands for.
    spec fn spec_value() -> Seq<char>;

    /// The string the type stands for.
    fn value() -> (r: &'static str)
        ensures
            r@ == Self::spec_value(),
    ;
}

/// The text of the error for a string other than the one a type stands for.
pub open spec fn const_string_error_text(value: Seq<char>) -> Seq<char> {
    "expect const string value \""@ + value + "\""@
}

/// Reads the value of a type that stands for one string: only that string is accepted.
pub fn const_string_from<M: ConstString>(s: &str) -> (r: Result<M, String>)
    ensures
        s@ == M::spec_value() ==> r is Ok,
        s@ != M::spec_value() ==> (r matches Err(e) && e@ == const_string_error_text(M::spec_value())),
{
    let value = M::value();
    let given = s.to_owned();
    let expected = value.to_owned();
    if given.eq(&expected) {
        Ok(M::default())
    } else {
        let head = concat("expect const string value \"", value);
        Err(concat(head.as_str(), "\""))
    }
}

/// A flexible identifier: a number or a string.
#[derive(Debug, PartialEq, Eq, Hash)]
pub enum NumberOrString {
    /// A numeric identifier
    Number(u32),
    /// A string identifier
    String(String),
}

/// The mathematical value of a [`NumberOrString`].
pub enum NumberOrStringView {
    Number(u32),
    String(Seq<char>),
}

impl View for NumberOrString {
    type V = NumberOrStringView;

    open spec fn view(&self) -> NumberOrStringView {
        match self {
            NumberOrString::Number(n) => NumberOrStringView::Number(*n),
            NumberOrString::String(s) => NumberOrStringView::String(s@),
        }
    }
}

impl KeyEq for NumberOrString {
    fn key_eq(&self, other: &Self) -> (r: bool) {
        match (self, other) {
            (NumberOrString::Number(a), NumberOrString::Number(b)) => *a == *b,
            (NumberOrString::String(a), NumberOrString::String(b)) => a.eq(b),
            _ => false,
        }
    }
}

impl NumberOrString {
    /// The identifier as a JSON value.
    pub fn into_json_value(self) -> (r: JsonValue)
        ensures
            match self {
                NumberOrString::Number(n) => r == JsonValue::Number(crate::json::JsonNumber::PosInt(n as u64)),
                NumberOrString::String(s) => r == JsonValue::String(s),
            },
    {
        match self {
            NumberOrString::Number(n) => JsonValue::Number(crate::json::JsonNumber::PosInt(n as u64)),
            NumberOrString::String(s) => JsonValue::String(s),
        }
    }

    /// The text of the identifier (what `Display` writes).
    pub fn to_string(&self) -> (r: String)
        ensures
            match self {
                NumberOrString::Number(n) => r@ == decimal(*n as nat),
                NumberOrString::String(s) => r@ == s@,
            },
    {
        match self {
            NumberOrString::Number(n) => decimal_string(*n as u64),
            NumberOrString::String(s) => s.clone(),
        }
    }

    /// Reads an identifier from JSON: a non-negative integer, kept in 32
    /// bits (higher bits are dropped), or a string.
    pub fn from_json(value: JsonValue) -> (r: Result<Self, String>)
        ensures
            match value {
                JsonValue::Number(crate::json::JsonNumber::PosInt(n)) => r == Ok::<Self, String>(
                    NumberOrString::Number(n as u32),
                ),
                JsonValue::Number(_) => r matches Err(e) && e@ == "Expect an integer"@,
                JsonValue::String(s) => r == Ok::<Self, String>(NumberOrString::String(s)),
                _ => r matches Err(e) && e@ == "Expect number or string"@,
            },
    {
        match value {
            JsonValue::Number(crate::json::JsonNumber::PosInt(n)) => Ok(NumberOrString::Number(n as u32)),
            JsonValue::Number(_) => Err("Expect an integer".to_owned()),
            JsonValue::String(s) => Ok(NumberOrString::String(s)),
            _ => Err("Expect number or string".to_owned()),
        }
    }
}

/// The members of a JSON object value.
pub fn object(value: JsonValue) -> (r: crate::json::JsonObject)
    requires
        value is Object,
    ensures
        value == JsonValue::Object(r),
{
    match value {
        JsonValue::Object(o) => o,
        _ => crate::json::empty_object(),
    }
}

/// Identifier of a JSON-RPC request.
pub type RequestId = NumberOrString;

impl Clone for NumberOrString {
    fn clone(&self) -> (r: Self)
        ensures
            r == *self,
    {
        match self {
            NumberOrString::Number(n) => NumberOrString::Number(*n),
            NumberOrString::String(s) => NumberOrString::String(s.clone()),
        }
    }
}

/// A token that ties progress notifications to the request they report on.
#[derive(Debug, PartialEq, Eq, Hash)]
pub struct ProgressToken(pub NumberOrString);

impl Clone for ProgressToken {
    fn clone(&self) -> (r: Self)
        ensures
            r == *self,
    {
        ProgressToken(self.0.clone())
    }
}

impl View for ProgressToken {
    type V = NumberOrStringView;

    open spec fn view(&self) -> NumberOrStringView {
        self.0@
    }
}

impl KeyEq for ProgressToken {
    fn key_eq(&self, other: &Self) -> (r: bool) {
        self.0.key_eq(&other.0)
    }
}

/// An empty JSON object, the result of requests that return nothing.
#[derive(Debug, Clone, Copy, PartialEq, Eq, Default)]
pub struct EmptyObject {}

/// The result of requests that return nothing.
pub type EmptyResult = EmptyObject;

/// A JSON-RPC error code.
#[derive(Debug, Clone, Copy, PartialEq, Eq, Structural)]
pub struct ErrorCode(pub i32);

/// The standard codes, as the integers an [`ErrorCode`] wraps.
impl ErrorCode {
    pub const RESOURCE_NOT_FOUND: i32 = -32002;
    pub const INVALID_REQUEST: i32 = -32600;
    pub const METHOD_NOT_FOUND: i32 = -32601;
    pub const INVALID_PARAMS: i32 = -32602;
    pub const INTERNAL_ERROR: i32 = -32603;
    pub const PARSE_ERROR: i32 = -32700;
}

/// Error information for JSON-RPC error responses.
#[derive(Debug, PartialEq)]
pub struct ErrorData {
    pub code: ErrorCode,
    pub message: String,
    pub data: Option<JsonValue>,
}

impl ErrorData {
    pub fn new(code: ErrorCode, message: &str, data: Option<JsonValue>) -> (r: Self)
        ensures
            r.code == code,
            r.message@ == message@,
            r.data == data,
    {
        ErrorData { code, message: message.to_owned(), data }
    }

    pub fn resource_not_found(message: &str, data: Option<JsonValue>) -> (r: Self)
        ensures
            r.code == ErrorCode(ErrorCode::RESOURCE_NOT_FOUND),
            r.message@ == message@,
            r.data == data,
    {
        Self::new(ErrorCode(ErrorCode::RESOURCE_NOT_FOUND), message, data)
    }

    pub fn parse_error(message: &str, data: Option<JsonValue>) -> (r: Self)
        ensures
            r.code == ErrorCode(ErrorCode::PARSE_ERROR),
            r.message@ == message@,
            r.data == data,
    {
        Self::new(ErrorCode(ErrorCode::PARSE_ERROR), message, data)
    }

    pub fn invalid_request(message: &str, data: Option<JsonValue>) -> (r: Self)
        ensures
            r.code == ErrorCode(ErrorCode::INVALID_REQUEST),
            r.message@ == message@,
            r.data == data,
    {
        Self::new(ErrorCode(ErrorCode::INVALID_REQUEST), message, data)
    }

    /// The error for a method the receiver does not handle; the message is the method's name.
    pub fn method_not_found<M: ConstString>() -> (r: Self)
        ensures
            r.code == ErrorCode(ErrorCode::METHOD_NOT_FOUND),
            r.message@ == M::spec_value(),
            r.data is None,
    {
        Self::new(ErrorCode(ErrorCode::METHOD_NOT_FOUND), M::value(), None)
    }

    pub fn invalid_params(message: &str, data: Option<JsonValue>) -> (r: Self)
        ensures
            r.code == ErrorCode(ErrorCode::INVALID_PARAMS),
            r.message@ == message@,
            r.data == data,
    {
        Self::new(ErrorCode(ErrorCode::INVALID_PARAMS), message, data)
    }

    pub fn internal_error(message: &str, data: Option<JsonValue>) -> (r: Self)
        ensures
            r.code == ErrorCode(ErrorCode::INTERNAL_ERROR),
            r.message@ == message@,
            r.data == data,
    {
        Self::new(ErrorCode(ErrorCode::INTERNAL_ERROR), message, data)
    }
}

/// A request that carries no parameters, only its method.
#[derive(Debug, Clone, PartialEq)]
pub struct RequestNoParam<M> {
    pub method: M,
}

/// A notification that carries no parameters, only its method.
#[derive(Debug, Clone, PartialEq)]
pub struct NotificationNoParam<M> {
    pub method: M,
}

#[derive(Debug, Clone, PartialEq)]
pub struct CancelledNotificationParam {
    pub request_id: RequestId,
    pub reason: Option<String>,
}

/// A program that speaks MCP: its name and version.
#[derive(Debug, Clone, PartialEq)]
pub struct Implementation {
    pub name: String,
    pub version: String,
}

/// The name of this crate.
pub open spec fn crate_name() -> Seq<char> {
    "rmcp"@
}

/// The version of this package.
pub open spec fn crate_version() -> Seq<char> {
    "0.1.0"@
}

impl Implementation {
    /// This library, as named and versioned at build time.
    pub fn from_build_env() -> (r: Self)
        ensures
            r.name@ == crate_name(),
            r.version@ == crate_version(),
    {
        Implementation { name: "rmcp".to_owned(), version: "0.1.0".to_owned() }
    }
}

impl Default for Implementation {
    fn default() -> (r: Self)
        ensures
            r.name@ == crate_name(),
            r.version@ == crate_version(),
    {
        Self::from_build_env()
    }
}

/// What a client supports; each capability is the JSON object it declared, if any.
#[derive(Debug, PartialEq)]
pub struct ClientCapabilities {
    pub experimental: Option<JsonValue>,
    pub roots: Option<JsonValue>,
    pub sampling: Option<JsonValue>,
    pub elicitation: Option<JsonValue>,
}

/// What a client sends to initialize a connection.
#[derive(Debug, PartialEq)]
pub struct InitializeRequestParam {
    pub protocol_version: ProtocolVersion,
    pub capabilities: ClientCapabilities,
    pub client_info: Implementation,
}

/// A client's own description of itself.
pub type ClientInfo = InitializeRequestParam;

/// A server's answer to initialization; its capabilities are the JSON object it declares.
#[derive(Debug, PartialEq)]
pub struct InitializeResult {
    pub protocol_version: ProtocolVersion,
    pub capabilities: JsonValue,
    pub server_info: Implementation,
    pub instructions: Option<String>,
}

/// A server's own description of itself.
pub type ServerInfo = InitializeResult;

#[derive(Debug, Clone, PartialEq, Default)]
pub struct PaginatedRequestParam {
    pub cursor: Option<String>,
}

#[derive(Debug, Clone, PartialEq)]
pub struct ReadResourceRequestParam {
    pub uri: String,
}

#[derive(Debug, PartialEq)]
pub struct ReadResourceResult {
    pub contents: Vec<ResourceContents>,
}

/// The parameters of a `tools/call` request: the tool's name and the
/// arguments for it.
#[derive(Debug, PartialEq)]
pub struct CallToolRequestParam {
    pub name: String,
    pub arguments: Option<crate::json::JsonObject>,
}

/// The parameters of a `prompts/get` request: the prompt's name and the
/// arguments for it.
#[derive(Debug, PartialEq)]
pub struct GetPromptRequestParam {
    pub name: String,
    pub arguments: Option<crate::json::JsonObject>,
}

/// A log message: its level, the logger that wrote it, and its data.
#[derive(Debug, PartialEq)]
pub struct LoggingMessageNotificationParam {
    pub level: LoggingLevel,
    pub logger: Option<String>,
    pub data: JsonValue,
}

/// One message of a sampling conversation.
#[derive(Debug, PartialEq)]
pub struct SamplingMessage {
    pub role: Role,
    pub content: crate::model::content::Content,
}

/// What a `sampling/createMessage` request is answered: the model that
/// wrote the message, why it stopped, and the message.
#[derive(Debug, PartialEq)]
pub struct CreateMessageResult {
    pub model: String,
    pub stop_reason: Option<String>,
    pub message: SamplingMessage,
}

impl CreateMessageResult {
    pub const STOP_REASON_END_TURN: &'static str = "endTurn";

    pub const STOP_REASON_END_SEQUENCE: &'static str = "stopSequence";

    pub const STOP_REASON_END_MAX_TOKEN: &'static str = "maxTokens";
}

#[derive(Debug, Clone, PartialEq)]
pub struct SubscribeRequestParam {
    pub uri: String,
}

#[derive(Debug, Clone, PartialEq)]
pub struct UnsubscribeRequestParam {
    pub uri: String,
}

#[derive(Debug, Clone, PartialEq)]
pub struct ResourceUpdatedNotificationParam {
    pub uri: String,
}

/// Logging levels, from least to most severe.
#[derive(Debug, Clone, Copy, PartialEq, Eq, Structural)]
pub enum LoggingLevel {
    Debug,
    Info,
    Notice,
    Warning,
    Error,
    Critical,
    Alert,
    Emergency,
}

#[derive(Debug, Clone, Copy, PartialEq, Eq, Structural)]
pub struct SetLevelRequestParam {
    pub level: LoggingLevel,
}

/// A participant in a conversation.
#[derive(Debug, Clone, Copy, PartialEq, Eq, Structural)]
pub enum Role {
    User,
    Assistant,
}

/// How much context a sampling request asks to include.
#[derive(Debug, Clone, Copy, PartialEq, Eq, Structural)]
pub enum ContextInclusion {
    AllServers,
    /// No additional context (`none` on the wire).
    NoContext,
    ThisServer,
}

/// A hint at a preferred model name or family.
#[derive(Debug, Clone, PartialEq)]
pub struct ModelHint {
    pub name: Option<String>,
}

/// A request to complete an argument of a prompt or resource template.
#[derive(Debug, PartialEq)]
pub struct CompleteRequestParam {
    /// What is being completed (`ref` on the wire).
    pub reference: Reference,
    pub argument: ArgumentInfo,
    pub context: Option<CompletionContext>,
}

/// Arguments already resolved, given as context for a completion.
#[derive(Debug, PartialEq)]
pub struct CompletionContext {
    pub arguments: Option<AssocList<String, String>>,
}

impl CompletionContext {
    /// A context without arguments.
    pub fn new() -> (r: Self)
        ensures
            r.arguments is None,
    {
        CompletionContext { arguments: None }
    }

    /// A context with the given arguments.
    pub fn with_arguments(arguments: AssocList<String, String>) -> (r: Self)
        ensures
            r.arguments == Some(arguments),
    {
        CompletionContext { arguments: Some(arguments) }
    }

    /// The value of an argument, if it is given.
    pub fn get_argument(&self, name: &str) -> (r: Option<&String>)
        requires
            self.arguments matches Some(a) ==> a.wf(),
        ensures
            match self.arguments {
                Some(a) => match r {
                    Some(v) => a@.contains_key(name@) && *v == a@[name@],
                    None => !a@.contains_key(name@),
                },
                None => r is None,
            },
    {
        match &self.arguments {
            Some(a) => {
                let k = name.to_owned();
                a.get(&k)
            },
            None => None,
        }
    }

    /// Whether at least one argument is given.
    pub fn has_arguments(&self) -> (r: bool)
        requires
            self.arguments matches Some(a) ==> a.wf(),
        ensures
            r == (self.arguments matches Some(a) && a@ != Map::<Seq<char>, String>::empty()),
    {
        match &self.arguments {
            Some(a) => !a.is_empty(),
            None => false,
        }
    }

    /// The names of the given arguments, in order.
    pub fn argument_names(&self) -> (r: Vec<&str>)
        ensures
            match self.arguments {
                Some(a) => r@.len() == a.entries@.len() && forall|i: int|
                    0 <= i < r@.len() ==> #[trigger] r@[i]@ == a.entries@[i].0@,
                None => r@.len() == 0,
            },
    {
        let mut names: Vec<&str> = Vec::new();
        match &self.arguments {
            Some(a) => {
                let n = a.entries.len();
                for i in 0..n
                    invariant
                        n == a.entries@.len(),
                        names@.len() == i,
                        forall|j: int| 0 <= j < i ==> #[trigger] names@[j]@ == a.entries@[j].0@,
                {
                    names.push(a.entries[i].0.as_str());
                }
            },
            None => {},
        }
        names
    }
}

/// Completion values offered for an argument.
#[derive(Debug, Clone, PartialEq)]
pub struct CompletionInfo {
    pub values: Vec<String>,
    pub total: Option<u32>,
    pub has_more: Option<bool>,
}

/// The text of the error for more completion values than allowed.
pub open spec fn too_many_values_text(n: nat) -> Seq<char> {
    "Too many completion values: "@ + decimal(n) + " (max: 100)"@
}

fn too_many_values(n: usize) -> (r: String)
    ensures
        r@ == too_many_values_text(n as nat),
{
    let head = concat("Too many completion values: ", decimal_string(n as u64).as_str());
    concat(head.as_str(), " (max: 100)")
}

impl CompletionInfo {
    /// The most values one completion may offer.
    pub const MAX_VALUES: usize = 100;

    /// Values without a total or a more-flag; refused when there are too many.
    pub fn new(values: Vec<String>) -> (r: Result<Self, String>)
        ensures
            values@.len() <= 100 ==> r == Ok::<Self, String>(CompletionInfo { values, total: None, has_more: None }),
            values@.len() > 100 ==> (r matches Err(e) && e@ == too_many_values_text(values@.len())),
    {
        if values.len() > Self::MAX_VALUES {
            return Err(too_many_values(values.len()));
        }
        Ok(CompletionInfo { values, total: None, has_more: None })
    }

    /// All the values there are: the total is their count and there are no more.
    pub fn with_all_values(values: Vec<String>) -> (r: Result<Self, String>)
        ensures
            values@.len() <= 100 ==> r == Ok::<Self, String>(
                CompletionInfo { values, total: Some(values@.len() as u32), has_more: Some(false) },
            ),
            values@.len() > 100 ==> (r matches Err(e) && e@ == too_many_values_text(values@.len())),
    {
        let c = Self::new(values)?;
        let n = c.values.len();
        Ok(CompletionInfo { values: c.values, total: Some(n as u32), has_more: Some(false) })
    }

    /// One page of values, with the total and whether more follow.
    pub fn with_pagination(values: Vec<String>, total: Option<u32>, has_more: bool) -> (r: Result<Self, String>)
        ensures
            values@.len() <= 100 ==> r == Ok::<Self, String>(
                CompletionInfo { values, total, has_more: Some(has_more) },
            ),
            values@.len() > 100 ==> (r matches Err(e) && e@ == too_many_values_text(values@.len())),
    {
        let c = Self::new(values)?;
        Ok(CompletionInfo { values: c.values, total, has_more: Some(has_more) })
    }

    /// Whether more values follow; unknown counts as no.
    pub fn has_more_results(&self) -> (r: bool)
        ensures
            r == (self.has_more == Some(true)),
    {
        match self.has_more {
            Some(b) => b,
            None => false,
        }
    }

    /// The total number of values available, if known.
    pub fn total_available(&self) -> (r: Option<u32>)
        ensures
            r == self.total,
    {
        self.total
    }

    /// Refuses a completion with more values than allowed.
    pub fn validate(&self) -> (r: Result<(), String>)
        ensures
            self.values@.len() <= 100 ==> r is Ok,
            self.values@.len() > 100 ==> (r matches Err(e) && e@ == too_many_values_text(self.values@.len())),
    {
        if self.values.len() > Self::MAX_VALUES {
            return Err(too_many_values(self.values.len()));
        }
        Ok(())
    }
}

#[derive(Debug, Clone, PartialEq)]
pub struct CompleteResult {
    pub completion: CompletionInfo,
}

impl Default for CompleteResult {
    fn default() -> (r: Self)
        ensures
            r.completion.values@.len() == 0,
            r.completion.total is None,
            r.completion.has_more is None,
    {
        CompleteResult { completion: CompletionInfo { values: Vec::new(), total: None, has_more: None } }
    }
}

/// What a completion is for: a resource template or a prompt.
#[derive(Debug, Clone, PartialEq)]
pub enum Reference {
    Resource(ResourceReference),
    Prompt(PromptReference),
}

#[derive(Debug, Clone, PartialEq)]
pub struct ResourceReference {
    pub uri: String,
}

#[derive(Debug, Clone, PartialEq)]
pub struct PromptReference {
    pub name: String,
}

impl Reference {
    /// A reference to the prompt `name`.
    pub fn for_prompt(name: &str) -> (r: Self)
        ensures
            r matches Reference::Prompt(p) && p.name@ == name@,
    {
        Reference::Prompt(PromptReference { name: name.to_owned() })
    }

    /// A reference to the resource at `uri`.
    pub fn for_resource(uri: &str) -> (r: Self)
        ensures
            r matches Reference::Resource(u) && u.uri@ == uri@,
    {
        Reference::Resource(ResourceReference { uri: uri.to_owned() })
    }

    /// The wire tag of the reference.
    pub fn reference_type(&self) -> (r: &'static str)
        ensures
            r@ == match self {
                Reference::Prompt(_) => "ref/prompt"@,
                Reference::Resource(_) => "ref/resource"@,
            },
    {
        match self {
            Reference::Prompt(_) => "ref/prompt",
            Reference::Resource(_) => "ref/resource",
        }
    }

    /// The prompt's name, for a prompt reference.
    pub fn as_prompt_name(&self) -> (r: Option<&str>)
        ensures
            match self {
                Reference::Prompt(p) => r matches Some(n) && n@ == p.name@,
                _ => r is None,
            },
    {
        match self {
            Reference::Prompt(p) => Some(p.name.as_str()),
            _ => None,
        }
    }

    /// The resource's URI, for a resource reference.
    pub fn as_resource_uri(&self) -> (r: Option<&str>)
        ensures
            match self {
                Reference::Resource(u) => r matches Some(s) && s@ == u.uri@,
                _ => r is None,
            },
    {
        match self {
            Reference::Resource(u) => Some(u.uri.as_str()),
            _ => None,
        }
    }
}

/// The argument being completed and what has been typed of it.
#[derive(Debug, Clone, PartialEq)]
pub struct ArgumentInfo {
    pub name: String,
    pub value: String,
}

/// A root the server may operate in.
#[derive(Debug, Clone, PartialEq)]
pub struct Root {
    pub uri: String,
    pub name: Option<String>,
}

#[derive(Debug, Clone, PartialEq, Default)]
pub struct ListRootsResult {
    pub roots: Vec<Root>,
}

/// The results a client answers with.
#[derive(Debug, PartialEq)]
pub enum ClientResult {
    ListRootsResult(ListRootsResult),
    EmptyResult(EmptyResult),
}

impl ClientResult {
    /// The empty result.
    pub fn empty(_unit: ()) -> (r: ClientResult)
        ensures
            r == ClientResult::EmptyResult(EmptyObject {}),
    {
        ClientResult::EmptyResult(EmptyObject {})
    }
}

/// The results a server answers with.
#[derive(Debug, PartialEq)]
pub enum ServerResult {
    InitializeResult(InitializeResult),
    CompleteResult(CompleteResult),
    ReadResourceResult(ReadResourceResult),
    EmptyResult(EmptyResult),
}

impl ServerResult {
    /// The empty result.
    pub fn empty(_unit: ()) -> (r: ServerResult)
        ensures
            r == ServerResult::EmptyResult(EmptyObject {}),
    {
        ServerResult::EmptyResult(EmptyObject {})
    }
}

} // verus!
