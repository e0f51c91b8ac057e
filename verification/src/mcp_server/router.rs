//! Request routing: the server capabilities a router announces, and what each
//! method answers given what the router's handlers return.
use vstd::prelude::*;

use super::{RouterError, RouterErrorView};
use crate::json::{json_deep_wf, json_get, json_get_str, json_str, lemma_member_deep_wf, JsonObject, JsonValue};
use crate::mcp_core::content::Content;
use crate::mcp_core::handler::{prompt_error_text, tool_error_text, PromptError, ResourceError, ToolError};
use crate::mcp_core::prompt::{Prompt, PromptArgument, PromptMessage, PromptMessageContent, PromptMessageRole};
use crate::mcp_core::protocol::{
    CallToolResult, GetPromptResult, Implementation, InitializeResult, JsonRpcRequest, JsonRpcResponse,
    ListPromptsResult, ListResourcesResult, ListToolsResult, PromptsCapability, ReadResourceResult,
    ResourcesCapability, ServerCapabilities, ToolsCapability,
};
use crate::mcp_core::resource::ResourceContents;
use crate::text::{chars_of, concat, contains, contains_chars, replace_all, replace_chars, string_from_chars};

verus! {

/// Builds the capabilities a server announces.
pub struct CapabilitiesBuilder {
    tools: Option<ToolsCapability>,
    prompts: Option<PromptsCapability>,
    resources: Option<ResourcesCapability>,
}

impl View for CapabilitiesBuilder {
    type V = ServerCapabilities;

    /// The capabilities the builder would build now.
    closed spec fn view(&self) -> ServerCapabilities {
        ServerCapabilities { tools: self.tools, prompts: self.prompts, resources: self.resources }
    }
}

impl CapabilitiesBuilder {
    /// A builder that announces nothing.
    pub fn new() -> (r: Self)
        ensures
            r@ == (ServerCapabilities { tools: None, prompts: None, resources: None }),
    {
        CapabilitiesBuilder { tools: None, prompts: None, resources: None }
    }

    /// Announces tools.
    pub fn with_tools(self, list_changed: bool) -> (r: Self)
        ensures
            r@ == (ServerCapabilities { tools: Some(ToolsCapability { list_changed: Some(list_changed) }), ..self@ }),
    {
        CapabilitiesBuilder { tools: Some(ToolsCapability { list_changed: Some(list_changed) }), ..self }
    }

    /// Announces prompts.
    pub fn with_prompts(self, list_changed: bool) -> (r: Self)
        ensures
            r@ == (ServerCapabilities {
                prompts: Some(PromptsCapability { list_changed: Some(list_changed) }),
                ..self@
            }),
    {
        CapabilitiesBuilder { prompts: Some(PromptsCapability { list_changed: Some(list_changed) }), ..self }
    }

    /// Announces resources.
    pub fn with_resources(self, subscribe: bool, list_changed: bool) -> (r: Self)
        ensures
            r@ == (ServerCapabilities {
                resources: Some(
                    ResourcesCapability { subscribe: Some(subscribe), list_changed: Some(list_changed) },
                ),
                ..self@
            }),
    {
        CapabilitiesBuilder {
            resources: Some(ResourcesCapability { subscribe: Some(subscribe), list_changed: Some(list_changed) }),
            ..self
        }
    }

    /// The capabilities configured so far.
    pub fn build(self) -> (r: ServerCapabilities)
        ensures
            r == self@,
    {
        ServerCapabilities { tools: self.tools, prompts: self.prompts, resources: self.resources }
    }
}

impl Default for CapabilitiesBuilder {
    fn default() -> (r: Self)
        ensures
            r@ == (ServerCapabilities { tools: None, prompts: None, resources: None }),
    {
        Self::new()
    }
}

/// The protocol version a router answers `initialize` with.
pub open spec fn router_protocol_version() -> Seq<char> {
    "2024-11-05"@
}

/// The version of this package, which a router reports as its own.
pub open spec fn package_version() -> Seq<char> {
    "0.1.0"@
}

/// A response to `id` with neither result nor error yet.
pub fn create_response(id: Option<u64>) -> (r: JsonRpcResponse)
    ensures
        r.jsonrpc@ == "2.0"@,
        r.id == id,
        r.result is None,
        r.error is None,
{
    JsonRpcResponse { jsonrpc: "2.0".to_owned(), id, result: None, error: None }
}

/// The answer to `initialize`, from the router's name, instructions and capabilities.
pub fn handle_initialize(name: String, instructions: String, capabilities: ServerCapabilities) -> (r: InitializeResult)
    ensures
        r.protocol_version@ == router_protocol_version(),
        r.capabilities == capabilities,
        r.server_info.name == name,
        r.server_info.version@ == package_version(),
        r.instructions == Some(instructions),
{
    InitializeResult {
        protocol_version: "2024-11-05".to_owned(),
        capabilities,
        server_info: Implementation { name, version: "0.1.0".to_owned() },
        instructions: Some(instructions),
    }
}

/// The answer to `tools/list`: the router's tools, on one page.
pub fn handle_tools_list(tools: Vec<JsonValue>) -> (r: ListToolsResult)
    ensures
        r.tools == tools,
        r.next_cursor is None,
{
    ListToolsResult { tools, next_cursor: None }
}

/// The answer to `resources/list`: the router's resources, on one page.
pub fn handle_resources_list(resources: Vec<JsonValue>) -> (r: ListResourcesResult)
    ensures
        r.resources == resources,
        r.next_cursor is None,
{
    ListResourcesResult { resources, next_cursor: None }
}

/// The answer to `prompts/list`: the router's prompts, or none.
pub fn handle_prompts_list(prompts: Option<Vec<Prompt>>) -> (r: ListPromptsResult)
    ensures
        r.prompts@ == match prompts {
            Some(p) => p@,
            None => Seq::<Prompt>::empty(),
        },
{
    match prompts {
        Some(p) => ListPromptsResult { prompts: p },
        None => ListPromptsResult { prompts: Vec::new() },
    }
}

/// The string member `key` of the request's parameters.
pub open spec fn param_str(req: JsonRpcRequest, key: Seq<char>) -> Option<Seq<char>> {
    match req.params {
        Some(p) => json_get_str(p, key),
        None => None,
    }
}

/// The member `key` of the request's parameters.
pub open spec fn param(req: JsonRpcRequest, key: Seq<char>) -> Option<JsonValue> {
    match req.params {
        Some(p) => json_get(p, key),
        None => None,
    }
}

/// The parameters of a request are well-formed JSON.
pub open spec fn request_wf(req: JsonRpcRequest) -> bool {
    req.params matches Some(p) ==> json_deep_wf(p)
}

fn get_param_str<'a>(req: &'a JsonRpcRequest, key: &str) -> (r: Option<&'a String>)
    requires
        request_wf(*req),
    ensures
        match (r, param_str(*req, key@)) {
            (Some(s), Some(t)) => s@ == t,
            (None, None) => true,
            _ => false,
        },
{
    match &req.params {
        Some(p) => match p.get(key) {
            Some(v) => v.as_str(),
            None => None,
        },
        None => None,
    }
}

/// What a `tools/call` request asks for: the tool's name, and its arguments
/// (JSON null when there are none); or why the request is refused.
pub open spec fn tools_call_target(req: JsonRpcRequest) -> Result<(Seq<char>, JsonValue), RouterErrorView> {
    if req.params is None {
        Err(RouterErrorView::InvalidParams("Missing parameters"@))
    } else if param_str(req, "name"@) is None {
        Err(RouterErrorView::InvalidParams("Missing tool name"@))
    } else {
        Ok(
            (
                param_str(req, "name"@).unwrap(),
                match param(req, "arguments"@) {
                    Some(a) => a,
                    None => JsonValue::Null,
                },
            ),
        )
    }
}

/// Reads a `tools/call` request: the tool to call and the arguments to call it with.
pub fn tools_call_request(req: JsonRpcRequest) -> (r: Result<(String, JsonValue), RouterError>)
    requires
        request_wf(req),
    ensures
        match (r, tools_call_target(req)) {
            (Ok((n, a)), Ok((tn, ta))) => n@ == tn && a == ta,
            (Err(e), Err(te)) => e@ == te,
            _ => false,
        },
{
    let name = match get_param_str(&req, "name") {
        Some(n) => n.clone(),
        None => {
            if req.params.is_none() {
                return Err(RouterError::InvalidParams("Missing parameters".to_owned()));
            }
            return Err(RouterError::InvalidParams("Missing tool name".to_owned()));
        },
    };
    match req.params {
        Some(JsonValue::Object(mut o)) => {
            let k = "arguments".to_owned();
            let a = o.remove(&k);
            match a {
                Some(a) => Ok((name, a)),
                None => Ok((name, JsonValue::Null)),
            }
        },
        _ => Ok((name, JsonValue::Null)),
    }
}

/// The result of a tool call: what the tool returned, or the error's text
/// as text content flagged as an error.
pub fn tools_call_result(outcome: Result<Vec<Content>, ToolError>) -> (r: CallToolResult)
    ensures
        match outcome {
            Ok(c) => r.content == c && r.is_error is None,
            Err(e) => r.is_error == Some(true) && r.content@.len() == 1 && (r.content@[0] matches Content::Text(t)
                && t.text@ == tool_error_text(e) && t.annotations is None),
        },
{
    match outcome {
        Ok(content) => CallToolResult { content, is_error: None },
        Err(e) => {
            let text = e.to_string();
            let mut content = Vec::new();
            content.push(Content::text(text.as_str()));
            CallToolResult { content, is_error: Some(true) }
        },
    }
}

/// The URI a `resources/read` request names, or why the request is refused.
pub open spec fn resources_read_target(req: JsonRpcRequest) -> Result<Seq<char>, RouterErrorView> {
    if req.params is None {
        Err(RouterErrorView::InvalidParams("Missing parameters"@))
    } else if param_str(req, "uri"@) is None {
        Err(RouterErrorView::InvalidParams("Missing resource URI"@))
    } else {
        Ok(param_str(req, "uri"@).unwrap())
    }
}

/// Reads a `resources/read` request: the URI to read.
pub fn resources_read_request(req: &JsonRpcRequest) -> (r: Result<String, RouterError>)
    requires
        request_wf(*req),
    ensures
        match (r, resources_read_target(*req)) {
            (Ok(u), Ok(tu)) => u@ == tu,
            (Err(e), Err(te)) => e@ == te,
            _ => false,
        },
{
    match get_param_str(req, "uri") {
        Some(u) => Ok(u.clone()),
        None => {
            if req.params.is_none() {
                Err(RouterError::InvalidParams("Missing parameters".to_owned()))
            } else {
                Err(RouterError::InvalidParams("Missing resource URI".to_owned()))
            }
        },
    }
}

/// The result of reading `uri`: the text as plain text, or the read's error.
pub fn resources_read_result(uri: String, outcome: Result<String, ResourceError>) -> (r: Result<
    ReadResourceResult,
    RouterError,
>)
    ensures
        match outcome {
            Ok(text) => r matches Ok(res) && res.contents@.len() == 1 && (res.contents@[0] matches
                ResourceContents::TextResourceContents { uri: u, mime_type: Some(m), text: t } && u == uri && m@
                == "text/plain"@ && t == text),
            Err(ResourceError::NotFound(m)) => r matches Err(e) && e@ == RouterErrorView::ResourceNotFound(m@),
            Err(_) => r matches Err(e) && e@ == RouterErrorView::Internal("Unknown resource error"@),
        },
{
    match outcome {
        Ok(text) => {
            let mut contents = Vec::new();
            contents.push(
                ResourceContents::TextResourceContents { uri, mime_type: Some("text/plain".to_owned()), text },
            );
            Ok(ReadResourceResult { contents })
        },
        Err(e) => Err(RouterError::from_resource_error(e)),
    }
}

/// The arguments object of a `prompts/get` request.
pub open spec fn prompt_arguments(req: JsonRpcRequest) -> Option<JsonObject> {
    match param(req, "arguments"@) {
        Some(JsonValue::Object(o)) => Some(o),
        _ => None,
    }
}

/// The text of an argument value: a string's text, the empty text for any other value.
pub open spec fn value_text(v: JsonValue) -> Seq<char> {
    match json_str(v) {
        Some(s) => s,
        None => Seq::<char>::empty(),
    }
}

/// The length of text in UTF-8 bytes.
pub open spec fn byte_len(s: Seq<char>) -> nat {
    vstd::utf8::encode_utf8(s).len()
}

/// A required argument counts as missing when it is absent, not a string, or empty.
pub open spec fn argument_missing(a: PromptArgument, args: Map<Seq<char>, JsonValue>) -> bool {
    a.required == Some(true) && (!args.contains_key(a.name@) || json_str(args[a.name@]) is None || json_str(
        args[a.name@],
    ).unwrap().len() == 0)
}

/// The name of the first required argument that is missing.
pub open spec fn first_missing(decl: Seq<PromptArgument>, args: Map<Seq<char>, JsonValue>) -> Option<Seq<char>>
    decreases decl.len(),
{
    if decl.len() == 0 {
        None
    } else if argument_missing(decl[0], args) {
        Some(decl[0].name@)
    } else {
        first_missing(decl.drop_first(), args)
    }
}

/// The declared arguments of a prompt.
pub open spec fn declared_arguments(p: Prompt) -> Seq<PromptArgument> {
    match p.arguments {
        Some(a) => a@,
        None => Seq::<PromptArgument>::empty(),
    }
}

/// `i` is the position of the first prompt called `name`.
pub open spec fn is_first_named(ps: Seq<Prompt>, name: Seq<char>, i: int) -> bool {
    0 <= i < ps.len() && ps[i].name@ == name && forall|j: int| 0 <= j < i ==> ps[j].name@ != name
}

/// Whether a `prompts/get` request may go on to fetch the prompt: its
/// parameters name a prompt and hold an arguments object, the router lists a
/// prompt of that name, and every required argument of the first such prompt
/// is given as non-empty text. On success, the prompt's name.
pub open spec fn prompts_get_check(req: JsonRpcRequest, prompts: Option<Seq<Prompt>>) -> Result<
    Seq<char>,
    RouterErrorView,
> {
    if req.params is None {
        Err(RouterErrorView::InvalidParams("Missing parameters"@))
    } else if param_str(req, "name"@) is None {
        Err(RouterErrorView::InvalidParams("Missing prompt name"@))
    } else if prompt_arguments(req) is None {
        Err(RouterErrorView::InvalidParams("Missing arguments object"@))
    } else {
        let name = param_str(req, "name"@).unwrap();
        match prompts {
            None => Err(RouterErrorView::PromptNotFound("No prompts available"@)),
            Some(ps) => if exists|i: int| is_first_named(ps, name, i) {
                let i = choose|i: int| is_first_named(ps, name, i);
                match first_missing(declared_arguments(ps[i]), prompt_arguments(req).unwrap()@) {
                    Some(a) => Err(
                        RouterErrorView::InvalidParams("Missing required argument: '"@ + a + "'"@),
                    ),
                    None => Ok(name),
                }
            } else {
                Err(RouterErrorView::PromptNotFound("Prompt '"@ + name + "' not found"@))
            },
        }
    }
}

proof fn lemma_first_missing_step(decl: Seq<PromptArgument>, args: Map<Seq<char>, JsonValue>, i: int)
    requires
        0 <= i < decl.len(),
    ensures
        first_missing(decl.skip(i), args) == if argument_missing(decl[i], args) {
            Some(decl[i].name@)
        } else {
            first_missing(decl.skip(i + 1), args)
        },
{
    assert(decl.skip(i).drop_first() =~= decl.skip(i + 1));
}

fn find_missing(decl: &Vec<PromptArgument>, args: &JsonObject) -> (r: Option<String>)
    requires
        args.wf(),
    ensures
        match (r, first_missing(decl@, args@)) {
            (Some(n), Some(m)) => n@ == m,
            (None, None) => true,
            _ => false,
        },
{
    let n = decl.len();
    assert(decl@.skip(0) =~= decl@);
    for i in 0..n
        invariant
            n == decl@.len(),
            args.wf(),
            first_missing(decl@, args@) == first_missing(decl@.skip(i as int), args@),
    {
        proof {
            lemma_first_missing_step(decl@, args@, i as int);
        }
        let a = &decl[i];
        let required = match a.required {
            Some(b) => b,
            None => false,
        };
        let missing = required && match args.get(&a.name) {
            Some(v) => match v.as_str() {
                Some(s) => s.as_str().is_empty(),
                None => true,
            },
            None => true,
        };
        assert(missing == argument_missing(decl@[i as int], args@));
        if missing {
            return Some(a.name.clone());
        }
    }
    assert(decl@.skip(n as int) =~= Seq::<PromptArgument>::empty());
    None
}

/// The parameter checks of a `prompts/get` request, made before any prompt is
/// looked at: the name of the prompt, or the first missing parameter.
pub open spec fn prompts_get_params_check(req: JsonRpcRequest) -> Result<Seq<char>, RouterErrorView> {
    if req.params is None {
        Err(RouterErrorView::InvalidParams("Missing parameters"@))
    } else if param_str(req, "name"@) is None {
        Err(RouterErrorView::InvalidParams("Missing prompt name"@))
    } else if prompt_arguments(req) is None {
        Err(RouterErrorView::InvalidParams("Missing arguments object"@))
    } else {
        Ok(param_str(req, "name"@).unwrap())
    }
}

/// Checks the parameters of a `prompts/get` request, before the router's
/// prompts are listed. On success, the name of the prompt asked for.
pub fn prompts_get_params(req: &JsonRpcRequest) -> (r: Result<String, RouterError>)
    requires
        request_wf(*req),
    ensures
        match (r, prompts_get_params_check(*req)) {
            (Ok(n), Ok(tn)) => n@ == tn,
            (Err(e), Err(te)) => e@ == te,
            _ => false,
        },
{
    let params = match &req.params {
        Some(p) => p,
        None => {
            return Err(RouterError::InvalidParams("Missing parameters".to_owned()));
        },
    };
    let name = match get_param_str(req, "name") {
        Some(n) => n,
        None => {
            return Err(RouterError::InvalidParams("Missing prompt name".to_owned()));
        },
    };
    match params.get("arguments") {
        Some(JsonValue::Object(_)) => {},
        _ => {
            return Err(RouterError::InvalidParams("Missing arguments object".to_owned()));
        },
    }
    Ok(name.clone())
}

/// Checks a `prompts/get` request against the prompts the router lists,
/// before the prompt is fetched. On success, the name of the prompt to fetch.
pub fn prompts_get_request(req: &JsonRpcRequest, prompts: Option<Vec<Prompt>>) -> (r: Result<String, RouterError>)
    requires
        request_wf(*req),
    ensures
        match (
            r,
            prompts_get_check(
                *req,
                match prompts {
                    Some(p) => Some(p@),
                    None => None,
                },
            ),
        ) {
            (Ok(n), Ok(tn)) => n@ == tn,
            (Err(e), Err(te)) => e@ == te,
            _ => false,
        },
{
    let params = match &req.params {
        Some(p) => p,
        None => {
            return Err(RouterError::InvalidParams("Missing parameters".to_owned()));
        },
    };
    let name = match get_param_str(req, "name") {
        Some(n) => n,
        None => {
            return Err(RouterError::InvalidParams("Missing prompt name".to_owned()));
        },
    };
    let args = match params.get("arguments") {
        Some(JsonValue::Object(o)) => o,
        _ => {
            return Err(RouterError::InvalidParams("Missing arguments object".to_owned()));
        },
    };
    proof {
        lemma_member_deep_wf(*params, "arguments"@);
        assert(json_deep_wf(JsonValue::Object(*args)));
        assert(args.wf());
    }
    let ps = match prompts {
        Some(p) => p,
        None => {
            return Err(RouterError::PromptNotFound("No prompts available".to_owned()));
        },
    };
    let n = ps.len();
    for i in 0..n
        invariant
            n == ps@.len(),
            prompts == Some(ps),
            args.wf(),
            req.params is Some,
            prompt_arguments(*req) == Some(*args),
            param_str(*req, "name"@) == Some(name@),
            forall|j: int| 0 <= j < i ==> ps@[j].name@ != name@,
    {
        if ps[i].name.eq(name) {
            assert(is_first_named(ps@, name@, i as int));
            assert forall|k: int| is_first_named(ps@, name@, k) implies k == i by {
                if k < i {
                    assert(ps@[k].name@ != name@);
                }
                if k > i {
                    assert(ps@[i as int].name@ != name@);
                }
            }
            let missing = match &ps[i].arguments {
                Some(decl) => find_missing(decl, args),
                None => {
                    assert(first_missing(Seq::<PromptArgument>::empty(), args@) is None);
                    None
                },
            };
            return match missing {
                Some(a) => {
                    let head = concat("Missing required argument: '", a.as_str());
                    Err(RouterError::InvalidParams(concat(head.as_str(), "'")))
                },
                None => Ok(name.clone()),
            };
        }
    }
    let head = concat("Prompt '", name.as_str());
    Err(RouterError::PromptNotFound(concat(head.as_str(), "' not found")))
}

/// The argument patterns refused as potentially unsafe, in the order they are checked.
pub open spec fn dangerous_patterns() -> Seq<Seq<char>> {
    seq!["../"@, "//"@, "\\\\"@, "<script>"@, "{{"@, "}}"@]
}

fn dangerous_pattern(i: usize) -> (r: &'static str)
    requires
        i < 6,
    ensures
        r@ == dangerous_patterns()[i as int],
{
    if i == 0 {
        "../"
    } else if i == 1 {
        "//"
    } else if i == 2 {
        "\\\\"
    } else if i == 3 {
        "<script>"
    } else if i == 4 {
        "{{"
    } else {
        "}}"
    }
}

/// The first pattern, from position `i` on, that occurs in the key or the value.
pub open spec fn first_pattern_hit(key: Seq<char>, value: Seq<char>, i: nat) -> Option<Seq<char>>
    decreases 6 - i,
{
    if i >= 6 {
        None
    } else if contains(key, dangerous_patterns()[i as int]) || contains(value, dangerous_patterns()[i as int]) {
        Some(dangerous_patterns()[i as int])
    } else {
        first_pattern_hit(key, value, i + 1)
    }
}

/// Why one argument is refused: a key that is empty or over 1000 bytes, a
/// value text over 1000 bytes, or an unsafe pattern in either.
pub open spec fn argument_error(key: Seq<char>, value: JsonValue) -> Option<RouterErrorView> {
    if byte_len(key) == 0 || byte_len(key) > 1000 {
        Some(RouterErrorView::InvalidParams("Argument keys must be between 1-1000 characters"@))
    } else if byte_len(value_text(value)) > 1000 {
        Some(RouterErrorView::InvalidParams("Argument values must not exceed 1000 characters"@))
    } else {
        match first_pattern_hit(key, value_text(value), 0) {
            Some(p) => Some(RouterErrorView::InvalidParams("Arguments contain potentially unsafe pattern: "@ + p)),
            None => None,
        }
    }
}

/// The first refused argument, in the object's order.
pub open spec fn arguments_error(entries: Seq<(String, JsonValue)>) -> Option<RouterErrorView>
    decreases entries.len(),
{
    if entries.len() == 0 {
        None
    } else {
        match argument_error(entries[0].0@, entries[0].1) {
            Some(e) => Some(e),
            None => arguments_error(entries.drop_first()),
        }
    }
}

/// The description with each `{key}` replaced by the argument's text, one
/// argument after another in the object's order.
pub open spec fn fill_placeholders(text: Seq<char>, entries: Seq<(String, JsonValue)>) -> Seq<char>
    decreases entries.len(),
{
    if entries.len() == 0 {
        text
    } else {
        fill_placeholders(
            replace_all(text, "{"@ + entries[0].0@ + "}"@, value_text(entries[0].1)),
            entries.drop_first(),
        )
    }
}

/// The prompt text a `prompts/get` request is answered with, given what
/// fetching the prompt gave (`None` where the router has no such prompt), or
/// why the request is refused.
pub open spec fn prompts_get_text(args: JsonObject, fetched: Option<Result<String, PromptError>>) -> Result<
    Seq<char>,
    RouterErrorView,
> {
    match fetched {
        None => Err(RouterErrorView::PromptNotFound("Prompt not found"@)),
        Some(Err(e)) => Err(RouterErrorView::Internal(prompt_error_text(e))),
        Some(Ok(d)) => match arguments_error(args.entries@) {
            Some(e) => Err(e),
            None => if byte_len(d@) > 10000 {
                Err(RouterErrorView::Internal("Prompt description exceeds maximum allowed length"@))
            } else {
                Ok(fill_placeholders(d@, args.entries@))
            },
        },
    }
}

fn byte_len_of(s: &str) -> (r: usize)
    ensures
        r == byte_len(s@),
{
    s.as_bytes().len()
}

fn text_of(v: &JsonValue) -> (r: &str)
    ensures
        r@ == value_text(*v),
{
    proof {
        reveal_strlit("");
    }
    match v.as_str() {
        Some(s) => s.as_str(),
        None => "",
    }
}

fn find_pattern(key: &[char], value: &[char]) -> (r: Option<&'static str>)
    ensures
        match (r, first_pattern_hit(key@, value@, 0)) {
            (Some(p), Some(q)) => p@ == q,
            (None, None) => true,
            _ => false,
        },
{
    let mut i: usize = 0;
    while i < 6
        invariant
            i <= 6,
            first_pattern_hit(key@, value@, 0) == first_pattern_hit(key@, value@, i as nat),
        decreases 6 - i,
    {
        let p = dangerous_pattern(i);
        let pc = chars_of(p);
        if contains_chars(key, pc.as_slice()) || contains_chars(value, pc.as_slice()) {
            return Some(p);
        }
        i = i + 1;
    }
    None
}

fn check_argument(key: &String, value: &JsonValue) -> (r: Option<RouterError>)
    ensures
        match (r, argument_error(key@, *value)) {
            (Some(e), Some(te)) => e@ == te,
            (None, None) => true,
            _ => false,
        },
{
    let klen = byte_len_of(key.as_str());
    if klen == 0 || klen > 1000 {
        return Some(RouterError::InvalidParams("Argument keys must be between 1-1000 characters".to_owned()));
    }
    let v = text_of(value);
    if byte_len_of(v) > 1000 {
        return Some(RouterError::InvalidParams("Argument values must not exceed 1000 characters".to_owned()));
    }
    let kc = chars_of(key.as_str());
    let vc = chars_of(v);
    match find_pattern(kc.as_slice(), vc.as_slice()) {
        Some(p) => Some(RouterError::InvalidParams(concat("Arguments contain potentially unsafe pattern: ", p))),
        None => None,
    }
}

proof fn lemma_entries_step(entries: Seq<(String, JsonValue)>, i: int)
    requires
        0 <= i < entries.len(),
    ensures
        entries.skip(i).drop_first() == entries.skip(i + 1),
        entries.skip(i)[0] == entries[i],
{
    assert(entries.skip(i).drop_first() =~= entries.skip(i + 1));
}

fn fill(description: &String, args: &JsonObject) -> (r: String)
    ensures
        r@ == fill_placeholders(description@, args.entries@),
{
    let mut text = chars_of(description.as_str());
    let n = args.entries.len();
    assert(args.entries@.skip(0) =~= args.entries@);
    for i in 0..n
        invariant
            n == args.entries@.len(),
            fill_placeholders(description@, args.entries@) == fill_placeholders(text@, args.entries@.skip(i as int)),
    {
        proof {
            lemma_entries_step(args.entries@, i as int);
        }
        let key = &args.entries[i].0;
        let mut placeholder = chars_of("{");
        let kc = chars_of(key.as_str());
        crate::text::extend_chars(&mut placeholder, kc.as_slice());
        let close = chars_of("}");
        crate::text::extend_chars(&mut placeholder, close.as_slice());
        let vc = chars_of(text_of(&args.entries[i].1));
        proof {
            reveal_strlit("{");
        }
        text = replace_chars(text.as_slice(), placeholder.as_slice(), vc.as_slice());
    }
    assert(args.entries@.skip(n as int) =~= Seq::<(String, JsonValue)>::empty());
    string_from_chars(text.as_slice())
}

/// Answers a `prompts/get` request once the prompt has been fetched:
/// `fetched` is what the router's `get_prompt` gave for the name
/// [`prompts_get_request`] returned (`None` where it had no such prompt).
pub fn prompts_get_result(req: &JsonRpcRequest, fetched: Option<Result<String, PromptError>>) -> (r: Result<
    GetPromptResult,
    RouterError,
>)
    requires
        request_wf(*req),
        prompt_arguments(*req) is Some,
    ensures
        match (r, prompts_get_text(prompt_arguments(*req).unwrap(), fetched)) {
            (Ok(res), Ok(t)) => res.description matches Some(d) && d@ == t && res.messages@.len() == 1
                && res.messages@[0].role == PromptMessageRole::User && (res.messages@[0].content matches
                PromptMessageContent::Text { text } && text@ == t),
            (Err(e), Err(te)) => e@ == te,
            _ => false,
        },
{
    let args = match &req.params {
        Some(p) => match p.get("arguments") {
            Some(JsonValue::Object(o)) => o,
            _ => {
                return Err(RouterError::InvalidParams("Missing arguments object".to_owned()));
            },
        },
        None => {
            return Err(RouterError::InvalidParams("Missing parameters".to_owned()));
        },
    };
    let description = match fetched {
        None => {
            return Err(RouterError::PromptNotFound("Prompt not found".to_owned()));
        },
        Some(Err(e)) => {
            return Err(RouterError::Internal(e.to_string()));
        },
        Some(Ok(d)) => d,
    };
    let n = args.entries.len();
    assert(args.entries@.skip(0) =~= args.entries@);
    for i in 0..n
        invariant
            n == args.entries@.len(),
            prompt_arguments(*req) == Some(*args),
            fetched == Some(Ok::<String, PromptError>(description)),
            arguments_error(args.entries@) == arguments_error(args.entries@.skip(i as int)),
    {
        proof {
            lemma_entries_step(args.entries@, i as int);
        }
        match check_argument(&args.entries[i].0, &args.entries[i].1) {
            Some(e) => {
                return Err(e);
            },
            None => {},
        }
    }
    assert(args.entries@.skip(n as int) =~= Seq::<(String, JsonValue)>::empty());
    if byte_len_of(description.as_str()) > 10000 {
        return Err(RouterError::Internal("Prompt description exceeds maximum allowed length".to_owned()));
    }
    let filled = fill(&description, args);
    let message = PromptMessage::new_text(PromptMessageRole::User, filled.as_str());
    let mut messages = Vec::new();
    messages.push(message);
    Ok(GetPromptResult { description: Some(filled), messages })
}

/// A router made into a service that answers JSON-RPC requests.
pub struct RouterService<T>(pub T);

/// The methods a router answers.
#[derive(Debug, Clone, Copy, PartialEq, Eq, Structural)]
pub enum RouterMethod {
    Initialize,
    ToolsList,
    ToolsCall,
    ResourcesList,
    ResourcesRead,
    PromptsList,
    PromptsGet,
    /// Any other method: answered with a method-not-found error.
    Unknown,
}

/// The handler a method name is routed to.
pub open spec fn method_of(m: Seq<char>) -> RouterMethod {
    if m == "initialize"@ {
        RouterMethod::Initialize
    } else if m == "tools/list"@ {
        RouterMethod::ToolsList
    } else if m == "tools/call"@ {
        RouterMethod::ToolsCall
    } else if m == "resources/list"@ {
        RouterMethod::ResourcesList
    } else if m == "resources/read"@ {
        RouterMethod::ResourcesRead
    } else if m == "prompts/list"@ {
        RouterMethod::PromptsList
    } else if m == "prompts/get"@ {
        RouterMethod::PromptsGet
    } else {
        RouterMethod::Unknown
    }
}

fn is_method(m: &String, name: &str) -> (r: bool)
    ensures
        r == (m@ == name@),
{
    let n = name.to_owned();
    m.eq(&n)
}

/// Routes a request's method to its handler.
pub fn route(method: &String) -> (r: RouterMethod)
    ensures
        r == method_of(method@),
{
    if is_method(method, "initialize") {
        RouterMethod::Initialize
    } else if is_method(method, "tools/list") {
        RouterMethod::ToolsList
    } else if is_method(method, "tools/call") {
        RouterMethod::ToolsCall
    } else if is_method(method, "resources/list") {
        RouterMethod::ResourcesList
    } else if is_method(method, "resources/read") {
        RouterMethod::ResourcesRead
    } else if is_method(method, "prompts/list") {
        RouterMethod::PromptsList
    } else if is_method(method, "prompts/get") {
        RouterMethod::PromptsGet
    } else {
        RouterMethod::Unknown
    }
}

/// The answer to a request for a method no handler takes: a method-not-found
/// error naming the method, under the request's id.
pub fn method_not_found_response(req: JsonRpcRequest) -> (r: JsonRpcResponse)
    ensures
        r.jsonrpc@ == "2.0"@,
        r.id == req.id,
        r.result is None,
        r.error matches Some(e) && e.code == super::router_error_code(RouterErrorView::MethodNotFound(req.method@))
            && e.message@ == super::router_error_text(RouterErrorView::MethodNotFound(req.method@)) && e.data is None,
{
    let mut response = create_response(req.id);
    let e = RouterError::MethodNotFound(req.method);
    response.error = Some(e.to_error_data());
    response
}

/// Every argument of an answered `prompts/get` request is safe: its key has
/// 1 to 1000 bytes, its text at most 1000, and neither holds a refused pattern;
/// and the prompt text had at most 10000 bytes.
pub proof fn lemma_answered_prompt_arguments_are_safe(args: JsonObject, fetched: Option<Result<String, PromptError>>)
    requires
        prompts_get_text(args, fetched) is Ok,
    ensures
        fetched matches Some(Ok(d)) && byte_len(d@) <= 10000,
        forall|i: int|
            #![trigger args.entries@[i]]
            0 <= i < args.entries@.len() ==> {
                let k = args.entries@[i].0@;
                let v = value_text(args.entries@[i].1);
                &&& 1 <= byte_len(k) <= 1000
                &&& byte_len(v) <= 1000
                &&& forall|p: int| 0 <= p < 6 ==> !contains(k, #[trigger] dangerous_patterns()[p]) && !contains(
                    v,
                    dangerous_patterns()[p],
                )
            },
{
    lemma_no_argument_error(args.entries@);
}

proof fn lemma_no_pattern_hit(key: Seq<char>, value: Seq<char>, i: nat)
    requires
        i <= 6,
        first_pattern_hit(key, value, i) is None,
    ensures
        forall|p: int| i <= p < 6 ==> !contains(key, #[trigger] dangerous_patterns()[p]) && !contains(
            value,
            dangerous_patterns()[p],
        ),
    decreases 6 - i,
{
    if i < 6 {
        lemma_no_pattern_hit(key, value, i + 1);
    }
}

proof fn lemma_no_argument_error(entries: Seq<(String, JsonValue)>)
    requires
        arguments_error(entries) is None,
    ensures
        forall|i: int|
            #![trigger entries[i]]
            0 <= i < entries.len() ==> {
                let k = entries[i].0@;
                let v = value_text(entries[i].1);
                &&& 1 <= byte_len(k) <= 1000
                &&& byte_len(v) <= 1000
                &&& forall|p: int| 0 <= p < 6 ==> !contains(k, #[trigger] dangerous_patterns()[p]) && !contains(
                    v,
                    dangerous_patterns()[p],
                )
            },
    decreases entries.len(),
{
    if entries.len() > 0 {
        lemma_no_argument_error(entries.drop_first());
        lemma_no_pattern_hit(entries[0].0@, value_text(entries[0].1), 0);
        assert forall|i: int| 0 < i < entries.len() implies entries[i] == entries.drop_first()[i - 1] by {}
    }
}


proof fn lemma_first_missing_none(decl: Seq<PromptArgument>, args: Map<Seq<char>, JsonValue>)
    ensures
        first_missing(decl, args) is None <==> forall|j: int| 0 <= j < decl.len() ==> !argument_missing(
            #[trigger] decl[j],
            args,
        ),
    decreases decl.len(),
{
    if decl.len() > 0 {
        lemma_first_missing_none(decl.drop_first(), args);
        assert forall|j: int| 1 <= j < decl.len() implies #[trigger] decl[j] == decl.drop_first()[j - 1] by {}
        if forall|j: int| 0 <= j < decl.len() ==> !argument_missing(#[trigger] decl[j], args) {
            assert forall|j: int| 0 <= j < decl.drop_first().len() implies !argument_missing(
                #[trigger] decl.drop_first()[j],
                args,
            ) by {
                assert(decl.drop_first()[j] == decl[j + 1]);
            }
        }
    }
}

/// Only arguments declared as required (`required: Some(true)`) are checked:
/// once its parameters are in place and the prompt is found, a `prompts/get`
/// request goes on exactly when every argument declared required is given as
/// non-empty text. An argument whose `required` is unset or false never stops it.
pub proof fn lemma_only_required_arguments_are_checked(req: JsonRpcRequest, ps: Seq<Prompt>, i: int)
    requires
        req.params is Some,
        param_str(req, "name"@) is Some,
        prompt_arguments(req) is Some,
        is_first_named(ps, param_str(req, "name"@).unwrap(), i),
    ensures
        ({
            let args = prompt_arguments(req).unwrap()@;
            let decl = declared_arguments(ps[i]);
            (prompts_get_check(req, Some(ps)) == Ok::<Seq<char>, RouterErrorView>(param_str(req, "name"@).unwrap()))
                <==> forall|j: int|
                0 <= j < decl.len() && (#[trigger] decl[j]).required == Some(true) ==> args.contains_key(decl[j].name@)
                    && json_str(args[decl[j].name@]) is Some && json_str(args[decl[j].name@]).unwrap().len() > 0
        }),
        prompts_get_check(req, Some(ps)) is Ok ==> prompts_get_check(req, Some(ps)) == Ok::<
            Seq<char>,
            RouterErrorView,
        >(param_str(req, "name"@).unwrap()),
{
    let name = param_str(req, "name"@).unwrap();
    let args = prompt_arguments(req).unwrap()@;
    let decl = declared_arguments(ps[i]);
    assert(exists|k: int| is_first_named(ps, name, k));
    let c = choose|k: int| is_first_named(ps, name, k);
    assert(c == i) by {
        if c < i {
            assert(ps[c].name@ != name);
        } else if c > i {
            assert(ps[i].name@ != name);
        }
    }
    lemma_first_missing_none(decl, args);
}


/// Each method the router serves has its own handler, and no other name reaches
/// it: `initialize`, `tools/list`, `tools/call`, `resources/list`,
/// `resources/read`, `prompts/list` and `prompts/get` go to their handlers, and
/// exactly the other names are answered as unknown.
pub proof fn lemma_route_dispatches_by_method(m: Seq<char>)
    ensures
        (method_of(m) == RouterMethod::Initialize) <==> m == "initialize"@,
        (method_of(m) == RouterMethod::ToolsList) <==> m == "tools/list"@,
        (method_of(m) == RouterMethod::ToolsCall) <==> m == "tools/call"@,
        (method_of(m) == RouterMethod::ResourcesList) <==> m == "resources/list"@,
        (method_of(m) == RouterMethod::ResourcesRead) <==> m == "resources/read"@,
        (method_of(m) == RouterMethod::PromptsList) <==> m == "prompts/list"@,
        (method_of(m) == RouterMethod::PromptsGet) <==> m == "prompts/get"@,
        (method_of(m) == RouterMethod::Unknown) <==> !(m == "initialize"@ || m == "tools/list"@ || m == "tools/call"@
            || m == "resources/list"@ || m == "resources/read"@ || m == "prompts/list"@ || m == "prompts/get"@),
{
    reveal_strlit("initialize");
    reveal_strlit("tools/list");
    reveal_strlit("tools/call");
    reveal_strlit("resources/list");
    reveal_strlit("resources/read");
    reveal_strlit("prompts/list");
    reveal_strlit("prompts/get");
    assert("initialize"@[0] != "tools/list"@[0] && "initialize"@[0] != "tools/call"@[0]);
    assert("tools/list"@[6] != "tools/call"@[6]);
    assert("resources/list"@[10] != "resources/read"@[10]);
    assert("initialize"@ != "tools/list"@ && "initialize"@ != "tools/call"@ && "tools/list"@ != "tools/call"@);
    assert("resources/list"@ != "resources/read"@);
    assert("initialize"@.len() == 10 && "tools/list"@.len() == 10 && "tools/call"@.len() == 10);
    assert("resources/list"@.len() == 14 && "resources/read"@.len() == 14);
    assert("prompts/list"@.len() == 12 && "prompts/get"@.len() == 11);
}

} // verus!
