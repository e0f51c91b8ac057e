use rmcp::json::{empty_object, json_object, json_string, put, JsonObject, JsonValue};
use rmcp::mcp_core::content::Content;
use rmcp::mcp_core::handler::{PromptError, ResourceError, ToolError};
use rmcp::mcp_core::prompt::{Prompt, PromptArgument, PromptMessageContent, PromptMessageRole};
use rmcp::mcp_core::protocol::{
    ErrorData, JsonRpcError, JsonRpcMessage, JsonRpcRaw, JsonRpcRequest, JsonRpcResponse, INTERNAL_ERROR,
    INVALID_PARAMS, INVALID_REQUEST, METHOD_NOT_FOUND, PARSE_ERROR,
};
use rmcp::mcp_core::resource::ResourceContents;
use rmcp::mcp_server::router::{
    create_response, handle_initialize, handle_prompts_list, method_not_found_response, prompts_get_request,
    prompts_get_result, resources_read_request, resources_read_result, route, tools_call_request, tools_call_result,
    CapabilitiesBuilder, RouterMethod,
};
use rmcp::mcp_server::{check_incoming, next_action, service_failure_response, RouterError, ServerAction, TransportError};

fn obj(pairs: Vec<(&str, JsonValue)>) -> JsonObject {
    let mut o = empty_object();
    for (k, v) in pairs {
        put(&mut o, k, v);
    }
    o
}

fn s(x: &str) -> JsonValue {
    json_string(x)
}

fn request(method: &str, params: Option<JsonValue>) -> JsonRpcRequest {
    JsonRpcRequest { jsonrpc: "2.0".to_string(), id: Some(7), method: method.to_string(), params }
}

fn prompt_get(name: &str, args: Vec<(&str, JsonValue)>) -> JsonRpcRequest {
    request(
        "prompts/get",
        Some(json_object(obj(vec![("name", s(name)), ("arguments", json_object(obj(args)))]))),
    )
}

fn greeting_prompt() -> Prompt {
    Prompt::new(
        "greet",
        Some("Says hello"),
        Some(vec![
            PromptArgument { name: "name".to_string(), description: None, required: Some(true) },
            PromptArgument { name: "mood".to_string(), description: None, required: Some(false) },
        ]),
    )
}

#[test]
fn capabilities_builder_sets_what_is_asked() {
    let caps = CapabilitiesBuilder::new().with_tools(true).with_resources(false, true).build();
    assert_eq!(caps.tools.unwrap().list_changed, Some(true));
    assert_eq!(caps.resources.unwrap().subscribe, Some(false));
    assert_eq!(caps.resources.unwrap().list_changed, Some(true));
    assert!(caps.prompts.is_none());
    let caps = CapabilitiesBuilder::default().with_prompts(false).build();
    assert_eq!(caps.prompts.unwrap().list_changed, Some(false));
    assert!(caps.tools.is_none());
}

#[test]
fn initialize_answers_with_protocol_and_package_version() {
    let caps = CapabilitiesBuilder::new().build();
    let r = handle_initialize("srv".to_string(), "use me".to_string(), caps);
    assert_eq!(r.protocol_version, "2024-11-05");
    assert_eq!(r.server_info.name, "srv");
    assert_eq!(r.server_info.version, "0.1.0");
    assert_eq!(r.instructions.as_deref(), Some("use me"));
}

#[test]
fn methods_are_routed_by_name() {
    assert_eq!(route(&"initialize".to_string()), RouterMethod::Initialize);
    assert_eq!(route(&"tools/call".to_string()), RouterMethod::ToolsCall);
    assert_eq!(route(&"prompts/get".to_string()), RouterMethod::PromptsGet);
    assert_eq!(route(&"resources/read".to_string()), RouterMethod::ResourcesRead);
    assert_eq!(route(&"ping".to_string()), RouterMethod::Unknown);
    let r = method_not_found_response(request("ping", None));
    let e = r.error.unwrap();
    assert_eq!(e.code, METHOD_NOT_FOUND);
    assert_eq!(e.message, "Method not found: ping");
    assert_eq!(r.id, Some(7));
    let base = create_response(Some(3));
    assert_eq!(base.jsonrpc, "2.0");
    assert!(base.result.is_none() && base.error.is_none());
}

#[test]
fn tools_call_reads_name_and_arguments() {
    let args = json_object(obj(vec![("a", s("1"))]));
    let req = request("tools/call", Some(json_object(obj(vec![("name", s("sum")), ("arguments", args)]))));
    let (name, a) = tools_call_request(req).unwrap();
    assert_eq!(name, "sum");
    assert_eq!(a, json_object(obj(vec![("a", s("1"))])));

    let req = request("tools/call", Some(json_object(obj(vec![("name", s("sum"))]))));
    assert_eq!(tools_call_request(req).unwrap().1, JsonValue::Null);

    let e = tools_call_request(request("tools/call", None)).unwrap_err();
    assert_eq!(e, RouterError::InvalidParams("Missing parameters".to_string()));
    let e = tools_call_request(request("tools/call", Some(json_object(obj(vec![]))))).unwrap_err();
    assert_eq!(e, RouterError::InvalidParams("Missing tool name".to_string()));
}

#[test]
fn tool_errors_become_error_content() {
    let r = tools_call_result(Err(ToolError::NotFound("x".to_string())));
    assert_eq!(r.is_error, Some(true));
    assert_eq!(r.content.len(), 1);
    assert_eq!(r.content[0].as_text(), Some("Tool not found: x"));
    let r = tools_call_result(Ok(vec![Content::text("ok")]));
    assert_eq!(r.is_error, None);
    assert_eq!(r.content[0].as_text(), Some("ok"));
}

#[test]
fn resources_read_answers_plain_text() {
    let req = request("resources/read", Some(json_object(obj(vec![("uri", s("file:///x"))]))));
    let uri = resources_read_request(&req).unwrap();
    assert_eq!(uri, "file:///x");
    let r = resources_read_result(uri, Ok("body".to_string())).unwrap();
    assert_eq!(
        r.contents,
        vec![ResourceContents::TextResourceContents {
            uri: "file:///x".to_string(),
            mime_type: Some("text/plain".to_string()),
            text: "body".to_string(),
        }]
    );
    let e = resources_read_result("u".to_string(), Err(ResourceError::NotFound("u".to_string()))).unwrap_err();
    assert_eq!(e, RouterError::ResourceNotFound("u".to_string()));
    assert_eq!(e.to_error_data().code, INVALID_REQUEST);
    let e = resources_read_result("u".to_string(), Err(ResourceError::ExecutionError("boom".to_string())))
        .unwrap_err();
    assert_eq!(e, RouterError::Internal("Unknown resource error".to_string()));
    let e = resources_read_request(&request("resources/read", Some(json_object(obj(vec![]))))).unwrap_err();
    assert_eq!(e, RouterError::InvalidParams("Missing resource URI".to_string()));
}

#[test]
fn prompts_list_defaults_to_empty() {
    assert_eq!(handle_prompts_list(None).prompts.len(), 0);
    assert_eq!(handle_prompts_list(Some(vec![greeting_prompt()])).prompts.len(), 1);
}

#[test]
fn prompts_get_checks_the_request_before_fetching() {
    let prompts = Some(vec![greeting_prompt()]);
    let ok = prompt_get("greet", vec![("name", s("Ada"))]);
    assert_eq!(prompts_get_request(&ok, prompts.clone()).unwrap(), "greet");

    let e = prompts_get_request(&request("prompts/get", None), prompts.clone()).unwrap_err();
    assert_eq!(e, RouterError::InvalidParams("Missing parameters".to_string()));
    let no_name = request("prompts/get", Some(json_object(obj(vec![("arguments", json_object(obj(vec![])))]))));
    assert_eq!(
        prompts_get_request(&no_name, prompts.clone()).unwrap_err(),
        RouterError::InvalidParams("Missing prompt name".to_string())
    );
    let no_args = request("prompts/get", Some(json_object(obj(vec![("name", s("greet"))]))));
    assert_eq!(
        prompts_get_request(&no_args, prompts.clone()).unwrap_err(),
        RouterError::InvalidParams("Missing arguments object".to_string())
    );
    assert_eq!(
        prompts_get_request(&ok, None).unwrap_err(),
        RouterError::PromptNotFound("No prompts available".to_string())
    );
    assert_eq!(
        prompts_get_request(&prompt_get("nope", vec![]), prompts.clone()).unwrap_err(),
        RouterError::PromptNotFound("Prompt 'nope' not found".to_string())
    );
    let missing = prompt_get("greet", vec![("name", s(""))]);
    assert_eq!(
        prompts_get_request(&missing, prompts.clone()).unwrap_err(),
        RouterError::InvalidParams("Missing required argument: 'name'".to_string())
    );
    let not_text = prompt_get("greet", vec![("name", JsonValue::Bool(true))]);
    assert!(prompts_get_request(&not_text, prompts).is_err());
}

#[test]
fn prompts_get_fills_placeholders() {
    let req = prompt_get("greet", vec![("name", s("Ada")), ("mood", s("glad"))]);
    let r = prompts_get_result(&req, Some(Ok("Hello {name}, you seem {mood}. {name}!".to_string()))).unwrap();
    assert_eq!(r.description.as_deref(), Some("Hello Ada, you seem glad. Ada!"));
    assert_eq!(r.messages.len(), 1);
    assert_eq!(r.messages[0].role, PromptMessageRole::User);
    match &r.messages[0].content {
        PromptMessageContent::Text { text } => assert_eq!(text, "Hello Ada, you seem glad. Ada!"),
        _ => panic!("expected text"),
    }
}

#[test]
fn prompts_get_refuses_unsafe_arguments() {
    let bad = |k: &str, v: &str| prompts_get_result(&prompt_get("greet", vec![(k, s(v))]), Some(Ok("d".to_string())));
    assert_eq!(
        bad("name", "../etc").unwrap_err(),
        RouterError::InvalidParams("Arguments contain potentially unsafe pattern: ../".to_string())
    );
    assert_eq!(
        bad("name", "<script>x").unwrap_err(),
        RouterError::InvalidParams("Arguments contain potentially unsafe pattern: <script>".to_string())
    );
    assert_eq!(
        bad("a{{b", "x").unwrap_err(),
        RouterError::InvalidParams("Arguments contain potentially unsafe pattern: {{".to_string())
    );
    assert_eq!(
        bad("", "x").unwrap_err(),
        RouterError::InvalidParams("Argument keys must be between 1-1000 characters".to_string())
    );
    let long = "x".repeat(1001);
    assert_eq!(
        bad("name", &long).unwrap_err(),
        RouterError::InvalidParams("Argument values must not exceed 1000 characters".to_string())
    );
    let req = prompt_get("greet", vec![("name", s("Ada"))]);
    assert_eq!(
        prompts_get_result(&req, Some(Ok("y".repeat(10001)))).unwrap_err(),
        RouterError::Internal("Prompt description exceeds maximum allowed length".to_string())
    );
    assert_eq!(prompts_get_result(&req, None).unwrap_err(), RouterError::PromptNotFound("Prompt not found".to_string()));
    assert_eq!(
        prompts_get_result(&req, Some(Err(PromptError::InternalError("x".to_string())))).unwrap_err(),
        RouterError::Internal("Internal error: x".to_string())
    );
}

#[test]
fn router_errors_map_to_codes() {
    assert_eq!(RouterError::InvalidParams("x".to_string()).to_error_data().code, INVALID_PARAMS);
    assert_eq!(RouterError::Internal("x".to_string()).to_error_data().code, INTERNAL_ERROR);
    assert_eq!(RouterError::PromptNotFound("x".to_string()).to_string(), "Not found: x");
    assert_eq!(RouterError::ToolNotFound("x".to_string()).to_error_data().code, INVALID_REQUEST);
}

#[test]
fn server_answers_requests_and_reports_transport_errors() {
    let req = request("tools/list", None);
    assert_eq!(next_action(Ok(JsonRpcMessage::Request(request("tools/list", None)))), ServerAction::Call(req));
    assert_eq!(next_action(Ok(JsonRpcMessage::Nil)), ServerAction::Ignore);
    match next_action(Err(TransportError::InvalidMessage("Message must be a JSON object".to_string()))) {
        ServerAction::Reply(JsonRpcError { jsonrpc, id, error }) => {
            assert_eq!(jsonrpc, "2.0");
            assert_eq!(id, None);
            assert_eq!(error.code, PARSE_ERROR);
            assert_eq!(error.message, "Invalid message format: Message must be a JSON object");
        }
        _ => panic!("expected an error reply"),
    }
    match next_action(Err(TransportError::Protocol("p".to_string()))) {
        ServerAction::Reply(e) => assert_eq!(e.error.code, INVALID_REQUEST),
        _ => panic!("expected an error reply"),
    }
    match next_action(Err(TransportError::Io("broken pipe".to_string()))) {
        ServerAction::Reply(e) => {
            assert_eq!(e.error.code, INTERNAL_ERROR);
            assert_eq!(e.error.message, "IO error: broken pipe");
        }
        _ => panic!("expected an error reply"),
    }
    let r = service_failure_response(Some(4), "boom".to_string());
    assert_eq!(r.error.unwrap(), ErrorData { code: INTERNAL_ERROR, message: "boom".to_string(), data: None });
}

#[test]
fn incoming_lines_must_be_jsonrpc_objects() {
    assert_eq!(
        check_incoming(&s("x")).unwrap_err(),
        TransportError::InvalidMessage("Message must be a JSON object".to_string())
    );
    assert_eq!(
        check_incoming(&json_object(obj(vec![("jsonrpc", s("1.0"))]))).unwrap_err(),
        TransportError::InvalidMessage("Missing or invalid jsonrpc version".to_string())
    );
    assert!(check_incoming(&json_object(obj(vec![("jsonrpc", s("2.0"))]))).is_ok());
}

#[test]
fn raw_messages_are_classified() {
    let raw = |id: Option<u64>, method: Option<&str>, result: Option<JsonValue>, error: Option<ErrorData>| JsonRpcRaw {
        jsonrpc: "2.0".to_string(),
        id,
        method: method.map(|m| m.to_string()),
        params: None,
        result,
        error,
    };
    assert!(matches!(JsonRpcMessage::try_from_raw(raw(Some(1), Some("m"), None, None)), Ok(JsonRpcMessage::Request(_))));
    assert!(matches!(
        JsonRpcMessage::try_from_raw(raw(None, Some("m"), None, None)),
        Ok(JsonRpcMessage::Notification(_))
    ));
    assert!(matches!(
        JsonRpcMessage::try_from_raw(raw(Some(1), None, Some(JsonValue::Null), None)),
        Ok(JsonRpcMessage::Response(JsonRpcResponse { .. }))
    ));
    let err = ErrorData { code: -1, message: "e".to_string(), data: None };
    assert!(matches!(
        JsonRpcMessage::try_from_raw(raw(Some(1), Some("m"), Some(JsonValue::Null), Some(err))),
        Ok(JsonRpcMessage::Error(_))
    ));
    assert_eq!(JsonRpcMessage::try_from_raw(raw(None, None, None, None)), Ok(JsonRpcMessage::Nil));
    assert_eq!(
        JsonRpcMessage::try_from_raw(raw(Some(42), None, None, None)).unwrap_err(),
        "Invalid JSON-RPC message format: id=Some(42), method=None, result=None, error=None"
    );
}
