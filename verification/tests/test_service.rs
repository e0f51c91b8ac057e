use rmcp::json::JsonValue;
use rmcp::model::content::{CallToolResult, Content, RawContent, RawResource};
use rmcp::model::{
    ClientCapabilities, ClientResult, EmptyObject, ErrorCode, ErrorData, Implementation, InitializeRequestParam,
    ProtocolVersion, ServerResult,
};
use rmcp::service::{
    elicitation_content, init_step, negotiate_protocol_version, ElicitationAction, ElicitationError, InitAction,
    InitEvent, InitFailure, InitStage, Peer, SendContext,
};
use rmcp::model::methods::{CallToolRequestMethod, InitializeResultMethod};
use rmcp::model::jsonrpc::JsonRpcVersion2_0;
use rmcp::model::const_string_from;
use rmcp::handler::{prompt_parameters_error, route_target, structured_tool_result, RequestKind, RouteTarget};

fn client(elicitation: bool) -> InitializeRequestParam {
    InitializeRequestParam {
        protocol_version: ProtocolVersion::V_2024_11_05(),
        capabilities: ClientCapabilities {
            experimental: None,
            roots: None,
            sampling: None,
            elicitation: if elicitation { Some(JsonValue::Null) } else { None },
        },
        client_info: Implementation::from_build_env(),
    }
}

#[test]
fn elicitation_needs_the_declared_capability() {
    assert!(!Peer::new(None).supports_elicitation());
    assert!(!Peer::new(Some(client(false))).supports_elicitation());
    assert!(Peer::new(Some(client(true))).supports_elicitation());
    assert_eq!(Peer::new(Some(client(false))).check_elicitation(), Err(ElicitationError::CapabilityNotSupported));
    assert_eq!(elicitation_content(ElicitationAction::Accept, Some(JsonValue::Bool(true))), Ok(JsonValue::Bool(true)));
    assert_eq!(elicitation_content(ElicitationAction::Accept, None), Err(ElicitationError::NoContent));
    assert_eq!(elicitation_content(ElicitationAction::Decline, None), Err(ElicitationError::UserDeclined));
    assert_eq!(elicitation_content(ElicitationAction::Cancel, None), Err(ElicitationError::UserCancelled));
}

#[test]
fn the_earlier_protocol_version_wins() {
    let v = negotiate_protocol_version(&ProtocolVersion::V_2024_11_05(), ProtocolVersion::V_2025_03_26());
    assert_eq!(v, ProtocolVersion::V_2024_11_05());
    let v = negotiate_protocol_version(&ProtocolVersion::V_2025_03_26(), ProtocolVersion::V_2024_11_05());
    assert_eq!(v, ProtocolVersion::V_2024_11_05());
    let v = negotiate_protocol_version(&ProtocolVersion::from_text("2099-01-01".to_string()), ProtocolVersion::LATEST());
    assert_eq!(v, ProtocolVersion::LATEST());
}

#[test]
fn handshake_steps() {
    assert_eq!(
        init_step(InitStage::ExpectRequest, InitEvent::Request { initialize: true }),
        (InitStage::ExpectResult, InitAction::CallService)
    );
    assert_eq!(
        init_step(InitStage::ExpectResult, InitEvent::InitializeResult),
        (InitStage::SendingResult, InitAction::SendResult)
    );
    assert_eq!(
        init_step(InitStage::SendingResult, InitEvent::Sent { ok: true }),
        (InitStage::ExpectNotification, InitAction::AwaitNotification)
    );
    assert_eq!(
        init_step(InitStage::SendingResult, InitEvent::Sent { ok: false }),
        (InitStage::Failed, InitAction::Fail(InitFailure::TransportError(SendContext::InitializeResponse)))
    );
    assert_eq!(
        init_step(InitStage::ExpectNotification, InitEvent::Notification { initialized: true }),
        (InitStage::Serving, InitAction::Serve)
    );
    assert_eq!(
        init_step(InitStage::ExpectRequest, InitEvent::Notification { initialized: true }),
        (InitStage::Failed, InitAction::Fail(InitFailure::ExpectedInitializeRequest))
    );
    let err = || ErrorData::internal_error("boom", None);
    assert_eq!(
        init_step(InitStage::ExpectResult, InitEvent::ServiceError(err())),
        (InitStage::SendingError(err()), InitAction::SendError)
    );
    assert_eq!(
        init_step(InitStage::SendingError(err()), InitEvent::Sent { ok: true }),
        (InitStage::Failed, InitAction::Fail(InitFailure::InitializeFailed(err())))
    );
    assert_eq!(
        init_step(InitStage::SendingError(err()), InitEvent::Sent { ok: false }),
        (InitStage::Failed, InitAction::Fail(InitFailure::TransportError(SendContext::ErrorResponse)))
    );
    assert_eq!(SendContext::ErrorResponse.to_string(), "sending error response");
    assert_eq!(SendContext::InitializeResponse.to_string(), "sending initialize response");
    assert_eq!(
        init_step(InitStage::ExpectResult, InitEvent::Cancelled),
        (InitStage::Failed, InitAction::Fail(InitFailure::Cancelled))
    );
    assert_eq!(
        init_step(InitStage::ExpectNotification, InitEvent::Closed),
        (InitStage::Failed, InitAction::Fail(InitFailure::ClosedBeforeNotification))
    );
}

#[test]
fn model_values() {
    assert_eq!(ClientResult::empty(()), ClientResult::EmptyResult(EmptyObject {}));
    assert_eq!(ServerResult::empty(()), ServerResult::EmptyResult(EmptyObject {}));
    let i = Implementation::from_build_env();
    assert_eq!((i.name.as_str(), i.version.as_str()), ("rmcp", "0.1.0"));
    let e = ErrorData::method_not_found::<CallToolRequestMethod>();
    assert_eq!(e.code, ErrorCode(-32601));
    assert_eq!(e.message, "tools/call");
    assert_eq!(ErrorData::resource_not_found("r", None).code, ErrorCode(ErrorCode::RESOURCE_NOT_FOUND));
    assert_eq!(ErrorData::parse_error("p", None).code, ErrorCode(-32700));
}

#[test]
fn tool_results() {
    assert_eq!(CallToolResult::success(vec![]).is_error, Some(false));
    assert_eq!(CallToolResult::error(vec![]).is_error, Some(true));
    let bare = CallToolResult { content: None, structured_content: None, is_error: None };
    assert_eq!(bare.validate(), Err("either content or structured_content must be provided"));
    assert!(CallToolResult::structured_error(JsonValue::Null).validate().is_ok());
    assert!(CallToolResult::from_parts(None, None, Some(true)).is_err());
    assert_eq!(
        structured_tool_result(Err("bad".to_string())).unwrap_err().message,
        "Failed to serialize structured content: bad"
    );
    assert_eq!(structured_tool_result(Ok(JsonValue::Null)).unwrap(), CallToolResult::structured(JsonValue::Null));
    assert_eq!(prompt_parameters_error(true, "x").message, "Failed to parse parameters: x");
    assert_eq!(prompt_parameters_error(false, "x").message, "Missing required parameters: x");
    assert_eq!(route_target(RequestKind::CallTool, false, true), RouteTarget::Service);
    assert_eq!(route_target(RequestKind::CallTool, false, false), RouteTarget::ToolRouter);
    assert_eq!(route_target(RequestKind::ListTools, false, true), RouteTarget::ListTools);
}

#[test]
fn raw_content() {
    assert_eq!(RawContent::text("t").as_text().map(|t| t.text.as_str()), Some("t"));
    assert!(RawContent::text("t").as_image().is_none());
    let link = RawResource {
        uri: "u".to_string(),
        name: "n".to_string(),
        description: None,
        mime_type: None,
        size: Some(3),
    };
    let c = RawContent::resource_link(link.clone());
    assert_eq!(c.as_resource_link(), Some(&link));
    match RawContent::embedded_text("u", "body") {
        RawContent::Resource(e) => assert!(e.meta.is_none()),
        _ => panic!("expected a resource"),
    }
}

#[test]
fn const_strings_accept_only_their_value() {
    assert_eq!(const_string_from::<InitializeResultMethod>("initialize"), Ok(InitializeResultMethod));
    assert_eq!(
        const_string_from::<InitializeResultMethod>("init"),
        Err("expect const string value \"initialize\"".to_string())
    );
    assert_eq!(const_string_from::<JsonRpcVersion2_0>("2.0"), Ok(JsonRpcVersion2_0));
}

#[test]
fn test_mixed_content_types() {

    let resource = RawResource::new("file:///doc.pdf", "Document");

    let result = CallToolResult::success(vec![
        Content::text("Processing complete"),
        Content::resource_link(resource),
        Content::embedded_text("memo://result", "Analysis results here"),
    ]);

    let content = result.content.as_ref().unwrap();
    assert_eq!(content.len(), 3);
    assert!(content[0].as_text().is_some());
    assert!(content[1].as_resource_link().is_some());
    assert!(content[2].as_resource().is_some());
}
