use rmcp::handler::{messages_into_prompt_result, tool_parameters_error};
use rmcp::json::{empty_object, json_object, JsonValue};
use rmcp::macros::{extract_schema_from_return_type, GenericArg, PathSegment, TypeShape};
use rmcp::mcp_core::prompt::{PromptMessage, PromptMessageRole};
use rmcp::mcp_server::Server;
use rmcp::model::content::RawContent;
use rmcp::model::{ErrorCode, ErrorData, NumberOrString};
use rmcp::mcp_core::resource::ResourceContents;
use rmcp::transport::http::{common_stream_failed, initialize_failed, resume_failed, session_terminated};
use rmcp::transport::session::{create_session, EventId, ServerMessageKind, SessionConfig};

#[test]
fn session_streams_open_close_and_replay() {
    let mut s = create_session::<u8>("id".to_string(), SessionConfig::default());
    assert_eq!(s.id(), "id");
    let ch = s.establish_request_wise_channel();
    assert!(s.has_channel(ch));
    assert_eq!(s.channel_cache(ch).map(|c| c.len()), Some(0));
    let (target, e) = s.handle_handler_message(1, &ServerMessageKind::Notification).unwrap();
    assert_eq!(target, None);
    assert_eq!(e, EventId { http_request_id: None, index: 0 });
    assert_eq!(s.common_cache().len(), 1);
    assert_eq!(s.resume(EventId { http_request_id: None, index: 0 }), Ok((None, 0)));
    s.close_request_wise_channel(ch);
    assert!(!s.has_channel(ch));
    assert_eq!(s.channel_cache(ch).map(|c| c.len()), None);
    let (target, _) =
        s.handle_handler_message(2, &ServerMessageKind::Response(NumberOrString::Number(5))).unwrap();
    assert_eq!(target, None);
}

#[test]
fn more_http_refusals() {
    assert_eq!(session_terminated().status, 410);
    assert_eq!(initialize_failed("x").body, "fail to initialize: x");
    assert_eq!(resume_failed("x").body, "resume error x");
    assert_eq!(common_stream_failed("x").body, "establish common channel error x");
}

#[test]
fn handler_conversions() {
    let r = messages_into_prompt_result(vec![PromptMessage::new_text(PromptMessageRole::User, "m")]);
    assert!(r.description.is_none());
    assert_eq!(r.messages.len(), 1);
    let e = tool_parameters_error("missing field `a`");
    assert_eq!(e.code, ErrorCode(ErrorCode::INVALID_PARAMS));
    assert_eq!(e.message, "failed to deserialize parameters: missing field `a`");
    assert_eq!(ErrorData::invalid_request("r", None).code, ErrorCode(-32600));
}

#[test]
fn values_and_shapes() {
    let o = json_object(empty_object());
    assert!(o.as_object().is_some());
    assert!(JsonValue::Null.as_object().is_none());
    let json = TypeShape::Path(vec![PathSegment {
        ident: "Json".to_string(),
        args: Some(vec![GenericArg::Type(TypeShape::Other)]),
    }]);
    assert_eq!(extract_schema_from_return_type(&json), Some(&TypeShape::Other));
    assert_eq!(extract_schema_from_return_type(&TypeShape::Other), None);
    let r = RawContent::resource(ResourceContents::BlobResourceContents {
        uri: "u".to_string(),
        mime_type: None,
        blob: "AA==".to_string(),
    });
    assert!(r.as_resource().is_some());
    let server = Server::new(7u8);
    assert_eq!(server.into_service(), 7);
}
