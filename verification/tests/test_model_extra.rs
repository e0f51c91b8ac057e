use rmcp::model::content::Content;
use rmcp::model::{CreateMessageResult, Role, SamplingMessage};
use rmcp::handler::ProgressDispatcher;
use rmcp::json::{JsonNumber, JsonValue};
use rmcp::macros::handler_router_expr;
use rmcp::mcp_client::{Error, McpClient};
use rmcp::model::jsonrpc::{JsonRpcMessage, Notification, Request, RequestOptionalParam};
use rmcp::model::{object, ErrorData, NumberOrString, ProgressToken};
use rmcp::text::signed_decimal_string;
use rmcp::transport::http::{accepted, body_not_a_message, body_unreadable, internal_error, unexpected_message};
use rmcp::transport::sse_client::{endpoint_from_event, SseClientConfig};

type Msg = JsonRpcMessage<u8, u16, u32>;

#[test]
fn messages_give_back_what_they_were_built_from() {
    let id = NumberOrString::Number(3);
    assert_eq!(Msg::request(1, id.clone()).into_request(), Some((1, id.clone())));
    assert_eq!(Msg::response(2, id.clone()).into_response(), Some((2, id.clone())));
    assert_eq!(Msg::notification(4).into_notification(), Some(4));
    let e = ErrorData::internal_error("x", None);
    assert_eq!(Msg::error(e, id.clone()).into_result(), Some((Err(ErrorData::internal_error("x", None)), id.clone())));
    assert_eq!(Msg::response(2, id.clone()).into_result(), Some((Ok(2), id.clone())));
    assert_eq!(Msg::notification(4).into_request(), None);
    assert_eq!(Msg::request(1, id).into_error(), None);
}

#[derive(Debug, Default, PartialEq)]
struct Ping;

#[test]
fn requests_and_notifications_take_their_method_from_the_type() {
    let r: Request<Ping, u8> = Request::new(5);
    assert_eq!((r.method, r.params), (Ping, 5));
    let o: RequestOptionalParam<Ping, u8> = RequestOptionalParam::with_param(6);
    assert_eq!(o.params, Some(6));
    let n: Notification<Ping, u8> = Notification::new(7);
    assert_eq!(n.params, 7);
}

#[test]
fn identifiers_read_from_json() {
    assert_eq!(NumberOrString::from_json(JsonValue::Number(JsonNumber::PosInt(7))), Ok(NumberOrString::Number(7)));
    assert_eq!(
        NumberOrString::from_json(JsonValue::Number(JsonNumber::PosInt((1u64 << 32) + 5))),
        Ok(NumberOrString::Number(5))
    );
    assert_eq!(
        NumberOrString::from_json(JsonValue::Number(JsonNumber::NegInt(-1))),
        Err("Expect an integer".to_string())
    );
    assert_eq!(NumberOrString::from_json(JsonValue::Bool(true)), Err("Expect number or string".to_string()));
    assert_eq!(
        NumberOrString::from_json(JsonValue::String("a".to_string())),
        Ok(NumberOrString::String("a".to_string()))
    );
    assert_eq!(NumberOrString::Number(42).to_string(), "42");
    assert_eq!(NumberOrString::String("id".to_string()).to_string(), "id");
    assert_eq!(NumberOrString::Number(1).into_json_value(), JsonValue::Number(JsonNumber::PosInt(1)));
    let o = rmcp::json::empty_object();
    assert_eq!(object(JsonValue::Object(o)).entries.len(), 0);
}

#[test]
fn progress_reaches_the_latest_subscriber() {
    let t = |n: u32| ProgressToken(NumberOrString::Number(n));
    let mut d: ProgressDispatcher<&str> = ProgressDispatcher::new();
    assert_eq!(d.route(&t(1)), None);
    d.subscribe(t(1), "a");
    d.subscribe(t(2), "b");
    d.subscribe(t(1), "c");
    assert_eq!(d.route(&t(1)), Some(&"c"));
    assert_eq!(d.route(&t(2)), Some(&"b"));
    d.unsubscribe(&t(1));
    assert_eq!(d.route(&t(1)), None);
    assert_eq!(d.route(&t(2)), Some(&"b"));
    d.clear();
    assert_eq!(d.route(&t(2)), None);
}

#[test]
fn http_reply_texts() {
    assert_eq!(accepted().status, 202);
    assert_eq!(unexpected_message("initialize request").body, "Unexpected message, expect initialize request");
    assert_eq!(internal_error("reading", "eof").body, "Encounter an error when reading: eof");
    assert_eq!(body_not_a_message("bad").status, 415);
    assert_eq!(body_unreadable("eof").body, "Failed to read request body: eof");
}

#[test]
fn client_error_texts() {
    assert_eq!(Error::RpcError { code: -32601, message: "m".to_string() }.to_string(), "RPC error: code=-32601, message=m");
    assert_eq!(Error::NotInitialized.to_string(), "Not initialized");
    let c: McpClient<()> = McpClient::new(());
    let e = c.service_error("tools/list", "closed".to_string());
    assert_eq!(e.to_string(), "Call to '' failed for 'tools/list'. closed");
    assert_eq!(signed_decimal_string(i64::MIN), "-9223372036854775808");
    assert_eq!(signed_decimal_string(0), "0");
}

#[test]
fn handler_routers_and_sse_endpoints() {
    assert_eq!(handler_router_expr(None, "tool"), "self.tool_router");
    assert_eq!(handler_router_expr(Some("self.r".to_string()), "prompt"), "self.r");
    assert_eq!(endpoint_from_event(Some("endpoint"), Some("/message?x=1".to_string())), Some("/message?x=1".to_string()));
    assert_eq!(endpoint_from_event(Some("endpoint"), None), Some(String::new()));
    assert_eq!(endpoint_from_event(Some("message"), Some("d".to_string())), None);
    assert_eq!(endpoint_from_event(None, None), None);
    assert_eq!(SseClientConfig::default().use_message_endpoint, None);
}

#[test]
fn create_message_result_stop_reasons() {
    assert_eq!(CreateMessageResult::STOP_REASON_END_TURN, "endTurn");
    assert_eq!(CreateMessageResult::STOP_REASON_END_SEQUENCE, "stopSequence");
    assert_eq!(CreateMessageResult::STOP_REASON_END_MAX_TOKEN, "maxTokens");
    let result = CreateMessageResult {
        model: "test-model".to_string(),
        stop_reason: Some(CreateMessageResult::STOP_REASON_END_TURN.to_string()),
        message: SamplingMessage { role: Role::Assistant, content: Content::text("hi") },
    };
    assert_eq!(result.message.role, Role::Assistant);
}

#[test]
fn progress_reaches_its_subscriber_in_order() {
    let t = |n: u32| ProgressToken(NumberOrString::Number(n));
    let mut d: ProgressDispatcher<Vec<u32>> = ProgressDispatcher::new();
    d.subscribe(t(1), Vec::new());
    d.handle_notification(&t(1), 10);
    d.handle_notification(&t(2), 99);
    d.handle_notification(&t(1), 20);
    d.handle_notification(&t(1), 30);
    assert_eq!(d.receive(&t(1)), Some(vec![10, 20, 30]));
    assert_eq!(d.receive(&t(1)), Some(vec![]));
    assert_eq!(d.receive(&t(2)), None);
    d.unsubscribe(&t(1));
    d.handle_notification(&t(1), 40);
    assert_eq!(d.receive(&t(1)), None);
}
