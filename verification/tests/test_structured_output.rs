use rmcp::handler::structured_tool_result;
use rmcp::json::{empty_object, json_array, json_object, json_string, put, to_json_text, JsonNumber, JsonValue};
use rmcp::model::content::{CallToolResult, Content};
use rmcp::model::{ErrorCode, ErrorData};

fn num(n: u64) -> JsonValue {
    JsonValue::Number(JsonNumber::PosInt(n))
}

fn sum_and_product() -> JsonValue {
    let mut o = empty_object();
    put(&mut o, "sum", num(7));
    put(&mut o, "product", num(12));
    json_object(o)
}

fn parsed(text: &str) -> serde_json::Value {
    serde_json::from_str(text).unwrap()
}

fn serde_value(v: &JsonValue) -> serde_json::Value {
    serde_json::from_str(&to_json_text(v)).unwrap()
}

#[test]
fn test_structured_content_in_call_result() {
    let structured_data = sum_and_product();
    let result = CallToolResult::structured(sum_and_product());
    assert!(result.content.is_some());
    assert!(result.structured_content.is_some());
    let contents = result.content.unwrap();
    assert_eq!(contents.len(), 1);
    let content_text = contents.first().unwrap().as_text();
    assert!(content_text.is_some());
    let content_value: serde_json::Value = serde_json::from_str(&content_text.unwrap().text).unwrap();
    assert_eq!(content_value, serde_value(&structured_data));
    assert_eq!(content_value, parsed(r#"{"sum": 7, "product": 12}"#));
    assert_eq!(result.structured_content.unwrap(), structured_data);
    assert_eq!(result.is_error, Some(false));
}

#[test]
fn test_structured_error_in_call_result() {
    let error = || {
        let mut o = empty_object();
        put(&mut o, "error_code", json_string("NOT_FOUND"));
        put(&mut o, "message", json_string("User not found"));
        json_object(o)
    };
    let result = CallToolResult::structured_error(error());
    let contents = result.content.unwrap();
    assert_eq!(contents.len(), 1);
    let content_value: serde_json::Value =
        serde_json::from_str(&contents[0].as_text().unwrap().text).unwrap();
    assert_eq!(content_value, parsed(r#"{"error_code": "NOT_FOUND", "message": "User not found"}"#));
    assert_eq!(result.structured_content.unwrap(), error());
    assert_eq!(result.is_error, Some(true));
}

#[test]
fn test_mutual_exclusivity_validation() {
    let content_result = CallToolResult::success(vec![Content::text("Hello")]);
    let mut o = empty_object();
    put(&mut o, "message", json_string("Hello"));
    let structured_result = CallToolResult::structured(json_object(o));
    assert!(content_result.validate().is_ok());
    assert!(structured_result.validate().is_ok());
}

#[test]
fn test_structured_return_conversion() {
    let result = structured_tool_result(Ok(sum_and_product())).unwrap();
    assert_eq!(result.structured_content, Some(sum_and_product()));
    assert_eq!(result.is_error, Some(false));
    let contents = result.content.unwrap();
    assert_eq!(contents.len(), 1);
    let v: serde_json::Value = serde_json::from_str(&contents[0].as_text().unwrap().text).unwrap();
    assert_eq!(v, parsed(r#"{"sum": 7, "product": 12}"#));
    let e: ErrorData = structured_tool_result(Err("boom".to_string())).unwrap_err();
    assert_eq!(e.code, ErrorCode(ErrorCode::INTERNAL_ERROR));
}

#[test]
fn json_text_is_compact_and_escaped() {
    let mut o = empty_object();
    put(&mut o, "a", json_array(vec![JsonValue::Null, JsonValue::Bool(true), JsonValue::Number(JsonNumber::NegInt(-3))]));
    put(&mut o, "s", json_string("q\"\\\n\u{1}é"));
    put(&mut o, "f", JsonValue::Number(JsonNumber::Float("1.5".to_string())));
    let text = to_json_text(&json_object(o));
    assert_eq!(text, "{\"a\":[null,true,-3],\"s\":\"q\\\"\\\\\\n\\u0001é\",\"f\":1.5}");
    assert_eq!(to_json_text(&json_array(Vec::new())), "[]");
    assert_eq!(to_json_text(&json_object(empty_object())), "{}");
    let v: serde_json::Value = serde_json::from_str(&text).unwrap();
    assert_eq!(v["s"], serde_json::Value::String("q\"\\\n\u{1}é".to_string()));
}
