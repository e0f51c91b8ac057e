use rmcp::json::{empty_object, json_object, json_string, put, JsonValue};
use rmcp::mcp_client::{
    incoming_key, initialize_params, notification, outgoing_key, process_exit_message, ClientCapabilities, ClientInfo,
    ClientStep, Error, McpClient, McpService, StdioTransport,
};
use rmcp::mcp_core::protocol::{
    ErrorData, Implementation, InitializeResult, JsonRpcError, JsonRpcMessage, JsonRpcRequest, JsonRpcResponse,
    ServerCapabilities, ToolsCapability, METHOD_NOT_FOUND,
};
use rmcp::assoc::AssocList;

fn initialized(caps: ServerCapabilities) -> McpClient<()> {
    let mut c = McpClient::new(());
    c.complete_initialization(&InitializeResult {
        protocol_version: "2024-11-05".to_string(),
        capabilities: caps,
        server_info: Implementation { name: "srv".to_string(), version: "1".to_string() },
        instructions: None,
    });
    c
}

#[test]
fn requests_take_increasing_ids_and_answers_must_match() {
    let mut c = McpClient::new(());
    let first = c.next_request("ping", JsonValue::Null);
    match first {
        JsonRpcMessage::Request(JsonRpcRequest { id, method, .. }) => {
            assert_eq!(id, Some(1));
            assert_eq!(method, "ping");
        }
        _ => panic!("expected a request"),
    }
    let answer = |id: Option<u64>| {
        JsonRpcMessage::Response(JsonRpcResponse {
            jsonrpc: "2.0".to_string(),
            id,
            result: Some(JsonValue::Bool(true)),
            error: None,
        })
    };
    assert_eq!(c.read_response(answer(Some(1))), Ok(JsonValue::Bool(true)));
    assert_eq!(
        c.read_response(answer(Some(2))),
        Err(Error::UnexpectedResponse("id mismatch for JsonRpcResponse".to_string()))
    );
    let missing = JsonRpcMessage::Response(JsonRpcResponse { jsonrpc: "2.0".to_string(), id: Some(1), result: None, error: None });
    assert_eq!(c.read_response(missing), Err(Error::UnexpectedResponse("missing result".to_string())));
    let err = JsonRpcMessage::Error(JsonRpcError {
        jsonrpc: "2.0".to_string(),
        id: Some(1),
        error: ErrorData { code: -5, message: "no".to_string(), data: None },
    });
    assert_eq!(c.read_response(err), Err(Error::RpcError { code: -5, message: "no".to_string() }));
    assert_eq!(
        c.read_response(JsonRpcMessage::Nil),
        Err(Error::UnexpectedResponse("unexpected message type".to_string()))
    );
    let second = c.next_request("ping", JsonValue::Null);
    assert!(matches!(second, JsonRpcMessage::Request(JsonRpcRequest { id: Some(2), .. })));
}

#[test]
fn operations_wait_for_initialization_and_capabilities() {
    let c = McpClient::new(());
    assert!(!c.completed_initialization());
    assert_eq!(c.server_name(), "");
    assert_eq!(c.list_tools(None), ClientStep::Fail(Error::NotInitialized));
    assert_eq!(c.read_resource("u"), ClientStep::Fail(Error::NotInitialized));

    let c = initialized(ServerCapabilities { prompts: None, resources: None, tools: None });
    assert_eq!(c.server_name(), "srv");
    match c.list_resources(None) {
        ClientStep::Done(l) => assert!(l.resources.is_empty() && l.next_cursor.is_none()),
        _ => panic!("expected an empty list"),
    }
    assert_eq!(
        c.call_tool("t", JsonValue::Null),
        ClientStep::Fail(Error::RpcError {
            code: METHOD_NOT_FOUND,
            message: "Server does not support 'tools' capability".to_string()
        })
    );
    assert_eq!(
        c.read_resource("u"),
        ClientStep::Fail(Error::RpcError {
            code: METHOD_NOT_FOUND,
            message: "Server does not support 'resources' capability".to_string()
        })
    );

    let c = initialized(ServerCapabilities {
        prompts: None,
        resources: None,
        tools: Some(ToolsCapability { list_changed: None }),
    });
    let mut expected = empty_object();
    put(&mut expected, "cursor", json_string("c1"));
    assert_eq!(
        c.list_tools(Some("c1".to_string())),
        ClientStep::Send { method: "tools/list".to_string(), params: json_object(expected) }
    );
    assert_eq!(
        c.list_tools(None),
        ClientStep::Send { method: "tools/list".to_string(), params: json_object(empty_object()) }
    );
    let mut call = empty_object();
    put(&mut call, "name", json_string("t"));
    put(&mut call, "arguments", JsonValue::Null);
    assert_eq!(
        c.call_tool("t", JsonValue::Null),
        ClientStep::Send { method: "tools/call".to_string(), params: json_object(call) }
    );
}

#[test]
fn answers_reach_the_request_that_waits_for_them() {
    let req = JsonRpcMessage::Request(JsonRpcRequest {
        jsonrpc: "2.0".to_string(),
        id: Some(31),
        method: "m".to_string(),
        params: None,
    });
    let resp = JsonRpcMessage::Response(JsonRpcResponse { jsonrpc: "2.0".to_string(), id: Some(31), result: None, error: None });
    assert_eq!(outgoing_key(&req), Some("31".to_string()));
    assert_eq!(incoming_key(&resp), outgoing_key(&req));
    assert_eq!(incoming_key(&JsonRpcMessage::Nil), None);
    assert_eq!(outgoing_key(&notification("n", JsonValue::Null)), None);
}

#[test]
fn client_plumbing_values() {
    let p = initialize_params(ClientInfo { name: "c".to_string(), version: "1".to_string() }, ClientCapabilities::default());
    assert_eq!(p.protocol_version, "1.0.0");
    assert_eq!(process_exit_message("oops".to_string(), 4), "oops");
    assert_eq!(process_exit_message(String::new(), 0), "Process ended unexpectedly");
    let t = StdioTransport::new("cmd", vec!["-v".to_string()], AssocList::new());
    assert_eq!(t.command, "cmd");
    let s = McpService::new(5u8);
    assert_eq!(*s.transport_ref(), 5);
    let _timed = McpService::with_timeout(1u8, std::time::Duration::from_secs(1));
}
