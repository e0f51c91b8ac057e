use rmcp::json::{empty_object, json_object, json_string, put, JsonValue};
use rmcp::mcp_core::protocol::{JsonRpcMessage, JsonRpcRaw};
use rmcp::transport::session::{
    first_event_step, next_event_step, wake_step, SessionEventKind, WorkerQuit, WorkerStep, WorkerWake,
};

fn key_value() -> JsonValue {
    let mut o = empty_object();
    put(&mut o, "key", json_string("value"));
    json_object(o)
}

#[test]
fn test_notification_conversion() {
    let raw = JsonRpcRaw {
        jsonrpc: "2.0".to_string(),
        id: None,
        method: Some("notify".to_string()),
        params: Some(key_value()),
        result: None,
        error: None,
    };

    let message = JsonRpcMessage::try_from_raw(raw).unwrap();
    match message {
        JsonRpcMessage::Notification(n) => {
            assert_eq!(n.jsonrpc, "2.0");
            assert_eq!(n.method, "notify");
            assert_eq!(n.params.unwrap(), key_value());
        }
        _ => panic!("Expected Notification"),
    }
}

#[test]
fn protocol_test_request_conversion() {
    let raw = JsonRpcRaw {
        jsonrpc: "2.0".to_string(),
        id: Some(1),
        method: Some("request".to_string()),
        params: Some(key_value()),
        result: None,
        error: None,
    };

    let message = JsonRpcMessage::try_from_raw(raw).unwrap();
    match message {
        JsonRpcMessage::Request(r) => {
            assert_eq!(r.jsonrpc, "2.0");
            assert_eq!(r.id, Some(1));
            assert_eq!(r.method, "request");
            assert_eq!(r.params.unwrap(), key_value());
        }
        _ => panic!("Expected Request"),
    }
}

#[test]
fn session_worker_steps() {
    assert_eq!(first_event_step(Some(SessionEventKind::InitializeRequest)), WorkerStep::Initialize);
    assert_eq!(
        first_event_step(Some(SessionEventKind::ClientMessage)),
        WorkerStep::Quit(WorkerQuit::Fatal {
            error: "unexpected message".to_string(),
            context: "get initialize request".to_string()
        })
    );
    assert_eq!(
        first_event_step(None),
        WorkerStep::Quit(WorkerQuit::Fatal {
            error: "transport terminated".to_string(),
            context: "get initialize request".to_string()
        })
    );
    assert_eq!(next_event_step(Some(SessionEventKind::InitializeRequest)), WorkerStep::Ignore);
    assert_eq!(next_event_step(Some(SessionEventKind::Close)), WorkerStep::Quit(WorkerQuit::TransportClosed));
    assert_eq!(next_event_step(Some(SessionEventKind::Resume)), WorkerStep::Resume);
    assert_eq!(
        next_event_step(None),
        WorkerStep::Quit(WorkerQuit::Fatal {
            error: "session dropped".to_string(),
            context: "waiting next session event".to_string()
        })
    );
}

#[test]
fn worker_wakes() {
    assert_eq!(wake_step(WorkerWake::Cancelled), WorkerStep::Quit(WorkerQuit::Cancelled));
    assert_eq!(wake_step(WorkerWake::Handler), WorkerStep::HandlerMessage);
    assert_eq!(wake_step(WorkerWake::Service(Some(SessionEventKind::Resume))), WorkerStep::Resume);
    assert_eq!(
        wake_step(WorkerWake::Service(Some(SessionEventKind::Close))),
        WorkerStep::Quit(WorkerQuit::TransportClosed)
    );
}
