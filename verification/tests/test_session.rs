use rmcp::model::{NumberOrString, ProgressToken};
use rmcp::text::IntErrorKind;
use rmcp::transport::http::{
    close_failed, delete_route, get_route, post_route, push_failed, request_stream_failed, GetRoute, PostRoute,
};
use rmcp::transport::session::{
    session_id,
    create_session, CachedTx, ClientMessageKind, EventId, EventIdParseError, OutboundChannel, ServerMessageKind,
    SessionConfig, SessionError,
};
use rmcp::transport::tower_adapter::{Answer, SinkPoll, SinkState, TowerSink};

#[test]
fn event_ids_print_and_parse_back() {
    let e = EventId { http_request_id: Some(12), index: 3 };
    assert_eq!(e.to_string(), "3/12");
    assert_eq!(EventId::from_str("3/12"), Ok(e));
    let c = EventId { http_request_id: None, index: 0 };
    assert_eq!(c.to_string(), "0");
    assert_eq!(EventId::from_str("0"), Ok(c));
    assert_eq!(EventId::from_str(""), Err(EventIdParseError::InvalidIndex(IntErrorKind::Empty)));
    assert_eq!(EventId::from_str("x/1"), Err(EventIdParseError::InvalidIndex(IntErrorKind::InvalidDigit)));
    assert_eq!(EventId::from_str("1/"), Err(EventIdParseError::InvalidNumericRequestId(IntErrorKind::Empty)));
    assert_eq!(EventId::from_str("3/abc"), Err(EventIdParseError::InvalidNumericRequestId(IntErrorKind::InvalidDigit)));
    assert_eq!(
        EventId::from_str("1/99999999999999999999"),
        Err(EventIdParseError::InvalidNumericRequestId(IntErrorKind::PosOverflow))
    );
    assert_eq!(
        EventIdParseError::InvalidIndex(IntErrorKind::InvalidDigit).to_string(),
        "Invalid index: invalid digit found in string"
    );
}

#[test]
fn cache_keeps_the_newest_messages() {
    let mut tx: CachedTx<&str> = CachedTx::new(2, Some(5));
    assert_eq!(tx.send("a"), EventId { http_request_id: Some(5), index: 0 });
    assert_eq!(tx.send("b"), EventId { http_request_id: Some(5), index: 1 });
    assert_eq!(tx.send("c"), EventId { http_request_id: Some(5), index: 2 });
    let kept: Vec<&str> = tx.cache().iter().map(|m| m.message).collect();
    assert_eq!(kept, vec!["b", "c"]);
    assert_eq!(tx.sync(2), Ok(1));
    assert_eq!(tx.sync(0), Ok(0));
    assert_eq!(tx.sync(9), Err(SessionError::InvalidEventId));
}

#[test]
fn responses_follow_their_request_then_return_to_the_common_stream() {
    let mut s = create_session::<&str>("s".to_string(), SessionConfig::default());
    assert_eq!(s.config().channel_capacity(), 16);
    let ch = s.establish_request_wise_channel();
    let id = NumberOrString::Number(1);
    s.handle_client_message(
        &ClientMessageKind::Request { id: id.clone(), progress_token: Some(ProgressToken(NumberOrString::Number(9))) },
        Some(ch),
    );
    let progress = ServerMessageKind::ProgressNotification(ProgressToken(NumberOrString::Number(9)));
    assert_eq!(s.resolve_outbound_channel(&progress), OutboundChannel::RequestWise { id: ch, close: false });
    assert_eq!(
        s.resolve_outbound_channel(&ServerMessageKind::Response(id.clone())),
        OutboundChannel::RequestWise { id: ch, close: false }
    );
    assert_eq!(s.resolve_outbound_channel(&ServerMessageKind::Notification), OutboundChannel::Common);
    let (target, e) = s.handle_server_message("progress", &progress).unwrap();
    assert_eq!(target, Some(ch));
    assert_eq!(e, EventId { http_request_id: Some(ch), index: 0 });
    s.handle_client_message(&ClientMessageKind::CancelledNotification(id.clone()), None);
    assert_eq!(s.resolve_outbound_channel(&ServerMessageKind::Response(id)), OutboundChannel::Common);
}

#[test]
fn http_routes_and_refusals() {
    assert_eq!(post_route(None, false, true), Ok(PostRoute::Initialize));
    assert_eq!(post_route(Some(Ok("s".to_string())), true, true), Ok(PostRoute::OpenRequestStream("s".to_string())));
    assert_eq!(post_route(Some(Ok("s".to_string())), true, false), Ok(PostRoute::Forward("s".to_string())));
    let e = post_route(Some(Ok("s".to_string())), false, true).unwrap_err();
    assert_eq!((e.status, e.body.as_str()), (404, "session not found"));
    let e = post_route(Some(Err("bad header".to_string())), true, true).unwrap_err();
    assert_eq!((e.status, e.body.as_str()), (400, "bad header"));

    let e = get_route(None, true, None).unwrap_err();
    assert_eq!((e.status, e.body.as_str()), (400, "missing session id"));
    let e = get_route(Some("s".to_string()), false, None).unwrap_err();
    assert_eq!((e.status, e.body.as_str()), (404, "session s not found"));
    assert_eq!(get_route(Some("s".to_string()), true, None), Ok(GetRoute::Common { session: "s".to_string() }));
    assert_eq!(
        get_route(Some("s".to_string()), true, Some("4/2")),
        Ok(GetRoute::Resume { session: "s".to_string(), from: EventId { http_request_id: Some(2), index: 4 } })
    );
    let e = get_route(Some("s".to_string()), true, Some("x")).unwrap_err();
    assert_eq!((e.status, e.body.as_str()), (400, "invalid event_id Invalid index: invalid digit found in string"));

    assert_eq!(delete_route(Some(Ok("s".to_string())), true), Ok("s".to_string()));
    let e = delete_route(None, true).unwrap_err();
    assert_eq!((e.status, e.body.as_str()), (400, "missing session id"));
    assert_eq!(request_stream_failed("x").body, "fail to to establish request channel: x");
    assert_eq!(push_failed("x").status, 500);
    assert_eq!(close_failed("s", "j").body, "fail to cancel session s: tokio join error: j");
}

#[test]
fn tower_sink_hands_each_answer_out_once() {
    let mut sink: TowerSink<u32> = TowerSink::new();
    assert_eq!(sink.poll_ready::<()>(Answer::Pending), SinkPoll::Ready(Ok(())));
    sink.start_send(true);
    assert_eq!(sink.state, SinkState::Sending);
    assert_eq!(sink.poll_next(), None);
    assert_eq!(sink.rx_waiting, 1);
    assert_eq!(sink.poll_flush::<()>(Answer::Pending), SinkPoll::Pending);
    sink.state = SinkState::Yield { output: Some(7) };
    assert_eq!(sink.poll_next(), Some(7));
    assert_eq!(sink.state, SinkState::Ready);
    sink.start_send(false);
    assert_eq!(sink.state, SinkState::Ready);
    sink.start_send(true);
    assert_eq!(sink.poll_ready::<&str>(Answer::Done(Err("e"))), SinkPoll::Ready(Err("e")));
    assert_eq!(sink.poll_flush::<&str>(Answer::Done(Ok(3))), SinkPoll::Ready(Ok(())));
    assert_eq!(sink.rx_waiting, 0);
}

#[test]
fn session_ids_are_fresh_v4_uuids() {
    let a = session_id();
    let b = session_id();
    assert_eq!(a.len(), 36);
    for (i, c) in a.chars().enumerate() {
        if i == 8 || i == 13 || i == 18 || i == 23 {
            assert_eq!(c, '-');
        } else {
            assert!(c.is_ascii_digit() || ('a'..='f').contains(&c));
        }
    }
    assert_eq!(a.chars().nth(14), Some('4'));
    assert!(matches!(a.chars().nth(19), Some('8' | '9' | 'a' | 'b')));
    assert_ne!(a, b);
}

#[test]
fn an_answer_goes_out_on_its_request_stream_which_then_closes() {
    let mut s = create_session::<&str>("s".to_string(), SessionConfig::default());
    let ch = s.establish_request_wise_channel();
    let id = NumberOrString::Number(7);
    s.handle_client_message(&ClientMessageKind::Request { id: id.clone(), progress_token: None }, Some(ch));
    let (target, e) = s.handle_handler_message("answer", &ServerMessageKind::Response(id.clone())).unwrap();
    assert_eq!(target, Some(ch));
    assert_eq!(e, EventId { http_request_id: Some(ch), index: 0 });
    assert_eq!(s.common_cache().len(), 0);
    assert!(!s.has_channel(ch));
    assert_eq!(s.resolve_outbound_channel(&ServerMessageKind::Response(id)), OutboundChannel::Common);
}
