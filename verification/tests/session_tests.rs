use communicator::error::DiscordRpcError;
use communicator::session::{
    heartbeat_continues, reader_continues, reader_step, writer_continues, ReaderStep,
};
use communicator::frame::OPCODE_FRAME;
use communicator::json::{JsonNumber, JsonValue};
use communicator::models::Activity;
use communicator::session::{
    classify_incoming, generate_nonce, session_step, teardown_notices, write_action,
    ClientCommand, HeartbeatEvent, ReadAction, ServerMessage, SessionAction, SessionEvent,
    SessionState, WriteAction, WriteCommand,
};

fn activity(details: &str) -> Activity {
    Activity {
        details: Some(details.to_string()),
        state: None,
        timestamps: None,
        assets: None,
        party: None,
        secrets: None,
        instance: Some(false),
    }
}

fn text_at<'a>(v: &'a JsonValue, key: &str) -> Option<&'a str> {
    v.get(key).and_then(|x| x.as_str()).map(|s| s.as_str())
}

#[test]
fn set_activity_is_forwarded() {
    let (state, action) = session_step(
        SessionState::Running,
        SessionEvent::Command(ClientCommand::SetActivity(activity("coding"))),
    );
    assert_eq!(state, SessionState::Running);
    match action {
        SessionAction::Write(WriteCommand::SetActivity(a)) => assert_eq!(a, activity("coding")),
        other => panic!("unexpected action {:?}", other),
    }
}

#[test]
fn clear_and_beat_are_forwarded() {
    let (s, a) = session_step(SessionState::Running, SessionEvent::Command(ClientCommand::ClearActivity));
    assert_eq!(s, SessionState::Running);
    assert!(matches!(a, SessionAction::Write(WriteCommand::ClearActivity)));
    let (s, a) = session_step(SessionState::Running, SessionEvent::Heartbeat(HeartbeatEvent::Beat));
    assert_eq!(s, SessionState::Running);
    assert!(matches!(a, SessionAction::Write(WriteCommand::Heartbeat)));
}

#[test]
fn other_events_are_ignored() {
    for event in [
        SessionEvent::Heartbeat(HeartbeatEvent::Ack),
        SessionEvent::Heartbeat(HeartbeatEvent::Stop),
        SessionEvent::Server(ServerMessage::Payload(JsonValue::Null)),
        SessionEvent::Server(ServerMessage::Close),
    ] {
        let (s, a) = session_step(SessionState::Running, event);
        assert_eq!(s, SessionState::Running);
        assert!(matches!(a, SessionAction::Nothing));
    }
}

#[test]
fn disconnect_and_closed_channels_end_the_session() {
    let (s, a) = session_step(SessionState::Running, SessionEvent::Command(ClientCommand::Disconnect));
    assert_eq!(s, SessionState::Closed);
    assert!(matches!(a, SessionAction::Shutdown));
    let (s, a) = session_step(SessionState::Running, SessionEvent::ChannelsClosed);
    assert_eq!(s, SessionState::Closed);
    assert!(matches!(a, SessionAction::Shutdown));
}

#[test]
fn closed_session_stays_closed() {
    let events = vec![
        SessionEvent::Command(ClientCommand::SetActivity(activity("x"))),
        SessionEvent::Heartbeat(HeartbeatEvent::Beat),
        SessionEvent::Command(ClientCommand::Disconnect),
    ];
    for e in events {
        let (s, a) = session_step(SessionState::Closed, e);
        assert_eq!(s, SessionState::Closed);
        assert!(matches!(a, SessionAction::Nothing));
    }
}

#[test]
fn a_run_of_events_stops_at_disconnect() {
    let events = vec![
        SessionEvent::Command(ClientCommand::SetActivity(activity("a"))),
        SessionEvent::Command(ClientCommand::Disconnect),
        SessionEvent::Command(ClientCommand::ClearActivity),
    ];
    let mut state = SessionState::Running;
    let mut writes = 0;
    for e in events {
        let (next, action) = session_step(state, e);
        if matches!(action, SessionAction::Write(_)) {
            writes += 1;
        }
        state = next;
    }
    assert_eq!(state, SessionState::Closed);
    assert_eq!(writes, 1);
}

#[test]
fn teardown_stops_heartbeat_then_writer() {
    assert_eq!(teardown_notices(), (HeartbeatEvent::Stop, WriteCommand::Disconnect));
}

#[test]
fn heartbeat_ack_goes_to_heartbeat_channel() {
    let msg = JsonValue::Object(vec![
        ("op".to_string(), JsonValue::Number(JsonNumber::PosInt(1))),
        ("d".to_string(), JsonValue::Null),
    ]);
    assert!(matches!(classify_incoming(msg), ReadAction::Heartbeat(HeartbeatEvent::Ack)));
}

#[test]
fn other_messages_go_to_main_loop() {
    let msg = JsonValue::Object(vec![(
        "op".to_string(),
        JsonValue::Number(JsonNumber::PosInt(2)),
    )]);
    match classify_incoming(msg) {
        ReadAction::Forward(ServerMessage::Payload(v)) => {
            assert_eq!(v.get("op").and_then(|x| x.as_u64()), Some(2))
        },
        _ => panic!("forwarded"),
    }
    let msg = JsonValue::Object(vec![("op".to_string(), JsonValue::Str("1".to_string()))]);
    assert!(matches!(classify_incoming(msg), ReadAction::Forward(_)));
    assert!(matches!(classify_incoming(JsonValue::Null), ReadAction::Forward(_)));
}

#[test]
fn nonce_is_decimal_clock() {
    assert_eq!(generate_nonce(0), "0");
    assert_eq!(generate_nonce(1_700_000_000_123_456_789), "1700000000123456789");
    assert_eq!(generate_nonce(u128::MAX), u128::MAX.to_string());
    assert_ne!(generate_nonce(10), generate_nonce(1));
}

#[test]
fn set_activity_request() {
    let action = write_action(WriteCommand::SetActivity(activity("Coding")), "42", 1234, 987);
    match action {
        WriteAction::Send { opcode, message } => {
            assert_eq!(opcode, OPCODE_FRAME);
            assert_eq!(text_at(&message, "cmd"), Some("SET_ACTIVITY"));
            assert_eq!(text_at(&message, "nonce"), Some("987"));
            let args = message.get("args").expect("args");
            assert_eq!(args.get("pid").and_then(|p| p.as_u64()), Some(1234));
            assert_eq!(text_at(args, "client_id"), Some("42"));
            let act = args.get("activity").expect("activity");
            assert_eq!(text_at(act, "details"), Some("Coding"));
            assert!(matches!(act.get("state"), Some(JsonValue::Null)));
            assert!(matches!(act.get("instance"), Some(JsonValue::Bool(false))));
        },
        WriteAction::Stop => panic!("a request is sent"),
    }
}

#[test]
fn clear_activity_request() {
    match write_action(WriteCommand::ClearActivity, "42", 7, 55) {
        WriteAction::Send { opcode, message } => {
            assert_eq!(opcode, 1);
            assert_eq!(text_at(&message, "cmd"), Some("SET_ACTIVITY"));
            assert_eq!(text_at(&message, "nonce"), Some("55"));
            let args = message.get("args").expect("args");
            assert!(matches!(args.get("activity"), Some(JsonValue::Null)));
            assert_eq!(args.get("pid").and_then(|p| p.as_u64()), Some(7));
        },
        WriteAction::Stop => panic!("a request is sent"),
    }
}

#[test]
fn heartbeat_and_disconnect() {
    match write_action(WriteCommand::Heartbeat, "42", 7, 55) {
        WriteAction::Send { opcode, message } => {
            assert_eq!(opcode, 1);
            assert_eq!(message.get("op").and_then(|p| p.as_u64()), Some(1));
            assert!(matches!(message.get("d"), Some(JsonValue::Null)));
            assert!(message.get("nonce").is_none());
        },
        WriteAction::Stop => panic!("a heartbeat is sent"),
    }
    assert!(matches!(write_action(WriteCommand::Disconnect, "42", 7, 55), WriteAction::Stop));
}

#[test]
fn reader_stops_on_failed_read() {
    assert!(matches!(reader_step(Err(DiscordRpcError::ConnectionClosed)), ReaderStep::Stop));
    match reader_step(Ok(JsonValue::Null)) {
        ReaderStep::Deliver(a) => assert!(a.is_forward()),
        ReaderStep::Stop => panic!("a message is delivered"),
    }
    let ack = JsonValue::Object(vec![("op".to_string(), JsonValue::Number(JsonNumber::PosInt(1)))]);
    match reader_step(Ok(ack)) {
        ReaderStep::Deliver(a) => assert!(!a.is_forward()),
        ReaderStep::Stop => panic!("an ack is delivered"),
    }
    assert!(reader_continues(true, true));
    assert!(!reader_continues(true, false));
    assert!(reader_continues(false, false));
    assert!(writer_continues(true));
    assert!(!writer_continues(false));
    assert!(heartbeat_continues(true));
    assert!(!heartbeat_continues(false));
}
