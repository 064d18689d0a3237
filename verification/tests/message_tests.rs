use communicator::error::DiscordRpcError;
use communicator::frame::{encode_frame, OPCODE_FRAME, OPCODE_HANDSHAKE};
use communicator::handshake::handshake_message;
use communicator::json::{parse_json, render_json, JsonNumber, JsonValue};
use communicator::message::{decode_message, encode_message};

#[test]
fn render_is_compact_with_sorted_keys() {
    let v = JsonValue::Object(vec![
        ("v".to_string(), JsonValue::Number(JsonNumber::PosInt(1))),
        ("client_id".to_string(), JsonValue::Str("42".to_string())),
    ]);
    assert_eq!(render_json(&v), r#"{"client_id":"42","v":1}"#);
    assert_eq!(render_json(&JsonValue::Str("a\"b".to_string())), r#""a\"b""#);
    assert_eq!(render_json(&JsonValue::Number(JsonNumber::NegInt(-3))), "-3");
    assert_eq!(render_json(&JsonValue::Number(JsonNumber::Float("1.5".to_string()))), "1.5");
}

#[test]
fn parse_reads_documents() {
    let v = parse_json(br#"{"evt":"READY","data":{"heartbeat_interval":41250,"x":[true,-2,0.5]}}"#)
        .expect("a document");
    assert_eq!(v.get("evt").and_then(|e| e.as_str()).map(|s| s.as_str()), Some("READY"));
    let data = v.get("data").expect("data");
    assert_eq!(data.get("heartbeat_interval").and_then(|h| h.as_u64()), Some(41250));
    match data.get("x") {
        Some(JsonValue::Array(items)) => {
            assert!(matches!(items[0], JsonValue::Bool(true)));
            assert!(matches!(items[1], JsonValue::Number(JsonNumber::NegInt(-2))));
            assert!(matches!(&items[2], JsonValue::Number(JsonNumber::Float(t)) if t == "0.5"));
        },
        _ => panic!("an array"),
    }
}

#[test]
fn parse_refuses_non_json() {
    assert!(matches!(parse_json(b"{not json"), Err(DiscordRpcError::SerializationError(_))));
    assert!(matches!(parse_json(b""), Err(DiscordRpcError::SerializationError(_))));
}

#[test]
fn encode_message_frames_the_text() {
    let bytes = encode_message(OPCODE_HANDSHAKE, &handshake_message("7"));
    let text = br#"{"client_id":"7","v":1}"#;
    assert_eq!(bytes, encode_frame(OPCODE_HANDSHAKE, text));
    assert_eq!(&bytes[4..8], &[text.len() as u8, 0, 0, 0]);
}

#[test]
fn message_roundtrip() {
    let mut bytes = encode_message(OPCODE_FRAME, &handshake_message("abc"));
    let len = bytes.len();
    bytes.extend_from_slice(b"trailing");
    let (read, used) = decode_message(&bytes).expect("a whole frame");
    assert_eq!(used, len);
    let v = read.expect("a document");
    assert_eq!(v.get("client_id").and_then(|c| c.as_str()).map(|s| s.as_str()), Some("abc"));
    assert_eq!(v.get("v").and_then(|c| c.as_u64()), Some(1));
}

#[test]
fn decode_message_on_short_or_bad_frames() {
    assert!(decode_message(&[1, 0, 0, 0, 9, 0, 0, 0]).is_none());
    let bad = encode_frame(OPCODE_FRAME, b"nope");
    match decode_message(&bad) {
        Some((Err(DiscordRpcError::SerializationError(_)), used)) => assert_eq!(used, 12),
        other => panic!("expected a serialization error, got {:?}", other),
    }
}

#[test]
fn floats_render_as_read() {
    for text in [
        "0.1",
        "0.30000000000000004",
        "1e300",
        "2.2250738585072014e-308",
        "123456789.123456789",
        "9007199254740993.0",
        "-0.000001234567890123456789",
        "[1.7976931348623157e308,5e-324]",
    ] {
        let parsed = parse_json(text.as_bytes()).expect("a document");
        let expected = serde_json::from_str::<serde_json::Value>(text).unwrap().to_string();
        assert_eq!(render_json(&parsed), expected);
    }
}
