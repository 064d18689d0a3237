use communicator::frame::{
    decode_frame, decode_header, decode_u32_le, encode_frame, encode_u32_le, HEADER_LEN,
    OPCODE_FRAME, OPCODE_HANDSHAKE,
};

#[test]
fn u32_little_endian_bytes() {
    assert_eq!(encode_u32_le(0x1234_5678), vec![0x78, 0x56, 0x34, 0x12]);
    assert_eq!(encode_u32_le(0), vec![0, 0, 0, 0]);
    assert_eq!(encode_u32_le(u32::MAX), vec![0xff, 0xff, 0xff, 0xff]);
    assert_eq!(decode_u32_le(&[0x78, 0x56, 0x34, 0x12]), 0x1234_5678);
    assert_eq!(decode_u32_le(&[1, 0, 0, 0, 9]), 1);
}

#[test]
fn u32_roundtrip_on_samples() {
    for v in [0u32, 1, 255, 256, 65535, 65536, 0xdead_beef, u32::MAX] {
        assert_eq!(decode_u32_le(&encode_u32_le(v)), v);
    }
}

#[test]
fn frame_layout() {
    let frame = encode_frame(OPCODE_FRAME, b"{}");
    assert_eq!(frame, vec![1, 0, 0, 0, 2, 0, 0, 0, b'{', b'}']);
    let empty = encode_frame(OPCODE_HANDSHAKE, b"");
    assert_eq!(empty, vec![0; 8]);
    assert_eq!(HEADER_LEN, 8);
}

#[test]
fn frame_length_field_counts_bytes() {
    let payload = vec![7u8; 300];
    let frame = encode_frame(3, &payload);
    assert_eq!(frame.len(), 308);
    assert_eq!(&frame[4..8], &[0x2c, 0x01, 0, 0]);
}

#[test]
fn frame_roundtrip_with_trailing_bytes() {
    let payload = br#"{"cmd":"DISPATCH"}"#.to_vec();
    let mut bytes = encode_frame(OPCODE_FRAME, &payload);
    bytes.extend_from_slice(&[9, 9, 9]);
    let (opcode, decoded, used) = decode_frame(&bytes).expect("a whole frame");
    assert_eq!(opcode, OPCODE_FRAME);
    assert_eq!(decoded, payload);
    assert_eq!(used, 8 + payload.len());
}

#[test]
fn incomplete_frames_are_not_decoded() {
    assert!(decode_frame(&[1, 0, 0]).is_none());
    assert!(decode_frame(&[1, 0, 0, 0, 5, 0, 0, 0, 1, 2]).is_none());
    assert!(decode_header(&[0; 7]).is_none());
}

#[test]
fn header_fields() {
    let h = decode_header(&[2, 0, 0, 0, 0x10, 0x27, 0, 0]).expect("eight bytes");
    assert_eq!(h.opcode, 2);
    assert_eq!(h.length, 10000);
}
