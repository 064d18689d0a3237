//! The IPC frame: a little-endian `u32` opcode, a little-endian `u32`
//! payload length, then the payload bytes.

use vstd::prelude::*;
use vstd::slice::slice_subrange;
use vstd::slice::slice_to_vec;

verus! {

/// Opcode of the handshake frame, the first one a client sends.
pub const OPCODE_HANDSHAKE: u32 = 0;

/// Opcode of every frame after the handshake.
pub const OPCODE_FRAME: u32 = 1;

/// Number of bytes in a frame header.
pub const HEADER_LEN: usize = 8;

/// The number whose little-endian digits in base 256 are `b0 .. b3`.
pub open spec fn le_value(b0: u8, b1: u8, b2: u8, b3: u8) -> int {
    b0 + 256 * b1 + 65536 * b2 + 16777216 * b3
}

/// The four bytes of `v`, least significant first.
pub open spec fn u32_le(v: u32) -> Seq<u8> {
    seq![
        (v % 256) as u8,
        ((v / 256) % 256) as u8,
        ((v / 65536) % 256) as u8,
        (v / 16777216) as u8,
    ]
}

/// The length field that a frame carries for a payload of `len` bytes: the
/// length reduced to 32 bits.
pub open spec fn length_field(len: nat) -> u32 {
    (len % 0x1_0000_0000) as u32
}

/// The bytes of a frame with the given opcode and payload.
pub open spec fn frame_bytes(opcode: u32, payload: Seq<u8>) -> Seq<u8> {
    u32_le(opcode) + u32_le(length_field(payload.len())) + payload
}

/// A decoded frame header.
pub struct FrameHeader {
    pub opcode: u32,
    pub length: u32,
}

/// Reading four bytes as a little-endian number gives back the number they
/// were written from.
pub proof fn lemma_u32_le_value(v: u32)
    ensures
        le_value(u32_le(v)[0], u32_le(v)[1], u32_le(v)[2], u32_le(v)[3]) == v,
{
}

/// Four bytes are the little-endian bytes of the number they encode.
pub proof fn lemma_le_value_bytes(b0: u8, b1: u8, b2: u8, b3: u8)
    ensures
        0 <= le_value(b0, b1, b2, b3) <= u32::MAX,
        u32_le(le_value(b0, b1, b2, b3) as u32) == seq![b0, b1, b2, b3],
{
    let v = le_value(b0, b1, b2, b3);
    assert(v / 256 == b1 + 256 * b2 + 65536 * b3);
    assert(v / 65536 == b2 + 256 * b3);
    assert(v / 16777216 == b3 as int);
    assert(u32_le(v as u32) =~= seq![b0, b1, b2, b3]);
}

/// The little-endian bytes of `v`.
pub fn encode_u32_le(v: u32) -> (out: Vec<u8>)
    ensures
        out@ == u32_le(v),
{
    let b0 = (v & 0xff) as u8;
    let b1 = ((v >> 8) & 0xff) as u8;
    let b2 = ((v >> 16) & 0xff) as u8;
    let b3 = (v >> 24) as u8;
    assert(v & 0xff == v % 256) by (bit_vector);
    assert((v >> 8) & 0xff == (v / 256) % 256) by (bit_vector);
    assert((v >> 16) & 0xff == (v / 65536) % 256) by (bit_vector);
    assert(v >> 24 == v / 16777216) by (bit_vector);
    let mut out: Vec<u8> = Vec::new();
    out.push(b0);
    out.push(b1);
    out.push(b2);
    out.push(b3);
    assert(out@ =~= u32_le(v));
    out
}

/// The number whose little-endian bytes are the first four of `bytes`.
pub fn decode_u32_le(bytes: &[u8]) -> (v: u32)
    requires
        bytes@.len() >= 4,
    ensures
        v == le_value(bytes@[0], bytes@[1], bytes@[2], bytes@[3]),
{
    let b0 = bytes[0] as u32;
    let b1 = bytes[1] as u32;
    let b2 = bytes[2] as u32;
    let b3 = bytes[3] as u32;
    b0 + 256 * b1 + 65536 * b2 + 16777216 * b3
}

/// The frame that carries `payload` under `opcode`: the header, then the
/// payload. A payload longer than `u32::MAX` bytes gets a length field
/// reduced to 32 bits, as the wire format has no room for more.
pub fn encode_frame(opcode: u32, payload: &[u8]) -> (out: Vec<u8>)
    ensures
        out@ == frame_bytes(opcode, payload@),
{
    let length: u32 = (payload.len() as u64 % 0x1_0000_0000u64) as u32;
    let mut out = encode_u32_le(opcode);
    let mut len_bytes = encode_u32_le(length);
    out.append(&mut len_bytes);
    let ghost head = out@;
    let mut i: usize = 0;
    while i < payload.len()
        invariant
            i <= payload@.len(),
            out@ == head + payload@.subrange(0, i as int),
        decreases payload@.len() - i,
    {
        out.push(payload[i]);
        i = i + 1;
        assert(out@ =~= head + payload@.subrange(0, i as int));
    }
    assert(payload@.subrange(0, payload@.len() as int) =~= payload@);
    out
}

/// The header at the start of `bytes`, or `None` when fewer than eight
/// bytes are given.
pub fn decode_header(bytes: &[u8]) -> (res: Option<FrameHeader>)
    ensures
        bytes@.len() < HEADER_LEN ==> res is None,
        bytes@.len() >= HEADER_LEN ==> (res matches Some(h) && h.opcode == le_value(
            bytes@[0],
            bytes@[1],
            bytes@[2],
            bytes@[3],
        ) && h.length == le_value(bytes@[4], bytes@[5], bytes@[6], bytes@[7])),
{
    if bytes.len() < HEADER_LEN {
        return None;
    }
    let opcode = decode_u32_le(bytes);
    let length = decode_u32_le(slice_subrange(bytes, 4, 8));
    Some(FrameHeader { opcode, length })
}

/// The frame at the start of `buf`, as its opcode and payload: `None` when
/// `buf` holds less than a header, or less payload than the header announces.
pub open spec fn parse_frame(buf: Seq<u8>) -> Option<(u32, Seq<u8>)> {
    if buf.len() < HEADER_LEN {
        None
    } else {
        let len = le_value(buf[4], buf[5], buf[6], buf[7]);
        if buf.len() - HEADER_LEN < len {
            None
        } else {
            Some(
                (
                    le_value(buf[0], buf[1], buf[2], buf[3]) as u32,
                    buf.subrange(HEADER_LEN as int, HEADER_LEN + len),
                ),
            )
        }
    }
}

/// The frame at the start of `buf`: its opcode, its payload and the number
/// of bytes it takes up. `None` when `buf` holds less than a whole frame.
pub fn decode_frame(buf: &[u8]) -> (res: Option<(u32, Vec<u8>, usize)>)
    ensures
        match res {
            Some((opcode, payload, used)) => {
                &&& parse_frame(buf@) == Some((opcode, payload@))
                &&& used == HEADER_LEN + payload@.len()
            },
            None => parse_frame(buf@) is None,
        },
{
    match decode_header(buf) {
        None => None,
        Some(header) => {
            let available = buf.len() - HEADER_LEN;
            if (header.length as u64) > (available as u64) {
                return None;
            }
            let len = header.length as usize;
            let payload = slice_to_vec(slice_subrange(buf, HEADER_LEN, HEADER_LEN + len));
            Some((header.opcode, payload, HEADER_LEN + len))
        },
    }
}

/// Decoding the bytes of a frame, whatever follows them, gives back its
/// opcode and payload, for every payload that fits the 32-bit length field.
pub proof fn lemma_frame_roundtrip(opcode: u32, payload: Seq<u8>, rest: Seq<u8>)
    requires
        payload.len() <= u32::MAX,
    ensures
        parse_frame(frame_bytes(opcode, payload) + rest) == Some((opcode, payload)),
{
    let b = frame_bytes(opcode, payload) + rest;
    lemma_u32_le_value(opcode);
    lemma_u32_le_value(length_field(payload.len()));
    assert(b[0] == u32_le(opcode)[0]);
    assert(b[1] == u32_le(opcode)[1]);
    assert(b[2] == u32_le(opcode)[2]);
    assert(b[3] == u32_le(opcode)[3]);
    assert(b[4] == u32_le(length_field(payload.len()))[0]);
    assert(b[5] == u32_le(length_field(payload.len()))[1]);
    assert(b[6] == u32_le(length_field(payload.len()))[2]);
    assert(b[7] == u32_le(length_field(payload.len()))[3]);
    assert(b.subrange(HEADER_LEN as int, HEADER_LEN + payload.len()) =~= payload);
}

/// A frame's encoding is eight header bytes longer than its payload.
pub proof fn lemma_frame_len(opcode: u32, payload: Seq<u8>)
    ensures
        frame_bytes(opcode, payload).len() == HEADER_LEN + payload.len(),
{
}

} // verus!
