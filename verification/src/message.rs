//! JSON messages in frames: what goes over the stream for a message, and
//! the message read back from a frame.

use vstd::prelude::*;
use vstd::utf8::encode_utf8;
use crate::error::DiscordRpcError;
use crate::frame::{decode_frame, encode_frame, frame_bytes, parse_frame, HEADER_LEN};
use crate::json::{json_document, json_text, parse_json, render_json, JsonValue};

verus! {

/// The bytes of the frame that carries `message` under `opcode`: its JSON
/// text, in UTF-8, as the payload.
pub open spec fn message_bytes(opcode: u32, message: crate::json::JsonModel) -> Seq<u8> {
    frame_bytes(opcode, encode_utf8(json_text(message)))
}

/// The frame that carries `data` under `opcode`.
pub fn encode_message(opcode: u32, data: &JsonValue) -> (out: Vec<u8>)
    ensures
        out@ == message_bytes(opcode, data.model()),
{
    let text = render_json(data);
    encode_frame(opcode, text.as_str().as_bytes())
}

/// The message in the frame at the start of `frame`, and the number of
/// bytes that frame takes up. `None` exactly when `frame` holds less than a
/// whole frame; otherwise the payload is read as a JSON document, and a
/// payload that is no JSON document gives a serialization error.
pub fn decode_message(frame: &[u8]) -> (res: Option<(Result<JsonValue, DiscordRpcError>, usize)>)
    ensures
        match parse_frame(frame@) {
            None => res is None,
            Some((_, payload)) => res matches Some((r, used)) && used == HEADER_LEN + payload.len()
                && match r {
                Ok(v) => json_document(payload) == Some(v.model()) && v.model().well_formed(),
                Err(e) => json_document(payload) is None && e is SerializationError,
            },
        },
{
    match decode_frame(frame) {
        None => None,
        Some((_, payload, used)) => Some((parse_json(payload.as_slice()), used)),
    }
}

/// Reading back the frame written for a message, whatever follows it, reads
/// exactly the JSON text written for it, under its opcode, for every text
/// that fits the 32-bit length field.
pub proof fn lemma_message_roundtrip(
    opcode: u32,
    message: crate::json::JsonModel,
    rest: Seq<u8>,
)
    requires
        encode_utf8(json_text(message)).len() <= u32::MAX,
    ensures
        parse_frame(message_bytes(opcode, message) + rest) == Some(
            (opcode, encode_utf8(json_text(message))),
        ),
{
    crate::frame::lemma_frame_roundtrip(opcode, encode_utf8(json_text(message)), rest);
}

} // verus!
