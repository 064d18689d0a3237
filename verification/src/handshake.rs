//! The handshake: the message a client opens with, and how Discord's answer
//! to it is read.

use vstd::prelude::*;
use crate::error::DiscordRpcError;
use crate::json::{
    lemma_lookup_first,
    entry_models_of, json_str, json_text, push_entry, render_json, JsonModel, JsonNumber, JsonValue,
    NumberModel,
};

verus! {

/// Version of the RPC protocol that the client speaks.
pub const RPC_VERSION: u64 = 1;

/// Heartbeat interval, in milliseconds, used when Discord names none.
pub const DEFAULT_HEARTBEAT_INTERVAL_MS: u64 = 45000;

/// The handshake message: `{"v": 1, "client_id": client_id}`.
pub open spec fn handshake_model(client_id: Seq<char>) -> JsonModel {
    JsonModel::Object(
        seq![
            ("v"@, JsonModel::Number(NumberModel::PosInt(RPC_VERSION))),
            ("client_id"@, JsonModel::Str(client_id)),
        ],
    )
}

/// The handshake message that opens a connection for `client_id`.
pub fn handshake_message(client_id: &str) -> (res: JsonValue)
    ensures
        res.model() == handshake_model(client_id@),
{
    let mut e: Vec<(String, JsonValue)> = Vec::new();
    push_entry(&mut e, "v", JsonValue::Number(JsonNumber::PosInt(RPC_VERSION)));
    push_entry(&mut e, "client_id", json_str(client_id));
    assert(entry_models_of(e@) =~= seq![
        ("v"@, JsonModel::Number(NumberModel::PosInt(RPC_VERSION))),
        ("client_id"@, JsonModel::Str(client_id@)),
    ]);
    JsonValue::Object(e)
}

/// The heartbeat interval that a handshake answer names: the value under
/// `data.heartbeat_interval` when `data` has that key, else the value under
/// the top-level `heartbeat_interval`; that value when it is a non-negative
/// integer, else the default.
pub open spec fn heartbeat_interval_of(response: JsonModel) -> u64 {
    let nested = match response.get("data"@) {
        Some(d) => d.get("heartbeat_interval"@),
        None => None,
    };
    let chosen = match nested {
        Some(v) => Some(v),
        None => response.get("heartbeat_interval"@),
    };
    match chosen {
        Some(v) => match v.as_u64() {
            Some(n) => n,
            None => DEFAULT_HEARTBEAT_INTERVAL_MS,
        },
        None => DEFAULT_HEARTBEAT_INTERVAL_MS,
    }
}

/// The heartbeat interval that `response` names. It never fails: an answer
/// that names no usable interval gets the default.
pub fn extract_heartbeat_interval(response: &JsonValue) -> (res: Result<u64, DiscordRpcError>)
    ensures
        res == Ok::<u64, DiscordRpcError>(heartbeat_interval_of(response.model())),
{
    let nested = match response.get("data") {
        Some(d) => d.get("heartbeat_interval"),
        None => None,
    };
    let chosen = match nested {
        Some(v) => Some(v),
        None => response.get("heartbeat_interval"),
    };
    match chosen {
        Some(v) => match v.as_u64() {
            Some(n) => Ok(n),
            None => Ok(DEFAULT_HEARTBEAT_INTERVAL_MS),
        },
        None => Ok(DEFAULT_HEARTBEAT_INTERVAL_MS),
    }
}

/// An answer that names no heartbeat interval, neither under `data` nor at
/// the top level, gets the default interval of 45 seconds.
pub proof fn lemma_default_heartbeat_interval(response: JsonModel)
    requires
        response.get("heartbeat_interval"@) is None,
        match response.get("data"@) {
            Some(d) => d.get("heartbeat_interval"@) is None,
            None => true,
        },
    ensures
        heartbeat_interval_of(response) == DEFAULT_HEARTBEAT_INTERVAL_MS,
{
}

/// An interval under `data` is the one that counts, whatever the top level
/// holds.
pub proof fn lemma_nested_heartbeat_interval_first(response: JsonModel, data: JsonModel, n: u64)
    requires
        response.get("data"@) == Some(data),
        data.get("heartbeat_interval"@) == Some(JsonModel::Number(NumberModel::PosInt(n))),
    ensures
        heartbeat_interval_of(response) == n,
{
}

/// When `data` names no heartbeat interval (there is no `data`, or it holds
/// no `heartbeat_interval`), a non-negative integer at the top level is the
/// interval.
pub proof fn lemma_top_level_heartbeat_interval(response: JsonModel, n: u64)
    requires
        match response.get("data"@) {
            Some(d) => d.get("heartbeat_interval"@) is None,
            None => true,
        },
        response.get("heartbeat_interval"@) == Some(JsonModel::Number(NumberModel::PosInt(n))),
    ensures
        heartbeat_interval_of(response) == n,
{
}

/// A `heartbeat_interval` under `data` that is no non-negative integer
/// gives the default, whatever the top level holds.
pub proof fn lemma_unusable_nested_interval(response: JsonModel, data: JsonModel, v: JsonModel)
    requires
        response.get("data"@) == Some(data),
        data.get("heartbeat_interval"@) == Some(v),
        !(v matches JsonModel::Number(NumberModel::PosInt(_))),
    ensures
        heartbeat_interval_of(response) == DEFAULT_HEARTBEAT_INTERVAL_MS,
{
}

/// The handshake message holds the integer 1 under `v` and the client's id
/// under `client_id`, and nothing else.
pub proof fn lemma_handshake_message(client_id: Seq<char>)
    ensures
        handshake_model(client_id) matches JsonModel::Object(e) && e.len() == 2,
        handshake_model(client_id).get("v"@) == Some(JsonModel::Number(NumberModel::PosInt(1))),
        handshake_model(client_id).get("client_id"@) == Some(JsonModel::Str(client_id)),
{
    reveal_strlit("v");
    reveal_strlit("client_id");
    let e = match handshake_model(client_id) {
        JsonModel::Object(e) => e,
        _ => Seq::empty(),
    };
    lemma_lookup_first(e, 0, "v"@);
    assert(e[0].0 != "client_id"@) by {
        assert("v"@.len() != "client_id"@.len());
    }
    lemma_lookup_first(e, 1, "client_id"@);
}

/// Whether `v` is the string `text`.
pub open spec fn is_text(v: Option<JsonModel>, text: Seq<char>) -> bool {
    v == Some(JsonModel::Str(text))
}

/// How the client reads Discord's answer to its handshake.
pub enum HandshakeVerdict {
    /// The connection is ready, with this heartbeat interval in milliseconds.
    Ready(u64),
    /// Discord reported an error with this message.
    Refused(Seq<char>),
    /// The answer is neither a ready event nor an error.
    Unexpected,
}

/// The verdict on a handshake answer: `evt` equal to `"READY"` (the older
/// form) or `cmd` equal to `"DISPATCH"` (the newer form) accepts it; `evt`
/// equal to `"ERROR"` refuses it, with the text under `data.message`, or
/// `"Unknown error"` when there is no such text; anything else is unexpected.
pub open spec fn handshake_verdict(response: JsonModel) -> HandshakeVerdict {
    if is_text(response.get("evt"@), "READY"@) || is_text(response.get("cmd"@), "DISPATCH"@) {
        HandshakeVerdict::Ready(heartbeat_interval_of(response))
    } else if is_text(response.get("evt"@), "ERROR"@) {
        let message = match response.get("data"@) {
            Some(d) => match d.get("message"@) {
                Some(m) => m.as_str(),
                None => None,
            },
            None => None,
        };
        HandshakeVerdict::Refused(
            match message {
                Some(m) => m,
                None => "Unknown error"@,
            },
        )
    } else {
        HandshakeVerdict::Unexpected
    }
}

/// A ready event, in the older form (`evt` is `"READY"`) or the newer one
/// (`cmd` is `"DISPATCH"`), accepts the handshake with the interval the
/// answer names.
pub proof fn lemma_ready_answers_accept(response: JsonModel)
    requires
        response.get("evt"@) == Some(JsonModel::Str("READY"@)) || response.get("cmd"@) == Some(
            JsonModel::Str("DISPATCH"@),
        ),
    ensures
        handshake_verdict(response) == HandshakeVerdict::Ready(heartbeat_interval_of(response)),
{
}

/// An error event that is no ready answer refuses the handshake with the
/// text under `data.message`, or `"Unknown error"` when there is no such
/// text.
pub proof fn lemma_error_answers_refuse(response: JsonModel)
    requires
        response.get("evt"@) == Some(JsonModel::Str("ERROR"@)),
        response.get("cmd"@) != Some(JsonModel::Str("DISPATCH"@)),
    ensures
        handshake_verdict(response) == HandshakeVerdict::Refused(
            match response.get("data"@) {
                Some(d) => match d.get("message"@) {
                    Some(JsonModel::Str(m)) => m,
                    _ => "Unknown error"@,
                },
                None => "Unknown error"@,
            },
        ),
{
    reveal_strlit("ERROR");
    reveal_strlit("READY");
    assert("ERROR"@[0] != "READY"@[0]);
}

/// Any other answer is unexpected.
pub proof fn lemma_other_answers_unexpected(response: JsonModel)
    requires
        response.get("evt"@) != Some(JsonModel::Str("READY"@)),
        response.get("evt"@) != Some(JsonModel::Str("ERROR"@)),
        response.get("cmd"@) != Some(JsonModel::Str("DISPATCH"@)),
    ensures
        handshake_verdict(response) == HandshakeVerdict::Unexpected,
{
}

/// Whether `v` holds exactly the string `text`.
fn holds_text(v: Option<&JsonValue>, text: &str) -> (res: bool)
    ensures
        res == is_text(crate::json::opt_model(v), text@),
{
    match v {
        Some(x) => match x.as_str() {
            Some(s) => *s == String::from_str(text),
            None => false,
        },
        None => false,
    }
}

/// The outcome of a handshake whose answer is `response`; an unexpected
/// answer is quoted as JSON text in the error.
pub fn evaluate_handshake(response: &JsonValue) -> (res: Result<
    u64,
    DiscordRpcError,
>)
    ensures
        match handshake_verdict(response.model()) {
            HandshakeVerdict::Ready(interval) => res == Ok::<u64, DiscordRpcError>(interval),
            HandshakeVerdict::Refused(message) => (res matches Err(
                DiscordRpcError::HandshakeError(m),
            ) && m@ == message),
            HandshakeVerdict::Unexpected => (res matches Err(DiscordRpcError::HandshakeError(m))
                && m@ == "Unexpected handshake response: "@ + json_text(response.model())),
        },
{
    if holds_text(response.get("evt"), "READY") {
        return extract_heartbeat_interval(response);
    }
    if holds_text(response.get("cmd"), "DISPATCH") {
        return extract_heartbeat_interval(response);
    }
    if holds_text(response.get("evt"), "ERROR") {
        let text = match response.get("data") {
            Some(d) => match d.get("message") {
                Some(m) => m.as_str(),
                None => None,
            },
            None => None,
        };
        let message = match text {
            Some(m) => m.clone(),
            None => String::from_str("Unknown error"),
        };
        return Err(DiscordRpcError::HandshakeError(message));
    }
    let mut message = String::from_str("Unexpected handshake response: ");
    let rendered = render_json(response);
    message.append(rendered.as_str());
    Err(DiscordRpcError::HandshakeError(message))
}

} // verus!
