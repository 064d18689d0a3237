//! The errors of the client.

use vstd::prelude::*;

verus! {

/// An I/O error, carried by the error it caused.
#[verifier::external_type_specification]
#[verifier::external_body]
pub struct ExIoError(std::io::Error);

/// A JSON error, carried by the error it caused.
#[verifier::external_type_specification]
#[verifier::external_body]
pub struct ExJsonError(serde_json::Error);

/// Everything that can go wrong between the client and Discord.
#[derive(Debug)]
pub enum DiscordRpcError {
    /// No IPC endpoint of Discord could be opened.
    ConnectionFailed(String),
    /// Reading or writing the IPC stream failed.
    IoError(std::io::Error),
    /// A message could not be written or read as JSON.
    SerializationError(serde_json::Error),
    /// Discord refused the handshake or answered it unexpectedly.
    HandshakeError(String),
    /// The background connection task is gone.
    NotConnected,
    /// The connection closed unexpectedly.
    ConnectionClosed,
    /// A heartbeat could not be sent.
    HeartbeatFailed(String),
}

impl From<std::io::Error> for DiscordRpcError {
    fn from(e: std::io::Error) -> (res: Self) {
        DiscordRpcError::IoError(e)
    }
}

impl vstd::std_specs::convert::FromSpecImpl<std::io::Error> for DiscordRpcError {
    open spec fn obeys_from_spec() -> bool {
        true
    }

    open spec fn from_spec(e: std::io::Error) -> Self {
        DiscordRpcError::IoError(e)
    }
}

impl From<serde_json::Error> for DiscordRpcError {
    fn from(e: serde_json::Error) -> (res: Self) {
        DiscordRpcError::SerializationError(e)
    }
}

impl vstd::std_specs::convert::FromSpecImpl<serde_json::Error> for DiscordRpcError {
    open spec fn obeys_from_spec() -> bool {
        true
    }

    open spec fn from_spec(e: serde_json::Error) -> Self {
        DiscordRpcError::SerializationError(e)
    }
}

} // verus!
