//! Client-side logic of the Discord local RPC protocol: the binary frame
//! format, the JSON messages exchanged with the Discord client, the
//! handshake rules, and the decisions of the connection session.

pub mod frame;
pub mod json;
pub mod models;
pub mod error;
pub mod decimal;
pub mod handshake;
pub mod session;
pub mod client;
pub mod ipc;
pub mod message;

pub use client::DiscordRpcClient;
pub use error::DiscordRpcError;
pub use models::{Activity, Assets, Party, Secrets, Timestamps};
