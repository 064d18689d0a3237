//! The user's handle on the connection: the requests it makes and how the
//! fate of a request becomes its result.

use vstd::prelude::*;
use crate::error::DiscordRpcError;
use crate::models::Activity;
use crate::session::ClientCommand;

verus! {

/// Capacity of the channels between the tasks of a connection.
pub const CHANNEL_CAPACITY: usize = 32;

/// Seconds to wait before connecting again after a session ends.
pub const RECONNECT_DELAY_SECS: u64 = 5;

/// A client of Discord's local RPC for one application.
pub struct DiscordRpcClient {
    client_id: String,
}

impl DiscordRpcClient {
    /// The application id this client speaks for.
    pub closed spec fn id(&self) -> Seq<char> {
        self.client_id@
    }

    /// A client for the application `client_id`.
    pub fn new(client_id: &str) -> (res: Self)
        ensures
            res.id() == client_id@,
    {
        DiscordRpcClient { client_id: String::from_str(client_id) }
    }

    /// The application id this client speaks for.
    pub fn client_id(&self) -> (res: &str)
        ensures
            res@ == self.id(),
    {
        self.client_id.as_str()
    }

    /// The request to show `activity`.
    pub fn set_activity(&self, activity: Activity) -> (res: ClientCommand)
        ensures
            res == ClientCommand::SetActivity(activity),
    {
        ClientCommand::SetActivity(activity)
    }

    /// The request to clear the activity.
    pub fn clear_activity(&self) -> (res: ClientCommand)
        ensures
            res == ClientCommand::ClearActivity,
    {
        ClientCommand::ClearActivity
    }

    /// The request to disconnect.
    pub fn disconnect(&self) -> (res: ClientCommand)
        ensures
            res == ClientCommand::Disconnect,
    {
        ClientCommand::Disconnect
    }
}

/// The result of a request, given whether the connection task took it: a
/// request that could not be handed over means the client is not connected.
pub fn delivery_result(delivered: bool) -> (res: Result<(), DiscordRpcError>)
    ensures
        delivered ==> res == Ok::<(), DiscordRpcError>(()),
        !delivered ==> res == Err::<(), DiscordRpcError>(DiscordRpcError::NotConnected),
{
    if delivered {
        Ok(())
    } else {
        Err(DiscordRpcError::NotConnected)
    }
}

} // verus!
