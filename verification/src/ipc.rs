//! Where Discord's IPC endpoint is looked for: ten numbered Unix sockets in
//! the runtime directory, or ten numbered named pipes on Windows.

use vstd::prelude::*;
use crate::decimal::{decimal, push_decimal};
use crate::error::DiscordRpcError;

verus! {

/// Number of numbered endpoints that Discord may listen on.
pub const IPC_SLOTS: u32 = 10;

/// The directory that holds the sockets: the value of `XDG_RUNTIME_DIR`
/// when it is set, else `/tmp`.
pub open spec fn runtime_dir_of(xdg_runtime_dir: Option<Seq<char>>) -> Seq<char> {
    match xdg_runtime_dir {
        Some(dir) => dir,
        None => "/tmp"@,
    }
}

/// The socket that Discord opens in slot `slot` under `dir`.
pub open spec fn socket_path_of(dir: Seq<char>, slot: nat) -> Seq<char> {
    dir + "/discord-ipc-"@ + decimal(slot)
}

/// The named pipe that Discord opens in slot `slot`.
pub open spec fn pipe_name_of(slot: nat) -> Seq<char> {
    "\\\\.\\pipe\\discord-ipc-"@ + decimal(slot)
}

/// The directory that holds the sockets, given the value of
/// `XDG_RUNTIME_DIR` (`None` when it is unset or unreadable).
pub fn runtime_dir(xdg_runtime_dir: Option<String>) -> (res: String)
    ensures
        res@ == runtime_dir_of(
            match xdg_runtime_dir {
                Some(d) => Some(d@),
                None => None,
            },
        ),
{
    match xdg_runtime_dir {
        Some(dir) => dir,
        None => String::from_str("/tmp"),
    }
}

/// The socket of slot `slot` under `dir`.
pub fn unix_socket_path(dir: &str, slot: u32) -> (res: String)
    ensures
        res@ == socket_path_of(dir@, slot as nat),
{
    let mut path = String::from_str(dir);
    path.append("/discord-ipc-");
    push_decimal(&mut path, slot as u128);
    assert(path@ =~= socket_path_of(dir@, slot as nat));
    path
}

/// The named pipe of slot `slot`.
pub fn windows_pipe_name(slot: u32) -> (res: String)
    ensures
        res@ == pipe_name_of(slot as nat),
{
    let mut name = String::from_str("\\\\.\\pipe\\discord-ipc-");
    push_decimal(&mut name, slot as u128);
    name
}

/// The sockets to try, in order: slots 0 to 9 of the runtime directory.
pub fn unix_socket_candidates(xdg_runtime_dir: Option<String>) -> (res: Vec<String>)
    ensures
        res@.len() == IPC_SLOTS,
        forall|i: int|
            0 <= i < IPC_SLOTS ==> #[trigger] res@[i]@ == socket_path_of(
                runtime_dir_of(
                    match xdg_runtime_dir {
                        Some(d) => Some(d@),
                        None => None,
                    },
                ),
                i as nat,
            ),
{
    let dir = runtime_dir(xdg_runtime_dir);
    let mut paths: Vec<String> = Vec::new();
    let mut slot: u32 = 0;
    while slot < IPC_SLOTS
        invariant
            slot <= IPC_SLOTS,
            paths@.len() == slot,
            forall|i: int| 0 <= i < slot ==> #[trigger] paths@[i]@ == socket_path_of(dir@, i as nat),
        decreases IPC_SLOTS - slot,
    {
        paths.push(unix_socket_path(dir.as_str(), slot));
        slot = slot + 1;
    }
    paths
}

/// The named pipes to try, in order: slots 0 to 9.
pub fn windows_pipe_candidates() -> (res: Vec<String>)
    ensures
        res@.len() == IPC_SLOTS,
        forall|i: int| 0 <= i < IPC_SLOTS ==> #[trigger] res@[i]@ == pipe_name_of(i as nat),
{
    let mut names: Vec<String> = Vec::new();
    let mut slot: u32 = 0;
    while slot < IPC_SLOTS
        invariant
            slot <= IPC_SLOTS,
            names@.len() == slot,
            forall|i: int| 0 <= i < slot ==> #[trigger] names@[i]@ == pipe_name_of(i as nat),
        decreases IPC_SLOTS - slot,
    {
        names.push(windows_pipe_name(slot));
        slot = slot + 1;
    }
    names
}

/// The error when no socket of Discord answers.
pub fn missing_socket_error() -> (res: DiscordRpcError)
    ensures
        res matches DiscordRpcError::ConnectionFailed(m) && m@ == "Could not find Discord IPC socket"@,
{
    DiscordRpcError::ConnectionFailed(String::from_str("Could not find Discord IPC socket"))
}

/// The error when no named pipe of Discord answers.
pub fn missing_pipe_error() -> (res: DiscordRpcError)
    ensures
        res matches DiscordRpcError::ConnectionFailed(m) && m@ == "Could not find Discord named pipe"@,
{
    DiscordRpcError::ConnectionFailed(String::from_str("Could not find Discord named pipe"))
}

} // verus!
