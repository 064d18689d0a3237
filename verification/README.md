# communicator

A client for Discord's local RPC (rich presence), written in Verus.

- `src/` is the verified library: the IPC frame format (`frame`), JSON
  values, lookups and their text through serde_json (`json`), JSON
  messages in frames (`message`), the activity and its JSON form (`models`),
  the handshake (`handshake`), the decisions of a session (`session`), the
  IPC endpoints to try (`ipc`), the user's requests (`client`), decimal text
  (`decimal`) and the error type (`error`).
- `app/` holds the asynchronous side on Tokio: the tasks that connect,
  read, write and send heartbeats, and the error type with its messages. It takes every decision from the library.
- `tests/` runs the library on concrete values.
