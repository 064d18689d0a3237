//! The decisions of a connection session: what the main loop does with each
//! event, how incoming messages are sorted, and which message the writer
//! sends for each command.

use vstd::prelude::*;
use crate::decimal::{decimal, decimal_string};
use crate::error::DiscordRpcError;
use crate::frame::OPCODE_FRAME;
use crate::json::{lemma_lookup_first, entry_models_of, json_str, push_entry, JsonModel, JsonNumber, JsonValue, NumberModel};
use crate::models::Activity;

verus! {

/// A request of the user to the connection task.
#[derive(Debug, Clone, PartialEq)]
pub enum ClientCommand {
    SetActivity(Activity),
    ClearActivity,
    Disconnect,
}

/// A request to the task that writes to Discord.
#[derive(Debug, Clone, PartialEq)]
pub enum WriteCommand {
    SetActivity(Activity),
    ClearActivity,
    Heartbeat,
    Disconnect,
}

/// A heartbeat notice.
#[derive(Debug, Clone, PartialEq)]
pub enum HeartbeatEvent {
    Beat,
    Ack,
    Stop,
}

/// A message from Discord, passed on to the main loop.
#[derive(Debug)]
pub enum ServerMessage {
    Payload(JsonValue),
    Close,
}

/// What the main loop of a session receives.
#[derive(Debug)]
pub enum SessionEvent {
    /// A request of the user.
    Command(ClientCommand),
    /// A message from Discord.
    Server(ServerMessage),
    /// A heartbeat notice.
    Heartbeat(HeartbeatEvent),
    /// Every channel the loop listens on is closed.
    ChannelsClosed,
}

/// What the main loop does in answer to an event.
#[derive(Debug, Clone, PartialEq)]
pub enum SessionAction {
    /// Hand this command to the writer.
    Write(WriteCommand),
    /// Nothing.
    Nothing,
    /// Leave the loop and tear the session down.
    Shutdown,
}

/// Whether the main loop still runs.
#[derive(PartialEq, Eq, Structural, Clone, Copy, Debug)]
pub enum SessionState {
    Running,
    Closed,
}

/// One step of the main loop: while it runs, a request to show or clear the
/// activity goes to the writer, a heartbeat beat becomes a heartbeat write,
/// a disconnect request or the closing of every channel ends the session,
/// and everything else is ignored. A closed session ignores every event.
pub open spec fn step(state: SessionState, event: SessionEvent) -> (SessionState, SessionAction) {
    match state {
        SessionState::Closed => (SessionState::Closed, SessionAction::Nothing),
        SessionState::Running => match event {
            SessionEvent::Command(ClientCommand::SetActivity(a)) => (
                SessionState::Running,
                SessionAction::Write(WriteCommand::SetActivity(a)),
            ),
            SessionEvent::Command(ClientCommand::ClearActivity) => (
                SessionState::Running,
                SessionAction::Write(WriteCommand::ClearActivity),
            ),
            SessionEvent::Command(ClientCommand::Disconnect) => (
                SessionState::Closed,
                SessionAction::Shutdown,
            ),
            SessionEvent::Server(_) => (SessionState::Running, SessionAction::Nothing),
            SessionEvent::Heartbeat(HeartbeatEvent::Beat) => (
                SessionState::Running,
                SessionAction::Write(WriteCommand::Heartbeat),
            ),
            SessionEvent::Heartbeat(_) => (SessionState::Running, SessionAction::Nothing),
            SessionEvent::ChannelsClosed => (SessionState::Closed, SessionAction::Shutdown),
        },
    }
}

/// The state and action that follow `event` in `state`.
pub fn session_step(state: SessionState, event: SessionEvent) -> (res: (SessionState, SessionAction))
    ensures
        res == step(state, event),
{
    match state {
        SessionState::Closed => (SessionState::Closed, SessionAction::Nothing),
        SessionState::Running => match event {
            SessionEvent::Command(ClientCommand::SetActivity(a)) => (
                SessionState::Running,
                SessionAction::Write(WriteCommand::SetActivity(a)),
            ),
            SessionEvent::Command(ClientCommand::ClearActivity) => (
                SessionState::Running,
                SessionAction::Write(WriteCommand::ClearActivity),
            ),
            SessionEvent::Command(ClientCommand::Disconnect) => (
                SessionState::Closed,
                SessionAction::Shutdown,
            ),
            SessionEvent::Server(_) => (SessionState::Running, SessionAction::Nothing),
            SessionEvent::Heartbeat(HeartbeatEvent::Beat) => (
                SessionState::Running,
                SessionAction::Write(WriteCommand::Heartbeat),
            ),
            SessionEvent::Heartbeat(_) => (SessionState::Running, SessionAction::Nothing),
            SessionEvent::ChannelsClosed => (SessionState::Closed, SessionAction::Shutdown),
        },
    }
}

/// The notices sent when a session is torn down: the heartbeat task is told
/// to stop, then the writer is told to disconnect.
pub fn teardown_notices() -> (res: (HeartbeatEvent, WriteCommand))
    ensures
        res == (HeartbeatEvent::Stop, WriteCommand::Disconnect),
{
    (HeartbeatEvent::Stop, WriteCommand::Disconnect)
}

/// The state after the events, one by one from `state`.
pub open spec fn run(state: SessionState, events: Seq<SessionEvent>) -> SessionState
    decreases events.len(),
{
    if events.len() == 0 {
        state
    } else {
        run(step(state, events[0]).0, events.drop_first())
    }
}

/// The actions taken for the events, one by one from `state`.
pub open spec fn actions(state: SessionState, events: Seq<SessionEvent>) -> Seq<SessionAction>
    decreases events.len(),
{
    if events.len() == 0 {
        Seq::empty()
    } else {
        seq![step(state, events[0]).1] + actions(step(state, events[0]).0, events.drop_first())
    }
}

/// Whether `event` ends a running session.
pub open spec fn ends_session(event: SessionEvent) -> bool {
    event matches SessionEvent::Command(ClientCommand::Disconnect) || event
        is ChannelsClosed
}

/// A closed session stays closed and does nothing, whatever it receives.
pub proof fn lemma_closed_session_is_inert(events: Seq<SessionEvent>)
    ensures
        run(SessionState::Closed, events) == SessionState::Closed,
        actions(SessionState::Closed, events).len() == events.len(),
        forall|i: int|
            0 <= i < events.len() ==> #[trigger] actions(SessionState::Closed, events)[i]
                == SessionAction::Nothing,
    decreases events.len(),
{
    if events.len() > 0 {
        lemma_closed_session_is_inert(events.drop_first());
        let rest = actions(SessionState::Closed, events.drop_first());
        assert forall|i: int| 0 <= i < events.len() implies #[trigger] actions(
            SessionState::Closed,
            events,
        )[i] == SessionAction::Nothing by {
            if i > 0 {
                assert(actions(SessionState::Closed, events)[i] == rest[i - 1]);
            }
        }
    }
}

/// A session that receives a disconnect request, or sees every channel
/// close, ends: it answers that event with a shutdown (unless it had ended
/// already) and is closed afterwards.
pub proof fn lemma_ending_event_closes(state: SessionState, events: Seq<SessionEvent>, i: int)
    requires
        0 <= i < events.len(),
        ends_session(events[i]),
    ensures
        run(state, events) == SessionState::Closed,
    decreases events.len(),
{
    if i == 0 {
        let next = step(state, events[0]).0;
        assert(next == SessionState::Closed);
        lemma_closed_session_is_inert(events.drop_first());
    } else {
        lemma_ending_event_closes(step(state, events[0]).0, events.drop_first(), i - 1);
    }
}

/// Until an event ends it, a running session keeps running and answers each
/// event on its own: the writer gets the user's requests and the heartbeat
/// writes in the order the events came.
pub proof fn lemma_running_session_answers_each_event(events: Seq<SessionEvent>)
    requires
        forall|i: int| 0 <= i < events.len() ==> !ends_session(#[trigger] events[i]),
    ensures
        run(SessionState::Running, events) == SessionState::Running,
        actions(SessionState::Running, events).len() == events.len(),
        forall|i: int|
            0 <= i < events.len() ==> #[trigger] actions(SessionState::Running, events)[i] == step(
                SessionState::Running,
                events[i],
            ).1,
    decreases events.len(),
{
    if events.len() > 0 {
        assert(!ends_session(events[0]));
        assert(step(SessionState::Running, events[0]).0 == SessionState::Running);
        let tail = events.drop_first();
        assert forall|i: int| 0 <= i < tail.len() implies !ends_session(#[trigger] tail[i]) by {
            assert(tail[i] == events[i + 1]);
        }
        lemma_running_session_answers_each_event(tail);
        let rest = actions(SessionState::Running, tail);
        assert forall|i: int| 0 <= i < events.len() implies #[trigger] actions(
            SessionState::Running,
            events,
        )[i] == step(SessionState::Running, events[i]).1 by {
            if i > 0 {
                assert(actions(SessionState::Running, events)[i] == rest[i - 1]);
                assert(tail[i - 1] == events[i]);
            }
        }
    }
}

/// A running session hands a request to show an activity to the writer with
/// that very activity, and keeps running; a request to clear it reaches the
/// writer as a clear request, and a heartbeat beat as a heartbeat write.
pub proof fn lemma_requests_forwarded_unchanged(a: Activity)
    ensures
        step(SessionState::Running, SessionEvent::Command(ClientCommand::SetActivity(a)))
            == (SessionState::Running, SessionAction::Write(WriteCommand::SetActivity(a))),
        step(SessionState::Running, SessionEvent::Command(ClientCommand::ClearActivity)) == (
            SessionState::Running,
            SessionAction::Write(WriteCommand::ClearActivity),
        ),
        step(SessionState::Running, SessionEvent::Heartbeat(HeartbeatEvent::Beat)) == (
            SessionState::Running,
            SessionAction::Write(WriteCommand::Heartbeat),
        ),
{
}

/// A running session ignores messages from Discord and heartbeat notices
/// other than a beat, and keeps running.
pub proof fn lemma_other_events_ignored(message: ServerMessage, notice: HeartbeatEvent)
    requires
        !(notice is Beat),
    ensures
        step(SessionState::Running, SessionEvent::Server(message)) == (
            SessionState::Running,
            SessionAction::Nothing,
        ),
        step(SessionState::Running, SessionEvent::Heartbeat(notice)) == (
            SessionState::Running,
            SessionAction::Nothing,
        ),
{
}

/// How the reader treats a message from Discord.
#[derive(Debug)]
pub enum ReadAction {
    /// Tell the heartbeat channel.
    Heartbeat(HeartbeatEvent),
    /// Hand the message to the main loop.
    Forward(ServerMessage),
}

/// Whether a message from Discord acknowledges a heartbeat: its `op` is the
/// integer 1.
pub open spec fn is_heartbeat_ack(message: JsonModel) -> bool {
    match message.get("op"@) {
        Some(op) => op.as_u64() == Some(1u64),
        None => false,
    }
}

/// A message acknowledges a heartbeat exactly when it holds the integer 1
/// under `op`; a message without `op`, or with anything else there, is
/// handed to the main loop.
pub proof fn lemma_heartbeat_ack_exactly(message: JsonModel)
    ensures
        is_heartbeat_ack(message) <==> message.get("op"@) == Some(
            JsonModel::Number(NumberModel::PosInt(1)),
        ),
{
}

/// A heartbeat acknowledgement goes to the heartbeat channel; every other
/// message goes to the main loop as it came.
pub fn classify_incoming(message: JsonValue) -> (res: ReadAction)
    ensures
        is_heartbeat_ack(message.model()) ==> res == ReadAction::Heartbeat(HeartbeatEvent::Ack),
        !is_heartbeat_ack(message.model()) ==> res == ReadAction::Forward(
            ServerMessage::Payload(message),
        ),
{
    let ack = match message.get("op") {
        Some(op) => match op.as_u64() {
            Some(n) => n == 1,
            None => false,
        },
        None => false,
    };
    if ack {
        ReadAction::Heartbeat(HeartbeatEvent::Ack)
    } else {
        ReadAction::Forward(ServerMessage::Payload(message))
    }
}

impl ReadAction {
    /// Whether the action hands a message to the main loop.
    pub fn is_forward(&self) -> (res: bool)
        ensures
            res == (*self is Forward),
    {
        match self {
            ReadAction::Forward(_) => true,
            ReadAction::Heartbeat(_) => false,
        }
    }
}

/// What the reader does after one read.
#[derive(Debug)]
pub enum ReaderStep {
    /// Carry out this action, then read on.
    Deliver(ReadAction),
    /// Stop reading.
    Stop,
}

/// The reader's step after a read: a message read is sorted as
/// `classify_incoming` sorts it; a failed read stops the reader.
pub fn reader_step(read: Result<JsonValue, DiscordRpcError>) -> (res: ReaderStep)
    ensures
        match read {
            Ok(message) => {
                &&& is_heartbeat_ack(message.model()) ==> res == ReaderStep::Deliver(
                    ReadAction::Heartbeat(HeartbeatEvent::Ack),
                )
                &&& !is_heartbeat_ack(message.model()) ==> res == ReaderStep::Deliver(
                    ReadAction::Forward(ServerMessage::Payload(message)),
                )
            },
            Err(_) => res == ReaderStep::Stop,
        },
{
    match read {
        Ok(message) => ReaderStep::Deliver(classify_incoming(message)),
        Err(_) => ReaderStep::Stop,
    }
}

/// Whether the reader reads on once an action is carried out: a message
/// that the main loop could not take stops it; a heartbeat notice that could
/// not be handed over does not.
pub fn reader_continues(forwarded: bool, delivered: bool) -> (res: bool)
    ensures
        res == (delivered || !forwarded),
{
    delivered || !forwarded
}

/// Whether the heartbeat task ticks on after handing a heartbeat to the
/// writer: only when the writer took it.
pub fn heartbeat_continues(sent: bool) -> (res: bool)
    ensures
        res == sent,
{
    sent
}

/// Whether the writer writes on after sending a frame: only when the frame
/// was written.
pub fn writer_continues(written: bool) -> (res: bool)
    ensures
        res == written,
{
    written
}

/// The nonce of a request: the decimal text of the clock, in nanoseconds
/// since the Unix epoch.
pub fn generate_nonce(clock_nanos: u128) -> (res: String)
    ensures
        res@ == decimal(clock_nanos as nat),
{
    decimal_string(clock_nanos)
}

/// Two readings of the clock that differ give different nonces.
pub proof fn lemma_nonces_differ(a: u128, b: u128)
    requires
        a != b,
    ensures
        decimal(a as nat) != decimal(b as nat),
{
    crate::decimal::lemma_decimal_injective(a as nat, b as nat);
}

/// The request that sets the activity shown for `client_id`:
/// `{"cmd": "SET_ACTIVITY", "nonce": nonce, "args": {"pid": pid,
/// "activity": activity, "client_id": client_id}}`.
pub open spec fn set_activity_model(
    activity: JsonModel,
    nonce: Seq<char>,
    pid: u32,
    client_id: Seq<char>,
) -> JsonModel {
    JsonModel::Object(
        seq![
            ("cmd"@, JsonModel::Str("SET_ACTIVITY"@)),
            ("nonce"@, JsonModel::Str(nonce)),
            (
                "args"@,
                JsonModel::Object(
                    seq![
                        ("pid"@, JsonModel::Number(NumberModel::PosInt(pid as u64))),
                        ("activity"@, activity),
                        ("client_id"@, JsonModel::Str(client_id)),
                    ],
                ),
            ),
        ],
    )
}

/// The heartbeat message: `{"op": 1, "d": null}`.
pub open spec fn heartbeat_model() -> JsonModel {
    JsonModel::Object(
        seq![("op"@, JsonModel::Number(NumberModel::PosInt(1))), ("d"@, JsonModel::Null)],
    )
}

fn set_activity_message(activity: JsonValue, nonce: String, pid: u32, client_id: &str) -> (res:
    JsonValue)
    ensures
        res.model() == set_activity_model(activity.model(), nonce@, pid, client_id@),
{
    let ghost am = activity.model();
    let mut args: Vec<(String, JsonValue)> = Vec::new();
    push_entry(&mut args, "pid", JsonValue::Number(JsonNumber::PosInt(pid as u64)));
    push_entry(&mut args, "activity", activity);
    push_entry(&mut args, "client_id", json_str(client_id));
    assert(entry_models_of(args@) =~= seq![
        ("pid"@, JsonModel::Number(NumberModel::PosInt(pid as u64))),
        ("activity"@, am),
        ("client_id"@, JsonModel::Str(client_id@)),
    ]);
    let args = JsonValue::Object(args);
    let ghost args_model = args.model();
    let ghost nonce_view = nonce@;
    let mut e: Vec<(String, JsonValue)> = Vec::new();
    push_entry(&mut e, "cmd", json_str("SET_ACTIVITY"));
    push_entry(&mut e, "nonce", JsonValue::Str(nonce));
    push_entry(&mut e, "args", args);
    assert(entry_models_of(e@) =~= seq![
        ("cmd"@, JsonModel::Str("SET_ACTIVITY"@)),
        ("nonce"@, JsonModel::Str(nonce_view)),
        ("args"@, args_model),
    ]);
    JsonValue::Object(e)
}

/// A `SET_ACTIVITY` request, whatever its activity (`null` too), names its
/// command, carries the nonce, and holds under `args` the process id, the
/// activity and the client's id; it holds nothing else.
pub proof fn lemma_set_activity_request(
    activity: JsonModel,
    nonce: Seq<char>,
    pid: u32,
    client_id: Seq<char>,
)
    ensures
        ({
            let m = set_activity_model(activity, nonce, pid, client_id);
            &&& m matches JsonModel::Object(e) && e.len() == 3
            &&& m.get("cmd"@) == Some(JsonModel::Str("SET_ACTIVITY"@))
            &&& m.get("nonce"@) == Some(JsonModel::Str(nonce))
            &&& m.get("args"@) matches Some(args) && {
                &&& args matches JsonModel::Object(a) && a.len() == 3
                &&& args.get("pid"@) == Some(JsonModel::Number(NumberModel::PosInt(pid as u64)))
                &&& args.get("activity"@) == Some(activity)
                &&& args.get("client_id"@) == Some(JsonModel::Str(client_id))
            }
        }),
{
    reveal_strlit("cmd");
    reveal_strlit("nonce");
    reveal_strlit("args");
    reveal_strlit("pid");
    reveal_strlit("activity");
    reveal_strlit("client_id");
    let m = set_activity_model(activity, nonce, pid, client_id);
    let e = match m {
        JsonModel::Object(e) => e,
        _ => Seq::empty(),
    };
    lemma_lookup_first(e, 0, "cmd"@);
    assert(e[0].0 != "nonce"@) by {
        assert("cmd"@.len() != "nonce"@.len());
    }
    lemma_lookup_first(e, 1, "nonce"@);
    assert(e[0].0 != "args"@) by {
        assert("cmd"@.len() != "args"@.len());
    }
    assert(e[1].0 != "args"@) by {
        assert("nonce"@.len() != "args"@.len());
    }
    lemma_lookup_first(e, 2, "args"@);
    let a = match e[2].1 {
        JsonModel::Object(a) => a,
        _ => Seq::empty(),
    };
    lemma_lookup_first(a, 0, "pid"@);
    assert(a[0].0 != "activity"@) by {
        assert("pid"@.len() != "activity"@.len());
    }
    lemma_lookup_first(a, 1, "activity"@);
    assert(a[0].0 != "client_id"@) by {
        assert("pid"@.len() != "client_id"@.len());
    }
    assert(a[1].0 != "client_id"@) by {
        assert("activity"@[0] != "client_id"@[0]);
    }
    lemma_lookup_first(a, 2, "client_id"@);
}

/// The heartbeat message holds the integer 1 under `op` and `null` under
/// `d`, and nothing else.
pub proof fn lemma_heartbeat_message()
    ensures
        heartbeat_model() matches JsonModel::Object(e) && e.len() == 2,
        heartbeat_model().get("op"@) == Some(JsonModel::Number(NumberModel::PosInt(1))),
        heartbeat_model().get("d"@) == Some(JsonModel::Null),
{
    reveal_strlit("op");
    reveal_strlit("d");
    let e = match heartbeat_model() {
        JsonModel::Object(e) => e,
        _ => Seq::empty(),
    };
    lemma_lookup_first(e, 0, "op"@);
    assert(e[0].0 != "d"@) by {
        assert("op"@.len() != "d"@.len());
    }
    lemma_lookup_first(e, 1, "d"@);
}

/// What the writer does with a command.
#[derive(Debug)]
pub enum WriteAction {
    /// Send `message` in a frame with `opcode`.
    Send { opcode: u32, message: JsonValue },
    /// Stop writing.
    Stop,
}

/// The frame that the writer sends for `command`, on behalf of `client_id`
/// from process `pid`, with the clock at `clock_nanos`: setting the activity
/// sends it in a `SET_ACTIVITY` request, clearing it sends the same request
/// with a `null` activity, a heartbeat sends the heartbeat message, all in
/// ordinary frames; a disconnect stops the writer.
pub fn write_action(command: WriteCommand, client_id: &str, pid: u32, clock_nanos: u128) -> (res:
    WriteAction)
    ensures
        match command {
            WriteCommand::SetActivity(a) => res == WriteAction::Send {
                opcode: OPCODE_FRAME,
                message: res->message,
            } && res->message.model() == set_activity_model(
                a.json_model(),
                decimal(clock_nanos as nat),
                pid,
                client_id@,
            ),
            WriteCommand::ClearActivity => res == WriteAction::Send {
                opcode: OPCODE_FRAME,
                message: res->message,
            } && res->message.model() == set_activity_model(
                JsonModel::Null,
                decimal(clock_nanos as nat),
                pid,
                client_id@,
            ),
            WriteCommand::Heartbeat => res == WriteAction::Send {
                opcode: OPCODE_FRAME,
                message: res->message,
            } && res->message.model() == heartbeat_model(),
            WriteCommand::Disconnect => res == WriteAction::Stop,
        },
{
    match command {
        WriteCommand::SetActivity(activity) => {
            let message = set_activity_message(
                activity.to_json(),
                generate_nonce(clock_nanos),
                pid,
                client_id,
            );
            WriteAction::Send { opcode: OPCODE_FRAME, message }
        },
        WriteCommand::ClearActivity => {
            let message = set_activity_message(
                JsonValue::Null,
                generate_nonce(clock_nanos),
                pid,
                client_id,
            );
            WriteAction::Send { opcode: OPCODE_FRAME, message }
        },
        WriteCommand::Heartbeat => {
            let mut e: Vec<(String, JsonValue)> = Vec::new();
            push_entry(&mut e, "op", JsonValue::Number(JsonNumber::PosInt(1)));
            push_entry(&mut e, "d", JsonValue::Null);
            assert(entry_models_of(e@) =~= seq![
                ("op"@, JsonModel::Number(NumberModel::PosInt(1))),
                ("d"@, JsonModel::Null),
            ]);
            WriteAction::Send { opcode: OPCODE_FRAME, message: JsonValue::Object(e) }
        },
        WriteCommand::Disconnect => WriteAction::Stop,
    }
}

} // verus!
