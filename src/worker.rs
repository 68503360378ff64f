//! The decisions of a transport worker: one per connection generation.
//!
//! The caller runs the worker's thread. It attempts the connection, then polls
//! the command queue and reads the socket in turn, and hands each outcome to
//! [`Worker::step`]. The step says what to do on the socket, which event to
//! send to the host, and whether the worker is done.
use vstd::prelude::*;
use vstd::utf8::{decode_utf8, valid_utf8};
use crate::message::{
    LuaChannel, LuaMessageType, RustChannel, RustMessageType, unknown_reason, unknown_reason_text,
};

verus! {

/// What decoding a byte sequence with replacement characters gives.
pub uninterp spec fn utf8_lossy(b: Seq<u8>) -> Seq<char>;

/// Relies on `String::from_utf8_lossy`: the result depends on the bytes alone,
/// and bytes that are valid UTF-8 decode to their own characters.
#[verifier::external_body]
fn lossy_decode(b: &Vec<u8>) -> (r: String)
    ensures
        r@ == utf8_lossy(b@),
        valid_utf8(b@) ==> r@ == decode_utf8(b@),
{
    String::from_utf8_lossy(b.as_slice()).into_owned()
}

/// Decodes the payload of a text frame. Invalid UTF-8 is never an error: each
/// bad sequence becomes a replacement character.
pub fn decode_text(b: &Vec<u8>) -> (r: String)
    ensures
        r@ == utf8_lossy(b@),
        valid_utf8(b@) ==> r@ == decode_utf8(b@),
{
    lossy_decode(b)
}

/// What a non-blocking poll of the command queue gave.
#[derive(Debug)]
pub enum CommandPoll {
    Received(RustChannel),
    Empty,
    /// The host dropped its end of the queue.
    Disconnected,
}

/// What a non-blocking read of the socket gave.
#[derive(Debug)]
pub enum ReadOutcome {
    /// A text frame, as its raw payload.
    Text(Vec<u8>),
    /// A ping, with its payload.
    Ping(Vec<u8>),
    /// A close frame, with its reason if it carried one.
    Close(Option<String>),
    /// A frame that the bridge does not forward (binary, pong).
    Ignored,
    /// Nothing to read yet.
    WouldBlock,
    /// Any other transport error, with its description.
    Failed(String),
}

/// What the worker does on the socket.
#[derive(Debug)]
pub enum WorkerAction {
    Idle,
    /// Write a text frame.
    Write(String),
    /// Start the close handshake with a normal close code and this reason.
    CloseHandshake(String),
    /// Answer a ping with a pong carrying this payload.
    Pong(Vec<u8>),
}

/// The lifecycle of one worker.
#[derive(Debug, Clone, Copy, PartialEq, Eq, Structural)]
pub enum WorkerPhase {
    Connecting,
    Running,
    Finished,
}

/// One outcome that the worker's thread hands to the worker.
#[derive(Debug)]
pub enum WorkerInput {
    /// The connection attempt succeeded, or failed with this description.
    Connect(Result<(), String>),
    Command(CommandPoll),
    Read(ReadOutcome),
}

/// What the worker's thread does after one input.
#[derive(Debug)]
pub struct WorkerStep {
    pub action: WorkerAction,
    /// The event to send to the host, if any.
    pub event: Option<LuaChannel>,
    /// Whether the thread ends now.
    pub stop: bool,
}

/// The state of one worker.
#[derive(Debug)]
pub struct Worker {
    pub phase: WorkerPhase,
}

/// The text that a command asks the worker to write, if it asks for a write.
pub open spec fn written_text(c: RustChannel) -> Option<String> {
    if c.message_type == RustMessageType::Message { c.data } else { None }
}

/// Whether `ev` is an event of this kind whose text is `text`.
pub open spec fn carries(ev: Option<LuaChannel>, kind: LuaMessageType, text: Seq<char>) -> bool {
    &&& ev is Some
    &&& ev->0.message_type == kind
    &&& ev->0.data is Some
    &&& ev->0.data->0@ == text
}

/// The step that a worker takes for a command while it runs.
pub open spec fn command_step_spec(poll: CommandPoll, r: WorkerStep) -> bool {
    match poll {
        CommandPoll::Received(c) => {
            &&& r.event.is_none()
            &&& !r.stop
            &&& match c.message_type {
                RustMessageType::Message => match c.data {
                    Some(t) => r.action == WorkerAction::Write(t),
                    None => r.action == WorkerAction::Idle,
                },
                RustMessageType::Close => (r.action matches WorkerAction::CloseHandshake(reason)
                    && reason@ == unknown_reason()),
            }
        },
        CommandPoll::Empty => r.action == WorkerAction::Idle && r.event.is_none() && !r.stop,
        CommandPoll::Disconnected => r.action == WorkerAction::Idle && r.event.is_none() && r.stop,
    }
}

/// The step that a worker takes for a read while it runs.
pub open spec fn read_step_spec(outcome: ReadOutcome, r: WorkerStep) -> bool {
    match outcome {
        ReadOutcome::Text(b) => {
            &&& r.action == WorkerAction::Idle
            &&& !r.stop
            &&& carries(r.event, LuaMessageType::Message, utf8_lossy(b@))
            &&& valid_utf8(b@) ==> carries(r.event, LuaMessageType::Message, decode_utf8(b@))
        },
        ReadOutcome::Ping(p) => r.action == WorkerAction::Pong(p) && r.event.is_none() && !r.stop,
        ReadOutcome::Close(reason) => {
            &&& r.action == WorkerAction::Idle
            &&& r.stop
            &&& carries(
                r.event,
                LuaMessageType::Disconnect,
                match reason {
                    Some(s) => s@,
                    None => unknown_reason(),
                },
            )
        },
        ReadOutcome::Ignored => r.action == WorkerAction::Idle && r.event.is_none() && !r.stop,
        ReadOutcome::WouldBlock => r.action == WorkerAction::Idle && r.event.is_none() && !r.stop,
        ReadOutcome::Failed(m) => {
            &&& r.action == WorkerAction::Idle
            &&& r.stop
            &&& r.event == Some(LuaChannel { message_type: LuaMessageType::Error, data: Some(m) })
        },
    }
}

/// The step that a worker takes for the outcome of its connection attempt.
pub open spec fn connect_step_spec(outcome: Result<(), String>, r: WorkerStep) -> bool {
    &&& r.action == WorkerAction::Idle
    &&& match outcome {
        Ok(()) => !r.stop && r.event == Some(LuaChannel::connected_spec()),
        Err(m) => r.stop && r.event == Some(
            LuaChannel { message_type: LuaMessageType::Error, data: Some(m) },
        ),
    }
}

/// The phase that a worker enters after a step.
pub open spec fn next_phase(phase: WorkerPhase, r: WorkerStep) -> WorkerPhase {
    if phase == WorkerPhase::Finished || r.stop {
        WorkerPhase::Finished
    } else {
        WorkerPhase::Running
    }
}

/// Whether an input is one that a worker in this phase acts on: the connection
/// outcome while connecting, queue polls and reads while running.
pub open spec fn accepts(phase: WorkerPhase, input: WorkerInput) -> bool {
    match input {
        WorkerInput::Connect(_) => phase == WorkerPhase::Connecting,
        _ => phase == WorkerPhase::Running,
    }
}

/// The step for an input that the worker does not act on: nothing happens, and
/// a worker that was connecting or finished stops.
pub open spec fn inert_step(phase: WorkerPhase, r: WorkerStep) -> bool {
    &&& r.action == WorkerAction::Idle
    &&& r.event.is_none()
    &&& r.stop == (phase != WorkerPhase::Running)
}

/// The step that a worker in `phase` takes for `input`.
pub open spec fn step_spec(phase: WorkerPhase, input: WorkerInput, r: WorkerStep) -> bool {
    if accepts(phase, input) {
        match input {
            WorkerInput::Connect(o) => connect_step_spec(o, r),
            WorkerInput::Command(p) => command_step_spec(p, r),
            WorkerInput::Read(o) => read_step_spec(o, r),
        }
    } else {
        inert_step(phase, r)
    }
}

/// Whether a step announces an established connection.
pub open spec fn announces_connect(r: WorkerStep) -> bool {
    r.event is Some && r.event->0.message_type == LuaMessageType::Connect
}

/// The texts that a sequence of commands asks to write, in order.
pub open spec fn texts_of(cmds: Seq<RustChannel>) -> Seq<String>
    decreases cmds.len(),
{
    if cmds.len() == 0 {
        Seq::empty()
    } else {
        let rest = texts_of(cmds.drop_last());
        match written_text(cmds.last()) {
            Some(t) => rest.push(t),
            None => rest,
        }
    }
}

/// The texts that a sequence of steps writes to the socket, in order.
pub open spec fn writes_of(steps: Seq<WorkerStep>) -> Seq<String>
    decreases steps.len(),
{
    if steps.len() == 0 {
        Seq::empty()
    } else {
        let rest = writes_of(steps.drop_last());
        match steps.last().action {
            WorkerAction::Write(t) => rest.push(t),
            _ => rest,
        }
    }
}

/// Whether `r` is the step a running worker takes for the command `c`.
pub open spec fn handles(c: RustChannel, r: WorkerStep) -> bool {
    command_step_spec(CommandPoll::Received(c), r)
}

/// A worker that takes commands in the order they were queued writes the texts
/// of the text commands in that same order, each once, and keeps running.
pub proof fn lemma_forwarding_keeps_order(cmds: Seq<RustChannel>, steps: Seq<WorkerStep>)
    requires
        steps.len() == cmds.len(),
        forall|i: int| 0 <= i < cmds.len() ==> #[trigger] handles(cmds[i], steps[i]),
    ensures
        writes_of(steps) == texts_of(cmds),
        forall|i: int| 0 <= i < steps.len() ==> !(#[trigger] steps[i]).stop,
    decreases cmds.len(),
{
    if cmds.len() > 0 {
        let n = cmds.len() - 1;
        assert forall|i: int| 0 <= i < n implies #[trigger] handles(
            cmds.drop_last()[i],
            steps.drop_last()[i],
        ) by {
            assert(handles(cmds[i], steps[i]));
        }
        lemma_forwarding_keeps_order(cmds.drop_last(), steps.drop_last());
        assert(handles(cmds[n], steps[n]));
        assert(forall|i: int| 0 <= i < n ==> steps.drop_last()[i] == steps[i]);
    }
}

/// A worker announces its connection at most once: only a connecting worker
/// announces it, and no step leads a worker back to connecting.
pub proof fn lemma_connect_announced_once(phase: WorkerPhase, input: WorkerInput, r: WorkerStep)
    requires
        step_spec(phase, input, r),
    ensures
        next_phase(phase, r) != WorkerPhase::Connecting,
        announces_connect(r) ==> phase == WorkerPhase::Connecting,
{
}

/// Decides what to do with one poll of the command queue.
pub fn command_step(poll: CommandPoll) -> (r: WorkerStep)
    ensures
        command_step_spec(poll, r),
{
    match poll {
        CommandPoll::Received(c) => {
            let action = match c.message_type {
                RustMessageType::Message => match c.data {
                    Some(t) => WorkerAction::Write(t),
                    None => WorkerAction::Idle,
                },
                RustMessageType::Close => WorkerAction::CloseHandshake(unknown_reason_text()),
            };
            WorkerStep { action, event: None, stop: false }
        },
        CommandPoll::Empty => WorkerStep { action: WorkerAction::Idle, event: None, stop: false },
        CommandPoll::Disconnected => WorkerStep {
            action: WorkerAction::Idle,
            event: None,
            stop: true,
        },
    }
}

/// Decides what to do with one read of the socket.
pub fn read_step(outcome: ReadOutcome) -> (r: WorkerStep)
    ensures
        read_step_spec(outcome, r),
{
    match outcome {
        ReadOutcome::Text(b) => {
            let text = decode_text(&b);
            WorkerStep { action: WorkerAction::Idle, event: Some(LuaChannel::message(text)), stop: false }
        },
        ReadOutcome::Ping(p) => WorkerStep { action: WorkerAction::Pong(p), event: None, stop: false },
        ReadOutcome::Close(reason) => {
            let text = match reason {
                Some(s) => s,
                None => unknown_reason_text(),
            };
            WorkerStep {
                action: WorkerAction::Idle,
                event: Some(LuaChannel::disconnected(text)),
                stop: true,
            }
        },
        ReadOutcome::Ignored => WorkerStep { action: WorkerAction::Idle, event: None, stop: false },
        ReadOutcome::WouldBlock => WorkerStep { action: WorkerAction::Idle, event: None, stop: false },
        ReadOutcome::Failed(m) => WorkerStep {
            action: WorkerAction::Idle,
            event: Some(LuaChannel::error(m)),
            stop: true,
        },
    }
}

/// Decides what to do with the outcome of the connection attempt.
pub fn connect_step(outcome: Result<(), String>) -> (r: WorkerStep)
    ensures
        connect_step_spec(outcome, r),
{
    match outcome {
        Ok(()) => WorkerStep {
            action: WorkerAction::Idle,
            event: Some(LuaChannel::connected()),
            stop: false,
        },
        Err(m) => WorkerStep { action: WorkerAction::Idle, event: Some(LuaChannel::error(m)), stop: true },
    }
}

impl Worker {
    /// A worker that has not yet tried to connect.
    pub fn new() -> (r: Worker)
        ensures
            r.phase == WorkerPhase::Connecting,
    {
        Worker { phase: WorkerPhase::Connecting }
    }

    /// Takes one input. A worker acts on the connection outcome only while
    /// connecting, and on polls and reads only while running; once finished it
    /// does nothing more.
    pub fn step(&mut self, input: WorkerInput) -> (r: WorkerStep)
        ensures
            step_spec(old(self).phase, input, r),
            final(self).phase == next_phase(old(self).phase, r),
    {
        let phase = self.phase;
        let r = match input {
            WorkerInput::Connect(o) => if phase == WorkerPhase::Connecting {
                connect_step(o)
            } else {
                WorkerStep { action: WorkerAction::Idle, event: None, stop: phase != WorkerPhase::Running }
            },
            WorkerInput::Command(p) => if phase == WorkerPhase::Running {
                command_step(p)
            } else {
                WorkerStep { action: WorkerAction::Idle, event: None, stop: true }
            },
            WorkerInput::Read(o) => if phase == WorkerPhase::Running {
                read_step(o)
            } else {
                WorkerStep { action: WorkerAction::Idle, event: None, stop: true }
            },
        };
        self.phase = if phase == WorkerPhase::Finished || r.stop {
            WorkerPhase::Finished
        } else {
            WorkerPhase::Running
        };
        r
    }
}

} // verus!
