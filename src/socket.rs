//! The connection handle that the host sees, and the dispatch of its events.
//!
//! A [`Socket`] owns, through its caller, the producer end of one worker's
//! command queue and the consumer end of its event queue. Those ends belong to
//! one generation; `open` after a close starts a new one under the same handle.
use vstd::prelude::*;
use vstd::string::StringExecFns;
use crate::message::{
    LuaChannel, LuaMessageType, RustChannel, RustMessageType, closed_by_user, closed_by_user_text,
};
use crate::registry::{Registry, without};
use vstd::arithmetic::power2::pow2;

verus! {

/// The lower-case hexadecimal digit for `n`, which is below 16.
pub open spec fn hex_digit(n: int) -> char {
    if n == 0 { '0' } else if n == 1 { '1' } else if n == 2 { '2' } else if n == 3 { '3' }
    else if n == 4 { '4' } else if n == 5 { '5' } else if n == 6 { '6' } else if n == 7 { '7' }
    else if n == 8 { '8' } else if n == 9 { '9' } else if n == 10 { 'a' } else if n == 11 { 'b' }
    else if n == 12 { 'c' } else if n == 13 { 'd' } else if n == 14 { 'e' } else { 'f' }
}

/// The `j`-th group of four bits of `id`, counting from the most significant.
pub open spec fn nibble(id: u128, j: int) -> int {
    (id as int / pow2((4 * (31 - j)) as nat) as int) % 16
}

/// Whether position `i` of a hyphenated UUID holds a hyphen.
pub open spec fn is_hyphen_at(i: int) -> bool {
    i == 8 || i == 13 || i == 18 || i == 23
}

/// The number of hyphens before position `i` of a hyphenated UUID.
pub open spec fn hyphens_before(i: int) -> int {
    if i <= 8 { 0 } else if i <= 13 { 1 } else if i <= 18 { 2 } else if i <= 23 { 3 } else { 4 }
}

/// The hyphenated lower-case text of a UUID: 32 hexadecimal digits, most
/// significant first, with hyphens after the 8th, 12th, 16th and 20th.
pub open spec fn uuid_text(id: u128) -> Seq<char> {
    Seq::new(
        36,
        |i: int|
            if is_hyphen_at(i) {
                '-'
            } else {
                hex_digit(nibble(id, i - hyphens_before(i)))
            },
    )
}

/// The bits that every random version-4 UUID has: version nibble 4 and
/// variant bits `10`.
pub open spec fn is_v4(id: u128) -> bool {
    id & 0xF000_C000_0000_0000_0000u128 == 0x4000_8000_0000_0000_0000u128
}

/// Relies on `uuid::Uuid::new_v4`: a random version-4 UUID, whose version
/// nibble is 4 and whose variant bits are `10`.
#[verifier::external_body]
fn new_uuid() -> (r: u128)
    ensures
        is_v4(r),
{
    uuid::Uuid::new_v4().as_u128()
}

/// Relies on the `Display` of `uuid::Uuid`: the hyphenated lower-case form,
/// 36 characters long.
#[verifier::external_body]
fn format_uuid(id: u128) -> (r: String)
    ensures
        r@ == uuid_text(id),
{
    uuid::Uuid::from_u128(id).to_string()
}

/// Why a command could not be handed to the worker.
#[derive(Debug, Clone, Copy, PartialEq, Eq, Structural)]
pub enum SocketError {
    /// The current generation has no live worker to take commands.
    ChannelClosed,
}

/// One connection handle.
#[derive(Debug)]
pub struct Socket {
    /// The handle's key in its registry.
    pub key: u64,
    /// The handle's identity, shown in its description.
    pub id: u128,
    /// The address that each generation connects to.
    pub url: String,
    /// Set by a close, or when the worker reports that the peer disconnected;
    /// cleared when a new generation starts.
    pub closed: bool,
    /// Whether the current generation is still attached: its command queue may
    /// have a consumer and the handle is registered for dispatch.
    pub linked: bool,
    /// The current generation.
    pub generation: u64,
    /// Whether the host has been told that the current generation disconnected,
    /// by a disconnect event or by `close_now`.
    pub disconnect_reported: bool,
}

/// A worker for the caller to start.
#[derive(Debug)]
pub struct SpawnRequest {
    pub url: String,
    /// The generation whose queues the new worker serves.
    pub generation: u64,
    /// Whether the caller must now schedule the periodic dispatch.
    pub schedule_dispatch: bool,
}

/// The callbacks that the host may register on a handle.
#[derive(Debug, Clone, Copy, PartialEq, Eq, Structural)]
pub enum CallbackKind {
    OnConnect,
    OnMessage,
    OnError,
    OnDisconnect,
}

/// A callback for the host to invoke, if registered, with its argument.
#[derive(Debug)]
pub struct Callback {
    pub kind: CallbackKind,
    pub data: Option<String>,
}

/// What a non-blocking poll of a handle's event queue gave.
#[derive(Debug)]
pub enum EventPoll {
    Received(LuaChannel),
    Empty,
    /// The worker is gone: its end of the queue was dropped, or the queue's
    /// lock could not be taken.
    Gone,
}

/// The key under which the host looks a callback up.
pub open spec fn callback_key_spec(kind: CallbackKind) -> Seq<char> {
    match kind {
        CallbackKind::OnConnect => "on_connect"@,
        CallbackKind::OnMessage => "on_message"@,
        CallbackKind::OnError => "on_error"@,
        CallbackKind::OnDisconnect => "on_disconnect"@,
    }
}

/// The key under which the host looks a callback up.
pub fn callback_key(kind: CallbackKind) -> (r: String)
    ensures
        r@ == callback_key_spec(kind),
{
    match kind {
        CallbackKind::OnConnect => String::from_str("on_connect"),
        CallbackKind::OnMessage => String::from_str("on_message"),
        CallbackKind::OnError => String::from_str("on_error"),
        CallbackKind::OnDisconnect => String::from_str("on_disconnect"),
    }
}

/// The name of the handle type on the host side.
pub open spec fn type_name_spec() -> Seq<char> {
    "tungstenite"@
}

/// The name of the handle type on the host side.
pub fn name() -> (r: String)
    ensures
        r@ == type_name_spec(),
{
    String::from_str("tungstenite")
}

/// The description of a handle: the type name and its identity.
pub open spec fn describe_spec(id: u128) -> Seq<char> {
    "tungstenite ("@ + uuid_text(id) + ")"@
}

/// The handle as registered: its key was handed out by the registry, and it is
/// registered exactly while its generation is attached.
pub open spec fn registered(reg: Registry, s: Socket) -> bool {
    &&& reg.wf()
    &&& s.key < reg.next_key_spec()
    &&& reg@.contains(s.key) == s.linked
}

/// The generation after `g`.
pub open spec fn next_generation(g: u64) -> u64 {
    if g == u64::MAX { 0 } else { (g + 1) as u64 }
}

/// What `send` hands back.
pub open spec fn send_spec(s: Socket, data: String) -> Result<RustChannel, SocketError> {
    if s.linked {
        Ok(RustChannel { message_type: RustMessageType::Message, data: Some(data) })
    } else {
        Err(SocketError::ChannelClosed)
    }
}

/// What `close` hands back.
pub open spec fn close_result_spec(s: Socket) -> Result<RustChannel, SocketError> {
    if s.linked {
        Ok(RustChannel { message_type: RustMessageType::Close, data: None })
    } else {
        Err(SocketError::ChannelClosed)
    }
}

/// The handle after `close_now`.
pub open spec fn close_now_spec(s: Socket) -> Socket {
    Socket { closed: true, linked: false, disconnect_reported: true, ..s }
}

/// Whether `close_now` reports the disconnect: exactly when the current
/// generation has not been reported disconnected yet.
pub open spec fn close_now_notifies(s: Socket) -> bool {
    !s.disconnect_reported
}

/// Whether `r` is the disconnect callback with this reason.
pub open spec fn reports_disconnect(r: Option<Callback>, reason: Seq<char>) -> bool {
    &&& r is Some
    &&& r->0.kind == CallbackKind::OnDisconnect
    &&& r->0.data is Some
    &&& r->0.data->0@ == reason
}

/// The handle after `open`.
pub open spec fn open_spec(s: Socket) -> Socket {
    if !s.closed {
        s
    } else {
        Socket {
            closed: false,
            linked: true,
            generation: next_generation(s.generation),
            disconnect_reported: false,
            ..s
        }
    }
}

/// Whether a poll of the queue of `generation` concerns the handle's current
/// generation, and that generation is still attached. A detached handle's
/// queues were discarded: nothing polled from them is dispatched.
pub open spec fn is_current(s: Socket, generation: u64) -> bool {
    s.linked && generation == s.generation
}

/// The callback that the dispatch asks for after one poll.
pub open spec fn dispatch_callback(s: Socket, generation: u64, poll: EventPoll) -> Option<Callback> {
    if !is_current(s, generation) {
        None
    } else {
        match poll {
            EventPoll::Received(e) => Some(
                Callback {
                    kind: match e.message_type {
                        LuaMessageType::Connect => CallbackKind::OnConnect,
                        LuaMessageType::Message => CallbackKind::OnMessage,
                        LuaMessageType::Error => CallbackKind::OnError,
                        LuaMessageType::Disconnect => CallbackKind::OnDisconnect,
                    },
                    data: e.data,
                },
            ),
            _ => None,
        }
    }
}

/// Whether the dispatch retires the handle after one poll: on a disconnect, or
/// when the worker is gone.
pub open spec fn dispatch_retires(s: Socket, generation: u64, poll: EventPoll) -> bool {
    is_current(s, generation) && match poll {
        EventPoll::Received(e) => e.message_type == LuaMessageType::Disconnect,
        EventPoll::Empty => false,
        EventPoll::Gone => true,
    }
}

/// The handle after one poll. A disconnect also closes it.
pub open spec fn dispatch_state(s: Socket, generation: u64, poll: EventPoll) -> Socket {
    if dispatch_retires(s, generation, poll) {
        Socket {
            closed: s.closed || poll is Received,
            linked: false,
            disconnect_reported: s.disconnect_reported || poll is Received,
            ..s
        }
    } else {
        s
    }
}

/// Creates a handle for `url`, registers it and asks for its first worker.
pub fn connect(reg: &mut Registry, url: String) -> (r: (Socket, SpawnRequest))
    requires
        old(reg).wf(),
        old(reg).next_key_spec() < u64::MAX,
    ensures
        registered(*final(reg), r.0),
        !old(reg)@.contains(r.0.key),
        final(reg)@ == old(reg)@.insert(r.0.key),
        r.0.url == url,
        final(reg).order() == old(reg).order().push(r.0.key),
        is_v4(r.0.id),
        !r.0.closed,
        r.0.linked,
        !r.0.disconnect_reported,
        r.0.generation == 0,
        r.1.url == url,
        r.1.generation == 0,
        r.1.schedule_dispatch == !old(reg).timer_started_spec(),
        final(reg).timer_started_spec(),
{
    let key = reg.fresh_key();
    reg.insert(key);
    let schedule_dispatch = reg.claim_timer();
    let id = new_uuid();
    let spawn = SpawnRequest { url: url.clone(), generation: 0, schedule_dispatch };
    (
        Socket { key, id, url, closed: false, linked: true, generation: 0, disconnect_reported: false },
        spawn,
    )
}

/// The command that writes `data` to the socket, to put on the command queue.
/// Fails once the generation is detached.
pub fn send(this: &Socket, data: String) -> (r: Result<RustChannel, SocketError>)
    ensures
        r == send_spec(*this, data),
{
    if this.linked {
        Ok(RustChannel::text(data))
    } else {
        Err(SocketError::ChannelClosed)
    }
}

/// Closes gracefully: marks the handle closed and gives the close command to put
/// on the command queue. The handle stays registered until the worker confirms.
/// Fails once the generation is detached.
pub fn close(this: &mut Socket) -> (r: Result<RustChannel, SocketError>)
    ensures
        *final(this) == (Socket { closed: true, ..*old(this) }),
        r == close_result_spec(*old(this)),
{
    this.closed = true;
    if this.linked {
        Ok(RustChannel::close())
    } else {
        Err(SocketError::ChannelClosed)
    }
}

/// Closes at once: marks the handle closed, detaches its generation and takes it
/// out of the registry. The caller replaces the queue ends with inert ones.
/// Gives the disconnect callback to invoke, unless the current generation was
/// already reported disconnected.
pub fn close_now(reg: &mut Registry, this: &mut Socket) -> (r: Option<Callback>)
    requires
        registered(*old(reg), *old(this)),
    ensures
        registered(*final(reg), *final(this)),
        *final(this) == close_now_spec(*old(this)),
        final(reg)@ == old(reg)@.remove(old(this).key),
        final(reg).order() == without(old(reg).order(), old(this).key),
        final(reg).timer_started_spec() == old(reg).timer_started_spec(),
        close_now_notifies(*old(this)) ==> reports_disconnect(r, closed_by_user()),
        !close_now_notifies(*old(this)) ==> r is None,
{
    let notify = !this.disconnect_reported;
    this.closed = true;
    this.linked = false;
    this.disconnect_reported = true;
    reg.remove(this.key);
    if notify {
        Some(Callback { kind: CallbackKind::OnDisconnect, data: Some(closed_by_user_text()) })
    } else {
        None
    }
}

/// Reopens a closed handle: starts a new generation, registers the handle and
/// asks for a worker. An open handle is left as it is and no worker is asked for.
pub fn open(reg: &mut Registry, this: &mut Socket) -> (r: Option<SpawnRequest>)
    requires
        registered(*old(reg), *old(this)),
    ensures
        registered(*final(reg), *final(this)),
        *final(this) == open_spec(*old(this)),
        !old(this).closed ==> r is None && *final(reg) == *old(reg),
        old(this).closed ==> {
            &&& r is Some
            &&& r->0.url == old(this).url
            &&& r->0.generation == final(this).generation
            &&& r->0.schedule_dispatch == !old(reg).timer_started_spec()
            &&& final(reg)@ == old(reg)@.insert(old(this).key)
            &&& final(reg).order() == if old(reg)@.contains(old(this).key) {
                old(reg).order()
            } else {
                old(reg).order().push(old(this).key)
            }
            &&& final(reg).timer_started_spec()
        },
{
    if !this.closed {
        return None;
    }
    let generation = this.generation.wrapping_add(1);
    this.generation = generation;
    this.closed = false;
    this.linked = true;
    this.disconnect_reported = false;
    reg.insert(this.key);
    let schedule_dispatch = reg.claim_timer();
    Some(SpawnRequest { url: this.url.clone(), generation, schedule_dispatch })
}

/// Handles one poll of the event queue of `generation`. A poll of a queue
/// from an earlier generation does nothing. A disconnect closes the handle and
/// retires it; a worker that is gone retires it silently. Gives the callback to
/// invoke, if registered.
pub fn run_callbacks(reg: &mut Registry, this: &mut Socket, generation: u64, poll: EventPoll) -> (r:
    Option<Callback>)
    requires
        registered(*old(reg), *old(this)),
    ensures
        registered(*final(reg), *final(this)),
        r == dispatch_callback(*old(this), generation, poll),
        *final(this) == dispatch_state(*old(this), generation, poll),
        final(reg)@ == if dispatch_retires(*old(this), generation, poll) {
            old(reg)@.remove(old(this).key)
        } else {
            old(reg)@
        },
        final(reg).order() == if dispatch_retires(*old(this), generation, poll) {
            without(old(reg).order(), old(this).key)
        } else {
            old(reg).order()
        },
        final(reg).timer_started_spec() == old(reg).timer_started_spec(),
{
    if generation != this.generation || !this.linked {
        return None;
    }
    match poll {
        EventPoll::Received(e) => {
            let kind = match e.message_type {
                LuaMessageType::Connect => CallbackKind::OnConnect,
                LuaMessageType::Message => CallbackKind::OnMessage,
                LuaMessageType::Error => CallbackKind::OnError,
                LuaMessageType::Disconnect => CallbackKind::OnDisconnect,
            };
            if kind == CallbackKind::OnDisconnect {
                this.closed = true;
                this.linked = false;
                this.disconnect_reported = true;
                reg.remove(this.key);
            }
            Some(Callback { kind, data: e.data })
        },
        EventPoll::Empty => None,
        EventPoll::Gone => {
            this.linked = false;
            reg.remove(this.key);
            None
        },
    }
}

/// The description of a handle, such as `tungstenite (<uuid>)`.
pub fn describe(this: &Socket) -> (r: String)
    ensures
        r@ == describe_spec(this.id),
{
    let head = String::from_str("tungstenite (");
    let id = format_uuid(this.id);
    let mut r = head.concat(id.as_str());
    r.append(")");
    r
}

/// Opening a handle that is already open changes nothing, so no second worker
/// is started for its generation.
pub proof fn lemma_open_while_open(s: Socket)
    requires
        !s.closed,
    ensures
        open_spec(s) == s,
{
}

/// After a handle is closed at once, every send and every graceful close fails
/// with `ChannelClosed`, until the handle is opened again.
pub proof fn lemma_send_after_close_now(s: Socket, data: String)
    ensures
        send_spec(close_now_spec(s), data) == Err::<RustChannel, SocketError>(
            SocketError::ChannelClosed,
        ),
        close_result_spec(close_now_spec(s)) == Err::<RustChannel, SocketError>(
            SocketError::ChannelClosed,
        ),
{
}

/// Retiring a handle twice is retiring it once: taking its key out of the
/// registry again changes nothing; a handle that a disconnect event retired, or
/// that was closed at once, is not reported disconnected a second time, neither
/// by `close_now` nor by a later disconnect event polled for it.
pub proof fn lemma_retire_idempotent(reg: Set<u64>, s: Socket, generation: u64, e: LuaChannel)
    requires
        e.message_type == LuaMessageType::Disconnect,
    ensures
        reg.remove(s.key).remove(s.key) == reg.remove(s.key),
        is_current(s, generation) ==> dispatch_retires(s, generation, EventPoll::Received(e)),
        is_current(s, generation) ==> !close_now_notifies(
            dispatch_state(s, generation, EventPoll::Received(e)),
        ),
        is_current(s, generation) ==> dispatch_callback(
            dispatch_state(s, generation, EventPoll::Received(e)),
            generation,
            EventPoll::Received(e),
        ) is None,
        dispatch_callback(close_now_spec(s), generation, EventPoll::Received(e)) is None,
        dispatch_state(close_now_spec(s), generation, EventPoll::Received(e)) == close_now_spec(s),
        !close_now_notifies(close_now_spec(s)),
        close_now_spec(close_now_spec(s)) == close_now_spec(s),
{
    assert(reg.remove(s.key).remove(s.key) =~= reg.remove(s.key));
}

/// Closing a handle at once and opening it again gives a new generation that
/// is attached and open and can report its own connection, while anything
/// still polled from the old generation's queue reaches no callback and changes
/// nothing.
pub proof fn lemma_reopen(s: Socket, stale: EventPoll)
    ensures
        open_spec(close_now_spec(s)).linked,
        !open_spec(close_now_spec(s)).closed,
        open_spec(close_now_spec(s)).generation != s.generation,
        dispatch_callback(open_spec(close_now_spec(s)), s.generation, stale) is None,
        dispatch_state(open_spec(close_now_spec(s)), s.generation, stale) == open_spec(
            close_now_spec(s),
        ),
        dispatch_callback(
            open_spec(close_now_spec(s)),
            open_spec(close_now_spec(s)).generation,
            EventPoll::Received(LuaChannel::connected_spec()),
        ) == Some(Callback { kind: CallbackKind::OnConnect, data: None }),
{
}

} // verus!
