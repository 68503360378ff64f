//! The values that cross the thread boundary in each direction.
use vstd::prelude::*;
use vstd::string::StringExecFns;

verus! {

/// The kind of an event sent from a worker to the host.
#[derive(Debug, Clone, Copy, PartialEq, Eq, Structural)]
pub enum LuaMessageType {
    Message,
    Error,
    Disconnect,
    Connect,
}

/// The kind of a command sent from the host to a worker.
#[derive(Debug, Clone, Copy, PartialEq, Eq, Structural)]
pub enum RustMessageType {
    Message,
    Close,
}

/// An event from a worker to the host: its kind and its text, if it has one.
#[derive(Debug)]
pub struct LuaChannel {
    pub message_type: LuaMessageType,
    pub data: Option<String>,
}

/// A command from the host to a worker: its kind and its text, if it has one.
#[derive(Debug)]
pub struct RustChannel {
    pub message_type: RustMessageType,
    pub data: Option<String>,
}

/// The reason reported for a close that carried none, and the reason that a
/// worker gives in its own close handshake.
pub open spec fn unknown_reason() -> Seq<char> {
    "unknown"@
}

/// The reason reported when the user severs a connection at once.
pub open spec fn closed_by_user() -> Seq<char> {
    "closed by user"@
}

/// A fresh copy of [`unknown_reason`].
pub fn unknown_reason_text() -> (r: String)
    ensures
        r@ == unknown_reason(),
{
    String::from_str("unknown")
}

/// A fresh copy of [`closed_by_user`].
pub fn closed_by_user_text() -> (r: String)
    ensures
        r@ == closed_by_user(),
{
    String::from_str("closed by user")
}

impl LuaChannel {
    /// The event that announces an established connection.
    pub open spec fn connected_spec() -> LuaChannel {
        LuaChannel { message_type: LuaMessageType::Connect, data: None }
    }

    /// The connection was established.
    pub fn connected() -> (r: LuaChannel)
        ensures
            r == LuaChannel::connected_spec(),
    {
        LuaChannel { message_type: LuaMessageType::Connect, data: None }
    }

    /// A text message arrived from the peer.
    pub fn message(text: String) -> (r: LuaChannel)
        ensures
            r.message_type == LuaMessageType::Message,
            r.data == Some(text),
    {
        LuaChannel { message_type: LuaMessageType::Message, data: Some(text) }
    }

    /// The connection failed, with a description of why.
    pub fn error(text: String) -> (r: LuaChannel)
        ensures
            r.message_type == LuaMessageType::Error,
            r.data == Some(text),
    {
        LuaChannel { message_type: LuaMessageType::Error, data: Some(text) }
    }

    /// The peer closed the connection, with its reason.
    pub fn disconnected(reason: String) -> (r: LuaChannel)
        ensures
            r.message_type == LuaMessageType::Disconnect,
            r.data == Some(reason),
    {
        LuaChannel { message_type: LuaMessageType::Disconnect, data: Some(reason) }
    }
}

impl RustChannel {
    /// A text message to write to the socket.
    pub fn text(text: String) -> (r: RustChannel)
        ensures
            r.message_type == RustMessageType::Message,
            r.data == Some(text),
    {
        RustChannel { message_type: RustMessageType::Message, data: Some(text) }
    }

    /// A request to start the close handshake.
    pub fn close() -> (r: RustChannel)
        ensures
            r.message_type == RustMessageType::Close,
            r.data.is_none(),
    {
        RustChannel { message_type: RustMessageType::Close, data: None }
    }
}

} // verus!
