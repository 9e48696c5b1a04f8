//! Commands, events, and the error taxonomy of the session multiplexer.

use vstd::prelude::*;

verus! {

/// A control command issued by the consumer, applied by the dispatcher in
/// the order received.
///
/// `NewClient` asks for a new session with the given id to be opened
/// towards `ip`; `Message` forwards a payload verbatim to the session with
/// the given id; `Close` tears the session down.
#[derive(Debug, Clone, PartialEq)]
pub enum Message {
    NewClient { id: u8, ip: String },
    Message { id: u8, payload: String, num_bytes: usize },
    Close { id: u8 },
}

/// Why a command referring to a session could not be carried out.
#[derive(Debug, Clone, Copy, PartialEq, Eq, Structural)]
pub enum FailureReason {
    /// An open command named an id that is already live.
    AlreadyOpen,
    /// The transport handshake failed; the session was never registered.
    ConnectError,
    /// A command named an id with no live session.
    UnknownSession,
}

/// Why a session ended.
#[derive(Debug, Clone, Copy, PartialEq, Eq, Structural)]
pub enum CloseReason {
    /// The consumer asked for the close.
    RequestedByLocal,
    /// The remote end sent a close frame.
    RemoteClosed,
    /// A transport read or write failed mid-session.
    ReadError,
}

/// An event reported to the consumer. Every command is answered by exactly
/// one event; sessions additionally report each inbound frame and their
/// own termination.
#[derive(Debug, Clone, PartialEq)]
pub enum Event {
    /// The session with this id completed its handshake and is live.
    SessionOpened { id: u8 },
    /// A command for this id could not be carried out; the registry is
    /// unchanged.
    SessionFailed { id: u8, reason: FailureReason },
    /// One inbound frame, forwarded verbatim, with the byte count of the
    /// raw frame data.
    MessageReceived { id: u8, payload: String, num_bytes: usize },
    /// The session with this id is gone.
    SessionClosed { id: u8, reason: CloseReason },
}

impl Event {
    /// The session a consumer should attribute this event to.
    pub open spec fn session_id(&self) -> u8 {
        match *self {
            Event::SessionOpened { id } => id,
            Event::SessionFailed { id, .. } => id,
            Event::MessageReceived { id, .. } => id,
            Event::SessionClosed { id, .. } => id,
        }
    }
}

} // verus!
