//! A session multiplexer for WebSocket-style duplex connections.
//!
//! The core of the library is a single-writer registry of open sessions
//! together with the decision logic of a command dispatcher: commands
//! (open, send, close) come in over a bounded mailbox, are applied to the
//! registry strictly in order, and every outcome is reported to the
//! consumer as exactly one event. Transport work (the handshake, frame
//! writes, frame reads) is performed by an unverified shell around the
//! library; every decision about what to do and what to report is made
//! here and verified.

pub mod address;
pub mod dispatcher;
pub mod mailbox;
pub mod registry;
pub mod session;
pub mod state;
