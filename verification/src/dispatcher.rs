//! The command dispatcher's decision logic.
//!
//! The dispatcher is the only writer of the registry. It consumes commands
//! strictly in the order received and decides, for each, what transport
//! work the unverified shell must perform and which event answers the
//! command. Transport work that can suspend (the handshake, a frame write)
//! is carried out by the shell between [`dispatch`] and the matching
//! settle call; the registry is touched only here, so a command's decision
//! and its settlement see no interference.

use vstd::prelude::*;

use crate::registry::Registry;
use crate::session::{CloseReason, Event, FailureReason, Message};

verus! {

/// The transport work the shell must perform to finish a command.
pub enum Action {
    /// No transport work: the command was answered from the registry alone.
    Stay,
    /// Attempt the duplex handshake towards `address`; report the outcome
    /// through [`settle_open`].
    Connect { id: u8, address: String },
    /// Write `payload` to the session's write half; report the outcome
    /// through [`settle_send`].
    Write { id: u8, transport: u64, payload: String },
    /// Best-effort send a termination frame on this write half, release
    /// it, and signal the session's reader to stop. Errors are swallowed:
    /// closing always succeeds locally.
    Release { id: u8, transport: u64 },
}

/// What one command does to the session table. Only a close changes it at
/// decision time; an open changes it later, at [`settle_open`], and a
/// failed write at [`settle_send`].
pub open spec fn dispatch_table(m: Map<u8, u64>, cmd: Message) -> Map<u8, u64> {
    match cmd {
        Message::Close { id } => m.remove(id),
        _ => m,
    }
}

/// The transport work one command asks of the shell.
pub open spec fn dispatch_action(m: Map<u8, u64>, cmd: Message) -> Action {
    match cmd {
        Message::NewClient { id, ip } => if m.contains_key(id) {
            Action::Stay
        } else {
            Action::Connect { id, address: ip }
        },
        Message::Message { id, payload, .. } => if m.contains_key(id) {
            Action::Write { id, transport: m[id], payload }
        } else {
            Action::Stay
        },
        Message::Close { id } => if m.contains_key(id) {
            Action::Release { id, transport: m[id] }
        } else {
            Action::Stay
        },
    }
}

/// The event, if any, that answers one command at decision time. An open
/// that proceeds to the handshake and a send that proceeds to the write
/// are answered later, by the matching settle call.
pub open spec fn dispatch_event(m: Map<u8, u64>, cmd: Message) -> Option<Event> {
    match cmd {
        Message::NewClient { id, .. } => if m.contains_key(id) {
            Some(Event::SessionFailed { id, reason: FailureReason::AlreadyOpen })
        } else {
            None
        },
        Message::Message { id, .. } => if m.contains_key(id) {
            None
        } else {
            Some(Event::SessionFailed { id, reason: FailureReason::UnknownSession })
        },
        Message::Close { id } => Some(
            Event::SessionClosed { id, reason: CloseReason::RequestedByLocal },
        ),
    }
}

/// What the registry holds once an open settles: the new handle on
/// success, nothing new on failure.
pub open spec fn settled_open_table(m: Map<u8, u64>, id: u8, outcome: Option<u64>) -> Map<
    u8,
    u64,
> {
    match outcome {
        Some(t) => m.insert(id, t),
        None => m,
    }
}

/// The one event that answers an open once its handshake settles.
pub open spec fn settled_open_event(id: u8, outcome: Option<u64>) -> Event {
    match outcome {
        Some(_) => Event::SessionOpened { id },
        None => Event::SessionFailed { id, reason: FailureReason::ConnectError },
    }
}

/// What the registry holds once a write settles: unchanged on success; a
/// failed write tears the session down, since a broken write half cannot
/// be trusted to succeed on retry.
pub open spec fn settled_send_table(m: Map<u8, u64>, id: u8, delivered: bool) -> Map<u8, u64> {
    if delivered {
        m
    } else {
        m.remove(id)
    }
}

/// The event, if any, once a write settles: a delivered payload is silent,
/// a failed write is reported as the session's teardown.
pub open spec fn settled_send_event(id: u8, delivered: bool) -> Option<Event> {
    if delivered {
        None
    } else {
        Some(Event::SessionClosed { id, reason: CloseReason::ReadError })
    }
}

/// The dispatcher's decision on one command: the registry afterwards, the
/// transport work asked of the shell, and the answering event, if it is
/// known already at decision time.
pub struct StepResult {
    pub action: Action,
    pub event: Option<Event>,
}

/// Apply one command to the registry, in arrival order.
///
/// An open for a live id fails fast with `AlreadyOpen` and does not touch
/// the existing entry; otherwise it asks the shell for the handshake. A
/// send for an unknown id fails with `UnknownSession` and changes nothing;
/// otherwise it asks the shell for the write. A close always answers
/// `RequestedByLocal`: for a live id it removes the entry and asks the
/// shell to release the transport, for an unknown id it is an idempotent
/// no-op acknowledgement.
pub fn dispatch(reg: &mut Registry, cmd: Message) -> (r: StepResult)
    requires
        old(reg).wf(),
    ensures
        final(reg).wf(),
        final(reg)@ == dispatch_table(old(reg)@, cmd),
        r.action == dispatch_action(old(reg)@, cmd),
        r.event == dispatch_event(old(reg)@, cmd),
{
    match cmd {
        Message::NewClient { id, ip } => {
            if reg.contains(id) {
                StepResult {
                    action: Action::Stay,
                    event: Some(Event::SessionFailed { id, reason: FailureReason::AlreadyOpen }),
                }
            } else {
                StepResult { action: Action::Connect { id, address: ip }, event: None }
            }
        },
        Message::Message { id, payload, num_bytes } => {
            match reg.lookup(id) {
                Some(transport) => {
                    StepResult { action: Action::Write { id, transport, payload }, event: None }
                },
                None => {
                    StepResult {
                        action: Action::Stay,
                        event: Some(
                            Event::SessionFailed { id, reason: FailureReason::UnknownSession },
                        ),
                    }
                },
            }
        },
        Message::Close { id } => {
            let removed = reg.remove(id);
            let action = match removed {
                Some(transport) => Action::Release { id, transport },
                None => Action::Stay,
            };
            StepResult {
                action,
                event: Some(Event::SessionClosed { id, reason: CloseReason::RequestedByLocal }),
            }
        },
    }
}

/// Record the outcome of the handshake that a `Connect` action asked for.
///
/// The id was free when the open was dispatched, and the dispatcher
/// finishes one command before taking the next, so it still is. On
/// success the new handle is registered and `SessionOpened` answers the
/// command; on failure the registry is untouched — a failed attempt never
/// registers the id — and `ConnectError` answers it.
pub fn settle_open(reg: &mut Registry, id: u8, outcome: Option<u64>) -> (ev: Event)
    requires
        old(reg).wf(),
        !old(reg)@.contains_key(id),
    ensures
        final(reg).wf(),
        final(reg)@ == settled_open_table(old(reg)@, id, outcome),
        ev == settled_open_event(id, outcome),
{
    match outcome {
        Some(transport) => {
            reg.insert(id, transport);
            Event::SessionOpened { id }
        },
        None => Event::SessionFailed { id, reason: FailureReason::ConnectError },
    }
}

/// Record the outcome of the frame write that a `Write` action asked for.
///
/// A delivered payload succeeds silently. A failed write is escalated to
/// a full teardown: the entry is removed and the consumer learns of it
/// through exactly one `SessionClosed { ReadError }` event.
pub fn settle_send(reg: &mut Registry, id: u8, delivered: bool) -> (ev: Option<Event>)
    requires
        old(reg).wf(),
        old(reg)@.contains_key(id),
    ensures
        final(reg).wf(),
        final(reg)@ == settled_send_table(old(reg)@, id, delivered),
        ev == settled_send_event(id, delivered),
{
    if delivered {
        None
    } else {
        reg.remove(id);
        Some(Event::SessionClosed { id, reason: CloseReason::ReadError })
    }
}

/// Why a session's reader stopped running.
pub enum ReaderEnd {
    /// The dispatcher signalled it to stop.
    Stopped,
    /// The remote end sent a transport-level close frame.
    RemoteClosed,
    /// A read failed.
    Failed,
}

/// The event a reader emits for one inbound frame: the payload verbatim,
/// the byte count of the raw frame data, tagged with the reader's own id.
pub fn reader_frame_event(id: u8, payload: String, num_bytes: usize) -> (ev: Event)
    ensures
        ev == (Event::MessageReceived { id, payload, num_bytes }),
        ev.session_id() == id,
{
    Event::MessageReceived { id, payload, num_bytes }
}

/// The one `SessionClosed` event a reader emits before exiting, whatever
/// ended it. The reader never touches the registry; if the dispatcher
/// already removed the entry, the emission is informational.
pub fn reader_close_event(id: u8, end: ReaderEnd) -> (ev: Event)
    ensures
        ev == (Event::SessionClosed {
            id,
            reason: match end {
                ReaderEnd::Stopped => CloseReason::RequestedByLocal,
                ReaderEnd::RemoteClosed => CloseReason::RemoteClosed,
                ReaderEnd::Failed => CloseReason::ReadError,
            },
        }),
        ev.session_id() == id,
{
    let reason = match end {
        ReaderEnd::Stopped => CloseReason::RequestedByLocal,
        ReaderEnd::RemoteClosed => CloseReason::RemoteClosed,
        ReaderEnd::Failed => CloseReason::ReadError,
    };
    Event::SessionClosed { id, reason }
}

/// The consumer learns the outcome of every command through exactly one
/// corresponding event. An open is answered at decision time exactly when
/// the id is already live, and otherwise by the one event of its settled
/// handshake; a close is always answered at decision time; a send is
/// answered at decision time exactly when the id is unknown, and an
/// attempted write is silent on delivery and answered by the one teardown
/// event on failure.
pub proof fn lemma_one_event_per_command(
    m: Map<u8, u64>,
    cmd: Message,
    settle_id: u8,
    outcome: Option<u64>,
    delivered: bool,
)
    ensures
        cmd matches Message::NewClient { id, .. } ==> (dispatch_event(m, cmd) is Some
            <==> m.contains_key(id)),
        cmd is NewClient ==> (dispatch_event(m, cmd) matches Some(ev) ==> (ev matches
            Event::SessionFailed { reason: FailureReason::AlreadyOpen, .. })),
        cmd matches Message::Close { id } ==> dispatch_event(m, cmd) == Some(
            Event::SessionClosed { id, reason: CloseReason::RequestedByLocal },
        ),
        cmd matches Message::Message { id, .. } ==> (dispatch_event(m, cmd) is Some
            <==> !m.contains_key(id)),
        settled_open_event(settle_id, outcome) is SessionOpened <==> outcome is Some,
        settled_send_event(settle_id, delivered) is Some <==> !delivered,
{
}

/// A send naming an id with no live session — one never opened, or one
/// already torn down — is answered by exactly one
/// `SessionFailed { UnknownSession }` event, asks no transport work, and
/// leaves the session table unchanged.
pub proof fn lemma_send_unknown_session(m: Map<u8, u64>, id: u8, payload: String, num_bytes: usize)
    requires
        !m.contains_key(id),
    ensures
        dispatch_table(m, Message::Message { id, payload, num_bytes }) == m,
        dispatch_action(m, Message::Message { id, payload, num_bytes }) is Stay,
        dispatch_event(m, Message::Message { id, payload, num_bytes }) == Some(
            Event::SessionFailed { id, reason: FailureReason::UnknownSession },
        ),
{
}

/// A failed handshake never registers its id: the table after the failure
/// is the table before it, the answer is `ConnectError`, and a later open
/// of the same id proceeds to the handshake as if the id had never been
/// named — and, should that handshake succeed, registers the id.
pub proof fn lemma_failed_open_leaves_id_free(
    m: Map<u8, u64>,
    id: u8,
    retry_address: String,
    t: u64,
)
    requires
        !m.contains_key(id),
    ensures
        settled_open_table(m, id, None) == m,
        settled_open_event(id, None) == (Event::SessionFailed {
            id,
            reason: FailureReason::ConnectError,
        }),
        dispatch_action(settled_open_table(m, id, None), Message::NewClient { id, ip: retry_address })
            == (Action::Connect { id, address: retry_address }),
        dispatch_event(settled_open_table(m, id, None), Message::NewClient { id, ip: retry_address })
            is None,
        settled_open_table(settled_open_table(m, id, None), id, Some(t)).contains_key(id),
{
}

/// Idempotent teardown: after a close of a live id, the entry is gone, so
/// a following send of that id is answered by `UnknownSession` and the
/// table is left unchanged — no dangling handle survives the close.
pub proof fn lemma_close_then_send(m: Map<u8, u64>, id: u8, payload: String, num_bytes: usize)
    ensures
        !dispatch_table(m, Message::Close { id }).contains_key(id),
        dispatch_event(m, Message::Close { id }) == Some(
            Event::SessionClosed { id, reason: CloseReason::RequestedByLocal },
        ),
        dispatch_event(
            dispatch_table(m, Message::Close { id }),
            Message::Message { id, payload, num_bytes },
        ) == Some(Event::SessionFailed { id, reason: FailureReason::UnknownSession }),
        dispatch_table(
            dispatch_table(m, Message::Close { id }),
            Message::Message { id, payload, num_bytes },
        ) == dispatch_table(m, Message::Close { id }),
{
}

/// Two opens with distinct ids are independent: each settling produces
/// its own `SessionOpened` event, each id ends up mapped to its own
/// transport, and the second open does not disturb the first entry. A
/// frame arriving on either session is tagged with that session's id
/// alone, by the contract of [`reader_frame_event`].
pub proof fn lemma_independent_opens(m: Map<u8, u64>, id1: u8, id2: u8, t1: u64, t2: u64)
    requires
        id1 != id2,
        !m.contains_key(id1),
        !m.contains_key(id2),
    ensures
        settled_open_event(id1, Some(t1)) == (Event::SessionOpened { id: id1 }),
        settled_open_event(id2, Some(t2)) == (Event::SessionOpened { id: id2 }),
        ({
            let after_both = settled_open_table(settled_open_table(m, id1, Some(t1)), id2, Some(t2));
            &&& after_both.contains_key(id1)
            &&& after_both[id1] == t1
            &&& after_both.contains_key(id2)
            &&& after_both[id2] == t2
        }),
{
}

} // verus!
