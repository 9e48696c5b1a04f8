//! The consumer-side application state: one window per configured
//! session, and the bookkeeping the presentation layer reads.
//!
//! Everything here is plain data plus the rules for updating it — which
//! window an inbound frame lands in, what a sent message does to the
//! counters, which windows a disconnect removes. The presentation layer
//! only renders this state and feeds commands back.

use vstd::prelude::*;

use vstd::utf8::encode_utf8;

use crate::address::{is_valid_websocket_ip, valid_ws_address};

verus! {

/// How a window sends messages.
#[derive(Debug, Clone, Copy, PartialEq, Eq, Structural)]
pub enum SendOptions {
    Periodically,
    Random,
    Manual,
    File,
}

/// The consumer's record of one session: its target address, the
/// transcript, and the byte counters.
#[derive(Debug, Clone, PartialEq)]
pub struct Connection {
    pub is_connected: bool,
    pub url: String,
    pub messages: Vec<String>,
    pub editing_message: String,
    pub send_bytes: usize,
    pub received_bytes: usize,
    pub send_interval: u32,
    pub job_running: bool,
}

/// A connection as just configured towards `url`: nothing sent, nothing
/// received, the default send interval.
pub open spec fn is_fresh_connection(c: Connection, url: String) -> bool {
    &&& c.is_connected == false
    &&& c.url == url
    &&& c.messages@.len() == 0
    &&& c.editing_message@.len() == 0
    &&& c.send_bytes == 0
    &&& c.received_bytes == 0
    &&& c.send_interval == 1000
    &&& c.job_running == false
}

/// A connection with every field empty or zero.
pub open spec fn is_default_connection(c: Connection) -> bool {
    &&& c.is_connected == false
    &&& c.url@.len() == 0
    &&& c.messages@.len() == 0
    &&& c.editing_message@.len() == 0
    &&& c.send_bytes == 0
    &&& c.received_bytes == 0
    &&& c.send_interval == 0
    &&& c.job_running == false
}

impl Connection {
    /// A connection just configured towards `url`.
    pub fn new(url: String) -> (c: Connection)
        ensures
            is_fresh_connection(c, url),
    {
        Connection {
            is_connected: false,
            url,
            messages: Vec::new(),
            editing_message: String::new(),
            send_bytes: 0,
            received_bytes: 0,
            send_interval: 1000,
            job_running: false,
        }
    }
}

impl Default for Connection {
    fn default() -> (c: Connection)
        ensures
            is_default_connection(c),
    {
        Connection {
            is_connected: false,
            url: String::new(),
            messages: Vec::new(),
            editing_message: String::new(),
            send_bytes: 0,
            received_bytes: 0,
            send_interval: 0,
            job_running: false,
        }
    }
}

/// One window of the consumer's surface: a session id, whether the window
/// is shown, and the session's record.
#[derive(Debug, Clone, PartialEq)]
pub struct ConnectionWindow {
    pub id: u8,
    pub is_open: bool,
    pub connection: Connection,
    pub send_option: SendOptions,
    pub editing_period: String,
}

/// A window as `ConnectionWindow::new` creates it.
pub open spec fn is_fresh_window(w: ConnectionWindow, id: u8, url: String) -> bool {
    &&& w.id == id
    &&& w.is_open
    &&& is_fresh_connection(w.connection, url)
    &&& w.send_option is Manual
    &&& w.editing_period@ == "1000"@
}

impl ConnectionWindow {
    /// A freshly opened window for a session towards `url`.
    pub fn new(id: u8, url: String) -> (w: ConnectionWindow)
        ensures
            is_fresh_window(w, id, url),
    {
        ConnectionWindow {
            id,
            is_open: true,
            connection: Connection::new(url),
            send_option: SendOptions::Manual,
            editing_period: "1000".to_owned(),
        }
    }
}

impl Default for ConnectionWindow {
    fn default() -> (w: ConnectionWindow)
        ensures
            w.id == 0,
            w.is_open,
            is_default_connection(w.connection),
            w.send_option is Manual,
            w.editing_period@ == "1000"@,
    {
        ConnectionWindow {
            id: 0,
            is_open: true,
            connection: Connection::default(),
            send_option: SendOptions::Manual,
            editing_period: "1000".to_owned(),
        }
    }
}

/// Some window carries this session id.
pub open spec fn has_window(s: Seq<ConnectionWindow>, id: u8) -> bool {
    exists|i: int| 0 <= i < s.len() && s[i].id == id
}

/// The first window carrying this session id — commands and frames land
/// in the first match, as the consumer's update rules walk the windows
/// front to back. Meaningful only when `has_window` holds.
pub open spec fn first_window_with(s: Seq<ConnectionWindow>, id: u8) -> int
    decreases s.len(),
{
    if s.len() == 0 {
        0
    } else if s[0].id == id {
        0
    } else {
        1 + first_window_with(s.drop_first(), id)
    }
}

proof fn lemma_first_window_with(s: Seq<ConnectionWindow>, id: u8, k: int)
    requires
        0 <= k < s.len(),
        s[k].id == id,
        forall|j: int| 0 <= j < k ==> s[j].id != id,
    ensures
        first_window_with(s, id) == k,
    decreases k,
{
    if k > 0 {
        assert(s[0].id != id);
        let rest = s.drop_first();
        assert(rest[k - 1] == s[k]);
        assert(forall|j: int| 0 <= j < k - 1 ==> rest[j] == s[j + 1] && s[j + 1].id != id);
        lemma_first_window_with(rest, id, k - 1);
    }
}

/// The new window keeps every field of the old one, except that the
/// payload is appended to the transcript and the received counter grows
/// by the frame's byte count.
pub open spec fn received_into(
    w0: ConnectionWindow,
    w1: ConnectionWindow,
    payload: String,
    num_bytes: usize,
) -> bool {
    &&& w1.id == w0.id
    &&& w1.is_open == w0.is_open
    &&& w1.send_option == w0.send_option
    &&& w1.editing_period == w0.editing_period
    &&& w1.connection.is_connected == w0.connection.is_connected
    &&& w1.connection.url == w0.connection.url
    &&& w1.connection.messages@ == w0.connection.messages@.push(payload)
    &&& w1.connection.editing_message == w0.connection.editing_message
    &&& w1.connection.send_bytes == w0.connection.send_bytes
    &&& w1.connection.received_bytes == w0.connection.received_bytes + num_bytes
    &&& w1.connection.send_interval == w0.connection.send_interval
    &&& w1.connection.job_running == w0.connection.job_running
}

/// The new window keeps every field of the old one, except that the
/// message is appended to the transcript, the draft being edited is
/// cleared, and the sent counter grows by the message's byte length.
pub open spec fn sent_into(w0: ConnectionWindow, w1: ConnectionWindow, msg: String) -> bool {
    &&& w1.id == w0.id
    &&& w1.is_open == w0.is_open
    &&& w1.send_option == w0.send_option
    &&& w1.editing_period == w0.editing_period
    &&& w1.connection.is_connected == w0.connection.is_connected
    &&& w1.connection.url == w0.connection.url
    &&& w1.connection.messages@ == w0.connection.messages@.push(msg)
    &&& w1.connection.editing_message@.len() == 0
    &&& w1.connection.send_bytes == w0.connection.send_bytes + encode_utf8(msg@).len()
    &&& w1.connection.received_bytes == w0.connection.received_bytes
    &&& w1.connection.send_interval == w0.connection.send_interval
    &&& w1.connection.job_running == w0.connection.job_running
}

/// Keep the windows whose id is not on the removal list.
pub open spec fn keep_pred(removed: Seq<u8>) -> spec_fn(ConnectionWindow) -> bool {
    |w: ConnectionWindow| !removed.contains(w.id)
}

/// Whether this id is on the list.
fn list_contains(list: &Vec<u8>, id: u8) -> (b: bool)
    ensures
        b == list@.contains(id),
{
    let n = list.len();
    let mut k: usize = 0;
    while k < n
        invariant
            n == list@.len(),
            k <= n,
            forall|j: int| 0 <= j < k ==> list@[j] != id,
        decreases n - k,
    {
        if list[k] == id {
            return true;
        }
        k += 1;
    }
    false
}

/// Everything the consumer's surface shows: the windows, the address
/// being typed, and which windows are marked for removal.
#[derive(Debug, Clone, PartialEq)]
pub struct AppState {
    pub connections: Vec<ConnectionWindow>,
    pub editing_ip: String,
    pub in_error: bool,
    pub windows_open: u8,
    pub windows_to_remove: Vec<u8>,
}

impl Default for AppState {
    fn default() -> (st: AppState)
        ensures
            st.connections@.len() == 0,
            st.editing_ip@.len() == 0,
            st.in_error == false,
            st.windows_open == 0,
            st.windows_to_remove@.len() == 0,
    {
        AppState {
            connections: Vec::new(),
            editing_ip: String::new(),
            in_error: false,
            windows_open: 0,
            windows_to_remove: Vec::new(),
        }
    }
}

impl AppState {
    /// Add a window for a new session towards `url`, under the next
    /// caller-assigned id, and hand that id back. Ids count upwards, so
    /// they are unique among the windows this state ever opened.
    pub fn insert_new_window(&mut self, url: String) -> (id: u8)
        requires
            old(self).windows_open < 255,
        ensures
            final(self).windows_open == old(self).windows_open + 1,
            id == final(self).windows_open,
            final(self).connections@.len() == old(self).connections@.len() + 1,
            final(self).connections@.drop_last() =~= old(self).connections@,
            is_fresh_window(final(self).connections@.last(), id, url),
            final(self).editing_ip == old(self).editing_ip,
            final(self).in_error == old(self).in_error,
            final(self).windows_to_remove == old(self).windows_to_remove,
    {
        self.windows_open += 1;
        let window = ConnectionWindow::new(self.windows_open, url);
        self.connections.push(window);
        proof {
            assert(self.connections@.drop_last() =~= old(self).connections@);
        }
        self.windows_open
    }

    /// Land one inbound frame in the first window of its session: append
    /// the payload to that window's transcript and grow its received
    /// counter by the frame's byte count. A frame for an id with no
    /// window changes nothing.
    pub fn apply_received(&mut self, id: u8, payload: String, num_bytes: usize)
        requires
            forall|i: int|
                0 <= i < old(self).connections@.len()
                    ==> old(self).connections@[i].connection.received_bytes + num_bytes
                    <= usize::MAX,
        ensures
            final(self).editing_ip == old(self).editing_ip,
            final(self).in_error == old(self).in_error,
            final(self).windows_open == old(self).windows_open,
            final(self).windows_to_remove == old(self).windows_to_remove,
            !has_window(old(self).connections@, id) ==> final(self).connections@
                == old(self).connections@,
            has_window(old(self).connections@, id) ==> ({
                let w = first_window_with(old(self).connections@, id);
                &&& final(self).connections@.len() == old(self).connections@.len()
                &&& forall|j: int|
                    0 <= j < old(self).connections@.len() && j != w ==> final(self).connections@[j] == old(self).connections@[j]
                &&& received_into(
                    old(self).connections@[w],
                    final(self).connections@[w],
                    payload,
                    num_bytes,
                )
            }),
    {
        let n = self.connections.len();
        let mut k: usize = 0;
        while k < n
            invariant
                self == old(self),
                n == self.connections@.len(),
                k <= n,
                forall|j: int| 0 <= j < k ==> self.connections@[j].id != id,
                forall|i: int|
                    0 <= i < self.connections@.len()
                        ==> self.connections@[i].connection.received_bytes + num_bytes
                        <= usize::MAX,
            decreases n - k,
        {
            if self.connections[k].id == id {
                proof {
                    lemma_first_window_with(self.connections@, id, k as int);
                }
                let mut w = self.connections.remove(k);
                w.connection.messages.push(payload);
                w.connection.received_bytes = w.connection.received_bytes + num_bytes;
                self.connections.insert(k, w);
                proof {
                    assert(self.connections@ =~= old(self).connections@.update(k as int, w));
                }
                return ;
            }
            k += 1;
        }
        proof {
            assert(!has_window(self.connections@, id));
        }
    }

    /// Record a message the consumer sent on a session: append it to the
    /// first matching window's transcript, clear that window's draft, and
    /// grow its sent counter by the message's byte length. A message for
    /// an id with no window changes nothing.
    pub fn record_sent(&mut self, id: u8, msg: String)
        requires
            forall|i: int|
                0 <= i < old(self).connections@.len()
                    ==> old(self).connections@[i].connection.send_bytes + encode_utf8(msg@).len()
                    <= usize::MAX,
        ensures
            final(self).editing_ip == old(self).editing_ip,
            final(self).in_error == old(self).in_error,
            final(self).windows_open == old(self).windows_open,
            final(self).windows_to_remove == old(self).windows_to_remove,
            !has_window(old(self).connections@, id) ==> final(self).connections@
                == old(self).connections@,
            has_window(old(self).connections@, id) ==> ({
                let w = first_window_with(old(self).connections@, id);
                &&& final(self).connections@.len() == old(self).connections@.len()
                &&& forall|j: int|
                    0 <= j < old(self).connections@.len() && j != w ==> final(self).connections@[j] == old(self).connections@[j]
                &&& sent_into(old(self).connections@[w], final(self).connections@[w], msg)
            }),
    {
        let n = self.connections.len();
        let mut k: usize = 0;
        while k < n
            invariant
                self == old(self),
                n == self.connections@.len(),
                k <= n,
                forall|j: int| 0 <= j < k ==> self.connections@[j].id != id,
                forall|i: int|
                    0 <= i < self.connections@.len()
                        ==> self.connections@[i].connection.send_bytes + encode_utf8(msg@).len()
                        <= usize::MAX,
            decreases n - k,
        {
            if self.connections[k].id == id {
                proof {
                    lemma_first_window_with(self.connections@, id, k as int);
                }
                let num_bytes = msg.as_str().as_bytes().len();
                let mut w = self.connections.remove(k);
                w.connection.messages.push(msg);
                w.connection.editing_message = String::new();
                w.connection.send_bytes = w.connection.send_bytes + num_bytes;
                self.connections.insert(k, w);
                proof {
                    assert(self.connections@ =~= old(self).connections@.update(k as int, w));
                }
                return ;
            }
            k += 1;
        }
        proof {
            assert(!has_window(self.connections@, id));
        }
    }

    /// Decide whether the address being typed should become a connection:
    /// validate it, record the outcome in the error flag, and create only
    /// for a valid, nonempty address.
    pub fn check_editing_address(&mut self) -> (create: bool)
        ensures
            final(self).in_error == !valid_ws_address(old(self).editing_ip@),
            create == (valid_ws_address(old(self).editing_ip@) && old(self).editing_ip@.len() > 0),
            final(self).connections == old(self).connections,
            final(self).editing_ip == old(self).editing_ip,
            final(self).windows_open == old(self).windows_open,
            final(self).windows_to_remove == old(self).windows_to_remove,
    {
        if is_valid_websocket_ip(self.editing_ip.as_str()) {
            self.in_error = false;
            !self.editing_ip.as_str().is_empty()
        } else {
            self.in_error = true;
            false
        }
    }

    /// Put a window's id on the removal list; the next prune drops it.
    pub fn mark_window_for_removal(&mut self, id: u8)
        ensures
            final(self).windows_to_remove@ == old(self).windows_to_remove@.push(id),
            final(self).connections == old(self).connections,
            final(self).editing_ip == old(self).editing_ip,
            final(self).in_error == old(self).in_error,
            final(self).windows_open == old(self).windows_open,
    {
        self.windows_to_remove.push(id);
    }

    /// Drop every window whose id is on the removal list, keeping the
    /// rest in order, and clear the list.
    pub fn prune_closed_windows(&mut self)
        ensures
            final(self).connections@ == old(self).connections@.filter(
                keep_pred(old(self).windows_to_remove@),
            ),
            final(self).windows_to_remove@ =~= Seq::<u8>::empty(),
            final(self).editing_ip == old(self).editing_ip,
            final(self).in_error == old(self).in_error,
            final(self).windows_open == old(self).windows_open,
    {
        let ghost orig = self.connections@;
        let ghost removed = self.windows_to_remove@;
        let mut pending: Vec<ConnectionWindow> = Vec::new();
        core::mem::swap(&mut pending, &mut self.connections);
        let mut kept: Vec<ConnectionWindow> = Vec::new();
        while pending.len() > 0
            invariant
                pending@.len() <= orig.len(),
                pending@ =~= orig.subrange(
                    orig.len() - pending@.len(),
                    orig.len() as int,
                ),
                kept@ == orig.subrange(0, orig.len() - pending@.len()).filter(
                    keep_pred(removed),
                ),
                self.windows_to_remove@ == removed,
            decreases pending@.len(),
        {
            let ghost done = orig.len() - pending@.len();
            let w = pending.remove(0);
            proof {
                assert(w == orig[done]);
                assert(pending@ =~= orig.subrange(done + 1, orig.len() as int));
                assert(orig.subrange(0, done + 1) =~= orig.subrange(0, done).push(w));
                orig.subrange(0, done).lemma_filter_push(w, keep_pred(removed));
            }
            if !list_contains(&self.windows_to_remove, w.id) {
                kept.push(w);
            }
        }
        proof {
            assert(orig.subrange(0, orig.len() as int) =~= orig);
        }
        self.connections = kept;
        self.windows_to_remove = Vec::new();
    }
}

} // verus!
