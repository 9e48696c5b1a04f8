//! Bounded, ordered mailboxes.
//!
//! The two mailboxes are the only way the consumer, the dispatcher and
//! the session readers communicate. A mailbox is a bounded FIFO queue: a
//! push into a full mailbox is refused and handed back, so the producer
//! suspends and retries — backpressure, never loss — and the consumer
//! drains from the front, so what one producer queued comes out in the
//! order it was queued.

use vstd::prelude::*;

use crate::session::Event;

verus! {

/// A bounded FIFO queue connecting producers to one consumer. Its model
/// is the sequence of queued items, front first, together with the
/// capacity it was created with.
pub struct Mailbox<T> {
    queue: Vec<T>,
    capacity: usize,
}

impl<T> View for Mailbox<T> {
    type V = Seq<T>;

    closed spec fn view(&self) -> Seq<T> {
        self.queue@
    }
}

impl<T> Mailbox<T> {
    /// The bound this mailbox was created with.
    pub closed spec fn cap(&self) -> nat {
        self.capacity as nat
    }

    /// The queue never holds more than its bound.
    pub closed spec fn wf(&self) -> bool {
        self.queue@.len() <= self.capacity
    }

    /// An empty mailbox with the given bound.
    pub fn new(capacity: usize) -> (m: Mailbox<T>)
        requires
            capacity >= 1,
        ensures
            m.wf(),
            m@ =~= Seq::<T>::empty(),
            m.cap() == capacity,
    {
        Mailbox { queue: Vec::new(), capacity }
    }

    /// How many items are queued.
    pub fn len(&self) -> (n: usize)
        ensures
            n == self@.len(),
    {
        self.queue.len()
    }

    /// Whether a push would be refused right now.
    pub fn is_full(&self) -> (b: bool)
        ensures
            b == (self@.len() >= self.cap()),
    {
        self.queue.len() >= self.capacity
    }

    /// Queue one item at the back. A full mailbox refuses and hands the
    /// item back unchanged — the producer suspends and retries; nothing
    /// already queued is dropped or reordered.
    pub fn try_push(&mut self, item: T) -> (refused: Option<T>)
        requires
            old(self).wf(),
        ensures
            final(self).wf(),
            final(self).cap() == old(self).cap(),
            if old(self)@.len() < old(self).cap() {
                refused is None && final(self)@ == old(self)@.push(item)
            } else {
                refused == Some(item) && final(self)@ == old(self)@
            },
    {
        if self.queue.len() < self.capacity {
            self.queue.push(item);
            None
        } else {
            Some(item)
        }
    }

    /// Take the item at the front, if any: items leave in the order they
    /// were accepted.
    pub fn try_pop(&mut self) -> (item: Option<T>)
        requires
            old(self).wf(),
        ensures
            final(self).wf(),
            final(self).cap() == old(self).cap(),
            match item {
                Some(front) => old(self)@.len() > 0 && front == old(self)@[0] && final(self)@
                    == old(self)@.drop_first(),
                None => old(self)@.len() == 0 && final(self)@ == old(self)@,
            },
    {
        if self.queue.len() > 0 {
            let front = self.queue.remove(0);
            proof {
                assert(self.queue@ =~= old(self).queue@.drop_first());
            }
            Some(front)
        } else {
            None
        }
    }
}

/// Attribution of an event to the producer that queued it: each session's
/// reader produces the events tagged with its id, and the dispatcher
/// produces the acknowledgements, likewise tagged with the id they
/// answer for.
pub open spec fn from_session(id: u8) -> spec_fn(Event) -> bool {
    |e: Event| e.session_id() == id
}

/// The subsequence of queued events attributed to one producer, in queue
/// order.
pub open spec fn events_for(s: Seq<Event>, id: u8) -> Seq<Event> {
    s.filter(from_session(id))
}

/// An accepted push extends its own producer's subsequence at the back
/// and leaves every other producer's subsequence untouched: the mailbox
/// never reorders the events of a given producer, and queuing for one
/// session cannot disturb what another session already queued.
pub proof fn lemma_push_keeps_producer_order(s: Seq<Event>, e: Event, id: u8)
    ensures
        events_for(s.push(e), id) == if e.session_id() == id {
            events_for(s, id).push(e)
        } else {
            events_for(s, id)
        },
{
    s.lemma_filter_push(e, from_session(id));
}

/// Backpressure loses nothing: a push into a full queue is refused with
/// the queue unchanged, one drain frees a slot, and the retried push is
/// then accepted — and what comes out, front first and then the drained
/// queue with the retry at its back, is exactly what an unbounded queue
/// would have delivered. Delivery is delayed, never dropped or reordered.
pub proof fn lemma_backpressure_only_delays<T>(s: Seq<T>, cap: nat, item: T)
    requires
        s.len() == cap,
        cap >= 1,
    ensures
        !(s.len() < cap),
        s.drop_first().len() < cap,
        seq![s[0]] + s.drop_first().push(item) =~= s.push(item),
{
}

/// Draining the front of the queue delivers each producer's subsequence
/// from its own front: after any number of pops, what a producer has had
/// delivered is a prefix of what it queued, in the original order.
pub proof fn lemma_pop_delivers_in_producer_order(s: Seq<Event>, id: u8)
    requires
        s.len() > 0,
    ensures
        events_for(s, id) == if s[0].session_id() == id {
            seq![s[0]] + events_for(s.drop_first(), id)
        } else {
            events_for(s.drop_first(), id)
        },
{
    assert(s =~= seq![s[0]] + s.drop_first());
    Seq::lemma_filter_prepend(s.drop_first(), s[0], from_session(id));
}

} // verus!
