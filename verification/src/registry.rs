//! The dispatcher's table of live sessions.
//!
//! The registry has a single writer, the dispatcher, so it needs no lock;
//! its one invariant is that at most one live entry exists per session id.
//! Its mathematical model is a map from session id to the transport token
//! under which the unverified shell keeps the session's write half.

use vstd::prelude::*;

verus! {

/// The write-capable half of one open session, as the dispatcher sees it:
/// the session's id together with the token by which the shell that owns
/// the actual transport sinks finds this session's write half.
#[derive(Debug, Clone, Copy, PartialEq, Eq, Structural)]
pub struct SessionHandle {
    pub id: u8,
    pub transport: u64,
}

/// The registry entries folded into a map from session id to transport
/// token. Later entries win, but under the registry invariant the ids are
/// distinct, so every entry is visible in the map.
pub open spec fn table_of(s: Seq<SessionHandle>) -> Map<u8, u64>
    decreases s.len(),
{
    if s.len() == 0 {
        Map::empty()
    } else {
        table_of(s.drop_last()).insert(s.last().id, s.last().transport)
    }
}

/// No session id occurs twice.
pub open spec fn ids_unique(s: Seq<SessionHandle>) -> bool {
    forall|i: int, j: int| 0 <= i < j < s.len() ==> s[i].id != s[j].id
}

/// A key is in the folded table exactly when some entry carries it.
proof fn lemma_table_of_dom(s: Seq<SessionHandle>, k: u8)
    ensures
        table_of(s).contains_key(k) <==> exists|i: int| 0 <= i < s.len() && s[i].id == k,
    decreases s.len(),
{
    if s.len() > 0 {
        lemma_table_of_dom(s.drop_last(), k);
        if s.last().id == k {
            assert(s[s.len() - 1].id == k);
        } else if table_of(s).contains_key(k) {
            let i = choose|i: int| 0 <= i < s.drop_last().len() && s.drop_last()[i].id == k;
            assert(s[i].id == k);
        } else if exists|i: int| 0 <= i < s.len() && s[i].id == k {
            let i = choose|i: int| 0 <= i < s.len() && s[i].id == k;
            assert(s.drop_last()[i].id == k);
        }
    }
}

/// Under the registry invariant, the entry carrying a key decides the
/// table's value at that key.
proof fn lemma_table_of_index(s: Seq<SessionHandle>, i: int)
    requires
        ids_unique(s),
        0 <= i < s.len(),
    ensures
        table_of(s).contains_key(s[i].id),
        table_of(s)[s[i].id] == s[i].transport,
    decreases s.len(),
{
    if i == s.len() - 1 {
    } else {
        lemma_table_of_index(s.drop_last(), i);
        assert(s.drop_last()[i] == s[i]);
        assert(s.last().id != s[i].id);
    }
}

/// Removing the one entry that carries a key removes exactly that key
/// from the folded table.
proof fn lemma_table_of_remove(s: Seq<SessionHandle>, i: int)
    requires
        ids_unique(s),
        0 <= i < s.len(),
    ensures
        table_of(s.remove(i)) =~= table_of(s).remove(s[i].id),
    decreases s.len(),
{
    let k = s[i].id;
    if i == s.len() - 1 {
        assert(s.remove(i) =~= s.drop_last());
        assert(!table_of(s.drop_last()).contains_key(k)) by {
            lemma_table_of_dom(s.drop_last(), k);
        }
    } else {
        let t = s.remove(i);
        assert(t.drop_last() =~= s.drop_last().remove(i));
        assert(t.last() == s.last());
        assert(ids_unique(s.drop_last()));
        lemma_table_of_remove(s.drop_last(), i);
        assert(s.last().id != k);
    }
}

/// The dispatcher's table mapping each live session id to its handle.
/// Invariant: at most one live entry per id at any time.
pub struct Registry {
    entries: Vec<SessionHandle>,
}

impl View for Registry {
    type V = Map<u8, u64>;

    closed spec fn view(&self) -> Map<u8, u64> {
        table_of(self.entries@)
    }
}

impl Registry {
    /// The registry invariant: session ids are distinct.
    pub closed spec fn wf(&self) -> bool {
        ids_unique(self.entries@)
    }

    /// An empty registry: no session is live.
    pub fn new() -> (r: Registry)
        ensures
            r.wf(),
            r@ =~= Map::<u8, u64>::empty(),
    {
        Registry { entries: Vec::new() }
    }

    /// The transport token of the live session with this id, if any.
    pub fn lookup(&self, id: u8) -> (r: Option<u64>)
        requires
            self.wf(),
        ensures
            match r {
                Some(t) => self@.contains_key(id) && self@[id] == t,
                None => !self@.contains_key(id),
            },
    {
        let n = self.entries.len();
        let mut k: usize = 0;
        while k < n
            invariant
                self.wf(),
                n == self.entries@.len(),
                k <= n,
                forall|j: int| 0 <= j < k ==> self.entries@[j].id != id,
            decreases n - k,
        {
            if self.entries[k].id == id {
                proof {
                    lemma_table_of_index(self.entries@, k as int);
                }
                return Some(self.entries[k].transport);
            }
            k += 1;
        }
        proof {
            lemma_table_of_dom(self.entries@, id);
        }
        None
    }

    /// Whether a session with this id is live.
    pub fn contains(&self, id: u8) -> (b: bool)
        requires
            self.wf(),
        ensures
            b == self@.contains_key(id),
    {
        self.lookup(id).is_some()
    }

    /// Register a newly opened session. Only the dispatcher calls this,
    /// and only after a successful handshake for an id that was free.
    pub fn insert(&mut self, id: u8, transport: u64)
        requires
            old(self).wf(),
            !old(self)@.contains_key(id),
        ensures
            final(self).wf(),
            final(self)@ =~= old(self)@.insert(id, transport),
    {
        proof {
            lemma_table_of_dom(self.entries@, id);
        }
        let handle = SessionHandle { id, transport };
        self.entries.push(handle);
        proof {
            assert(self.entries@.drop_last() =~= old(self).entries@);
        }
    }

    /// Drop the live session with this id, handing back its transport
    /// token so the shell can release the write half. Removing an id that
    /// is not live changes nothing and returns `None`.
    pub fn remove(&mut self, id: u8) -> (r: Option<u64>)
        requires
            old(self).wf(),
        ensures
            final(self).wf(),
            final(self)@ =~= old(self)@.remove(id),
            match r {
                Some(t) => old(self)@.contains_key(id) && old(self)@[id] == t,
                None => !old(self)@.contains_key(id) && final(self)@ =~= old(self)@,
            },
    {
        let n = self.entries.len();
        let mut k: usize = 0;
        while k < n
            invariant
                self.wf(),
                self.entries@ == old(self).entries@,
                n == self.entries@.len(),
                k <= n,
                forall|j: int| 0 <= j < k ==> self.entries@[j].id != id,
            decreases n - k,
        {
            if self.entries[k].id == id {
                proof {
                    lemma_table_of_index(self.entries@, k as int);
                    lemma_table_of_remove(self.entries@, k as int);
                }
                let handle = self.entries.remove(k);
                proof {
                    assert(ids_unique(self.entries@)) by {
                        assert(forall|a: int, b: int|
                            0 <= a < b < self.entries@.len() ==> #[trigger] self.entries@[a].id
                                != #[trigger] self.entries@[b].id) by {
                            assert(forall|a: int|
                                0 <= a < self.entries@.len() ==> #[trigger] self.entries@[a]
                                    == if a < k { old(self).entries@[a] } else {
                                    old(self).entries@[a + 1]
                                });
                        }
                    }
                }
                return Some(handle.transport);
            }
            k += 1;
        }
        proof {
            lemma_table_of_dom(self.entries@, id);
            assert(self@ =~= self@.remove(id));
        }
        None
    }
}

} // verus!
