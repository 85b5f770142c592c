//! The two read-through caches in front of the durable store.
//!
//! Neither cache expires by time. A writer that changes the store signals
//! the cache, which marks it dirty; the next reader drops what the cache
//! holds before it looks, and refills it from the store. A read that misses
//! is in two halves, a lookup before the store is asked and a completion
//! after, and other readers and writers may come in between. So a lookup
//! that misses hands out a ticket, and the completion stores the store's
//! answer only while the ticket is fresh: while no signal has come since
//! the lookup. An answer that a signal has overtaken is returned to its
//! reader and kept out of the cache.
//!
//! Each cache is a sequential object. Whoever shares one among request
//! handlers makes each call a critical section of its own; no call here
//! asks the store, so no lock is held while the store is asked.

use crate::error::Error;
use crate::ids::VideoId;
use vstd::hash_map::StringHashMap;
use vstd::prelude::*;
use vstd::string::StringExecFns;

verus! {

/// The receipt of a lookup that missed: it tells the completion of the
/// read whether a signal has come in between.
#[derive(Clone, Copy, Debug, PartialEq, Eq, Structural)]
pub struct Ticket {
    /// How many signals had taken effect when the ticket was handed out.
    pub epoch: u64,
}

/// The count of signals after one more has taken effect. The count stops,
/// and with it all caching, at the largest number it can hold.
pub open spec fn bump(epoch: u64) -> u64 {
    if epoch < u64::MAX {
        (epoch + 1) as u64
    } else {
        epoch
    }
}

/// Whether a ticket of epoch `ticket` is fresh at epoch `epoch`: no signal
/// has taken effect since the ticket was handed out.
pub open spec fn fresh_at(epoch: u64, ticket: Ticket) -> bool {
    ticket.epoch == epoch && epoch < u64::MAX
}

/// The mathematical content of a [`CatalogCache`].
pub struct CatalogView {
    /// Whether a writer has signalled since the last look.
    pub dirty: bool,
    /// The identifiers last fetched, newest first; empty where nothing is
    /// held.
    pub snapshot: Seq<VideoId>,
    /// How many signals have taken effect.
    pub epoch: u64,
}

impl CatalogView {
    /// A cache that holds nothing and has never been signalled.
    pub open spec fn empty() -> CatalogView {
        CatalogView { dirty: false, snapshot: Seq::empty(), epoch: 0 }
    }

    /// The cache after a writer's signal. A signal to a cache that is dirty
    /// already changes nothing.
    pub open spec fn invalidated(self) -> CatalogView {
        if self.dirty {
            self
        } else {
            CatalogView { dirty: true, snapshot: self.snapshot, epoch: bump(self.epoch) }
        }
    }

    /// The cache after a reader has honoured a pending signal: a dirty
    /// cache is emptied and marked clean, a clean one stays as it is.
    pub open spec fn settled(self) -> CatalogView {
        if self.dirty {
            CatalogView { dirty: false, snapshot: Seq::empty(), epoch: self.epoch }
        } else {
            self
        }
    }

    /// Whether a reader is answered from the cache.
    pub open spec fn hit(self) -> bool {
        self.settled().snapshot.len() > 0
    }

    /// The ticket that a lookup hands out now.
    pub open spec fn ticket(self) -> Ticket {
        Ticket { epoch: self.epoch }
    }

    /// Whether no signal has taken effect since `ticket` was handed out.
    pub open spec fn fresh(self, ticket: Ticket) -> bool {
        fresh_at(self.epoch, ticket)
    }

    /// The cache after `rows` have been stored in it.
    pub open spec fn filled(self, rows: Seq<VideoId>) -> CatalogView {
        CatalogView { dirty: self.dirty, snapshot: rows, epoch: self.epoch }
    }

    /// The cache after the read of `ticket` has been completed with `rows`:
    /// the rows are stored if the ticket is fresh, and dropped if not.
    pub open spec fn completed(self, ticket: Ticket, rows: Seq<VideoId>) -> CatalogView {
        if self.fresh(ticket) {
            self.filled(rows)
        } else {
            self
        }
    }

    /// The cache after one undivided read against a store that lists
    /// `rows`.
    pub open spec fn after_read(self, rows: Seq<VideoId>) -> CatalogView {
        if self.hit() {
            self.settled()
        } else {
            self.settled().completed(self.ticket(), rows)
        }
    }

    /// What one undivided read against a store that lists `rows` returns.
    pub open spec fn read(self, rows: Seq<VideoId>) -> Seq<VideoId> {
        if self.hit() {
            self.settled().snapshot
        } else {
            rows
        }
    }

    /// The cache after a read whose store query failed, if it came to one.
    pub open spec fn after_failed_read(self) -> CatalogView {
        self.settled()
    }
}

/// The answer of the catalog cache to a lookup.
#[derive(Debug, PartialEq, Eq)]
pub enum CatalogLookup {
    /// The cache holds the catalog: here it is.
    Hit(Vec<VideoId>),
    /// The cache holds nothing: ask the store, and complete the read with
    /// this ticket.
    Miss(Ticket),
}

/// The cache of the catalog query: all video identifiers, newest first.
pub struct CatalogCache {
    dirty: bool,
    snapshot: Vec<VideoId>,
    epoch: u64,
}

impl View for CatalogCache {
    type V = CatalogView;

    closed spec fn view(&self) -> CatalogView {
        CatalogView { dirty: self.dirty, snapshot: self.snapshot@, epoch: self.epoch }
    }
}

fn copy_of(ids: &Vec<VideoId>) -> (copy: Vec<VideoId>)
    ensures
        copy@ == ids@,
{
    let mut copy: Vec<VideoId> = Vec::new();
    let mut i: usize = 0;
    while i < ids.len()
        invariant
            i <= ids.len(),
            copy@ == ids@.subrange(0, i as int),
        decreases ids.len() - i,
    {
        copy.push(ids[i]);
        i += 1;
        assert(copy@ =~= ids@.subrange(0, i as int));
    }
    assert(ids@.subrange(0, ids.len() as int) =~= ids@);
    copy
}

fn next_epoch(epoch: u64) -> (next: u64)
    ensures
        next == bump(epoch),
{
    if epoch < u64::MAX {
        epoch + 1
    } else {
        epoch
    }
}

impl CatalogCache {
    /// A cache that holds nothing.
    pub fn new() -> (cache: CatalogCache)
        ensures
            cache@ == CatalogView::empty(),
    {
        CatalogCache { dirty: false, snapshot: Vec::new(), epoch: 0 }
    }

    /// Signals that the catalog has changed. The store is not touched and
    /// the cache is not emptied: the next reader does that.
    pub fn invalidate(&mut self)
        ensures
            final(self)@ == old(self)@.invalidated(),
    {
        if !self.dirty {
            self.dirty = true;
            self.epoch = next_epoch(self.epoch);
        }
    }

    /// The first half of a read: honours a pending signal and answers from
    /// the cache if it holds anything. A miss asks the caller to query the
    /// store and to hand the outcome, with the ticket, to
    /// [`CatalogCache::complete`].
    pub fn lookup(&mut self) -> (held: CatalogLookup)
        ensures
            final(self)@ == old(self)@.settled(),
            old(self)@.hit() ==> (held matches CatalogLookup::Hit(rows) && rows@ == old(self)@.settled().snapshot),
            !old(self)@.hit() ==> held == CatalogLookup::Miss(old(self)@.ticket()),
    {
        if self.dirty {
            self.snapshot = Vec::new();
            self.dirty = false;
        }
        if self.snapshot.len() > 0 {
            CatalogLookup::Hit(copy_of(&self.snapshot))
        } else {
            CatalogLookup::Miss(Ticket { epoch: self.epoch })
        }
    }

    /// The second half of a read that missed: passes on what the store
    /// answered, and stores it if the ticket is fresh. A failed query is
    /// passed on as it is and leaves the cache alone, so that the next read
    /// asks again.
    pub fn complete(&mut self, ticket: Ticket, fetched: Result<Vec<VideoId>, Error>) -> (r: Result<
        Vec<VideoId>,
        Error,
    >)
        ensures
            fetched is Ok ==> r is Ok && r->Ok_0@ == fetched->Ok_0@,
            fetched is Ok ==> final(self)@ == old(self)@.completed(ticket, fetched->Ok_0@),
            fetched is Err ==> r is Err && r->Err_0 == fetched->Err_0,
            fetched is Err ==> final(self)@ == old(self)@,
    {
        match fetched {
            Ok(rows) => {
                if ticket.epoch == self.epoch && self.epoch < u64::MAX {
                    self.snapshot = copy_of(&rows);
                }
                Ok(rows)
            },
            Err(error) => Err(error),
        }
    }

    /// Reads the catalog through the cache in one go: answers from the
    /// cache where it holds anything after a pending signal has been
    /// honoured, and else asks `query` once, stores an answer and returns
    /// it. A failure of `query` is returned as it is.
    pub fn get_all_video_ids<F: FnOnce() -> Result<Vec<VideoId>, Error>>(
        &mut self,
        query: F,
    ) -> (r: Result<Vec<VideoId>, Error>)
        requires
            query.requires(()),
        ensures
            old(self)@.hit() ==> r is Ok && r->Ok_0@ == old(self)@.settled().snapshot,
            old(self)@.hit() ==> final(self)@ == old(self)@.settled(),
            !old(self)@.hit() ==> query.ensures((), r) && match r {
                Ok(rows) => final(self)@ == old(self)@.after_read(rows@),
                Err(_) => final(self)@ == old(self)@.after_failed_read(),
            },
    {
        match self.lookup() {
            CatalogLookup::Hit(held) => Ok(held),
            CatalogLookup::Miss(ticket) => {
                let fetched = query();
                match fetched {
                    Ok(rows) => {
                        if ticket.epoch == self.epoch && self.epoch < u64::MAX {
                            self.snapshot = copy_of(&rows);
                        }
                        Ok(rows)
                    },
                    Err(error) => Err(error),
                }
            },
        }
    }
}

/// The mathematical content of a [`SessionCache`].
pub struct SessionsView {
    /// Whether a writer has signalled since the last look.
    pub dirty: bool,
    /// The answers last fetched, by token.
    pub entries: Map<Seq<char>, bool>,
    /// How many signals have taken effect.
    pub epoch: u64,
}

impl SessionsView {
    /// A cache that holds nothing and has never been signalled.
    pub open spec fn empty() -> SessionsView {
        SessionsView { dirty: false, entries: Map::empty(), epoch: 0 }
    }

    /// The cache after a writer's signal. A signal to a cache that is dirty
    /// already changes nothing.
    pub open spec fn invalidated(self) -> SessionsView {
        if self.dirty {
            self
        } else {
            SessionsView { dirty: true, entries: self.entries, epoch: bump(self.epoch) }
        }
    }

    /// The cache after a reader has honoured a pending signal.
    pub open spec fn settled(self) -> SessionsView {
        if self.dirty {
            SessionsView { dirty: false, entries: Map::empty(), epoch: self.epoch }
        } else {
            self
        }
    }

    /// Whether a question about `token` is answered from the cache.
    pub open spec fn hit(self, token: Seq<char>) -> bool {
        self.settled().entries.contains_key(token)
    }

    /// The ticket that a lookup hands out now.
    pub open spec fn ticket(self) -> Ticket {
        Ticket { epoch: self.epoch }
    }

    /// Whether no signal has taken effect since `ticket` was handed out.
    pub open spec fn fresh(self, ticket: Ticket) -> bool {
        fresh_at(self.epoch, ticket)
    }

    /// The cache after the answer `valid` for `token` has been stored.
    pub open spec fn recorded(self, token: Seq<char>, valid: bool) -> SessionsView {
        SessionsView {
            dirty: self.dirty,
            entries: self.entries.insert(token, valid),
            epoch: self.epoch,
        }
    }

    /// The cache after the question of `ticket` about `token` has been
    /// completed with `valid`: the answer is stored if the ticket is fresh,
    /// and dropped if not.
    pub open spec fn completed(self, ticket: Ticket, token: Seq<char>, valid: bool) -> SessionsView {
        if self.fresh(ticket) {
            self.recorded(token, valid)
        } else {
            self
        }
    }

    /// The cache after one undivided question about `token` to which the
    /// store's answer is `stored`.
    pub open spec fn after_read(self, token: Seq<char>, stored: bool) -> SessionsView {
        if self.hit(token) {
            self.settled()
        } else {
            self.settled().completed(self.ticket(), token, stored)
        }
    }

    /// The answer to one undivided question about `token` where the
    /// store's answer is `stored`.
    pub open spec fn read(self, token: Seq<char>, stored: bool) -> bool {
        if self.hit(token) {
            self.settled().entries[token]
        } else {
            stored
        }
    }

    /// The cache after a question whose store query failed, if it came to
    /// one.
    pub open spec fn after_failed_read(self) -> SessionsView {
        self.settled()
    }
}

/// The answer of the session cache to a lookup.
#[derive(Clone, Copy, Debug, PartialEq, Eq, Structural)]
pub enum SessionLookup {
    /// The cache knows the token: this is whether it names a live session.
    Hit(bool),
    /// The cache does not know the token: ask the store, and complete the
    /// question with this ticket.
    Miss(Ticket),
}

/// The cache of the session query: whether a token names a live session.
pub struct SessionCache {
    dirty: bool,
    entries: StringHashMap<bool>,
    epoch: u64,
}

impl View for SessionCache {
    type V = SessionsView;

    closed spec fn view(&self) -> SessionsView {
        SessionsView { dirty: self.dirty, entries: self.entries@, epoch: self.epoch }
    }
}

impl SessionCache {
    /// A cache that holds nothing.
    pub fn new() -> (cache: SessionCache)
        ensures
            cache@ == SessionsView::empty(),
    {
        SessionCache { dirty: false, entries: StringHashMap::new(), epoch: 0 }
    }

    /// Signals that the sessions have changed. The store is not touched and
    /// the cache is not emptied: the next reader does that.
    pub fn invalidate(&mut self)
        ensures
            final(self)@ == old(self)@.invalidated(),
    {
        if !self.dirty {
            self.dirty = true;
            self.epoch = next_epoch(self.epoch);
        }
    }

    /// The first half of a question: honours a pending signal and answers
    /// from the cache if it knows the token. A miss asks the caller to query
    /// the store and to hand the outcome, with the ticket, to
    /// [`SessionCache::complete`].
    pub fn lookup(&mut self, token: &str) -> (held: SessionLookup)
        ensures
            final(self)@ == old(self)@.settled(),
            old(self)@.hit(token@) ==> held == SessionLookup::Hit(
                old(self)@.settled().entries[token@],
            ),
            !old(self)@.hit(token@) ==> held == SessionLookup::Miss(old(self)@.ticket()),
    {
        if self.dirty {
            self.entries.clear();
            self.dirty = false;
        }
        match self.entries.get(token) {
            Some(valid) => SessionLookup::Hit(*valid),
            None => SessionLookup::Miss(Ticket { epoch: self.epoch }),
        }
    }

    /// The second half of a question that missed: passes on what the store
    /// answered for `token`, and stores it if the ticket is fresh. A failed
    /// query is passed on as it is and leaves the cache alone.
    pub fn complete(&mut self, ticket: Ticket, token: &str, fetched: Result<bool, Error>) -> (r:
        Result<bool, Error>)
        ensures
            r == fetched,
            fetched is Ok ==> final(self)@ == old(self)@.completed(ticket, token@, fetched->Ok_0),
            fetched is Err ==> final(self)@ == old(self)@,
    {
        match fetched {
            Ok(valid) => {
                if ticket.epoch == self.epoch && self.epoch < u64::MAX {
                    self.entries.insert(String::from_str(token), valid);
                }
                Ok(valid)
            },
            Err(error) => Err(error),
        }
    }

    /// Answers whether `token` names a live session, through the cache and
    /// in one go: from the cache where it knows the token after a pending
    /// signal has been honoured, and else by asking `query` once and storing
    /// the answer. A failure of `query` is returned as it is.
    pub fn is_session_valid<F: FnOnce() -> Result<bool, Error>>(
        &mut self,
        token: &str,
        query: F,
    ) -> (r: Result<bool, Error>)
        requires
            query.requires(()),
        ensures
            old(self)@.hit(token@) ==> r == Ok::<bool, Error>(
                old(self)@.settled().entries[token@],
            ) && final(self)@ == old(self)@.settled(),
            !old(self)@.hit(token@) ==> query.ensures((), r) && match r {
                Ok(valid) => final(self)@ == old(self)@.after_read(token@, valid),
                Err(_) => final(self)@ == old(self)@.after_failed_read(),
            },
    {
        match self.lookup(token) {
            SessionLookup::Hit(valid) => Ok(valid),
            SessionLookup::Miss(ticket) => {
                let fetched = query();
                self.complete(ticket, token, fetched)
            },
        }
    }
}

} // verus!
