//! What the caches guarantee over whole histories of writes, signals and
//! reads.
//!
//! A history is a sequence of operations on a store, the cache in front of
//! it, and the readers that are between the two halves of a read. The
//! store is the durable one seen through its query contract: for the
//! catalog, the identifiers it lists, newest first; for the sessions, the
//! set of tokens it knows. Every operation is one undivided step, and the
//! steps of different readers and writers may follow each other in any
//! order: a reader may look up, and be overtaken by a write and its signal
//! before it has asked the store or before it completes its read.
//!
//! Writers change the store and signal the cache in two separate
//! operations, so a history may hold a write that no signal follows: the
//! cache then may go on answering as before. What it may never do is
//! answer, after a signal, with what the store held before it.

use crate::cache::CatalogView;
use crate::cache::SessionsView;
use crate::cache::Ticket;
use crate::ids::VideoId;
use vstd::prelude::*;

verus! {

/// A reader of the catalog between lookup and completion.
pub struct CatalogReader {
    /// The ticket that the lookup handed out.
    pub ticket: Ticket,
    /// What the store listed when the reader asked it, once it has.
    pub rows: Option<Seq<VideoId>>,
}

/// One operation on the catalog, its cache and its readers.
pub enum CatalogOp {
    /// A writer changes the store so that it lists `rows`.
    Write { rows: Seq<VideoId> },
    /// A writer signals the cache.
    Invalidate,
    /// A reader looks up: it is answered from the cache, or gets a ticket
    /// and is from then on in flight.
    Lookup { reader: int },
    /// A reader in flight asks the store and is answered.
    Fetch { reader: int },
    /// A reader in flight that has the store's answer completes its read
    /// with it.
    Complete { reader: int },
    /// A reader in flight gives up: the store has failed it.
    GiveUp { reader: int },
}

/// The catalog as the store lists it, the cache in front of it, and the
/// readers in flight.
pub struct Catalog {
    pub store: Seq<VideoId>,
    pub cache: CatalogView,
    pub readers: Map<int, CatalogReader>,
}

impl Catalog {
    /// A store that lists `rows`, behind a new cache, with no reader in
    /// flight.
    pub open spec fn new(rows: Seq<VideoId>) -> Catalog {
        Catalog { store: rows, cache: CatalogView::empty(), readers: Map::empty() }
    }

    /// Whether the readers in flight can have got their tickets from this
    /// cache: no ticket is ahead of the cache, and none is fresh while the
    /// cache is dirty.
    pub open spec fn wf(self) -> bool {
        forall|reader: int| #[trigger]
            self.readers.contains_key(reader) ==> {
                &&& self.readers[reader].ticket.epoch <= self.cache.epoch
                &&& self.cache.dirty ==> !self.cache.fresh(self.readers[reader].ticket)
            }
    }

    /// The catalog, its cache and its readers after one operation.
    pub open spec fn apply(self, op: CatalogOp) -> Catalog {
        match op {
            CatalogOp::Write { rows } => Catalog {
                store: rows,
                cache: self.cache,
                readers: self.readers,
            },
            CatalogOp::Invalidate => Catalog {
                store: self.store,
                cache: self.cache.invalidated(),
                readers: self.readers,
            },
            CatalogOp::Lookup { reader } => Catalog {
                store: self.store,
                cache: self.cache.settled(),
                readers: if self.cache.hit() {
                    self.readers.remove(reader)
                } else {
                    self.readers.insert(
                        reader,
                        CatalogReader { ticket: self.cache.ticket(), rows: None },
                    )
                },
            },
            CatalogOp::Fetch { reader } => Catalog {
                store: self.store,
                cache: self.cache,
                readers: if self.readers.contains_key(reader) {
                    self.readers.insert(
                        reader,
                        CatalogReader {
                            ticket: self.readers[reader].ticket,
                            rows: Some(self.store),
                        },
                    )
                } else {
                    self.readers
                },
            },
            CatalogOp::Complete { reader } => if self.completes(reader) {
                Catalog {
                    store: self.store,
                    cache: self.cache.completed(
                        self.readers[reader].ticket,
                        self.readers[reader].rows->Some_0,
                    ),
                    readers: self.readers.remove(reader),
                }
            } else {
                self
            },
            CatalogOp::GiveUp { reader } => Catalog {
                store: self.store,
                cache: self.cache,
                readers: self.readers.remove(reader),
            },
        }
    }

    /// Whether `reader` is in flight and has the store's answer.
    pub open spec fn completes(self, reader: int) -> bool {
        self.readers.contains_key(reader) && self.readers[reader].rows is Some
    }

    /// What an operation returns to its reader: the catalog, from the cache
    /// at a lookup that hits and from the store at a completion, and
    /// nothing in all other cases.
    pub open spec fn answer(self, op: CatalogOp) -> Option<Seq<VideoId>> {
        match op {
            CatalogOp::Lookup { reader } => if self.cache.hit() {
                Some(self.cache.settled().snapshot)
            } else {
                None
            },
            CatalogOp::Complete { reader } => if self.completes(reader) {
                self.readers[reader].rows
            } else {
                None
            },
            _ => None,
        }
    }

    /// The catalog, its cache and its readers after a history.
    pub open spec fn run(self, ops: Seq<CatalogOp>) -> Catalog
        decreases ops.len(),
    {
        if ops.len() == 0 {
            self
        } else {
            self.run(ops.drop_last()).apply(ops.last())
        }
    }

    /// What the store lists after the first `k` operations of a history.
    pub open spec fn store_at(self, ops: Seq<CatalogOp>, k: int) -> Seq<VideoId> {
        self.run(ops.take(k)).store
    }

    /// What operation `k` of a history returns to its reader.
    pub open spec fn answer_at(self, ops: Seq<CatalogOp>, k: int) -> Option<Seq<VideoId>> {
        self.run(ops.take(k)).answer(ops[k])
    }

    /// Whether the store listed `rows` at some moment after operation
    /// `since` and not after the first `n` operations.
    pub open spec fn recent(self, ops: Seq<CatalogOp>, since: int, n: int, rows: Seq<VideoId>) -> bool {
        exists|k: int| since < k <= n && rows == #[trigger] self.store_at(ops, k)
    }

    /// After the first `n` operations, whatever the cache would answer
    /// with, and whatever a reader with a fresh ticket would store in it,
    /// was listed by the store at some moment after operation `since`.
    pub open spec fn fresh(self, ops: Seq<CatalogOp>, since: int, n: int) -> bool {
        let now = self.run(ops.take(n));
        &&& now.cache.hit() ==> self.recent(ops, since, n, now.cache.snapshot)
        &&& forall|reader: int| #[trigger]
            now.readers.contains_key(reader) && now.cache.fresh(now.readers[reader].ticket)
                && now.readers[reader].rows is Some ==> self.recent(
                ops,
                since,
                n,
                now.readers[reader].rows->Some_0,
            )
    }
}

/// Running a history that ends in `op` is running what precedes it and then
/// applying `op`.
pub proof fn lemma_catalog_next(catalog: Catalog, ops: Seq<CatalogOp>, n: int)
    requires
        0 <= n < ops.len(),
    ensures
        catalog.run(ops.take(n + 1)) == catalog.run(ops.take(n)).apply(ops[n]),
{
    assert(ops.take(n + 1).drop_last() =~= ops.take(n));
    assert(ops.take(n + 1).last() == ops[n]);
}

/// Running two histories one after the other is running their
/// concatenation.
pub proof fn lemma_catalog_concat(catalog: Catalog, first: Seq<CatalogOp>, second: Seq<CatalogOp>)
    ensures
        catalog.run(first + second) == catalog.run(first).run(second),
    decreases second.len(),
{
    if second.len() == 0 {
        assert(first + second =~= first);
    } else {
        lemma_catalog_concat(catalog, first, second.drop_last());
        assert((first + second).drop_last() =~= first + second.drop_last());
        assert((first + second).last() == second.last());
    }
}

/// No operation hands out a ticket that the cache could not have handed
/// out.
pub proof fn lemma_catalog_wf(catalog: Catalog, ops: Seq<CatalogOp>)
    requires
        catalog.wf(),
    ensures
        catalog.run(ops).wf(),
    decreases ops.len(),
{
    if ops.len() > 0 {
        lemma_catalog_wf(catalog, ops.drop_last());
    }
}

/// What was recent stays recent.
pub proof fn lemma_catalog_recent_later(
    catalog: Catalog,
    ops: Seq<CatalogOp>,
    since: int,
    n: int,
    rows: Seq<VideoId>,
)
    requires
        catalog.recent(ops, since, n, rows),
    ensures
        catalog.recent(ops, since, n + 1, rows),
{
    let k = choose|k: int| since < k <= n && rows == #[trigger] catalog.store_at(ops, k);
    assert(since < k <= n + 1 && rows == catalog.store_at(ops, k));
}

/// From a signal on, nothing older than the signal is in the cache or on
/// its way into it.
pub proof fn lemma_catalog_fresh(catalog: Catalog, ops: Seq<CatalogOp>, since: int, n: int)
    requires
        catalog.wf(),
        0 <= since < n <= ops.len(),
        ops[since] is Invalidate,
    ensures
        catalog.fresh(ops, since, n),
    decreases n,
{
    let before = catalog.run(ops.take(n - 1));
    let after = catalog.run(ops.take(n));
    lemma_catalog_next(catalog, ops, n - 1);
    lemma_catalog_wf(catalog, ops.take(n - 1));
    lemma_catalog_wf(catalog, ops.take(n));
    if n - 1 > since {
        lemma_catalog_fresh(catalog, ops, since, n - 1);
        if before.cache.hit() {
            lemma_catalog_recent_later(catalog, ops, since, n - 1, before.cache.snapshot);
        }
        assert forall|reader: int| #[trigger]
            before.readers.contains_key(reader) && before.cache.fresh(
                before.readers[reader].ticket,
            ) && before.readers[reader].rows is Some implies catalog.recent(
            ops,
            since,
            n,
            before.readers[reader].rows->Some_0,
        ) by {
            lemma_catalog_recent_later(
                catalog,
                ops,
                since,
                n - 1,
                before.readers[reader].rows->Some_0,
            );
        }
        assert(catalog.store_at(ops, n - 1) == before.store);
        assert(since < n - 1 <= n);
        assert(catalog.recent(ops, since, n, before.store));
    }
}

/// Cache coherence of the catalog. In any history, however the steps of
/// readers and writers follow each other, a lookup that comes after a
/// signal and is answered from the cache is answered with what the store
/// listed at some moment between that signal and the lookup: never with a
/// snapshot from before the signal.
pub proof fn theorem_catalog_coherence(
    catalog: Catalog,
    ops: Seq<CatalogOp>,
    signal: int,
    read: int,
)
    requires
        catalog.wf(),
        0 <= signal < read < ops.len(),
        ops[signal] is Invalidate,
        ops[read] is Lookup,
        catalog.answer_at(ops, read) is Some,
    ensures
        catalog.recent(ops, signal, read, catalog.answer_at(ops, read)->Some_0),
{
    lemma_catalog_fresh(catalog, ops, signal, read);
}

/// What goes into the cache after a signal is no older than the signal. A
/// completion that stores its rows, its ticket being fresh, stores what the
/// store listed at some moment between the signal and the completion.
pub proof fn theorem_catalog_fill(
    catalog: Catalog,
    ops: Seq<CatalogOp>,
    signal: int,
    fill: int,
    reader: int,
)
    requires
        catalog.wf(),
        0 <= signal < fill < ops.len(),
        ops[signal] is Invalidate,
        ops[fill] == (CatalogOp::Complete { reader }),
        catalog.run(ops.take(fill)).completes(reader),
        catalog.run(ops.take(fill)).cache.fresh(catalog.run(ops.take(fill)).readers[reader].ticket),
    ensures
        catalog.recent(ops, signal, fill, catalog.answer_at(ops, fill)->Some_0),
        catalog.run(ops.take(fill + 1)).cache.snapshot == catalog.answer_at(ops, fill)->Some_0,
{
    lemma_catalog_fresh(catalog, ops, signal, fill);
    lemma_catalog_next(catalog, ops, fill);
}

/// A read that a signal has overtaken stays out of the cache. A reader
/// that is in flight when a signal comes completes its read, whenever that
/// is, without a change to the cache.
pub proof fn theorem_catalog_overtaken(
    catalog: Catalog,
    ops: Seq<CatalogOp>,
    signal: int,
    late: int,
    reader: int,
)
    requires
        catalog.wf(),
        0 <= signal < late < ops.len(),
        ops[signal] is Invalidate,
        ops[late] == (CatalogOp::Complete { reader }),
        catalog.run(ops.take(signal)).readers.contains_key(reader),
        forall|k: int| signal < k < late ==> ops[k] != (CatalogOp::Lookup { reader }),
    ensures
        catalog.run(ops.take(late + 1)).cache == catalog.run(ops.take(late)).cache,
{
    lemma_catalog_stale(catalog, ops, signal, late, reader);
    lemma_catalog_next(catalog, ops, late);
}

/// A reader in flight at a signal has a stale ticket from then on, until
/// it looks up again.
pub proof fn lemma_catalog_stale(
    catalog: Catalog,
    ops: Seq<CatalogOp>,
    signal: int,
    n: int,
    reader: int,
)
    requires
        catalog.wf(),
        0 <= signal < n <= ops.len(),
        ops[signal] is Invalidate,
        catalog.run(ops.take(signal)).readers.contains_key(reader),
        forall|k: int| signal < k < n ==> ops[k] != (CatalogOp::Lookup { reader }),
    ensures
        ({
            let now = catalog.run(ops.take(n));
            now.readers.contains_key(reader) ==> {
                &&& !now.cache.fresh(now.readers[reader].ticket)
                &&& now.readers[reader].ticket.epoch <= now.cache.epoch
            }
        }),
    decreases n,
{
    lemma_catalog_next(catalog, ops, n - 1);
    lemma_catalog_wf(catalog, ops.take(n - 1));
    lemma_catalog_wf(catalog, ops.take(n));
    if n - 1 > signal {
        lemma_catalog_stale(catalog, ops, signal, n - 1, reader);
    }
}

/// The first lookup after a signal is not answered from the cache.
pub proof fn theorem_catalog_first_read(catalog: Catalog, ops: Seq<CatalogOp>, read: int)
    requires
        0 < read < ops.len(),
        ops[read - 1] is Invalidate,
        ops[read] is Lookup,
    ensures
        catalog.answer_at(ops, read) is None,
{
    lemma_catalog_next(catalog, ops, read - 1);
}

/// An undivided read right after a signal returns what the store lists.
pub proof fn theorem_catalog_undivided_read(
    catalog: Catalog,
    ops: Seq<CatalogOp>,
    read: int,
    reader: int,
)
    requires
        0 < read,
        read + 2 < ops.len(),
        ops[read - 1] is Invalidate,
        ops[read] == (CatalogOp::Lookup { reader }),
        ops[read + 1] == (CatalogOp::Fetch { reader }),
        ops[read + 2] == (CatalogOp::Complete { reader }),
    ensures
        catalog.answer_at(ops, read + 2) == Some(catalog.store_at(ops, read + 1)),
{
    lemma_catalog_next(catalog, ops, read - 1);
    lemma_catalog_next(catalog, ops, read);
    lemma_catalog_next(catalog, ops, read + 1);
}

/// Idempotent invalidation, on the cache: a second signal changes nothing.
pub proof fn theorem_catalog_invalidate_twice(cache: CatalogView)
    ensures
        cache.invalidated().invalidated() == cache.invalidated(),
{
}

/// Idempotent invalidation, in a history: two signals in a row leave the
/// catalog, its cache and its readers, and so everything that follows, as
/// one signal does.
pub proof fn theorem_catalog_repeated_signal(
    catalog: Catalog,
    before: Seq<CatalogOp>,
    after: Seq<CatalogOp>,
)
    ensures
        catalog.run(before + seq![CatalogOp::Invalidate, CatalogOp::Invalidate] + after)
            == catalog.run(before + seq![CatalogOp::Invalidate] + after),
{
    let once = seq![CatalogOp::Invalidate];
    let twice = seq![CatalogOp::Invalidate, CatalogOp::Invalidate];
    let reached = catalog.run(before);
    lemma_catalog_concat(catalog, before + twice, after);
    lemma_catalog_concat(catalog, before + once, after);
    lemma_catalog_concat(catalog, before, twice);
    lemma_catalog_concat(catalog, before, once);
    assert(once.drop_last() =~= Seq::<CatalogOp>::empty());
    assert(reached.run(once.drop_last()) == reached);
    assert(twice.drop_last() =~= once);
    assert(reached.run(once) == reached.apply(CatalogOp::Invalidate));
    assert(reached.run(twice) == reached.run(once).apply(CatalogOp::Invalidate));
}

/// A reader of the sessions between lookup and completion.
pub struct SessionReader {
    /// The ticket that the lookup handed out.
    pub ticket: Ticket,
    /// The token that the reader asks about.
    pub token: Seq<char>,
    /// Whether the store knew the token when the reader asked it, once it
    /// has.
    pub valid: Option<bool>,
}

/// One operation on the sessions, their cache and their readers.
pub enum SessionOp {
    /// A login creates a session under `token` in the store.
    Create { token: Seq<char> },
    /// An administrator clears all sessions in the store.
    Clear,
    /// A writer signals the cache.
    Invalidate,
    /// A reader looks up `token`: it is answered from the cache, or gets a
    /// ticket and is from then on in flight.
    Lookup { reader: int, token: Seq<char> },
    /// A reader in flight asks the store and is answered.
    Fetch { reader: int },
    /// A reader in flight that has the store's answer completes its
    /// question with it.
    Complete { reader: int },
    /// A reader in flight gives up: the store has failed it.
    GiveUp { reader: int },
}

/// The tokens that the store knows, the cache in front of it, and the
/// readers in flight.
pub struct Sessions {
    pub store: Set<Seq<char>>,
    pub cache: SessionsView,
    pub readers: Map<int, SessionReader>,
}

impl Sessions {
    /// A store that knows `tokens`, behind a new cache, with no reader in
    /// flight.
    pub open spec fn new(tokens: Set<Seq<char>>) -> Sessions {
        Sessions { store: tokens, cache: SessionsView::empty(), readers: Map::empty() }
    }

    /// Whether the readers in flight can have got their tickets from this
    /// cache: no ticket is ahead of the cache, and none is fresh while the
    /// cache is dirty.
    pub open spec fn wf(self) -> bool {
        forall|reader: int| #[trigger]
            self.readers.contains_key(reader) ==> {
                &&& self.readers[reader].ticket.epoch <= self.cache.epoch
                &&& self.cache.dirty ==> !self.cache.fresh(self.readers[reader].ticket)
            }
    }

    /// Whether `reader` is in flight and has the store's answer.
    pub open spec fn completes(self, reader: int) -> bool {
        self.readers.contains_key(reader) && self.readers[reader].valid is Some
    }

    /// The sessions, their cache and their readers after one operation.
    pub open spec fn apply(self, op: SessionOp) -> Sessions {
        match op {
            SessionOp::Create { token } => Sessions {
                store: self.store.insert(token),
                cache: self.cache,
                readers: self.readers,
            },
            SessionOp::Clear => Sessions {
                store: Set::empty(),
                cache: self.cache,
                readers: self.readers,
            },
            SessionOp::Invalidate => Sessions {
                store: self.store,
                cache: self.cache.invalidated(),
                readers: self.readers,
            },
            SessionOp::Lookup { reader, token } => Sessions {
                store: self.store,
                cache: self.cache.settled(),
                readers: if self.cache.hit(token) {
                    self.readers.remove(reader)
                } else {
                    self.readers.insert(
                        reader,
                        SessionReader { ticket: self.cache.ticket(), token, valid: None },
                    )
                },
            },
            SessionOp::Fetch { reader } => Sessions {
                store: self.store,
                cache: self.cache,
                readers: if self.readers.contains_key(reader) {
                    self.readers.insert(
                        reader,
                        SessionReader {
                            ticket: self.readers[reader].ticket,
                            token: self.readers[reader].token,
                            valid: Some(self.store.contains(self.readers[reader].token)),
                        },
                    )
                } else {
                    self.readers
                },
            },
            SessionOp::Complete { reader } => if self.completes(reader) {
                Sessions {
                    store: self.store,
                    cache: self.cache.completed(
                        self.readers[reader].ticket,
                        self.readers[reader].token,
                        self.readers[reader].valid->Some_0,
                    ),
                    readers: self.readers.remove(reader),
                }
            } else {
                self
            },
            SessionOp::GiveUp { reader } => Sessions {
                store: self.store,
                cache: self.cache,
                readers: self.readers.remove(reader),
            },
        }
    }

    /// What an operation returns to its reader: whether the token names a
    /// live session, from the cache at a lookup that hits and from the
    /// store at a completion, and nothing in all other cases.
    pub open spec fn answer(self, op: SessionOp) -> Option<bool> {
        match op {
            SessionOp::Lookup { reader, token } => if self.cache.hit(token) {
                Some(self.cache.settled().entries[token])
            } else {
                None
            },
            SessionOp::Complete { reader } => if self.completes(reader) {
                self.readers[reader].valid
            } else {
                None
            },
            _ => None,
        }
    }

    /// The sessions, their cache and their readers after a history.
    pub open spec fn run(self, ops: Seq<SessionOp>) -> Sessions
        decreases ops.len(),
    {
        if ops.len() == 0 {
            self
        } else {
            self.run(ops.drop_last()).apply(ops.last())
        }
    }

    /// Whether the store knows `token` after the first `k` operations of a
    /// history.
    pub open spec fn stored_at(self, ops: Seq<SessionOp>, k: int, token: Seq<char>) -> bool {
        self.run(ops.take(k)).store.contains(token)
    }

    /// What operation `k` of a history returns to its reader.
    pub open spec fn answer_at(self, ops: Seq<SessionOp>, k: int) -> Option<bool> {
        self.run(ops.take(k)).answer(ops[k])
    }

    /// Whether `valid` was the store's answer about `token` at some moment
    /// after operation `since` and not after the first `n` operations.
    pub open spec fn recent(
        self,
        ops: Seq<SessionOp>,
        since: int,
        n: int,
        token: Seq<char>,
        valid: bool,
    ) -> bool {
        exists|k: int| since < k <= n && valid == #[trigger] self.stored_at(ops, k, token)
    }

    /// After the first `n` operations, whatever the cache would answer,
    /// and whatever a reader with a fresh ticket would store in it, was the
    /// store's answer at some moment after operation `since`.
    pub open spec fn fresh(self, ops: Seq<SessionOp>, since: int, n: int) -> bool {
        let now = self.run(ops.take(n));
        &&& forall|token: Seq<char>| #[trigger]
            now.cache.hit(token) ==> self.recent(ops, since, n, token, now.cache.entries[token])
        &&& forall|reader: int| #[trigger]
            now.readers.contains_key(reader) && now.cache.fresh(now.readers[reader].ticket)
                && now.readers[reader].valid is Some ==> self.recent(
                ops,
                since,
                n,
                now.readers[reader].token,
                now.readers[reader].valid->Some_0,
            )
    }
}

/// Running a history that ends in `op` is running what precedes it and then
/// applying `op`.
pub proof fn lemma_sessions_next(sessions: Sessions, ops: Seq<SessionOp>, n: int)
    requires
        0 <= n < ops.len(),
    ensures
        sessions.run(ops.take(n + 1)) == sessions.run(ops.take(n)).apply(ops[n]),
{
    assert(ops.take(n + 1).drop_last() =~= ops.take(n));
    assert(ops.take(n + 1).last() == ops[n]);
}

/// Running two histories one after the other is running their
/// concatenation.
pub proof fn lemma_sessions_concat(sessions: Sessions, first: Seq<SessionOp>, second: Seq<SessionOp>)
    ensures
        sessions.run(first + second) == sessions.run(first).run(second),
    decreases second.len(),
{
    if second.len() == 0 {
        assert(first + second =~= first);
    } else {
        lemma_sessions_concat(sessions, first, second.drop_last());
        assert((first + second).drop_last() =~= first + second.drop_last());
        assert((first + second).last() == second.last());
    }
}

/// No operation hands out a ticket that the cache could not have handed
/// out.
pub proof fn lemma_sessions_wf(sessions: Sessions, ops: Seq<SessionOp>)
    requires
        sessions.wf(),
    ensures
        sessions.run(ops).wf(),
    decreases ops.len(),
{
    if ops.len() > 0 {
        lemma_sessions_wf(sessions, ops.drop_last());
    }
}

/// What was recent stays recent.
pub proof fn lemma_sessions_recent_later(
    sessions: Sessions,
    ops: Seq<SessionOp>,
    since: int,
    n: int,
    token: Seq<char>,
    valid: bool,
)
    requires
        sessions.recent(ops, since, n, token, valid),
    ensures
        sessions.recent(ops, since, n + 1, token, valid),
{
    let k = choose|k: int| since < k <= n && valid == #[trigger] sessions.stored_at(ops, k, token);
    assert(since < k <= n + 1 && valid == sessions.stored_at(ops, k, token));
}

/// From a signal on, nothing older than the signal is in the cache or on
/// its way into it.
pub proof fn lemma_sessions_fresh(sessions: Sessions, ops: Seq<SessionOp>, since: int, n: int)
    requires
        sessions.wf(),
        0 <= since < n <= ops.len(),
        ops[since] is Invalidate,
    ensures
        sessions.fresh(ops, since, n),
    decreases n,
{
    let before = sessions.run(ops.take(n - 1));
    let after = sessions.run(ops.take(n));
    lemma_sessions_next(sessions, ops, n - 1);
    lemma_sessions_wf(sessions, ops.take(n - 1));
    lemma_sessions_wf(sessions, ops.take(n));
    if n - 1 > since {
        lemma_sessions_fresh(sessions, ops, since, n - 1);
        assert forall|token: Seq<char>| #[trigger] before.cache.hit(token) implies sessions.recent(
            ops,
            since,
            n,
            token,
            before.cache.entries[token],
        ) by {
            lemma_sessions_recent_later(
                sessions,
                ops,
                since,
                n - 1,
                token,
                before.cache.entries[token],
            );
        }
        assert forall|reader: int| #[trigger]
            before.readers.contains_key(reader) && before.cache.fresh(
                before.readers[reader].ticket,
            ) && before.readers[reader].valid is Some implies sessions.recent(
            ops,
            since,
            n,
            before.readers[reader].token,
            before.readers[reader].valid->Some_0,
        ) by {
            lemma_sessions_recent_later(
                sessions,
                ops,
                since,
                n - 1,
                before.readers[reader].token,
                before.readers[reader].valid->Some_0,
            );
        }
        assert forall|token: Seq<char>|
            sessions.recent(ops, since, n, token, #[trigger] before.store.contains(token)) by {
            assert(sessions.stored_at(ops, n - 1, token) == before.store.contains(token));
            assert(since < n - 1 <= n);
        }
        assert forall|token: Seq<char>| #[trigger] after.cache.hit(token) implies sessions.recent(
            ops,
            since,
            n,
            token,
            after.cache.entries[token],
        ) by {
            if before.cache.hit(token) && after.cache.entries[token] == before.cache.entries[token] {
            } else {
                let reader = ops[n - 1]->Complete_reader;
                assert(ops[n - 1] is Complete);
                assert(before.readers.contains_key(reader));
                assert(token == before.readers[reader].token);
            }
        }
        assert forall|reader: int| #[trigger]
            after.readers.contains_key(reader) && after.cache.fresh(after.readers[reader].ticket)
                && after.readers[reader].valid is Some implies sessions.recent(
            ops,
            since,
            n,
            after.readers[reader].token,
            after.readers[reader].valid->Some_0,
        ) by {
            if before.readers.contains_key(reader) && before.readers[reader]
                == after.readers[reader] {
                assert(before.cache.fresh(before.readers[reader].ticket));
            } else {
                assert(ops[n - 1] is Fetch);
                assert(before.readers.contains_key(reader));
                assert(after.readers[reader].valid == Some(
                    before.store.contains(after.readers[reader].token),
                ));
            }
        }
    } else {
        assert(after.cache.dirty);
        assert forall|reader: int| #[trigger] after.readers.contains_key(reader) implies !after.cache.fresh(
            after.readers[reader].ticket,
        ) by {}
    }
}

/// Cache coherence of the sessions. In any history, however the steps of
/// readers and writers follow each other, a lookup that comes after a
/// signal and is answered from the cache is answered with what the store
/// would have answered at some moment between that signal and the lookup:
/// never with an answer recorded before the signal.
pub proof fn theorem_sessions_coherence(
    sessions: Sessions,
    ops: Seq<SessionOp>,
    signal: int,
    read: int,
    reader: int,
    token: Seq<char>,
)
    requires
        sessions.wf(),
        0 <= signal < read < ops.len(),
        ops[signal] is Invalidate,
        ops[read] == (SessionOp::Lookup { reader, token }),
        sessions.answer_at(ops, read) is Some,
    ensures
        sessions.recent(ops, signal, read, token, sessions.answer_at(ops, read)->Some_0),
{
    lemma_sessions_fresh(sessions, ops, signal, read);
    assert(sessions.run(ops.take(read)).cache.hit(token));
}

/// What goes into the cache after a signal is no older than the signal. A
/// completion that stores its answer, its ticket being fresh, stores what
/// the store would have answered at some moment between the signal and the
/// completion.
pub proof fn theorem_sessions_fill(
    sessions: Sessions,
    ops: Seq<SessionOp>,
    signal: int,
    fill: int,
    reader: int,
)
    requires
        sessions.wf(),
        0 <= signal < fill < ops.len(),
        ops[signal] is Invalidate,
        ops[fill] == (SessionOp::Complete { reader }),
        sessions.run(ops.take(fill)).completes(reader),
        sessions.run(ops.take(fill)).cache.fresh(
            sessions.run(ops.take(fill)).readers[reader].ticket,
        ),
    ensures
        sessions.recent(
            ops,
            signal,
            fill,
            sessions.run(ops.take(fill)).readers[reader].token,
            sessions.answer_at(ops, fill)->Some_0,
        ),
{
    lemma_sessions_fresh(sessions, ops, signal, fill);
}

/// A reader in flight at a signal has a stale ticket from then on, until
/// it looks up again.
pub proof fn lemma_sessions_stale(
    sessions: Sessions,
    ops: Seq<SessionOp>,
    signal: int,
    n: int,
    reader: int,
)
    requires
        sessions.wf(),
        0 <= signal < n <= ops.len(),
        ops[signal] is Invalidate,
        sessions.run(ops.take(signal)).readers.contains_key(reader),
        forall|k: int| signal < k < n ==> !(#[trigger] ops[k] matches SessionOp::Lookup {
            reader: other,
            token,
        } && other == reader),
    ensures
        ({
            let now = sessions.run(ops.take(n));
            now.readers.contains_key(reader) ==> {
                &&& !now.cache.fresh(now.readers[reader].ticket)
                &&& now.readers[reader].ticket.epoch <= now.cache.epoch
            }
        }),
    decreases n,
{
    lemma_sessions_next(sessions, ops, n - 1);
    lemma_sessions_wf(sessions, ops.take(n - 1));
    lemma_sessions_wf(sessions, ops.take(n));
    if n - 1 > signal {
        lemma_sessions_stale(sessions, ops, signal, n - 1, reader);
    }
}

/// An answer that a signal has overtaken stays out of the cache. A reader
/// that is in flight when a signal comes completes its question, whenever
/// that is, without a change to the cache.
pub proof fn theorem_sessions_overtaken(
    sessions: Sessions,
    ops: Seq<SessionOp>,
    signal: int,
    late: int,
    reader: int,
)
    requires
        sessions.wf(),
        0 <= signal < late < ops.len(),
        ops[signal] is Invalidate,
        ops[late] == (SessionOp::Complete { reader }),
        sessions.run(ops.take(signal)).readers.contains_key(reader),
        forall|k: int| signal < k < late ==> !(#[trigger] ops[k] matches SessionOp::Lookup {
            reader: other,
            token,
        } && other == reader),
    ensures
        sessions.run(ops.take(late + 1)).cache == sessions.run(ops.take(late)).cache,
{
    lemma_sessions_stale(sessions, ops, signal, late, reader);
    lemma_sessions_next(sessions, ops, late);
}

/// The first lookup after a signal is not answered from the cache.
pub proof fn theorem_sessions_first_answer(sessions: Sessions, ops: Seq<SessionOp>, read: int)
    requires
        0 < read < ops.len(),
        ops[read - 1] is Invalidate,
        ops[read] is Lookup,
    ensures
        sessions.answer_at(ops, read) is None,
{
    lemma_sessions_next(sessions, ops, read - 1);
}

/// An undivided question right after a signal is answered as the store
/// answers.
pub proof fn theorem_sessions_undivided_read(
    sessions: Sessions,
    ops: Seq<SessionOp>,
    read: int,
    reader: int,
    token: Seq<char>,
)
    requires
        0 < read,
        read + 2 < ops.len(),
        ops[read - 1] is Invalidate,
        ops[read] == (SessionOp::Lookup { reader, token }),
        ops[read + 1] == (SessionOp::Fetch { reader }),
        ops[read + 2] == (SessionOp::Complete { reader }),
    ensures
        sessions.answer_at(ops, read + 2) == Some(sessions.stored_at(ops, read + 1, token)),
{
    lemma_sessions_next(sessions, ops, read - 1);
    lemma_sessions_next(sessions, ops, read);
    lemma_sessions_next(sessions, ops, read + 1);
}

/// Idempotent invalidation, on the cache: a second signal changes nothing.
pub proof fn theorem_sessions_invalidate_twice(cache: SessionsView)
    ensures
        cache.invalidated().invalidated() == cache.invalidated(),
{
}

/// Idempotent invalidation, in a history: two signals in a row leave the
/// sessions, their cache and their readers, and so everything that
/// follows, as one signal does.
pub proof fn theorem_sessions_repeated_signal(
    sessions: Sessions,
    before: Seq<SessionOp>,
    after: Seq<SessionOp>,
)
    ensures
        sessions.run(before + seq![SessionOp::Invalidate, SessionOp::Invalidate] + after)
            == sessions.run(before + seq![SessionOp::Invalidate] + after),
{
    let once = seq![SessionOp::Invalidate];
    let twice = seq![SessionOp::Invalidate, SessionOp::Invalidate];
    let reached = sessions.run(before);
    lemma_sessions_concat(sessions, before + twice, after);
    lemma_sessions_concat(sessions, before + once, after);
    lemma_sessions_concat(sessions, before, twice);
    lemma_sessions_concat(sessions, before, once);
    assert(once.drop_last() =~= Seq::<SessionOp>::empty());
    assert(reached.run(once.drop_last()) == reached);
    assert(twice.drop_last() =~= once);
    assert(reached.run(once) == reached.apply(SessionOp::Invalidate));
    assert(reached.run(twice) == reached.run(once).apply(SessionOp::Invalidate));
}

} // verus!
