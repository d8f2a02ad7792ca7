//! Cursor-based incremental iteration over paginated enumeration commands.
//!
//! [`RedisScanStream`] is the state machine of one scan: it decides, page by
//! page and item by item, what to emit next and where the connection handle
//! lives. The network round trips themselves happen outside: the caller
//! issues the [`Command`] this machine hands out, decodes the reply into a
//! cursor and a page of items, and feeds both back through [`RedisScanStream::on_page`].
//!
//! The connection handle is a linear resource. At any time it is owned by
//! exactly one of: the in-flight request (the caller's side, while
//! `pending()` holds), the machine's holding slot between the last page and
//! the last item, or the caller, to whom it is returned exactly once — with
//! the last item, or with the terminal "no item" signal of an empty scan.
//!
//! [`RedisScanAll`] drains such a stream to completion, collecting every
//! item in emission order.

use vstd::prelude::*;

use vstd::multiset::Multiset;

use crate::commands::{Command, ScanFactory};

verus! {

/// One step of a scan stream, as seen by its consumer.
///
/// The connection comes back exactly once, in `LastItem` (together with the
/// final item) or in `Finished` (the terminal "no item" signal, when the
/// last page left nothing to deliver).
pub enum ScanStep<C, T> {
    /// One item; more output is still owed.
    Item(T),
    /// The final item, together with the recovered connection.
    LastItem(C, T),
    /// No further items; the connection comes back with this signal.
    Finished(C),
    /// The stream was already exhausted and the connection already returned.
    Done,
    /// A page request is in flight; feed its response in via `on_page`.
    Pending,
}

/// The scan state machine: cursor bookkeeping, the FIFO queue of decoded
/// items awaiting delivery, and the single slot that may hold the
/// connection between the last page and the last item.
pub struct RedisScanStream<C, T> {
    cursor: u64,
    con: Option<C>,
    factory: ScanFactory,
    pending: bool,
    queue: Vec<T>,
    history: Ghost<Seq<Seq<T>>>,
    delivered: Ghost<Seq<T>>,
}

impl<C, T> RedisScanStream<C, T> {
    /// The pages fed in so far, in arrival order.
    pub closed spec fn pages(self) -> Seq<Seq<T>> {
        self.history@
    }

    /// The items emitted so far, in emission order.
    pub closed spec fn emitted(self) -> Seq<T> {
        self.delivered@
    }

    /// The items decoded but not yet emitted, in delivery order.
    pub closed spec fn queued(self) -> Seq<T> {
        self.queue@
    }

    /// Whether a page request is in flight on the caller's side.
    pub closed spec fn pending(self) -> bool {
        self.pending
    }

    /// The machine's holding slot for the connection, occupied exactly
    /// between the final page's arrival and the handle's return.
    pub closed spec fn con_slot(self) -> Option<C> {
        self.con
    }

    /// The command factory this scan re-invokes for every page.
    pub closed spec fn factory(self) -> ScanFactory {
        self.factory
    }

    /// The cursor of the most recent page, 0 before the first page.
    pub closed spec fn cursor(self) -> u64 {
        self.cursor
    }

    /// The connection has left the machine for good: no request is in
    /// flight and the holding slot is empty, so it is back with the caller.
    pub open spec fn returned(self) -> bool {
        !self.pending() && self.con_slot() is None
    }

    /// An upper bound on the steps this machine can still take before
    /// `next` answers `Done`, unless a new page arrives: every step that
    /// emits something strictly decreases it.
    pub open spec fn measure(self) -> nat {
        self.queued().len() + (if self.pending() {
            1nat
        } else {
            0nat
        }) + (if self.con_slot() is Some {
            1nat
        } else {
            0nat
        })
    }

    /// Well-formedness: the connection sits in at most one place (an
    /// in-flight request excludes the holding slot), every item of every
    /// page is either already emitted or still queued, in order, and once
    /// the connection has been returned nothing remains to deliver.
    pub open spec fn wf(self) -> bool {
        &&& (self.pending() ==> self.con_slot() is None)
        &&& self.pages().flatten() == self.emitted() + self.queued()
        &&& (self.returned() ==> self.queued().len() == 0)
    }

    /// Starts a scan: the machine begins with the very first page's request
    /// in flight. The caller gets the connection back together with the
    /// command for cursor 0, issues it, and feeds the response to
    /// `on_page`.
    pub fn new(con: C, factory: ScanFactory) -> (r: (RedisScanStream<C, T>, C, Command))
        ensures
            r.0.wf(),
            r.0.pending(),
            r.0.cursor() == 0,
            r.0.pages() == Seq::<Seq<T>>::empty(),
            r.0.emitted() == Seq::<T>::empty(),
            r.0.queued() == Seq::<T>::empty(),
            r.0.con_slot() is None,
            r.0.factory() == factory,
            r.1 == con,
            r.2@ == factory.build_spec(0),
    {
        let cmd = factory.build(0);
        let machine = RedisScanStream {
            cursor: 0,
            con: None,
            factory,
            pending: true,
            queue: Vec::new(),
            history: Ghost(Seq::empty()),
            delivered: Ghost(Seq::empty()),
        };
        proof {
            assert(machine.pages().flatten() =~= machine.emitted() + machine.queued());
        }
        (machine, con, cmd)
    }

    /// Feeds in the decoded response of the in-flight page request: the
    /// next cursor and the page's items, plus the connection that came back
    /// with them. The items join the queue in order. If the cursor is
    /// nonzero the next page's request must be issued at once: the
    /// connection and the rebuilt command are handed back for it. If the
    /// cursor is 0 the enumeration is complete on the server's side: the
    /// connection parks in the holding slot and no command is returned.
    pub fn on_page(&mut self, con: C, cursor: u64, items: Vec<T>) -> (r: Option<(C, Command)>)
        requires
            old(self).wf(),
            old(self).pending(),
        ensures
            final(self).wf(),
            final(self).factory() == old(self).factory(),
            final(self).pages() == old(self).pages().push(items@),
            final(self).emitted() == old(self).emitted(),
            final(self).queued() == old(self).queued() + items@,
            final(self).cursor() == cursor,
            final(self).pending() == (cursor != 0),
            cursor != 0 ==> (r matches Some(p) && p.0 == con && p.1@ == old(self).factory().build_spec(cursor)
                && final(self).con_slot() is None),
            cursor == 0 ==> r is None && final(self).con_slot() == Some(con),
    {
        self.cursor = cursor;
        self.history = Ghost(self.history@.push(items@));
        let mut items = items;
        self.queue.append(&mut items);
        proof {
            broadcast use Seq::lemma_flatten_push;

            assert(self.pages().flatten() =~= self.emitted() + self.queued());
        }
        if cursor != 0 {
            let cmd = self.factory.build(cursor);
            Some((con, cmd))
        } else {
            self.pending = false;
            self.con = Some(con);
            None
        }
    }

    /// One delivery step. The five outcomes are mutually exclusive and pin
    /// the machine's state before the call:
    ///
    /// - `Item`: the queue's front item, when more output is still owed
    ///   afterwards (further queued items, a request in flight, or the
    ///   terminal signal still to come).
    /// - `LastItem`: the queue's front item, when it empties the queue and
    ///   the held connection can leave with it.
    /// - `Finished`: queue empty, no request in flight, connection still
    ///   held — the terminal "no item" signal of a scan whose final page
    ///   left nothing to deliver (in particular, an empty scan).
    /// - `Done`: everything already delivered and the connection already
    ///   returned; the machine no longer changes.
    /// - `Pending`: queue empty and a page request in flight; nothing can
    ///   happen until its response is fed to `on_page`.
    ///
    /// Every emitting step strictly decreases `measure()`, so once the
    /// server has answered with cursor 0 the stream terminates.
    pub fn next(&mut self) -> (r: ScanStep<C, T>)
        requires
            old(self).wf(),
        ensures
            final(self).wf(),
            final(self).factory() == old(self).factory(),
            final(self).pages() == old(self).pages(),
            final(self).pending() == old(self).pending(),
            final(self).cursor() == old(self).cursor(),
            !(r is Pending) && !(r is Done) ==> final(self).measure() < old(self).measure(),
            match r {
                ScanStep::Item(item) => {
                    &&& old(self).queued().len() > 0
                    &&& item == old(self).queued()[0]
                    &&& final(self).queued() == old(self).queued().drop_first()
                    &&& final(self).emitted() == old(self).emitted().push(item)
                    &&& final(self).con_slot() == old(self).con_slot()
                    &&& !(final(self).queued().len() == 0 && old(self).con_slot() is Some)
                },
                ScanStep::LastItem(con, item) => {
                    &&& old(self).queued().len() == 1
                    &&& old(self).con_slot() == Some(con)
                    &&& item == old(self).queued()[0]
                    &&& final(self).queued().len() == 0
                    &&& final(self).emitted() == old(self).emitted().push(item)
                    &&& final(self).emitted() == final(self).pages().flatten()
                    &&& final(self).con_slot() is None
                    &&& final(self).returned()
                },
                ScanStep::Finished(con) => {
                    &&& old(self).queued().len() == 0
                    &&& !old(self).pending()
                    &&& old(self).con_slot() == Some(con)
                    &&& final(self).emitted() == old(self).emitted()
                    &&& final(self).emitted() == final(self).pages().flatten()
                    &&& final(self).con_slot() is None
                    &&& final(self).returned()
                },
                ScanStep::Done => {
                    &&& old(self).returned()
                    &&& old(self).queued().len() == 0
                    &&& *final(self) == *old(self)
                },
                ScanStep::Pending => {
                    &&& old(self).queued().len() == 0
                    &&& old(self).pending()
                    &&& *final(self) == *old(self)
                },
            },
    {
        if self.queue.len() > 0 {
            let item = self.queue.remove(0);
            self.delivered = Ghost(self.delivered@.push(item));
            proof {
                assert(self.delivered@ + self.queue@ =~= old(self).delivered@ + old(self).queue@);
            }
            if self.queue.len() == 0 && self.con.is_some() {
                let con = self.con.take().unwrap();
                ScanStep::LastItem(con, item)
            } else {
                ScanStep::Item(item)
            }
        } else {
            if self.pending {
                ScanStep::Pending
            } else {
                match self.con.take() {
                    Some(con) => ScanStep::Finished(con),
                    None => ScanStep::Done,
                }
            }
        }
    }

    /// Hands this stream to a collector that will drain it to completion.
    pub fn all(self) -> (r: RedisScanAll<C, T>)
        requires
            self.wf(),
        ensures
            r.wf(),
            r.machine() == self,
            r.collected() == Seq::<T>::empty(),
            r.pre() == self.emitted(),
    {
        let ghost pre = self.emitted();
        RedisScanAll { items: Vec::new(), inner: self, pre: Ghost(pre) }
    }
}

/// One step of the collector.
pub enum CollectStep<C, T> {
    /// Collection is complete: the recovered connection and every item the
    /// stream emitted while this collector drained it, in emission order.
    Ready(C, Vec<T>),
    /// A page request is in flight; feed its response in via `on_page`.
    Pending,
}

/// Drains a [`RedisScanStream`] to completion, accumulating every emitted
/// item into one ordered sequence and recovering the connection handle.
pub struct RedisScanAll<C, T> {
    items: Vec<T>,
    inner: RedisScanStream<C, T>,
    pre: Ghost<Seq<T>>,
}

impl<C, T> RedisScanAll<C, T> {
    /// The inner scan machine.
    pub closed spec fn machine(self) -> RedisScanStream<C, T> {
        self.inner
    }

    /// The items accumulated so far, in emission order.
    pub closed spec fn collected(self) -> Seq<T> {
        self.items@
    }

    /// What the stream had already emitted before this collector took over
    /// (empty for a freshly started scan), plus what this collector has
    /// already handed out in a `Ready` answer.
    pub closed spec fn pre(self) -> Seq<T> {
        self.pre@
    }

    /// Well-formedness: the machine is well-formed and everything it ever
    /// emitted is accounted for — handed out earlier or accumulated here.
    pub open spec fn wf(self) -> bool {
        &&& self.machine().wf()
        &&& self.machine().emitted() == self.pre() + self.collected()
    }

    /// Feeds in the decoded response of the in-flight page request; see
    /// [`RedisScanStream::on_page`].
    pub fn on_page(&mut self, con: C, cursor: u64, items: Vec<T>) -> (r: Option<(C, Command)>)
        requires
            old(self).wf(),
            old(self).machine().pending(),
        ensures
            final(self).wf(),
            final(self).machine().factory() == old(self).machine().factory(),
            final(self).machine().pages() == old(self).machine().pages().push(items@),
            final(self).machine().pending() == (cursor != 0),
            final(self).pre() == old(self).pre(),
            final(self).collected() == old(self).collected(),
            cursor != 0 ==> (r matches Some(p) && p.0 == con && p.1@
                == old(self).machine().factory().build_spec(cursor)),
            cursor == 0 ==> r is None && final(self).machine().con_slot() == Some(con),
    {
        self.inner.on_page(con, cursor, items)
    }

    /// Drains the stream as far as it can go without a network round trip.
    ///
    /// Answers `Pending` exactly when a page request is in flight (feed its
    /// response to `on_page` and call `step` again), and `Ready` exactly
    /// when the last page had arrived: then every item of every page —
    /// those already handed out before, plus the items returned here, in
    /// order — makes up the pages' concatenation, and the connection comes
    /// back, exactly once over the collector's lifetime.
    pub fn step(&mut self) -> (r: CollectStep<C, T>)
        requires
            old(self).wf(),
            !old(self).machine().returned(),
        ensures
            final(self).wf(),
            final(self).machine().factory() == old(self).machine().factory(),
            final(self).machine().pages() == old(self).machine().pages(),
            final(self).machine().pending() == old(self).machine().pending(),
            match r {
                CollectStep::Pending => {
                    &&& old(self).machine().pending()
                    &&& final(self).machine().queued().len() == 0
                    &&& !final(self).machine().returned()
                    &&& final(self).pre() == old(self).pre()
                },
                CollectStep::Ready(con, items) => {
                    &&& !old(self).machine().pending()
                    &&& old(self).machine().con_slot() == Some(con)
                    &&& old(self).pre() + items@ == final(self).machine().pages().flatten()
                    &&& final(self).machine().returned()
                    &&& final(self).pre() == old(self).pre() + items@
                    &&& final(self).collected() == Seq::<T>::empty()
                },
            },
    {
        loop
            invariant
                self.wf(),
                !self.machine().returned(),
                self.machine().factory() == old(self).machine().factory(),
                self.machine().pages() == old(self).machine().pages(),
                self.machine().pending() == old(self).machine().pending(),
                self.machine().con_slot() == old(self).machine().con_slot(),
                self.pre() == old(self).pre(),
            decreases self.machine().queued().len(),
        {
            match self.inner.next() {
                ScanStep::Item(t) => {
                    self.items.push(t);
                },
                ScanStep::LastItem(con, t) => {
                    self.items.push(t);
                    let mut out: Vec<T> = Vec::new();
                    core::mem::swap(&mut out, &mut self.items);
                    self.pre = Ghost(self.pre@ + out@);
                    return CollectStep::Ready(con, out);
                },
                ScanStep::Finished(con) => {
                    let mut out: Vec<T> = Vec::new();
                    core::mem::swap(&mut out, &mut self.items);
                    self.pre = Ghost(self.pre@ + out@);
                    return CollectStep::Ready(con, out);
                },
                ScanStep::Pending => {
                    return CollectStep::Pending;
                },
                ScanStep::Done => {
                    proof {
                        assert(false);
                    }
                    vstd::pervasive::unreached()
                },
            }
        }
    }
}

/// The total number of items across a sequence of pages.
pub open spec fn pages_len<T>(pages: Seq<Seq<T>>) -> nat
    decreases pages.len(),
{
    if pages.len() == 0 {
        0nat
    } else {
        pages_len(pages.drop_last()) + pages.last().len()
    }
}

/// The items across a sequence of pages as a multiset: each item counted
/// as many times as the pages together contain it.
pub open spec fn pages_multiset<T>(pages: Seq<Seq<T>>) -> Multiset<T>
    decreases pages.len(),
{
    if pages.len() == 0 {
        Multiset::<T>::empty()
    } else {
        pages_multiset(pages.drop_last()).add(pages.last().to_multiset())
    }
}

/// Exhaustiveness law: however a server splits an enumeration across
/// pages, their concatenation — which is exactly what a completed
/// collection holds, by the contract of `RedisScanAll::step` — has as many
/// elements as the pages together, and each item appears in it exactly as
/// many times as the pages yield it: nothing is lost, deduplicated or
/// invented.
pub proof fn lemma_pages_exhaustive<T>(pages: Seq<Seq<T>>)
    ensures
        pages.flatten().len() == pages_len(pages),
        pages.flatten().to_multiset() == pages_multiset(pages),
    decreases pages.len(),
{
    broadcast use vstd::seq_lib::group_to_multiset_ensures;
    broadcast use vstd::multiset::group_multiset_axioms;

    if pages.len() == 0 {
        assert(pages.flatten() =~= Seq::<T>::empty());
        assert forall|x: T| pages.flatten().to_multiset().count(x) == 0 by {
            if pages.flatten().to_multiset().count(x) > 0 {
                assert(pages.flatten().contains(x));
            }
        }
        assert(pages.flatten().to_multiset() =~= Multiset::<T>::empty());
    } else {
        lemma_pages_exhaustive(pages.drop_last());
        pages.lemma_flatten_and_flatten_alt_are_equivalent();
        pages.drop_last().lemma_flatten_and_flatten_alt_are_equivalent();
        assert(pages.flatten() =~= pages.drop_last().flatten() + pages.last());
        vstd::seq_lib::lemma_multiset_commutative(pages.drop_last().flatten(), pages.last());
    }
}

/// Ordering law: a well-formed stream emits the pages' concatenation, in
/// page-arrival order and within-page order, and nothing else — what it
/// has emitted so far is always a prefix of that concatenation, and once
/// the connection is returned it is the whole of it.
pub proof fn lemma_emission_order<C, T>(m: RedisScanStream<C, T>)
    requires
        m.wf(),
    ensures
        m.emitted() == m.pages().flatten().take(m.emitted().len() as int),
        m.returned() ==> m.emitted() == m.pages().flatten(),
{
    assert(m.emitted() =~= (m.emitted() + m.queued()).take(m.emitted().len() as int));
    if m.returned() {
        assert(m.emitted() =~= m.emitted() + m.queued());
    }
}

/// Connection-linearity law for the scan stream: a well-formed stream
/// never holds the connection in two places — an in-flight request
/// excludes the holding slot — and once the handle has been returned,
/// nothing remains queued and everything that arrived was emitted.
pub proof fn lemma_scan_connection_linear<C, T>(m: RedisScanStream<C, T>)
    requires
        m.wf(),
    ensures
        !(m.pending() && m.con_slot() is Some),
        m.returned() ==> m.queued().len() == 0 && m.emitted() == m.pages().flatten(),
{
    if m.returned() {
        assert(m.emitted() =~= m.emitted() + m.queued());
    }
}

/// Starts a scan stream over the items of an enumeration command; see
/// [`RedisScanStream::new`].
pub fn stream<C, T>(con: C, factory: ScanFactory) -> (r: (RedisScanStream<C, T>, C, Command))
    ensures
        r.0.wf(),
        r.0.pending(),
        r.0.cursor() == 0,
        r.0.pages() == Seq::<Seq<T>>::empty(),
        r.0.emitted() == Seq::<T>::empty(),
        r.0.factory() == factory,
        r.1 == con,
        r.2@ == factory.build_spec(0),
{
    RedisScanStream::new(con, factory)
}

/// Termination law: once the server has answered some page with cursor 0,
/// no request is in flight any more, so `next` never answers `Pending`
/// again, and `measure()` — at most one more than the queue's length —
/// bounds the steps left: every answer but `Done` strictly decreases it
/// (see the contract of `next`), so after at most that many steps the
/// stream answers `Done` forever. The same descent makes the drain loop of
/// `RedisScanAll::step` provably terminating.
pub proof fn lemma_scan_termination<C, T>(m: RedisScanStream<C, T>)
    requires
        m.wf(),
        !m.pending(),
    ensures
        m.measure() <= m.queued().len() + 1,
{
}

} // verus!
