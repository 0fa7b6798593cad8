//! The dispatcher: routes each incoming message to exactly one of N
//! workers, queues work in a bounded buffer when every worker is busy, and
//! guarantees that no message is silently dropped.
//!
//! Each worker owns one leased connection for its whole lifetime and
//! processes messages strictly one at a time. Tickets are handed out in
//! submission order, so the ticket order is the submission order; the
//! queue is kept in ticket order and workers always take its head, which
//! makes per-worker processing strictly FIFO.
//!
//! The failure policy: when a worker's connection becomes unusable the
//! runtime makes one reconnect attempt; if that fails the worker enters
//! the terminal `Failed` state via
//! [`Dispatcher::fail`]. A failed worker is never assigned another message.
//! When the last worker fails, the queue is drained and every queued
//! caller is told the dispatcher is unreachable, so nothing is dropped
//! silently.

use vstd::prelude::*;
use crate::query::Message;

verus! {

/// The state machine of one worker: Idle, Busy with the given ticket, or
/// terminally Failed.
#[derive(Clone, Copy, Debug, PartialEq, Eq, Structural)]
pub enum WorkerState {
    Idle,
    Busy { ticket: u64 },
    Failed,
}

/// One submitted unit of work waiting in the bounded queue.
#[derive(Debug)]
pub struct Pending {
    pub ticket: u64,
    pub message: Message,
}

/// What the dispatcher did with a submitted message.
#[derive(Debug)]
pub enum SubmitOutcome {
    /// An idle worker took the message immediately: hand `message` to that
    /// worker.
    Dispatched { worker: usize, ticket: u64, message: Message },
    /// All workers were busy; the message waits in the bounded queue.
    Queued { ticket: u64 },
    /// All workers were busy and the queue was full: the caller receives a
    /// saturation error instead of blocking indefinitely.
    Saturated,
    /// Every worker has failed: the caller receives a dispatch error.
    Rejected,
}

/// True when the tickets in `s` are in strictly increasing order.
pub open spec fn strictly_increasing(s: Seq<u64>) -> bool {
    forall|j: int, k: int| 0 <= j < k < s.len() ==> s[j] < s[k]
}

/// Appending a ticket larger than every entry keeps a log strictly
/// increasing.
proof fn lemma_push_strictly_increasing(s: Seq<u64>, t: u64)
    requires
        strictly_increasing(s),
        forall|j: int| 0 <= j < s.len() ==> s[j] < t,
    ensures
        strictly_increasing(s.push(t)),
{
    assert forall|j: int, k: int| 0 <= j < k < s.push(t).len() implies s.push(t)[j] < s.push(t)[k]
    by {
        if k < s.len() {
            assert(s[j] < s[k]);
        } else {
            assert(s.push(t)[k] == t);
            assert(s.push(t)[j] == s[j]);
        }
    }
}

/// Routes messages to workers. `done` is the ghost processing log: for
/// each worker, the tickets it has finished, in completion order.
pub struct Dispatcher {
    workers: Vec<WorkerState>,
    queue: Vec<Pending>,
    queue_cap: usize,
    next_ticket: u64,
    done: Ghost<Seq<Seq<u64>>>,
}

impl Dispatcher {
    /// The state of every worker.
    pub closed spec fn states(&self) -> Seq<WorkerState> {
        self.workers@
    }

    /// The queued work, head first.
    pub closed spec fn pending(&self) -> Seq<Pending> {
        self.queue@
    }

    /// The bound Q of the queue.
    pub closed spec fn queue_bound(&self) -> usize {
        self.queue_cap
    }

    /// The ticket the next submission will receive.
    pub closed spec fn ticket_counter(&self) -> u64 {
        self.next_ticket
    }

    /// For each worker, the tickets it has processed, in completion order.
    pub closed spec fn done_log(&self) -> Seq<Seq<u64>> {
        self.done@
    }

    pub open spec fn idle_at(&self, i: int) -> bool {
        self.states()[i] is Idle
    }

    pub open spec fn busy_at(&self, i: int) -> bool {
        self.states()[i] is Busy
    }

    pub open spec fn failed_at(&self, i: int) -> bool {
        self.states()[i] is Failed
    }

    pub open spec fn ticket_at(&self, i: int) -> u64 {
        self.states()[i]->ticket
    }

    pub open spec fn has_idle(&self) -> bool {
        exists|i: int| 0 <= i < self.states().len() && (#[trigger] self.states()[i]) is Idle
    }

    pub open spec fn all_failed(&self) -> bool {
        forall|i: int| 0 <= i < self.states().len() ==> (#[trigger] self.states()[i]) is Failed
    }

    pub open spec fn queue_full(&self) -> bool {
        self.pending().len() >= self.queue_bound()
    }

    /// The dispatcher invariant. Tickets are handed out in submission
    /// order, so everything here is phrased over tickets: the queue is in
    /// submission order, every busy worker took its message before
    /// anything now queued, no two workers share a ticket, each worker's
    /// processing log is in submission order and precedes its current
    /// message, an idle worker never coexists with queued work, and a
    /// fully failed pool holds no queued work.
    pub open spec fn wf(&self) -> bool {
        &&& self.states().len() >= 1
        &&& self.done_log().len() == self.states().len()
        &&& self.pending().len() <= self.queue_bound()
        &&& (self.pending().len() > 0 ==> forall|i: int|
            0 <= i < self.states().len() ==> !((#[trigger] self.states()[i]) is Idle))
        &&& (forall|i: int|
            0 <= i < self.states().len() && (#[trigger] self.states()[i]) is Busy
                ==> self.states()[i]->ticket < self.ticket_counter())
        &&& (forall|j: int|
            0 <= j < self.pending().len() ==> (#[trigger] self.pending()[j]).ticket
                < self.ticket_counter())
        &&& (forall|j: int, k: int|
            0 <= j < k < self.pending().len() ==> (#[trigger] self.pending()[j]).ticket
                < (#[trigger] self.pending()[k]).ticket)
        &&& (forall|i: int, j: int|
            #![trigger self.states()[i], self.pending()[j]]
            0 <= i < self.states().len() && self.states()[i] is Busy && 0 <= j
                < self.pending().len() ==> self.states()[i]->ticket < self.pending()[j].ticket)
        &&& (forall|i: int, k: int|
            #![trigger self.states()[i], self.states()[k]]
            0 <= i < self.states().len() && 0 <= k < self.states().len() && i != k
                && self.states()[i] is Busy && self.states()[k] is Busy ==> self.states()[i]->ticket
                != self.states()[k]->ticket)
        &&& (forall|i: int|
            0 <= i < self.done_log().len() ==> strictly_increasing(
                #[trigger] self.done_log()[i],
            ))
        &&& (forall|i: int, j: int|
            0 <= i < self.done_log().len() && 0 <= j < self.done_log()[i].len()
                ==> (#[trigger] self.done_log()[i][j]) < self.ticket_counter())
        &&& (forall|i: int, j: int|
            #![trigger self.states()[i], self.done_log()[i][j]]
            0 <= i < self.states().len() && self.states()[i] is Busy && 0 <= j
                < self.done_log()[i].len() ==> self.done_log()[i][j] < self.states()[i]->ticket)
        &&& (self.all_failed() ==> self.pending().len() == 0)
    }

    /// Create a dispatcher for `n_workers` workers (one per pooled
    /// connection) with a queue bounded at `queue_cap`. All workers start
    /// idle.
    pub fn new(n_workers: usize, queue_cap: usize) -> (r: Dispatcher)
        requires
            n_workers >= 1,
        ensures
            r.wf(),
            r.states().len() == n_workers,
            forall|i: int| 0 <= i < n_workers ==> r.idle_at(i),
            r.pending().len() == 0,
            r.queue_bound() == queue_cap,
            r.ticket_counter() == 0,
            forall|i: int| 0 <= i < n_workers ==> #[trigger] r.done_log()[i].len() == 0,
    {
        let mut workers: Vec<WorkerState> = Vec::new();
        let mut i: usize = 0;
        while i < n_workers
            invariant
                i <= n_workers,
                workers@.len() == i,
                forall|k: int| 0 <= k < i ==> workers@[k] is Idle,
            decreases n_workers - i,
        {
            workers.push(WorkerState::Idle);
            i = i + 1;
        }
        Dispatcher {
            workers,
            queue: Vec::new(),
            queue_cap,
            next_ticket: 0,
            done: Ghost(Seq::new(n_workers as nat, |i: int| Seq::empty())),
        }
    }

    /// How many workers the dispatcher routes to.
    pub fn worker_count(&self) -> (r: usize)
        ensures
            r == self.states().len(),
    {
        self.workers.len()
    }

    /// How many messages are waiting in the queue.
    pub fn queued_count(&self) -> (r: usize)
        ensures
            r == self.pending().len(),
    {
        self.queue.len()
    }

    /// How many tickets have been issued so far.
    pub fn tickets_issued(&self) -> (r: u64)
        ensures
            r == self.ticket_counter(),
    {
        self.next_ticket
    }

    /// Is this worker processing a message right now?
    pub fn worker_busy(&self, i: usize) -> (r: bool)
        requires
            i < self.states().len(),
        ensures
            r == self.busy_at(i as int),
    {
        match self.workers[i] {
            WorkerState::Busy { .. } => true,
            _ => false,
        }
    }

    /// Route one message: to the first idle worker if there is one, else
    /// into the bounded queue, else report saturation — or rejection when
    /// every worker has failed. No message is ever silently dropped: each
    /// outcome is visible to the caller.
    ///
    /// An idle worker is always preferred over queueing, so no request
    /// waits while a worker sits idle; and saturation is reported exactly
    /// when no worker is idle, some worker is still live, and the queue is
    /// at its bound.
    pub fn submit(&mut self, m: Message) -> (r: SubmitOutcome)
        requires
            old(self).wf(),
            old(self).ticket_counter() < u64::MAX,
        ensures
            final(self).wf(),
            final(self).states().len() == old(self).states().len(),
            final(self).queue_bound() == old(self).queue_bound(),
            final(self).done_log() == old(self).done_log(),
            old(self).has_idle() ==> r is Dispatched,
            r matches SubmitOutcome::Dispatched { worker, ticket, message } ==> {
                &&& message == m
                &&& 0 <= worker < old(self).states().len()
                &&& old(self).idle_at(worker as int)
                &&& ticket == old(self).ticket_counter()
                &&& final(self).states() == old(self).states().update(
                    worker as int,
                    WorkerState::Busy { ticket },
                )
                &&& final(self).pending() == old(self).pending()
                &&& final(self).ticket_counter() == old(self).ticket_counter() + 1
            },
            r matches SubmitOutcome::Queued { ticket } ==> {
                &&& !old(self).has_idle()
                &&& !old(self).all_failed()
                &&& old(self).pending().len() < old(self).queue_bound()
                &&& ticket == old(self).ticket_counter()
                &&& final(self).states() == old(self).states()
                &&& final(self).pending().len() == old(self).pending().len() + 1
                &&& final(self).pending()[final(self).pending().len() - 1].ticket == ticket
                &&& (forall|j: int|
                    0 <= j < old(self).pending().len() ==> final(self).pending()[j]
                        == old(self).pending()[j])
                &&& final(self).ticket_counter() == old(self).ticket_counter() + 1
            },
            (r is Saturated) <==> (!old(self).has_idle() && !old(self).all_failed() && old(
                self,
            ).queue_full()),
            (r is Rejected) <==> old(self).all_failed(),
            (r is Saturated || r is Rejected) ==> *final(self) == *old(self),
    {
        let ghost snap = *self;
        let n = self.workers.len();
        let mut i: usize = 0;
        let mut idle_idx: Option<usize> = None;
        let mut saw_busy: bool = false;
        while i < n
            invariant
                *self == snap,
                n == self.states().len(),
                i <= n,
                idle_idx matches Some(w) ==> w < n && self.states()[w as int] is Idle,
                idle_idx is None ==> forall|k: int|
                    0 <= k < i ==> !((#[trigger] self.states()[k]) is Idle),
                saw_busy ==> exists|k: int|
                    0 <= k < n && (#[trigger] self.states()[k]) is Busy,
                (idle_idx is None && !saw_busy) ==> forall|k: int|
                    0 <= k < i ==> (#[trigger] self.states()[k]) is Failed,
            decreases n - i,
        {
            if idle_idx.is_none() {
                match self.workers[i] {
                    WorkerState::Idle => {
                        idle_idx = Some(i);
                        proof {
                            assert(self.states()[i as int] is Idle);
                        }
                    },
                    WorkerState::Busy { .. } => {
                        saw_busy = true;
                        proof {
                            assert(self.states()[i as int] is Busy);
                        }
                    },
                    WorkerState::Failed => {
                        proof {
                            assert(self.states()[i as int] is Failed);
                        }
                    },
                }
            }
            i = i + 1;
        }
        match idle_idx {
            Some(w) => {
                proof {
                    // an idle worker rules out queued work and a fully
                    // failed pool
                    assert(!self.all_failed());
                    if self.queue@.len() > 0 {
                        assert(!(self.states()[w as int] is Idle));
                    }
                    assert(self.queue@.len() == 0);
                }
                let t = self.next_ticket;
                self.next_ticket = t + 1;
                self.workers.set(w, WorkerState::Busy { ticket: t });
                proof {
                    assert(self.states()[w as int] is Busy);
                    assert(!self.all_failed());
                    assert(self.pending().len() == 0);
                }
                SubmitOutcome::Dispatched { worker: w, ticket: t, message: m }
            },
            None => {
                assert(forall|k: int| 0 <= k < n ==> !((#[trigger] self.states()[k]) is Idle));
                assert(!self.has_idle());
                if !saw_busy {
                    assert(self.all_failed()) by {
                        assert forall|k: int|
                            0 <= k < self.states().len() implies (#[trigger] self.states()[k])
                            is Failed by {
                            assert(!(self.states()[k] is Idle));
                            assert(!(self.states()[k] is Busy));
                        }
                    }
                    SubmitOutcome::Rejected
                } else {
                    proof {
                        let k = choose|k: int|
                            0 <= k < n && (#[trigger] self.states()[k]) is Busy;
                        assert(!(self.states()[k] is Failed));
                        assert(!self.all_failed());
                    }
                    if self.queue.len() < self.queue_cap {
                        let t = self.next_ticket;
                        self.next_ticket = t + 1;
                        self.queue.push(Pending { ticket: t, message: m });
                        proof {
                            assert(!self.all_failed());
                        }
                        SubmitOutcome::Queued { ticket: t }
                    } else {
                        SubmitOutcome::Saturated
                    }
                }
            },
        }
    }

    /// A worker finished its current message (the reply itself travels
    /// through the reply conduit, not through the dispatcher). Returns the
    /// finished ticket and, when the queue is not empty, the queue head as
    /// the worker's next message — the head carries the oldest queued
    /// ticket, so each worker processes its messages strictly in
    /// submission order.
    pub fn finish(&mut self, w: usize) -> (r: (u64, Option<Pending>))
        requires
            old(self).wf(),
            w < old(self).states().len(),
            old(self).busy_at(w as int),
        ensures
            final(self).wf(),
            final(self).states().len() == old(self).states().len(),
            final(self).queue_bound() == old(self).queue_bound(),
            final(self).ticket_counter() == old(self).ticket_counter(),
            r.0 == old(self).ticket_at(w as int),
            final(self).done_log() == old(self).done_log().update(
                w as int,
                old(self).done_log()[w as int].push(r.0),
            ),
            old(self).pending().len() > 0 ==> {
                &&& r.1 matches Some(p) && p.ticket == old(self).pending()[0].ticket && p.ticket
                    > r.0
                &&& final(self).states() == old(self).states().update(
                    w as int,
                    WorkerState::Busy { ticket: old(self).pending()[0].ticket },
                )
                &&& final(self).pending() == old(self).pending().subrange(
                    1,
                    old(self).pending().len() as int,
                )
            },
            old(self).pending().len() == 0 ==> {
                &&& r.1 is None
                &&& final(self).states() == old(self).states().update(w as int, WorkerState::Idle)
                &&& final(self).pending().len() == 0
            },
    {
        let t = match self.workers[w] {
            WorkerState::Busy { ticket } => ticket,
            _ => 0,  // unreachable: the worker is busy
        };
        proof {
            let s = self.done@[w as int];
            assert forall|j: int| 0 <= j < s.len() implies s[j] < t by {
                assert(self.done_log()[w as int][j] < self.ticket_at(w as int));
            }
            lemma_push_strictly_increasing(s, t);
            self.done@ = self.done@.update(w as int, s.push(t));
        }
        if self.queue.len() > 0 {
            proof {
                // the queue head was submitted after the finished message
                assert(self.states()[w as int]->ticket < self.pending()[0].ticket);
            }
            let p = self.queue.remove(0);
            self.workers.set(w, WorkerState::Busy { ticket: p.ticket });
            proof {
                assert(self.queue@ =~= old(self).queue@.subrange(
                    1,
                    old(self).queue@.len() as int,
                ));
                assert(self.states()[w as int] is Busy);
                if self.pending().len() > 0 {
                    assert(forall|k: int|
                        0 <= k < self.states().len() ==> !((#[trigger] old(self).states()[k])
                            is Idle));
                }
            }
            (t, Some(p))
        } else {
            self.workers.set(w, WorkerState::Idle);
            proof {
                assert(self.states()[w as int] is Idle);
                assert(self.pending().len() == 0);
            }
            (t, None)
        }
    }

    /// A worker's connection became unusable and the reconnect attempt
    /// failed: the worker enters the terminal `Failed` state (the caller
    /// of the in-flight message observes the driver's failure through its
    /// conduit). If this was the last live worker, the queue is drained
    /// and the tickets of the drained messages are returned so each queued
    /// caller can be told the dispatcher is unreachable — no message is
    /// silently dropped.
    pub fn fail(&mut self, w: usize) -> (r: (u64, Vec<u64>))
        requires
            old(self).wf(),
            w < old(self).states().len(),
            old(self).busy_at(w as int),
        ensures
            final(self).wf(),
            final(self).states().len() == old(self).states().len(),
            final(self).queue_bound() == old(self).queue_bound(),
            final(self).ticket_counter() == old(self).ticket_counter(),
            final(self).done_log() == old(self).done_log().update(
                w as int,
                old(self).done_log()[w as int].push(r.0),
            ),
            r.0 == old(self).ticket_at(w as int),
            final(self).states() == old(self).states().update(w as int, WorkerState::Failed),
            final(self).all_failed() ==> {
                &&& final(self).pending().len() == 0
                &&& r.1@.len() == old(self).pending().len()
                &&& forall|j: int|
                    0 <= j < r.1@.len() ==> r.1@[j] == old(self).pending()[j].ticket
            },
            !final(self).all_failed() ==> {
                &&& final(self).pending() == old(self).pending()
                &&& r.1@.len() == 0
            },
    {
        let t = match self.workers[w] {
            WorkerState::Busy { ticket } => ticket,
            _ => 0,  // unreachable: the worker is busy
        };
        proof {
            let s = self.done@[w as int];
            assert forall|j: int| 0 <= j < s.len() implies s[j] < t by {
                assert(self.done_log()[w as int][j] < self.ticket_at(w as int));
            }
            lemma_push_strictly_increasing(s, t);
            self.done@ = self.done@.update(w as int, s.push(t));
        }
        self.workers.set(w, WorkerState::Failed);
        let ghost snap = *self;
        let n = self.workers.len();
        let mut i: usize = 0;
        let mut all_failed: bool = true;
        while i < n
            invariant
                *self == snap,
                n == self.states().len(),
                i <= n,
                all_failed <==> (forall|k: int|
                    0 <= k < i ==> (#[trigger] self.states()[k]) is Failed),
            decreases n - i,
        {
            match self.workers[i] {
                WorkerState::Failed => {
                    proof {
                        assert(self.states()[i as int] is Failed);
                    }
                },
                _ => {
                    all_failed = false;
                    proof {
                        assert(!(self.states()[i as int] is Failed));
                    }
                },
            }
            i = i + 1;
        }
        if all_failed {
            assert(self.all_failed());
            let mut drained: Vec<u64> = Vec::new();
            let ghost orig = self.queue@;
            let mut j: usize = 0;
            let qlen = self.queue.len();
            while j < qlen
                invariant
                    *self == snap,
                    qlen == orig.len(),
                    j <= qlen,
                    self.queue@ == orig,
                    drained@.len() == j,
                    forall|k: int| 0 <= k < j ==> drained@[k] == orig[k].ticket,
                decreases qlen - j,
            {
                let tk = self.queue[j].ticket;
                drained.push(tk);
                j = j + 1;
            }
            self.queue.clear();
            proof {
                assert(self.all_failed());
                assert(self.pending().len() == 0);
            }
            (t, drained)
        } else {
            assert(!self.all_failed());
            (t, Vec::new())
        }
    }

    /// No idle worker starves while a request queues: whenever the queue
    /// is non-empty, every worker is busy or failed.
    pub proof fn lemma_no_idle_worker_while_requests_queue(&self)
        requires
            self.wf(),
            self.pending().len() > 0,
        ensures
            forall|i: int| 0 <= i < self.states().len() ==> !self.idle_at(i),
    {
    }

    /// Per-worker FIFO: each worker's processing log is strictly
    /// increasing in ticket order, and tickets are handed out in
    /// submission order — so of two messages processed by the same worker,
    /// the one submitted first is finished (and its reply delivered)
    /// first.
    pub proof fn lemma_worker_fifo(&self, w: int, j: int, k: int)
        requires
            self.wf(),
            0 <= w < self.done_log().len(),
            0 <= j < k < self.done_log()[w].len(),
        ensures
            self.done_log()[w][j] < self.done_log()[w][k],
    {
    }

    /// Saturation is reported exactly at the bound: a dispatcher with all
    /// workers busy and a full queue has accepted exactly N + Q
    /// outstanding messages, and the next submission saturates.
    pub proof fn lemma_saturation_point(&self)
        requires
            self.wf(),
            forall|i: int| 0 <= i < self.states().len() ==> self.busy_at(i),
            self.queue_full(),
        ensures
            !self.has_idle(),
            !self.all_failed(),
            self.pending().len() == self.queue_bound(),
    {
        assert forall|i: int| 0 <= i < self.states().len() implies !((#[trigger] self.states()[i])
            is Idle) by {
            assert(self.busy_at(i));
        }
        assert(self.busy_at(0));
        assert(!(self.states()[0] is Failed));
    }
}

} // verus!
