//! The worker pool: a fixed worker table and the shared work queue, with the
//! lifecycle protocol — startup, submission, delivery, shutdown — as verified
//! transitions.
//!
//! The pool is a model: real worker threads live in an unverified shell that
//! spawns one thread per `Running` entry, runs each dequeued unit, and joins
//! on shutdown. The shell reports each thread's dequeue back as a `dispatch`
//! event, so everything the pool decides — which message is delivered, what a
//! worker does with it, how many terminate messages shutdown sends — is
//! proved here for every interleaving the shell can produce.

use vstd::prelude::*;
use crate::message::{Message, work_message, into_unit};
use crate::queue::WorkQueue;
use crate::worker::{WorkerStatus, UnitOutcome, next_status, worker_step};

verus! {

/// The pool's abstract state: the messages waiting in the queue, oldest
/// first, and the status of each worker, by index.
#[verifier::ext_equal]
pub struct PoolView<T> {
    pub msgs: Seq<Message<T>>,
    pub workers: Seq<WorkerStatus>,
}

/// The state a fresh pool of `n` workers starts in: an empty queue and every
/// worker running.
pub open spec fn init_view<T>(n: nat) -> PoolView<T> {
    PoolView { msgs: Seq::empty(), workers: Seq::new(n, |i: int| WorkerStatus::Running) }
}

/// Submission: one work message joins the back of the queue; no worker is
/// touched.
pub open spec fn submit_step<T>(v: PoolView<T>, unit: T) -> PoolView<T> {
    PoolView { msgs: v.msgs.push(Message::Work(unit)), workers: v.workers }
}

/// Delivery: running worker `w` dequeues the front message, and — where that
/// message carries a work unit — runs it with outcome `outcome`. The message
/// leaves the queue and only worker `w`'s status changes.
pub open spec fn dispatch_step<T>(v: PoolView<T>, w: int, outcome: UnitOutcome) -> PoolView<T>
    recommends
        0 <= w < v.workers.len(),
        v.msgs.len() > 0,
{
    PoolView {
        msgs: v.msgs.drop_first(),
        workers: v.workers.update(w, next_status(v.msgs[0], outcome)),
    }
}

/// Shutdown's send phase: one terminate message per worker — stopped or
/// crashed ones included — joins the back of the queue.
pub open spec fn teardown_step<T>(v: PoolView<T>) -> PoolView<T> {
    PoolView { msgs: v.msgs + crate::queue::terminate_batch_view::<T>(v.workers.len()), workers: v.workers }
}

/// How many of the workers are still running.
pub open spec fn num_running(ws: Seq<WorkerStatus>) -> nat
    decreases ws.len(),
{
    if ws.len() == 0 {
        0
    } else {
        num_running(ws.drop_last()) + if ws.last() is Running { 1nat } else { 0nat }
    }
}

/// Replacing one entry trades its contribution to the running count for the
/// new entry's.
pub proof fn lemma_num_running_update(ws: Seq<WorkerStatus>, i: int, st: WorkerStatus)
    requires
        0 <= i < ws.len(),
    ensures
        num_running(ws.update(i, st)) + (if ws[i] is Running { 1nat } else { 0nat })
            == num_running(ws) + (if st is Running { 1nat } else { 0nat }),
    decreases ws.len(),
{
    if i == ws.len() - 1 {
        assert(ws.update(i, st).drop_last() =~= ws.drop_last());
    } else {
        assert(ws.update(i, st).drop_last() =~= ws.drop_last().update(i, st));
        lemma_num_running_update(ws.drop_last(), i, st);
    }
}

/// No more workers run than exist.
pub proof fn lemma_num_running_le_len(ws: Seq<WorkerStatus>)
    ensures
        num_running(ws) <= ws.len(),
    decreases ws.len(),
{
    if ws.len() > 0 {
        lemma_num_running_le_len(ws.drop_last());
    }
}

/// The running count is zero exactly when no worker at all is running.
pub proof fn lemma_num_running_zero(ws: Seq<WorkerStatus>)
    ensures
        (num_running(ws) == 0) <==> (forall|i: int| 0 <= i < ws.len() ==> !(ws[i] is Running)),
    decreases ws.len(),
{
    if ws.len() > 0 {
        lemma_num_running_zero(ws.drop_last());
        assert(forall|i: int| 0 <= i < ws.len() - 1 ==> ws[i] == ws.drop_last()[i]);
    }
}

/// The worker pool. `T` stands for the run-once work unit.
pub struct Pool<T> {
    queue: WorkQueue<T>,
    workers: Vec<WorkerStatus>,
}

impl<T> View for Pool<T> {
    type V = PoolView<T>;

    closed spec fn view(&self) -> PoolView<T> {
        PoolView { msgs: self.queue@, workers: self.workers@ }
    }
}

impl<T> Pool<T> {
    /// Builds a pool of exactly `size` workers, all running, over a fresh
    /// empty queue. `size == 0` is a construction-time contract violation, so
    /// the precondition rules it out; a caller that cannot prove it must
    /// reject the count itself before building.
    pub fn new(size: usize) -> (p: Pool<T>)
        requires
            size > 0,
        ensures
            p@ == init_view::<T>(size as nat),
            p@.workers.len() == size,
            p@.msgs.len() == 0,
            forall|i: int| 0 <= i < size ==> p@.workers[i] is Running,
    {
        let queue = WorkQueue::new();
        let mut workers: Vec<WorkerStatus> = Vec::new();
        let mut i: usize = 0;
        while i < size
            invariant
                i <= size,
                workers@ == Seq::new(i as nat, |j: int| WorkerStatus::Running),
            decreases size - i,
        {
            workers.push(WorkerStatus::Running);
            i = i + 1;
            proof {
                assert(workers@ =~= Seq::new(i as nat, |j: int| WorkerStatus::Running));
            }
        }
        let p = Pool { queue, workers };
        proof {
            assert(p@ =~= init_view::<T>(size as nat));
        }
        p
    }

    /// Submits one work unit: wraps it in a work message and enqueues it.
    /// Never blocks on worker availability, and says nothing about when — or,
    /// once shutdown has begun, whether — the unit runs.
    pub fn execute(&mut self, unit: T)
        ensures
            final(self)@ == submit_step(old(self)@, unit),
    {
        let m = work_message(unit);
        self.queue.send(m);
        proof {
            assert(self@ =~= submit_step(old(self)@, unit));
        }
    }

    /// The delivery event: running worker `w` dequeues the front message.
    /// Where it carries a work unit, that unit is handed back to be run, and
    /// `outcome` reports how the run went — `Faulted` crashes the worker for
    /// good. Where it is the terminate signal, nothing is handed back and the
    /// worker stops for good.
    pub fn dispatch(&mut self, w: usize, outcome: UnitOutcome) -> (r: Option<T>)
        requires
            w < old(self)@.workers.len(),
            old(self)@.workers[w as int] is Running,
            old(self)@.msgs.len() > 0,
        ensures
            final(self)@ == dispatch_step(old(self)@, w as int, outcome),
            old(self)@.msgs[0] matches Message::Work(u) ==> r == Some(u),
            old(self)@.msgs[0] is Terminate ==> r is None,
    {
        let m_opt = self.queue.recv();
        match m_opt {
            Some(m) => {
                let st = self.workers[w];
                let next = worker_step(st, &m, outcome);
                self.workers[w] = next;
                proof {
                    assert(self@ =~= dispatch_step(old(self)@, w as int, outcome));
                }
                into_unit(m)
            }
            None => {
                proof {
                    assert(false);
                }
                None
            }
        }
    }

    /// Shutdown's send phase: enqueues exactly one terminate message per
    /// worker, behind everything already queued. Workers are untouched; they
    /// stop one by one as they dequeue the terminates.
    pub fn begin_teardown(&mut self)
        ensures
            final(self)@ == teardown_step(old(self)@),
            final(self)@.workers == old(self)@.workers,
            final(self)@.msgs.len() == old(self)@.msgs.len() + old(self)@.workers.len(),
            forall|i: int| 0 <= i < old(self)@.msgs.len() ==> final(self)@.msgs[i] == old(self)@.msgs[i],
            forall|i: int|
                old(self)@.msgs.len() <= i < final(self)@.msgs.len() ==> final(self)@.msgs[i] is Terminate,
    {
        let n = self.workers.len();
        let mut i: usize = 0;
        while i < n
            invariant
                i <= n,
                self.workers@ == old(self)@.workers,
                n == old(self)@.workers.len(),
                self.queue@ == old(self)@.msgs + crate::queue::terminate_batch_view::<T>(i as nat),
            decreases n - i,
        {
            self.queue.send(Message::Terminate);
            i = i + 1;
            proof {
                assert(self.queue@ =~= old(self)@.msgs + crate::queue::terminate_batch_view::<T>(i as nat));
            }
        }
        proof {
            assert(self@ =~= teardown_step(old(self)@));
        }
    }

    /// How many workers the pool was built with.
    pub fn worker_count(&self) -> (n: usize)
        ensures
            n == self@.workers.len(),
    {
        self.workers.len()
    }

    /// How many messages are waiting in the queue.
    pub fn queue_len(&self) -> (n: usize)
        ensures
            n == self@.msgs.len(),
    {
        self.queue.len()
    }

    /// The status of one worker.
    pub fn status(&self, w: usize) -> (st: WorkerStatus)
        requires
            w < self@.workers.len(),
        ensures
            st == self@.workers[w as int],
    {
        self.workers[w]
    }

    /// Whether every worker thread has exited — stopped or crashed. Shutdown's
    /// join phase returns exactly when this holds.
    pub fn all_exited(&self) -> (b: bool)
        ensures
            b <==> num_running(self@.workers) == 0,
    {
        let n = self.workers.len();
        let mut i: usize = 0;
        let mut all = true;
        while i < n
            invariant
                i <= n,
                n == self@.workers.len(),
                all <==> (forall|j: int| 0 <= j < i ==> !(self@.workers[j] is Running)),
            decreases n - i,
        {
            let st = self.workers[i];
            if matches!(st, WorkerStatus::Running) {
                all = false;
            }
            i = i + 1;
        }
        proof {
            lemma_num_running_zero(self@.workers);
        }
        all
    }
}

} // verus!
