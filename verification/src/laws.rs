//! The pool's delivery and shutdown guarantees, each stated once over the
//! abstract pool state and proved for every schedule of workers and outcomes.

use vstd::prelude::*;
use crate::message::Message;
use crate::worker::{UnitOutcome, next_status};
use crate::queue::{
    num_terminates, lemma_num_terminates_drop_first, lemma_num_terminates_append_batch,
    lemma_num_terminates_le_len,
};
use crate::pool::{
    PoolView, init_view, submit_step, dispatch_step, teardown_step, num_running,
    lemma_num_running_update, lemma_num_running_le_len,
};

verus! {

/// Capacity: a fresh pool of `n` workers holds exactly `n` workers and every
/// one of them is running.
pub proof fn lemma_init_capacity<T>(n: nat)
    ensures
        init_view::<T>(n).workers.len() == n,
        num_running(init_view::<T>(n).workers) == n,
    decreases n,
{
    if n > 0 {
        assert(init_view::<T>(n).workers.drop_last() =~= init_view::<T>((n - 1) as nat).workers);
        lemma_init_capacity::<T>((n - 1) as nat);
    }
}

/// At most one runner: a delivery removes the delivered message from the
/// queue in the same indivisible step, so the queue afterwards holds exactly
/// the old messages minus that one — a submitted unit is handed out at most
/// once — and only the dequeuing worker's status changes, so at most one
/// worker ever holds the unit.
pub proof fn lemma_delivery_removes_message<T>(v: PoolView<T>, w: int, outcome: UnitOutcome)
    requires
        0 <= w < v.workers.len(),
        v.workers[w] is Running,
        v.msgs.len() > 0,
    ensures
        dispatch_step(v, w, outcome).msgs.to_multiset()
            =~= v.msgs.to_multiset().remove(v.msgs[0]),
        dispatch_step(v, w, outcome).msgs.len() == v.msgs.len() - 1,
        forall|j: int|
            0 <= j < v.workers.len() && j != w
                ==> dispatch_step(v, w, outcome).workers[j] == v.workers[j],
{
    broadcast use vstd::seq_lib::group_to_multiset_ensures;

    assert(v.msgs.drop_first() =~= v.msgs.remove(0));
}

/// The queue after a single producer submits `units` in order, left to right.
pub open spec fn submit_all<T>(v: PoolView<T>, units: Seq<T>) -> PoolView<T>
    decreases units.len(),
{
    if units.len() == 0 {
        v
    } else {
        submit_all(submit_step(v, units[0]), units.drop_first())
    }
}

/// FIFO per producer: after one producer submits `units` in order, the queue
/// holds them as work messages in exactly that order, behind whatever it
/// already held, and the workers are untouched. Delivery always takes the
/// front of the queue, so the units are handed out — and on a single-worker
/// pool, run — in submission order.
pub proof fn lemma_fifo_per_producer<T>(v: PoolView<T>, units: Seq<T>)
    ensures
        submit_all(v, units).workers == v.workers,
        submit_all(v, units).msgs.len() == v.msgs.len() + units.len(),
        forall|i: int|
            0 <= i < v.msgs.len() ==> #[trigger] submit_all(v, units).msgs[i] == v.msgs[i],
        forall|i: int|
            0 <= i < units.len()
                ==> submit_all(v, units).msgs[v.msgs.len() + i] == Message::Work(#[trigger] units[i]),
    decreases units.len(),
{
    if units.len() > 0 {
        lemma_fifo_per_producer(submit_step(v, units[0]), units.drop_first());
        assert forall|i: int| 0 <= i < units.len() implies
            submit_all(v, units).msgs[v.msgs.len() + i] == Message::Work(#[trigger] units[i]) by {
            if i > 0 {
                assert(units.drop_first()[i - 1] == units[i]);
            }
        }
    }
}

/// The pool state after worker `w`, dequeuing alone, has taken `k` messages
/// from the queue and completed every unit among them.
pub open spec fn dispatch_k<T>(v: PoolView<T>, w: int, k: nat) -> PoolView<T>
    decreases k,
{
    if k == 0 {
        v
    } else {
        dispatch_k(dispatch_step(v, w, UnitOutcome::Completed), w, (k - 1) as nat)
    }
}

/// A worker that dequeues `k` work messages in a row, completing each unit,
/// consumes exactly the first `k` messages of the queue and is still running
/// afterwards; no other worker is touched.
pub proof fn lemma_dispatch_k_consumes_prefix<T>(v: PoolView<T>, w: int, k: nat)
    requires
        k <= v.msgs.len(),
        0 <= w < v.workers.len(),
        v.workers[w] is Running,
        forall|i: int| 0 <= i < k ==> v.msgs[i] is Work,
    ensures
        dispatch_k(v, w, k).msgs =~= v.msgs.skip(k as int),
        dispatch_k(v, w, k).workers =~= v.workers,
    decreases k,
{
    if k > 0 {
        let v1 = dispatch_step(v, w, UnitOutcome::Completed);
        assert(forall|i: int| 0 <= i < k - 1 ==> #[trigger] v1.msgs[i] == v.msgs[i + 1]);
        assert(v1.workers =~= v.workers);
        lemma_dispatch_k_consumes_prefix(v1, w, (k - 1) as nat);
        assert(v.msgs.drop_first().skip(k - 1) =~= v.msgs.skip(k as int));
    }
}

/// FIFO per producer, end to end: on a single-worker pool that one producer
/// has filled with `units` in order, the `k`-th message the worker dequeues —
/// the one at the front after it has completed `k` units — is exactly
/// `units[k]`. The units therefore run in submission order.
pub proof fn lemma_single_worker_runs_in_order<T>(units: Seq<T>, k: int)
    requires
        0 <= k < units.len(),
    ensures
        dispatch_k(submit_all(init_view::<T>(1), units), 0, k as nat).msgs[0]
            == Message::Work(units[k]),
{
    let v = submit_all(init_view::<T>(1), units);
    lemma_fifo_per_producer(init_view::<T>(1), units);
    assert forall|i: int| 0 <= i < k implies v.msgs[i] is Work by {
        assert(v.msgs[0 + i] == Message::Work(units[i]));
    }
    lemma_dispatch_k_consumes_prefix(v, 0, k as nat);
    assert(v.msgs.skip(k)[0] == v.msgs[k]);
}

/// No lost terminate: shutdown enqueues exactly one terminate message per
/// worker — stopped and crashed ones included — so the queue then carries at
/// least one terminate for every worker still running.
pub proof fn lemma_teardown_supplies_every_worker<T>(v: PoolView<T>)
    ensures
        num_terminates(teardown_step(v).msgs) == num_terminates(v.msgs) + v.workers.len(),
        num_terminates(teardown_step(v).msgs) >= num_running(teardown_step(v).workers),
{
    lemma_num_terminates_append_batch::<T>(v.msgs, v.workers.len());
    lemma_num_running_le_len(v.workers);
}

/// The shutdown supply is never lost: once the queue holds at least as many
/// terminate signals as there are running workers, every delivery leaves it
/// so. A terminate delivery retires one terminate and one running worker
/// together; a work delivery retires no terminate and at most one running
/// worker (by crashing it).
pub proof fn lemma_dispatch_preserves_supply<T>(v: PoolView<T>, w: int, outcome: UnitOutcome)
    requires
        0 <= w < v.workers.len(),
        v.workers[w] is Running,
        v.msgs.len() > 0,
        num_terminates(v.msgs) >= num_running(v.workers),
    ensures
        num_terminates(dispatch_step(v, w, outcome).msgs)
            >= num_running(dispatch_step(v, w, outcome).workers),
{
    lemma_num_terminates_drop_first(v.msgs);
    lemma_num_running_update(v.workers, w, next_status(v.msgs[0], outcome));
}

/// Graceful shutdown makes progress: a worker that dequeues a terminate stops
/// — exactly that worker, exactly then — and the running count goes down by
/// one. A stopped worker never dequeues again, so every worker stops exactly
/// once and shutdown's join phase ends after finitely many deliveries.
pub proof fn lemma_terminate_stops_exactly_one<T>(v: PoolView<T>, w: int, outcome: UnitOutcome)
    requires
        0 <= w < v.workers.len(),
        v.workers[w] is Running,
        v.msgs.len() > 0,
        v.msgs[0] is Terminate,
    ensures
        dispatch_step(v, w, outcome).workers[w] is Stopped,
        forall|j: int|
            0 <= j < v.workers.len() && j != w
                ==> dispatch_step(v, w, outcome).workers[j] == v.workers[j],
        num_running(dispatch_step(v, w, outcome).workers) + 1 == num_running(v.workers),
{
    lemma_num_running_update(v.workers, w, next_status(v.msgs[0], outcome));
}

/// No worker waits forever during shutdown: while any worker still runs under
/// the shutdown supply, the queue is not empty, so a running worker blocked
/// on the queue always has a message to dequeue and teardown cannot hang.
pub proof fn lemma_running_worker_finds_message<T>(v: PoolView<T>)
    requires
        num_terminates(v.msgs) >= num_running(v.workers),
        num_running(v.workers) > 0,
    ensures
        v.msgs.len() > 0,
{
    lemma_num_terminates_le_len(v.msgs);
}

} // verus!
