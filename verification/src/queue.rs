//! The work queue: the single ordered channel from producers to workers.
//!
//! The real pool uses an internally synchronized channel whose consuming end
//! sits behind a mutual-exclusion gate, so that each dequeue is indivisible.
//! This model captures the behaviour that gate buys: one logical FIFO
//! sequence of messages, appended to by `send` and consumed from the front,
//! one whole message at a time, by `recv`.

use vstd::prelude::*;
use crate::message::Message;

verus! {

/// The batch of messages shutdown sends for `n` workers: `n` terminate
/// signals.
pub open spec fn terminate_batch_view<T>(n: nat) -> Seq<Message<T>> {
    Seq::new(n, |i: int| Message::Terminate)
}

/// Builds the shutdown batch for a pool of `n` workers: exactly `n` terminate
/// messages, one per worker, no more and no fewer.
pub fn terminate_batch<T>(n: usize) -> (v: Vec<Message<T>>)
    ensures
        v@ == terminate_batch_view::<T>(n as nat),
        v@.len() == n,
        forall|i: int| 0 <= i < n ==> v@[i] is Terminate,
{
    let mut v: Vec<Message<T>> = Vec::new();
    let mut i: usize = 0;
    while i < n
        invariant
            i <= n,
            v@ == terminate_batch_view::<T>(i as nat),
        decreases n - i,
    {
        v.push(Message::Terminate);
        i = i + 1;
        proof {
            assert(v@ =~= terminate_batch_view::<T>(i as nat));
        }
    }
    v
}

/// How many terminate signals a message sequence holds.
pub open spec fn num_terminates<T>(s: Seq<Message<T>>) -> nat
    decreases s.len(),
{
    if s.len() == 0 {
        0
    } else {
        num_terminates(s.drop_last()) + if s.last() is Terminate { 1nat } else { 0nat }
    }
}

/// Dequeuing the front message retires its contribution to the terminate
/// count and nothing else.
pub proof fn lemma_num_terminates_drop_first<T>(s: Seq<Message<T>>)
    requires
        s.len() > 0,
    ensures
        num_terminates(s.drop_first()) + (if s[0] is Terminate { 1nat } else { 0nat })
            == num_terminates(s),
    decreases s.len(),
{
    if s.len() == 1 {
        assert(s.drop_first() =~= Seq::<Message<T>>::empty());
        assert(s.drop_last() =~= Seq::<Message<T>>::empty());
    } else {
        assert(s.drop_first().drop_last() =~= s.drop_last().drop_first());
        lemma_num_terminates_drop_first(s.drop_last());
    }
}

/// Appending the shutdown batch raises the terminate count by exactly the
/// batch's size.
pub proof fn lemma_num_terminates_append_batch<T>(s: Seq<Message<T>>, n: nat)
    ensures
        num_terminates(s + terminate_batch_view::<T>(n)) == num_terminates(s) + n,
    decreases n,
{
    if n == 0 {
        assert(s + terminate_batch_view::<T>(0) =~= s);
    } else {
        assert((s + terminate_batch_view::<T>(n)).drop_last()
            =~= s + terminate_batch_view::<T>((n - 1) as nat));
        lemma_num_terminates_append_batch(s, (n - 1) as nat);
    }
}

/// A sequence holds no more terminate signals than messages.
pub proof fn lemma_num_terminates_le_len<T>(s: Seq<Message<T>>)
    ensures
        num_terminates(s) <= s.len(),
    decreases s.len(),
{
    if s.len() > 0 {
        lemma_num_terminates_le_len(s.drop_last());
    }
}

/// The multi-producer, single-logical-consumer queue of messages, viewed as
/// the sequence of messages it currently holds, oldest first.
pub struct WorkQueue<T> {
    msgs: Vec<Message<T>>,
}

impl<T> View for WorkQueue<T> {
    type V = Seq<Message<T>>;

    closed spec fn view(&self) -> Seq<Message<T>> {
        self.msgs@
    }
}

impl<T> WorkQueue<T> {
    /// A fresh, empty queue, as pool construction creates it.
    pub fn new() -> (q: WorkQueue<T>)
        ensures
            q@ == Seq::<Message<T>>::empty(),
    {
        WorkQueue { msgs: Vec::new() }
    }

    /// Enqueues one message at the back. Never blocks on worker availability:
    /// the queue is unbounded.
    pub fn send(&mut self, m: Message<T>)
        ensures
            final(self)@ == old(self)@.push(m),
    {
        self.msgs.push(m);
    }

    /// Dequeues the oldest message, or reports an empty queue.
    ///
    /// The real consuming end blocks while the queue is empty; the model
    /// returns `None` there instead, so a scheduler driving it can decide to
    /// wait. A delivered message leaves the queue in the same indivisible
    /// step, so no message is ever delivered twice.
    pub fn recv(&mut self) -> (r: Option<Message<T>>)
        ensures
            old(self)@.len() == 0 ==> r is None && final(self)@ == old(self)@,
            old(self)@.len() > 0 ==> r == Some(old(self)@[0]) && final(self)@ == old(self)@.drop_first(),
    {
        if self.msgs.len() == 0 {
            None
        } else {
            let m = self.msgs.remove(0);
            proof {
                assert(self.msgs@ =~= old(self)@.drop_first());
            }
            Some(m)
        }
    }

    /// How many messages are waiting.
    pub fn len(&self) -> (n: usize)
        ensures
            n == self@.len(),
    {
        self.msgs.len()
    }
}

} // verus!
