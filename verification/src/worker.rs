//! The worker state machine.

use vstd::prelude::*;
use crate::message::Message;

verus! {

/// What has become of one worker's thread.
///
/// A worker starts `Running`, and `Running` is the only state in which it
/// dequeues. Dequeuing the terminate signal moves it to `Stopped`; a work unit
/// that faults kills the thread, written `Crashed`. Both are terminal: a
/// stopped or crashed worker never dequeues again, and the pool never replaces
/// it, so a crash permanently shrinks effective capacity.
#[derive(Clone, Copy, Debug, PartialEq, Eq, Structural)]
pub enum WorkerStatus {
    Running,
    Stopped,
    Crashed,
}

/// How running one work unit went: normal completion, or an unhandled fault,
/// which the worker loop deliberately does not catch.
#[derive(Clone, Copy, Debug, PartialEq, Eq, Structural)]
pub enum UnitOutcome {
    Completed,
    Faulted,
}

/// The status a running worker is left in after it dequeues `m` and, where `m`
/// carries a work unit, runs it with outcome `outcome`.
pub open spec fn next_status<T>(m: Message<T>, outcome: UnitOutcome) -> WorkerStatus {
    match m {
        Message::Work(_) => match outcome {
            UnitOutcome::Completed => WorkerStatus::Running,
            UnitOutcome::Faulted => WorkerStatus::Crashed,
        },
        Message::Terminate => WorkerStatus::Stopped,
    }
}

/// One transition of the worker state machine.
///
/// Only a running worker ever dequeues — `Stopped` and `Crashed` are terminal,
/// which is what the precondition encodes. On a work message the worker runs
/// the unit and either keeps running or crashes with it; on the terminate
/// signal it stops, whatever `outcome` says.
pub fn worker_step<T>(status: WorkerStatus, m: &Message<T>, outcome: UnitOutcome) -> (next: WorkerStatus)
    requires
        status is Running,
    ensures
        next == next_status(*m, outcome),
{
    match m {
        Message::Work(_) => match outcome {
            UnitOutcome::Completed => WorkerStatus::Running,
            UnitOutcome::Faulted => WorkerStatus::Crashed,
        },
        Message::Terminate => WorkerStatus::Stopped,
    }
}

} // verus!
