//! The message protocol between producers and workers.

use vstd::prelude::*;

verus! {

/// One message on the work queue: either a work unit to run, or the terminate
/// signal that tells the worker which dequeues it to stop its loop.
///
/// The unit type `T` stands for the run-once callable of the real pool; the
/// model never calls it, it only routes it, so any payload type will do.
pub enum Message<T> {
    Work(T),
    Terminate,
}

/// Wraps one work unit in a message, exactly as submission does.
pub fn work_message<T>(unit: T) -> (m: Message<T>)
    ensures
        m == Message::Work(unit),
{
    Message::Work(unit)
}

/// The decision a worker takes on one dequeued message: hand back the unit it
/// must run, or nothing for the terminate signal, on which the worker exits
/// its loop.
pub fn into_unit<T>(m: Message<T>) -> (r: Option<T>)
    ensures
        m matches Message::Work(u) ==> r == Some(u),
        m is Terminate ==> r is None,
{
    match m {
        Message::Work(u) => Some(u),
        Message::Terminate => None,
    }
}

} // verus!
