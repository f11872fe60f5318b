use worker_pool::message::Message;
use worker_pool::worker::{worker_step, UnitOutcome, WorkerStatus};

#[test]
fn running_worker_keeps_running_after_a_completed_unit() {
    let next = worker_step(WorkerStatus::Running, &Message::Work(1u32), UnitOutcome::Completed);
    assert_eq!(next, WorkerStatus::Running);
}

#[test]
fn running_worker_crashes_with_a_faulting_unit() {
    let next = worker_step(WorkerStatus::Running, &Message::Work(1u32), UnitOutcome::Faulted);
    assert_eq!(next, WorkerStatus::Crashed);
}

#[test]
fn running_worker_stops_on_terminate() {
    let next = worker_step(
        WorkerStatus::Running,
        &Message::<u32>::Terminate,
        UnitOutcome::Completed,
    );
    assert_eq!(next, WorkerStatus::Stopped);
}
