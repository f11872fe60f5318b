use worker_pool::pool::Pool;
use worker_pool::worker::{UnitOutcome, WorkerStatus};

#[test]
fn construction_yields_all_workers_running() {
    let p: Pool<u32> = Pool::new(4);
    assert_eq!(p.worker_count(), 4);
    assert_eq!(p.queue_len(), 0);
    for w in 0..4 {
        assert_eq!(p.status(w), WorkerStatus::Running);
    }
    assert!(!p.all_exited());
}

#[test]
fn single_worker_pool_has_one_worker() {
    let p: Pool<u32> = Pool::new(1);
    assert_eq!(p.worker_count(), 1);
    assert_eq!(p.status(0), WorkerStatus::Running);
}

#[test]
fn counter_scenario_runs_every_unit() {
    let mut p: Pool<u32> = Pool::new(4);
    for i in 0..100u32 {
        p.execute(i);
    }
    assert_eq!(p.queue_len(), 100);
    let mut counter: usize = 0;
    let mut w: usize = 0;
    while p.queue_len() > 0 {
        if p.dispatch(w, UnitOutcome::Completed).is_some() {
            counter += 1;
        }
        w = (w + 1) % 4;
    }
    p.begin_teardown();
    assert_eq!(p.queue_len(), 4);
    for w in 0..4 {
        assert!(p.dispatch(w, UnitOutcome::Completed).is_none());
    }
    assert!(p.all_exited());
    assert_eq!(counter, 100);
}

#[test]
fn single_worker_runs_units_in_submission_order() {
    let mut p: Pool<&'static str> = Pool::new(1);
    p.execute("A");
    p.execute("B");
    let mut recorded: Vec<&'static str> = Vec::new();
    recorded.push(p.dispatch(0, UnitOutcome::Completed).unwrap());
    recorded.push(p.dispatch(0, UnitOutcome::Completed).unwrap());
    assert_eq!(recorded, vec!["A", "B"]);
}

#[test]
fn teardown_sends_one_terminate_per_worker_and_stops_each_once() {
    let mut p: Pool<u32> = Pool::new(3);
    p.begin_teardown();
    assert_eq!(p.queue_len(), 3);
    for w in 0..3 {
        assert_eq!(p.status(w), WorkerStatus::Running);
        assert!(p.dispatch(w, UnitOutcome::Completed).is_none());
        assert_eq!(p.status(w), WorkerStatus::Stopped);
    }
    assert_eq!(p.queue_len(), 0);
    assert!(p.all_exited());
}

#[test]
fn faulting_unit_crashes_only_its_worker() {
    let mut p: Pool<u32> = Pool::new(2);
    p.execute(1);
    assert_eq!(p.dispatch(0, UnitOutcome::Faulted), Some(1));
    assert_eq!(p.status(0), WorkerStatus::Crashed);
    assert_eq!(p.status(1), WorkerStatus::Running);

    // The surviving worker still accepts and runs later submissions.
    p.execute(2);
    p.execute(3);
    assert_eq!(p.dispatch(1, UnitOutcome::Completed), Some(2));
    assert_eq!(p.dispatch(1, UnitOutcome::Completed), Some(3));
    assert_eq!(p.status(1), WorkerStatus::Running);

    // Teardown still sends one terminate per worker; the crashed worker's
    // terminate is left in the queue, the live worker stops, and no thread
    // is left running.
    p.begin_teardown();
    assert_eq!(p.queue_len(), 2);
    assert!(p.dispatch(1, UnitOutcome::Completed).is_none());
    assert_eq!(p.status(1), WorkerStatus::Stopped);
    assert_eq!(p.queue_len(), 1);
    assert!(p.all_exited());
}

#[test]
fn work_queued_behind_terminates_is_abandoned() {
    let mut p: Pool<u32> = Pool::new(1);
    p.begin_teardown();
    p.execute(42);
    assert!(p.dispatch(0, UnitOutcome::Completed).is_none());
    assert_eq!(p.status(0), WorkerStatus::Stopped);
    assert!(p.all_exited());
    // The unit submitted after teardown began never ran and never will.
    assert_eq!(p.queue_len(), 1);
}
