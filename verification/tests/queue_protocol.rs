use worker_pool::message::{into_unit, work_message, Message};
use worker_pool::queue::{terminate_batch, WorkQueue};

#[test]
fn work_message_wraps_the_unit() {
    let m = work_message(17u32);
    assert!(matches!(m, Message::Work(17)));
    assert_eq!(into_unit(m), Some(17));
}

#[test]
fn terminate_carries_no_unit() {
    let m: Message<u32> = Message::Terminate;
    assert_eq!(into_unit(m), None);
}

#[test]
fn queue_is_fifo() {
    let mut q: WorkQueue<u32> = WorkQueue::new();
    assert_eq!(q.len(), 0);
    assert!(q.recv().is_none());
    for i in 0..10u32 {
        q.send(Message::Work(i));
    }
    assert_eq!(q.len(), 10);
    for i in 0..10u32 {
        assert_eq!(into_unit(q.recv().unwrap()), Some(i));
    }
    assert_eq!(q.len(), 0);
    assert!(q.recv().is_none());
}

#[test]
fn queue_interleaves_sends_and_recvs_in_order() {
    let mut q: WorkQueue<u32> = WorkQueue::new();
    q.send(Message::Work(1));
    q.send(Message::Work(2));
    assert_eq!(into_unit(q.recv().unwrap()), Some(1));
    q.send(Message::Work(3));
    assert_eq!(into_unit(q.recv().unwrap()), Some(2));
    assert_eq!(into_unit(q.recv().unwrap()), Some(3));
}

#[test]
fn terminate_batch_holds_one_terminate_per_worker() {
    let batch: Vec<Message<u32>> = terminate_batch(5);
    assert_eq!(batch.len(), 5);
    for m in batch {
        assert!(matches!(m, Message::Terminate));
    }
    let empty: Vec<Message<u32>> = terminate_batch(0);
    assert_eq!(empty.len(), 0);
}
