use recall_loader::pool::{Submission, WorkerPool, WorkerStep};

#[test]
fn in_flight_never_exceeds_workers() {
    for workers in 1..5usize {
        let mut pool = WorkerPool::new(workers, 100);
        for i in 0..50 {
            assert_eq!(pool.submit(format!("k{}", i)), Submission::Queued);
        }
        let mut running = 0;
        for w in 0..workers {
            assert!(matches!(pool.next(w), WorkerStep::Run(_)));
            running += 1;
            assert!(pool.in_flight_count() <= workers);
        }
        assert_eq!(pool.in_flight_count(), running);
        assert_eq!(pool.in_flight_count(), workers);
    }
}

#[test]
fn full_queue_hands_item_back() {
    let mut pool = WorkerPool::new(1, 2);
    assert_eq!(pool.submit("a".to_string()), Submission::Queued);
    assert_eq!(pool.submit("b".to_string()), Submission::Queued);
    assert_eq!(pool.submit("c".to_string()), Submission::Full("c".to_string()));
    assert_eq!(pool.next(0), WorkerStep::Run("a".to_string()));
    assert_eq!(pool.submit("c".to_string()), Submission::Queued);
}

#[test]
fn close_drains_queue_before_exit() {
    let mut pool = WorkerPool::new(2, 10);
    pool.submit("a".to_string());
    pool.submit("b".to_string());
    pool.submit("c".to_string());
    pool.close();
    assert_eq!(pool.submit("d".to_string()), Submission::Closed("d".to_string()));
    let mut done = Vec::new();
    loop {
        match pool.next(0) {
            WorkerStep::Run(k) => {
                done.push(k);
                pool.finish(0);
            }
            WorkerStep::Exit => break,
            WorkerStep::Wait => panic!("closed pool made a worker wait"),
        }
    }
    assert_eq!(done, vec!["a".to_string(), "b".to_string(), "c".to_string()]);
    assert_eq!(pool.next(1), WorkerStep::Exit);
    assert!(pool.is_drained());
}

#[test]
fn open_empty_pool_makes_workers_wait() {
    let mut pool = WorkerPool::new(3, 1);
    assert_eq!(pool.next(2), WorkerStep::Wait);
    assert!(!pool.is_drained());
}
