use simple_threadpool::pool::PoolError;
use simple_threadpool::pool::StepOutcome;
use simple_threadpool::pool::ThreadPool;

#[test]
fn create_thread_pool() {
    let pool = ThreadPool::new(4);
    assert!(pool.is_ok());
}

#[test]
fn spawn_jobs() {
    let mut pool = ThreadPool::new(2).expect("Failed to create ThreadPool");
    let mut counter: u64 = 0;

    for i in 0..10 {
        pool.spawn(i);
    }

    // Step a worker until every queued job has run.
    while pool.pending_jobs() > 0 {
        match pool.worker_step(0) {
            StepOutcome::Executed(_) => counter += 1,
            _ => {}
        }
    }

    assert_eq!(counter, 10);
}

#[test]
fn drop_thread_pool() {
    let mut pool = ThreadPool::new(3).expect("Failed to create ThreadPool");

    // No assertion on the log; teardown stands for the drop and must return
    // with every worker joined.
    pool.teardown();
}

#[test]
fn construct_positive_counts() {
    for n in [1u32, 2, 8] {
        let pool = ThreadPool::new(n).expect("a positive worker count must be accepted");
        assert_eq!(pool.worker_count(), n as usize);
        assert_eq!(pool.running_workers(), n as usize);
        assert!(!pool.is_shut_down());
        assert_eq!(pool.pending_jobs(), 0);
        assert_eq!(pool.executed_count(), 0);
    }
}

#[test]
fn construct_zero_rejected() {
    let r = ThreadPool::new(0);
    assert_eq!(r.err(), Some(PoolError::InvalidConfiguration));
}

#[test]
fn jobs_run_in_submission_order() {
    let mut pool = ThreadPool::new(1).expect("Failed to create ThreadPool");
    pool.spawn(5);
    pool.spawn(6);
    pool.spawn(7);
    assert_eq!(pool.worker_step(0), StepOutcome::Executed(5));
    assert_eq!(pool.worker_step(0), StepOutcome::Executed(6));
    assert_eq!(pool.worker_step(0), StepOutcome::Executed(7));
    assert_eq!(pool.executed_count(), 3);
    assert_eq!(pool.executed_ticket(0), 5);
    assert_eq!(pool.executed_ticket(1), 6);
    assert_eq!(pool.executed_ticket(2), 7);
}

#[test]
fn worker_parks_on_empty_queue() {
    let mut pool = ThreadPool::new(1).expect("Failed to create ThreadPool");
    assert_eq!(pool.worker_step(0), StepOutcome::Parked);
    assert_eq!(pool.running_workers(), 1);
}

#[test]
fn shutdown_queues_one_wakeup_per_worker() {
    let mut pool = ThreadPool::new(3).expect("Failed to create ThreadPool");
    pool.shutdown();
    assert!(pool.is_shut_down());
    assert_eq!(pool.pending_jobs(), 3);
    // The wake-ups release the workers; the next flag check stops each one.
    assert_eq!(pool.worker_step(0), StepOutcome::Stopped);
    assert_eq!(pool.running_workers(), 2);
}

#[test]
fn scenario_counter_jobs() {
    // Four workers, ten jobs that each bump a counter, then shutdown and
    // teardown: every job has run exactly once.
    let mut pool = ThreadPool::new(4).expect("Failed to create ThreadPool");
    let mut counter: u64 = 0;
    for i in 0..10 {
        pool.spawn(i);
    }
    let mut w = 0;
    while pool.pending_jobs() > 0 {
        if let StepOutcome::Executed(_) = pool.worker_step(w) {
            counter += 1;
        }
        w = (w + 1) % 4;
    }
    pool.shutdown();
    pool.teardown();
    assert_eq!(counter, 10);
    assert_eq!(pool.executed_count(), 10);
    for i in 0..10 {
        assert_eq!(pool.executed_ticket(i as usize), i);
    }
}

#[test]
fn scenario_shutdown_with_job_in_flight() {
    // Two workers; one slow job is taken before shutdown begins. The job in
    // flight runs to completion; a job submitted after shutdown never runs.
    let mut pool = ThreadPool::new(2).expect("Failed to create ThreadPool");
    pool.spawn(1);
    let taken = pool.worker_step(0);
    assert_eq!(taken, StepOutcome::Executed(1));
    pool.shutdown();
    pool.spawn(2);
    pool.teardown();
    assert_eq!(pool.executed_count(), 1);
    assert_eq!(pool.executed_ticket(0), 1);
    assert_eq!(pool.running_workers(), 0);
}

#[test]
fn scenario_teardown_without_shutdown() {
    // Dropping the pool without submitting anything and without an explicit
    // shutdown: teardown raises the flag itself and returns promptly.
    let mut pool = ThreadPool::new(3).expect("Failed to create ThreadPool");
    pool.teardown();
    assert!(pool.is_shut_down());
    assert_eq!(pool.running_workers(), 0);
    assert_eq!(pool.pending_jobs(), 0);
    assert_eq!(pool.executed_count(), 0);
}

#[test]
fn submission_after_shutdown_is_dropped() {
    let mut pool = ThreadPool::new(2).expect("Failed to create ThreadPool");
    pool.shutdown();
    let pending = pool.pending_jobs();
    pool.spawn(9);
    assert_eq!(pool.pending_jobs(), pending);
    pool.teardown();
    assert_eq!(pool.executed_count(), 0);
}

#[test]
fn queued_jobs_discarded_at_teardown() {
    // Jobs still unconsumed when shutdown begins are never executed.
    let mut pool = ThreadPool::new(2).expect("Failed to create ThreadPool");
    pool.spawn(41);
    pool.spawn(42);
    pool.shutdown();
    pool.teardown();
    assert_eq!(pool.executed_count(), 0);
    assert_eq!(pool.pending_jobs(), 0);
}
