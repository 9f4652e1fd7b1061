use std::time::Duration;

use crossbeam_channel::unbounded;

use simple_thread_pool::error::FailedToSendJob;
use simple_thread_pool::ThreadPool;

/// Two jobs on a pool of two workers rendezvous with each other: each
/// announces itself and then blocks until the test releases it, so both
/// announcements can only arrive if the jobs run concurrently.
#[test]
fn jobs_run_in_parallel() {
    let pool = ThreadPool::new(2).unwrap();
    let (ready_send, ready_recv) = unbounded();
    let (go_send, go_recv) = unbounded();

    for _ in 0..2 {
        let ready = ready_send.clone();
        let go = go_recv.clone();
        pool.execute(move || {
            ready.send(1).unwrap();
            go.recv().unwrap();
        })
        .unwrap();
    }

    assert_eq!(ready_recv.recv_timeout(Duration::from_secs(10)).unwrap(), 1);
    assert_eq!(ready_recv.recv_timeout(Duration::from_secs(10)).unwrap(), 1);
    go_send.send(2).unwrap();
    go_send.send(2).unwrap();

    let mut pool = pool;
    let report = pool.shutdown();
    assert_eq!(report.joined, 2);
    assert_eq!(report.failed, 0);
}

/// After disposal the pool is permanently dead: every `execute` reports
/// `FailedToSendJob`, and none of them panics or is silently swallowed.
#[test]
fn execute_after_shutdown_fails() {
    let (send, _recv) = unbounded();
    let mut pool = ThreadPool::new(2).unwrap();
    pool.shutdown();

    for _ in 0..3 {
        let send = send.clone();
        let outcome = pool.execute(move || {
            send.send(40).unwrap();
        });
        assert_eq!(outcome, Err(FailedToSendJob));
    }
}

/// A pool built with zero workers is accepted, but nothing will ever
/// consume from its queue, so every `execute` fails with `FailedToSendJob`.
#[test]
fn zero_worker_pool_rejects_every_job() {
    let pool = ThreadPool::new(0).unwrap();

    for _ in 0..2 {
        let outcome = pool.execute(|| {});
        assert_eq!(outcome, Err(FailedToSendJob));
    }

    let mut pool = pool;
    let report = pool.shutdown();
    assert_eq!(report.terminates_sent, 0);
    assert_eq!(report.joined, 0);
    assert_eq!(report.failed, 0);
}

/// Disposal joins every worker exactly once; a second disposal finds no
/// workers left and is a no-op.
#[test]
fn shutdown_twice_is_noop() {
    let mut pool = ThreadPool::new(3).unwrap();
    let _ = pool.execute(|| {});

    let first = pool.shutdown();
    assert_eq!(first.terminates_sent, 3);
    assert_eq!(first.joined, 3);
    assert_eq!(first.failed, 0);

    let second = pool.shutdown();
    assert_eq!(second.terminates_sent, 0);
    assert_eq!(second.joined, 0);
    assert_eq!(second.failed, 0);
}

/// Jobs queued before disposal are delivered before the `Terminate`
/// messages: per-producer FIFO ordering lets an already-queued job still
/// run.
#[test]
fn queued_job_runs_before_termination() {
    let pool = ThreadPool::new(1).unwrap();
    let (send, recv) = unbounded();

    pool.execute(move || {
        send.send(40).unwrap();
    })
    .unwrap();

    let mut pool = pool;
    let report = pool.shutdown();
    assert_eq!(report.joined, 1);
    assert_eq!(report.failed, 0);
    assert_eq!(recv.recv_timeout(Duration::from_secs(10)).unwrap(), 40);
}
