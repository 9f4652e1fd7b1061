pub mod error;
pub mod message;
pub mod transport;
pub mod worker;

use vstd::prelude::*;

use crate::error::{FailedToSendJob, FailedToSpawnThread};
use crate::message::{Job, Message};
use crate::worker::Worker;
use crossbeam_channel::{unbounded, Receiver, SendError, Sender};

verus! {

/// A fixed-size worker thread pool: jobs handed to [`ThreadPool::execute`]
/// are wrapped in a [`Message`] and pushed onto an unbounded
/// multi-producer/multi-consumer queue, from which exactly one idle worker
/// dequeues and runs each of them.
///
/// `J` is the type of the jobs this pool runs: a zero-argument callable,
/// each value invoked exactly once by one worker.
///
/// The worker count is fixed at construction. The pool must be disposed of
/// with [`ThreadPool::shutdown`], which tells every worker to exit and then
/// joins its thread; dropping the pool without calling it leaks the worker
/// threads, which remain parked on the queue forever.
#[verifier::reject_recursive_types(J)]
pub struct ThreadPool<J> where J: FnOnce() {
    sender: Sender<Message<Job<J>>>,
    workers: Vec<Worker>,
}

/// What [`ThreadPool::shutdown`] observed while tearing the pool down.
#[derive(Debug, Clone, Copy, PartialEq, Eq, Structural)]
pub struct ShutdownReport {
    /// How many `Terminate` messages were enqueued: one per worker.
    pub terminates_sent: usize,
    /// How many worker threads were joined: every worker that still held
    /// its thread handle, each exactly once.
    pub joined: usize,
    /// How many of the joined threads had terminated abnormally, because a
    /// job failed catastrophically inside them.
    pub failed: usize,
}

impl<J: FnOnce() + Send + 'static> ThreadPool<J> {
    /// The number of workers this pool still owns.
    pub closed spec fn worker_count(&self) -> int {
        self.workers.len() as int
    }

    /// Well-formedness: every worker the pool owns still holds its thread
    /// handle. Construction establishes this and only
    /// [`ThreadPool::shutdown`] takes the handles away, together with the
    /// workers themselves.
    pub closed spec fn wf(&self) -> bool {
        forall|k: int|
            0 <= k < self.workers.len() ==> (#[trigger] self.workers@[k]).is_running()
    }

    /// Creates a new [`ThreadPool`] with `worker` worker threads, each
    /// bound to a cloned handle onto the shared consumer side of one
    /// unbounded queue.
    ///
    /// Construction never reports [`FailedToSpawnThread`]: the thread
    /// primitive used here aborts the whole process when the OS refuses to
    /// create a thread. The `Result` shape is kept so that callers match on
    /// construction the same way regardless of the spawn primitive behind
    /// it.
    ///
    /// A pool of zero workers is accepted; no worker will ever consume from
    /// its queue, so every subsequent [`ThreadPool::execute`] on it fails
    /// with [`FailedToSendJob`].
    pub fn new(worker: usize) -> (result: Result<ThreadPool<J>, FailedToSpawnThread>)
        ensures
            result is Ok,
            result matches Ok(pool) ==> pool.wf() && pool.worker_count() == worker,
    {
        let (sender, receiver): (Sender<Message<Job<J>>>, Receiver<Message<Job<J>>>) = unbounded();
        let mut workers: Vec<Worker> = Vec::new();
        let mut spawned: usize = 0;
        while spawned < worker
            invariant
                spawned <= worker,
                workers.len() == spawned,
                forall|k: int| 0 <= k < workers.len() ==> (#[trigger] workers@[k]).is_running(),
            decreases worker - spawned,
        {
            let worker_receiver = receiver.clone();
            workers.push(Worker::new(worker_receiver));
            spawned = spawned + 1;
        }
        Ok(ThreadPool { sender, workers })
    }

    /// Hands a job to the pool: wraps it in a `NewJob` message and pushes
    /// it onto the queue, from which exactly one idle worker will dequeue
    /// and run it. Never blocks: the queue is unbounded.
    ///
    /// Success only guarantees that the job was enqueued, not that it will
    /// run. The call fails with [`FailedToSendJob`] exactly when no
    /// consumer side remains that could ever take the job: the pool was
    /// built with zero workers, or it has been shut down, or every worker
    /// thread has died. The job is never silently dropped: whenever it
    /// cannot be enqueued, the caller is told so by the error.
    pub fn execute(&self, job: J) -> (result: Result<(), FailedToSendJob>)
        requires
            call_requires(job, ()),
        ensures
            self.worker_count() == 0 ==> result is Err,
            result is Ok ==> self.worker_count() > 0,
    {
        if self.workers.len() == 0 {
            return Err(FailedToSendJob);
        }
        let outcome = self.sender.send(Message::NewJob(Job::package(job)));
        fold_send_outcome(outcome)
    }

    /// Disposes of the pool: enqueues exactly one `Terminate` message per
    /// worker, then joins every worker's thread in pool-creation order,
    /// blocking until all have exited. A worker thread that terminated
    /// abnormally is surfaced in the report's `failed` count rather than
    /// silently ignored; joining never deadlocks on it.
    ///
    /// Every worker is joined exactly once and then given up, so the pool
    /// is left empty: a second call finds no workers, sends nothing, joins
    /// nothing, and is a no-op.
    pub fn shutdown(&mut self) -> (report: ShutdownReport)
        ensures
            final(self).worker_count() == 0,
            final(self).wf(),
            report.terminates_sent == old(self).worker_count(),
            report.joined <= old(self).worker_count(),
            old(self).wf() ==> report.joined == old(self).worker_count(),
            report.failed <= report.joined,
    {
        let count = self.workers.len();
        let mut sent: usize = 0;
        while sent < count
            invariant
                sent <= count,
                self.workers == old(self).workers,
                self.sender == old(self).sender,
                count == old(self).worker_count(),
            decreases count - sent,
        {
            let _ = self.sender.send(Message::Terminate);
            sent = sent + 1;
        }
        let mut joined: usize = 0;
        let mut failed: usize = 0;
        while self.workers.len() > 0
            invariant
                count == old(self).worker_count(),
                self.workers.len() <= count,
                joined <= count - self.workers.len(),
                failed <= joined,
                old(self).wf() ==> joined == count - self.workers.len(),
                old(self).wf() ==> forall|k: int|
                    0 <= k < self.workers.len() ==> (#[trigger] self.workers@[k]).is_running(),
            decreases self.workers.len(),
        {
            let mut worker = self.workers.remove(0);
            if let Some(handle) = worker.take_thread() {
                joined = joined + 1;
                match handle.join() {
                    Ok(_) => {},
                    Err(_) => {
                        failed = failed + 1;
                    },
                }
            }
        }
        ShutdownReport { terminates_sent: sent, joined, failed }
    }
}

/// Folds the transport's account of a push into the pool's own error type:
/// a success stays a success, a rejected message becomes
/// [`FailedToSendJob`], whatever the message was.
pub fn fold_send_outcome<T>(outcome: Result<(), SendError<T>>) -> (result: Result<
    (),
    FailedToSendJob,
>)
    ensures
        result is Ok <==> outcome is Ok,
{
    match outcome {
        Ok(_) => Ok(()),
        Err(_) => Err(FailedToSendJob),
    }
}

} // verus!
