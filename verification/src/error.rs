use vstd::prelude::*;

verus! {

/// Error returned by [`crate::ThreadPool::execute`] when no worker can ever
/// receive the job: the pool was built with zero workers, or it has already
/// been shut down and the consumer side of the transport is gone.
#[derive(Debug, Clone, Copy, PartialEq, Eq, Structural)]
pub struct FailedToSendJob;

impl FailedToSendJob {
    /// A human-readable description of the error.
    pub fn message(&self) -> (text: String)
        ensures
            text@ == "Thread pool failed to send a job to it's worker! the channel connection has been abruptly closed!"@,
    {
        "Thread pool failed to send a job to it's worker! the channel connection has been abruptly closed!".to_owned()
    }
}

/// Error reserved for a failure to create a worker thread during pool
/// construction.
///
/// The thread primitive used here aborts the whole process when the OS
/// refuses to create a thread, so [`crate::ThreadPool::new`] never actually
/// returns this error; the type is kept so that callers match on the same
/// `Result` shape either way.
#[derive(Debug, Clone, Copy, PartialEq, Eq, Structural)]
pub struct FailedToSpawnThread;

impl FailedToSpawnThread {
    /// A human-readable description of the error.
    pub fn message(&self) -> (text: String)
        ensures
            text@ == "Thread pool failed to create worker thread!"@,
    {
        "Thread pool failed to create worker thread!".to_owned()
    }
}

} // verus!
