use vstd::prelude::*;

verus! {

/// An opaque, zero-argument unit of work, invocable exactly once.
///
/// A value of this type can only be built through [`Job::package`], which
/// demands that the callable it wraps is safe to invoke. That fact is
/// carried as a type invariant, so whichever worker ends up holding the
/// job — after it travelled through the shared queue — may run it without
/// knowing anything else about it.
pub struct Job<J> where J: FnOnce() {
    work: J,
}

impl<J: FnOnce()> View for Job<J> {
    type V = J;

    /// A job is, mathematically, just the callable it wraps.
    closed spec fn view(&self) -> J {
        self.work
    }
}

impl<J: FnOnce()> Job<J> {
    /// Every job ever constructed wraps a callable whose precondition
    /// holds, so running it is always permitted.
    #[verifier::type_invariant]
    spec fn callable(self) -> bool {
        call_requires(self.work, ())
    }

    /// Packages a callable into a [`Job`]. Ownership of the callable
    /// transfers into the job, and from there to the worker that runs it.
    pub fn package(work: J) -> (job: Job<J>)
        requires
            call_requires(work, ()),
        ensures
            job@ == work,
    {
        Job { work }
    }

    /// Runs the job synchronously to completion, consuming it: afterwards
    /// the callable's own postcondition has held.
    pub fn run(self)
        ensures
            call_ensures(self@, (), ()),
    {
        proof {
            use_type_invariant(&self);
        }
        let Job { work } = self;
        work()
    }
}

/// The unit carried over the transport from the pool to its workers.
///
/// `M` is the payload a `NewJob` message carries; the pool instantiates it
/// with [`Job`]. A message is immutable once constructed and is consumed by
/// exactly one worker.
pub enum Message<M> {
    /// Carries one unit of work for a worker to run to completion.
    NewJob(M),
    /// Tells the receiving worker to exit its loop permanently.
    Terminate,
    /// Carries nothing; a worker ignores it and keeps looping.
    Idle,
}

} // verus!
