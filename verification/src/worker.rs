use vstd::prelude::*;

use crate::message::{Job, Message};
use crossbeam_channel::Receiver;
use vstd::*;

verus! {

/// The two states of a worker's loop: it is still consuming messages, or it
/// has consumed a `Terminate` message and left the loop permanently.
#[derive(Debug, Clone, Copy, PartialEq, Eq, Structural)]
pub enum WorkerState {
    Running,
    Exited,
}

/// One worker of the pool: owns one OS thread that loops receiving messages
/// from the shared consumer side of the transport and executes jobs inline.
///
/// The thread handle is present while the worker runs and becomes absent
/// once [`Worker::take_thread`] has surrendered it for joining.
pub struct Worker {
    thread: Option<thread::JoinHandle<()>>,
}

impl Worker {
    /// True while this worker still holds its thread handle.
    pub closed spec fn is_running(&self) -> bool {
        self.thread is Some
    }

    /// Creates a new [`Worker`]: spawns one OS thread that draws messages
    /// from `receiver` until a `Terminate` message arrives.
    ///
    /// Thread creation itself cannot fail here: the spawn primitive used
    /// aborts the process when the OS refuses a thread.
    pub fn new<J: FnOnce() + Send + 'static>(receiver: Receiver<Message<Job<J>>>) -> (worker:
        Worker)
        ensures
            worker.is_running(),
    {
        let handle = thread::spawn(
            (move ||
                {
                    worker_loop(receiver);
                }),
        );
        Worker { thread: Some(handle) }
    }

    /// Takes the ownership of the thread handle, leaving the worker without
    /// one; a second call returns `None`.
    pub fn take_thread(&mut self) -> (handle: Option<thread::JoinHandle<()>>)
        ensures
            handle is Some <==> old(self).is_running(),
            !final(self).is_running(),
    {
        self.thread.take()
    }
}

/// Reacts to one message, in the worker's own thread: runs the job a
/// `NewJob` carries to completion (so the job's own postcondition has
/// held), treats `Idle` as nothing to do, and answers `Exited` exactly for
/// `Terminate`.
pub fn handle_message<J: FnOnce()>(message: Message<Job<J>>) -> (state: WorkerState)
    ensures
        state is Exited <==> message is Terminate,
        message matches Message::NewJob(job) ==> call_ensures(job@, (), ()),
{
    match message {
        Message::NewJob(job) => {
            job.run();
            WorkerState::Running
        },
        Message::Terminate => WorkerState::Exited,
        Message::Idle => WorkerState::Running,
    }
}

/// The worker's consume-and-execute loop: blocks on the shared consumer
/// side, executes each received job synchronously, and exits only when a
/// `Terminate` message is consumed. A receive error (every producer gone,
/// no `Terminate` seen) is a transient idle condition: the worker keeps
/// looping rather than exit.
///
/// The loop carries an explicit budget of `u64::MAX` iterations solely as a
/// termination measure for the verifier; at one message per nanosecond it
/// would take centuries to exhaust.
fn worker_loop<J: FnOnce()>(receiver: Receiver<Message<Job<J>>>) {
    let mut budget: u64 = u64::MAX;
    while budget > 0
        decreases budget,
    {
        budget = budget - 1;
        match receiver.recv() {
            Ok(message) => {
                match handle_message(message) {
                    WorkerState::Exited => {
                        return;
                    },
                    WorkerState::Running => {},
                }
            },
            Err(_) => {},
        }
    }
}

} // verus!
