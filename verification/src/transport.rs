use vstd::prelude::*;

use crossbeam_channel::{Receiver, RecvError, SendError, Sender};

verus! {

// The transport is a concurrent, unbounded, multi-producer/multi-consumer
// queue taken from the `crossbeam_channel` crate. Its internal state is
// shared between threads, so nothing about the queue's contents can be
// stated here; the declarations below only let verified code hold the
// handles and call into them. What each call may return is stated no more
// precisely than the crate's own documentation does.

/// Declares `crossbeam_channel::Sender`: the cloneable producer handle of a
/// channel. Opaque to the verifier.
#[verifier::external_type_specification]
#[verifier::external_body]
#[verifier::reject_recursive_types(T)]
pub struct ExSender<T>(Sender<T>);

/// Declares `crossbeam_channel::Receiver`: the cloneable consumer handle of
/// a channel. Opaque to the verifier.
#[verifier::external_type_specification]
#[verifier::external_body]
#[verifier::reject_recursive_types(T)]
pub struct ExReceiver<T>(Receiver<T>);

/// Declares `crossbeam_channel::SendError`: the error of a failed send,
/// holding the message that could not be delivered in its single public
/// field.
#[verifier::external_type_specification]
#[verifier::reject_recursive_types(T)]
pub struct ExSendError<T>(SendError<T>);

/// Declares `crossbeam_channel::RecvError`: the fieldless error of a
/// receive from a channel that is empty and has no producer left.
#[verifier::external_type_specification]
pub struct ExRecvError(RecvError);

/// Relies on `crossbeam_channel::unbounded`: creates a channel of unbounded
/// capacity and returns its two handles.
pub assume_specification<T>[ crossbeam_channel::unbounded::<T> ]() -> (handles: (
    Sender<T>,
    Receiver<T>,
));

/// Relies on `crossbeam_channel::Sender::send`: enqueues the message, never
/// blocking on an unbounded channel. It fails only when every receiver has
/// been dropped, and then hands the undelivered message back inside the
/// error.
pub assume_specification<T>[ Sender::<T>::send ](sender: &Sender<T>, msg: T) -> (outcome: Result<
    (),
    SendError<T>,
>)
    ensures
        outcome matches Err(e) ==> e.0 == msg,
;

/// Relies on `crossbeam_channel::Receiver::recv`: blocks until a message
/// arrives and returns it, or reports an error once the channel is empty
/// and every sender has been dropped. Which message arrives depends on the
/// other threads using the channel, so nothing is stated about the value.
pub assume_specification<T>[ Receiver::<T>::recv ](receiver: &Receiver<T>) -> (outcome: Result<
    T,
    RecvError,
>);

/// Relies on `Clone for crossbeam_channel::Receiver`: yields one more
/// consumer handle drawing from the same queue.
pub assume_specification<T>[ <Receiver<T> as Clone>::clone ](receiver: &Receiver<T>) -> (cloned: Receiver<T>);

} // verus!
