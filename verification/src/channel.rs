//! The channels of the handoff, as `crossbeam_channel` provides them.
//!
//! A channel is shared state behind its two ends: other workers send and
//! receive through their own references while this code runs. So nothing here
//! says what a channel holds; the contracts state what is true of a call
//! whatever the other side does, and the capacity, which a channel keeps for
//! life.

use crossbeam_channel::{Receiver, RecvError, Sender};
use rayon::ThreadBuilder;
use vstd::prelude::*;

use crate::shared::SharedValue;

verus! {

/// The sending end of a `crossbeam_channel` channel. Opaque to the verifier.
#[verifier::external_type_specification]
#[verifier::external_body]
#[verifier::reject_recursive_types(T)]
pub struct ExSender<T>(Sender<T>);

/// The receiving end of a `crossbeam_channel` channel. Opaque to the verifier.
#[verifier::external_type_specification]
#[verifier::external_body]
#[verifier::reject_recursive_types(T)]
pub struct ExReceiver<T>(Receiver<T>);

/// The error of `Receiver::recv`. Opaque to the verifier.
#[verifier::external_type_specification]
#[verifier::external_body]
pub struct ExRecvError(RecvError);

/// `rayon::ThreadBuilder`: the task that turns a worker into a thread of the
/// pool. Opaque to the verifier.
#[verifier::external_type_specification]
#[verifier::external_body]
pub struct ExThreadBuilder(ThreadBuilder);

/// The largest capacity this crate asks of a channel. No pool has more
/// threads: its thread counter is sixteen bits wide at most.
pub const MAX_CAPACITY: usize = 0xFFFF;

/// What `Receiver::capacity` reports for a channel of tasks.
pub uninterp spec fn task_capacity(receiver: Receiver<ThreadBuilder>) -> Option<usize>;

/// What `Sender::capacity` reports for a channel of shared values.
pub uninterp spec fn slot_capacity(sender: Sender<SharedValue>) -> Option<usize>;

/// `crossbeam_channel::bounded` for tasks: the two ends of a new channel that
/// holds up to `cap` tasks. The bound on `cap` keeps the channel's buffer
/// within what `bounded` can allocate; above it `bounded` may panic.
#[verifier::external_body]
pub(crate) fn task_channel(cap: usize) -> (ends: (Sender<ThreadBuilder>, Receiver<ThreadBuilder>))
    requires
        cap <= MAX_CAPACITY,
    ensures
        task_capacity(ends.1) == Some(cap),
{
    crossbeam_channel::bounded(cap)
}

/// `crossbeam_channel::bounded` for shared values: the two ends of a new
/// channel that holds up to `cap` values.
#[verifier::external_body]
pub(crate) fn slot_channel(cap: usize) -> (ends: (Sender<SharedValue>, Receiver<SharedValue>))
    requires
        cap <= MAX_CAPACITY,
    ensures
        slot_capacity(ends.0) == Some(cap),
{
    crossbeam_channel::bounded(cap)
}

/// `Receiver::capacity` on a channel of tasks.
#[verifier::external_body]
pub(crate) fn task_channel_capacity(receiver: &Receiver<ThreadBuilder>) -> (cap: Option<usize>)
    ensures
        cap == task_capacity(*receiver),
{
    receiver.capacity()
}

/// `Sender::capacity` on a channel of shared values.
#[verifier::external_body]
pub(crate) fn slot_channel_capacity(sender: &Sender<SharedValue>) -> (cap: Option<usize>)
    ensures
        cap == slot_capacity(*sender),
{
    sender.capacity()
}

/// `Sender::send`: blocks until the message is in the channel, or fails when
/// every receiving end is gone. A failed send hands the message back.
#[verifier::external_body]
pub(crate) fn send_to<T>(sender: &Sender<T>, message: T) -> (sent: Result<(), T>)
    ensures
        sent matches Err(back) ==> back == message,
{
    sender.send(message).map_err(|refused| refused.into_inner())
}

/// `Receiver::recv`: blocks until a message arrives, or fails when the channel
/// is empty and every sending end is gone. Which of the two happens is up to
/// the other side, so nothing is promised of the result.
pub assume_specification<T>[ Receiver::<T>::recv ](receiver: &Receiver<T>) -> (got: Result<
    T,
    RecvError,
>)
;

} // verus!
