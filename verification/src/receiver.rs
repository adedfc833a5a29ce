//! The receiving handle that crosses to a worker.

use crossbeam_channel::{Receiver, RecvError};
use vstd::prelude::*;

verus! {

/// A receive found its channel empty with every sending end gone.
#[derive(Debug, Clone, Copy, PartialEq, Eq, Structural)]
pub struct Disconnected;

/// The receiving end of a channel, as it is handed to a worker that did not
/// create the channel.
///
/// The handle offers one operation, [`WasmReceiver::recv`]. It may cross to
/// another worker whatever the channel carries, also a value that is bound to
/// the worker that made it. That is sound only under a rule that the caller
/// keeps and no type checks: each item is produced once, sent once, and taken
/// by exactly one worker, and whoever owns the channel keeps it alive until
/// that worker has received.
#[verifier::reject_recursive_types(T)]
pub struct WasmReceiver<T> {
    receiver: Receiver<T>,
}

/// What `recv` answers for each outcome of the channel's own receive: the
/// item as it came, or `Disconnected`.
pub open spec fn received_spec<T>(outcome: Result<T, RecvError>) -> Result<T, Disconnected> {
    match outcome {
        Ok(item) => Ok(item),
        Err(_) => Err(Disconnected),
    }
}

/// Turns the outcome of the channel's receive into this crate's own.
pub fn received<T>(outcome: Result<T, RecvError>) -> (got: Result<T, Disconnected>)
    ensures
        got == received_spec(outcome),
{
    match outcome {
        Ok(item) => Ok(item),
        Err(_) => Err(Disconnected),
    }
}

impl<T> WasmReceiver<T> {
    /// The channel end that this handle wraps.
    pub closed spec fn handle(self) -> Receiver<T> {
        self.receiver
    }

    /// Wraps the receiving end of a channel.
    pub fn new(receiver: Receiver<T>) -> (wrapped: Self)
        ensures
            wrapped.handle() == receiver,
    {
        WasmReceiver { receiver }
    }

    /// The wrapped channel end.
    pub fn channel(&self) -> (receiver: &Receiver<T>)
        ensures
            *receiver == self.handle(),
    {
        &self.receiver
    }

    /// Blocks the calling worker until an item is available and returns it,
    /// or reports `Disconnected` when the channel is empty and nobody can
    /// send any more.
    ///
    /// Whether an item arrives is decided by the other side of the channel;
    /// [`received`] states the answer for each outcome.
    pub fn recv(&self) -> (got: Result<T, Disconnected>) {
        received(self.receiver.recv())
    }
}

} // verus!
