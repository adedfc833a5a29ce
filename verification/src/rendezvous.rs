//! The channel on which the tasks wait for their workers.

use crossbeam_channel::Sender;
use rayon::ThreadBuilder;
use vstd::prelude::*;

use crate::channel::{send_to, task_capacity, task_channel, task_channel_capacity, MAX_CAPACITY};
use crate::pool::refusal;
use crate::receiver::WasmReceiver;

verus! {

/// The bounded channel that carries one task per worker, with a count of the
/// tasks that were pushed onto it.
///
/// Its capacity is the number of workers it was made for, and it never takes
/// more pushes than that. Which worker takes which task is not fixed: the
/// tasks of one pool are alike, and whoever is ready first is served first.
/// Nothing times out. A task whose worker never enters its entry point stays
/// in the channel for good; that is known and raises no error here.
pub struct RendezvousChannel {
    sender: Sender<ThreadBuilder>,
    receiver: WasmReceiver<ThreadBuilder>,
    limit: usize,
    pushed: usize,
}

/// Why a task was not pushed.
#[derive(Debug, Clone, Copy, PartialEq, Eq, Structural)]
pub enum PushRefusal {
    /// The channel already took as many tasks as it has workers.
    Full,
    /// Every receiving end of the channel is gone.
    Disconnected,
}

impl RendezvousChannel {
    #[verifier::type_invariant]
    spec fn well_formed(self) -> bool {
        &&& self.pushed <= self.limit
        &&& self.limit <= MAX_CAPACITY
        &&& task_capacity(self.receiver.handle()) == Some(self.limit)
    }

    /// The number of workers the channel was made for.
    pub closed spec fn limit(self) -> nat {
        self.limit as nat
    }

    /// How many tasks were pushed onto the channel so far.
    pub closed spec fn pushed(self) -> nat {
        self.pushed as nat
    }

    /// The receiving end, which the workers share.
    pub closed spec fn receiving_end(self) -> WasmReceiver<ThreadBuilder> {
        self.receiver
    }

    /// The sending end, which the spawn strategy pushes through.
    pub closed spec fn sending_end(self) -> Sender<ThreadBuilder> {
        self.sender
    }

    /// The capacity that the underlying channel reports.
    pub open spec fn reported_capacity(self) -> Option<usize> {
        task_capacity(self.receiving_end().handle())
    }

    /// `self` is the channel `before` after zero or more pushes: the same two
    /// ends, made for the same number of workers, with no push taken back.
    pub open spec fn continues(self, before: Self) -> bool {
        &&& self.limit() == before.limit()
        &&& self.receiving_end() == before.receiving_end()
        &&& self.sending_end() == before.sending_end()
        &&& before.pushed() <= self.pushed() <= self.limit()
    }

    /// A new channel for `workers` workers, with nothing pushed.
    pub fn new(workers: usize) -> (channel: Self)
        requires
            workers <= MAX_CAPACITY,
        ensures
            channel.limit() == workers,
            channel.pushed() == 0,
            channel.reported_capacity() == Some(workers),
    {
        let (sender, receiver) = task_channel(workers);
        RendezvousChannel { sender, receiver: WasmReceiver::new(receiver), limit: workers, pushed: 0 }
    }

    /// The capacity that the underlying channel reports.
    pub fn capacity(&self) -> (cap: Option<usize>)
        ensures
            cap == self.reported_capacity(),
            cap == Some(self.limit() as usize),
    {
        proof {
            use_type_invariant(self);
        }
        task_channel_capacity(self.receiver.channel())
    }

    /// The number of workers the channel was made for.
    pub fn workers(&self) -> (workers: usize)
        ensures
            workers == self.limit(),
            workers <= MAX_CAPACITY,
    {
        proof {
            use_type_invariant(self);
        }
        self.limit
    }

    /// How many tasks were pushed so far.
    pub fn tasks_pushed(&self) -> (pushed: usize)
        ensures
            pushed == self.pushed(),
            pushed <= self.limit(),
    {
        proof {
            use_type_invariant(self);
        }
        self.pushed
    }

    /// Pushes one task for a worker to take.
    ///
    /// A channel that already took one task per worker refuses with `Full`
    /// and is left as it was: it never takes one push more than it has
    /// workers. While there is room the push goes to the channel, which
    /// refuses only when every receiving end is gone; then nothing is
    /// counted.
    pub fn push(&mut self, task: ThreadBuilder) -> (pushed: Result<(), PushRefusal>)
        ensures
            final(self).continues(*old(self)),
            pushed is Ok <==> final(self).pushed() == old(self).pushed() + 1,
            pushed is Err <==> final(self).pushed() == old(self).pushed(),
            pushed == Err::<(), PushRefusal>(PushRefusal::Full) <==> old(self).pushed() == old(self).limit(),
    {
        proof {
            use_type_invariant(&*self);
        }
        if self.pushed >= self.limit {
            return Err(PushRefusal::Full);
        }
        match send_to(&self.sender, task) {
            Ok(()) => {
                self.pushed = self.pushed + 1;
                Ok(())
            },
            Err(_) => Err(PushRefusal::Disconnected),
        }
    }

    /// The spawn strategy that a pool is built with: in place of starting a
    /// thread, [`push`](Self::push) the task for a worker to take. The pool
    /// learns of a refusal as an I/O error and gives up its construction.
    pub fn spawn(&mut self, task: ThreadBuilder) -> (spawned: Result<(), std::io::Error>)
        ensures
            final(self).continues(*old(self)),
            spawned is Ok <==> final(self).pushed() == old(self).pushed() + 1,
            spawned is Err <==> final(self).pushed() == old(self).pushed(),
            old(self).pushed() == old(self).limit() ==> spawned is Err,
    {
        match self.push(task) {
            Ok(()) => Ok(()),
            Err(_) => Err(refusal()),
        }
    }

    /// The receiving end, to hand to the workers.
    pub fn receiver(&self) -> (receiver: &WasmReceiver<ThreadBuilder>)
        ensures
            *receiver == self.receiving_end(),
    {
        &self.receiver
    }
}

} // verus!
