//! The builder that allocates the channels of a pool and describes the
//! workers to spawn.

use crossbeam_channel::Sender;
use rayon::ThreadPoolBuildError;
use vstd::prelude::*;

use crate::channel::{slot_capacity, slot_channel, slot_channel_capacity, MAX_CAPACITY};
use crate::receiver::WasmReceiver;
use crate::rendezvous::RendezvousChannel;
use crate::shared::SharedValue;

verus! {

/// Why a pool could not be set up.
#[derive(Debug)]
pub enum BuildError {
    /// More workers were asked for than a pool can have.
    TooManyWorkers { requested: usize, limit: usize },
    /// A pool was asked for before the builder had allocated its channel.
    NotBuilt,
    /// The pool's own construction failed.
    Pool(ThreadPoolBuildError),
    /// The pool was constructed, but it pushed `pushed` tasks where
    /// `expected` workers wait for one each.
    WorkerCount { expected: usize, pushed: usize },
}

/// What the spawning collaborator is asked to do: start `num_workers`
/// workers, each on the entry point that `is_global` selects.
///
/// In the non-global path worker `i` (from 0) is given a copy of `object` and
/// the sending end of the one-shot channel in slot `first_slot + i`; there are
/// `slots` of them. In the global path `slots` is 0 and `object` is
/// undefined.
#[derive(Debug, Clone, PartialEq, Eq)]
pub struct SpawnRequest {
    pub num_workers: usize,
    pub is_global: bool,
    pub object: SharedValue,
    pub first_slot: usize,
    pub slots: usize,
}

/// Configures and allocates what a pool on spawned workers needs.
pub struct WebWorkersBuilder {
    pub(crate) object: SharedValue,
    pub(crate) num_workers: usize,
    pub(crate) rendezvous: Option<RendezvousChannel>,
    pub(crate) obj_senders: Vec<Sender<SharedValue>>,
    pub(crate) obj_receivers: Vec<WasmReceiver<SharedValue>>,
}

/// A builder as the contracts see it.
pub struct BuilderView {
    /// The value to broadcast; `None` is the "no value" sentinel.
    pub object: Option<Seq<char>>,
    /// How many workers the pool will have.
    pub num_workers: nat,
    /// The channel of tasks, once allocated.
    pub rendezvous: Option<RendezvousChannel>,
    /// The sending ends of the one-shot channels, by slot.
    pub senders: Seq<Sender<SharedValue>>,
    /// The receiving ends of the one-shot channels that the builder still
    /// holds.
    pub receivers: Seq<WasmReceiver<SharedValue>>,
}

impl BuilderView {
    /// At least one worker is asked for.
    pub open spec fn wf(self) -> bool {
        self.num_workers >= 1
    }

    /// The channel of tasks is new: made for `num_workers` workers, with
    /// that capacity, and nothing pushed yet.
    pub open spec fn has_fresh_rendezvous(self) -> bool {
        &&& self.rendezvous matches Some(channel)
        &&& channel.limit() == self.num_workers
        &&& channel.reported_capacity() == Some(self.num_workers as usize)
        &&& channel.pushed() == 0
    }

    /// `self` holds what `before` held and, behind it, `count` new one-shot
    /// channels, each of capacity 1.
    pub open spec fn extends_slots(self, before: Self, count: nat) -> bool {
        &&& self.senders.len() == before.senders.len() + count
        &&& self.receivers.len() == before.receivers.len() + count
        &&& self.senders.subrange(0, before.senders.len() as int) =~= before.senders
        &&& self.receivers.subrange(0, before.receivers.len() as int) =~= before.receivers
        &&& forall|slot: int|
            before.senders.len() <= slot < self.senders.len() ==> slot_capacity(
                #[trigger] self.senders[slot],
            ) == Some(1usize)
    }

    /// What [`WebWorkersBuilder::build`] leaves of `before`: a fresh channel
    /// of tasks and one new one-shot channel per worker.
    pub open spec fn built_from(self, before: Self) -> bool {
        &&& self.object == before.object
        &&& self.num_workers == before.num_workers
        &&& self.has_fresh_rendezvous()
        &&& self.extends_slots(before, before.num_workers)
    }

    /// What [`WebWorkersBuilder::build_global`] leaves of `before`: a fresh
    /// channel of tasks, and the one-shot channels untouched.
    pub open spec fn built_global_from(self, before: Self) -> bool {
        &&& self.object == before.object
        &&& self.num_workers == before.num_workers
        &&& self.has_fresh_rendezvous()
        &&& self.senders == before.senders
        &&& self.receivers == before.receivers
    }
}

impl View for WebWorkersBuilder {
    type V = BuilderView;

    closed spec fn view(&self) -> BuilderView {
        BuilderView {
            object: self.object@,
            num_workers: self.num_workers as nat,
            rendezvous: self.rendezvous,
            senders: self.obj_senders@,
            receivers: self.obj_receivers@,
        }
    }
}

impl WebWorkersBuilder {
    /// The view reads the fields as they are.
    pub(crate) proof fn lemma_view(&self)
        ensures
            self@.object == self.object@,
            self@.num_workers == self.num_workers,
            self@.rendezvous == self.rendezvous,
            self@.senders == self.obj_senders@,
            self@.receivers == self.obj_receivers@,
    {
    }

    /// The default configuration: one worker, no shared value, nothing
    /// allocated.
    pub fn new() -> (builder: Self)
        ensures
            builder@ == (BuilderView {
                object: None,
                num_workers: 1,
                rendezvous: None,
                senders: Seq::empty(),
                receivers: Seq::empty(),
            }),
            builder@.wf(),
    {
        WebWorkersBuilder {
            object: SharedValue::undefined(),
            num_workers: 1,
            rendezvous: None,
            obj_senders: Vec::new(),
            obj_receivers: Vec::new(),
        }
    }

    /// Sets how many workers to build. Zero workers is a programmer's error
    /// and not accepted.
    pub fn num_workers(self, num_workers: usize) -> (builder: Self)
        requires
            num_workers != 0,
        ensures
            builder@ == (BuilderView { num_workers: num_workers as nat, ..self@ }),
            builder@.wf(),
    {
        let mut builder = self;
        builder.num_workers = num_workers;
        builder
    }

    /// Attaches the value that every worker is given before its task.
    pub fn share(self, object: SharedValue) -> (builder: Self)
        ensures
            builder@ == (BuilderView { object: object@, ..self@ }),
    {
        let mut builder = self;
        builder.object = object;
        builder
    }

    /// How many workers the pool will have.
    pub fn worker_count(&self) -> (count: usize)
        ensures
            count == self@.num_workers,
    {
        self.num_workers
    }

    /// The value that every worker is given.
    pub fn shared(&self) -> (object: &SharedValue)
        ensures
            object@ == self@.object,
    {
        &self.object
    }

    /// The channel of tasks, once it is allocated.
    pub fn rendezvous(&self) -> (channel: Option<&RendezvousChannel>)
        ensures
            match self@.rendezvous {
                Some(held) => channel == Some(&held),
                None => channel is None,
            },
    {
        self.rendezvous.as_ref()
    }

    /// How many tasks the pool has pushed for the workers; 0 while no channel
    /// of tasks is allocated.
    pub fn tasks_pushed(&self) -> (pushed: usize)
        ensures
            match self@.rendezvous {
                Some(channel) => pushed == channel.pushed(),
                None => pushed == 0,
            },
    {
        match &self.rendezvous {
            Some(channel) => channel.tasks_pushed(),
            None => 0,
        }
    }

    /// How many one-shot channels the builder has allocated.
    pub fn slot_count(&self) -> (count: usize)
        ensures
            count == self@.senders.len(),
    {
        self.obj_senders.len()
    }

    /// The sending end of the one-shot channel in `slot`, which goes to the
    /// worker of that slot.
    pub fn sender(&self, slot: usize) -> (sender: Option<&Sender<SharedValue>>)
        ensures
            slot < self@.senders.len() ==> sender == Some(&self@.senders[slot as int]),
            slot >= self@.senders.len() ==> sender is None,
    {
        if slot < self.obj_senders.len() {
            Some(&self.obj_senders[slot])
        } else {
            None
        }
    }

    /// The capacity that the one-shot channel in `slot` reports; `None` where
    /// there is no such slot.
    pub fn slot_capacity(&self, slot: usize) -> (cap: Option<usize>)
        ensures
            slot < self@.senders.len() ==> cap == slot_capacity(self@.senders[slot as int]),
            slot >= self@.senders.len() ==> cap is None,
    {
        if slot < self.obj_senders.len() {
            slot_channel_capacity(&self.obj_senders[slot])
        } else {
            None
        }
    }

    /// The receiving ends of the one-shot channels, for the caller to take
    /// and wait on.
    pub fn receivers(&mut self) -> (receivers: &mut Vec<WasmReceiver<SharedValue>>)
        ensures
            receivers@ == old(self)@.receivers,
            final(self)@ == (BuilderView { receivers: final(receivers)@, ..old(self)@ }),
    {
        &mut self.obj_receivers
    }

    /// Allocates the channel of tasks, with room for one task per worker,
    /// and one one-shot channel per worker, and says which workers to spawn.
    ///
    /// The one-shot channels go behind those of earlier calls; the request
    /// names the slots of the new ones. The channel of tasks replaces an
    /// earlier one. Nothing is allocated, and the builder is left as it was,
    /// when more workers are asked for than a channel of tasks can hold.
    ///
    /// The caller hands the request to the spawning collaborator, together
    /// with the receiving end of the channel of tasks and the sending ends of
    /// the slots, and keeps the builder alive until every worker has
    /// received.
    pub fn build(&mut self) -> (request: Result<SpawnRequest, BuildError>)
        ensures
            old(self)@.num_workers <= MAX_CAPACITY ==> {
                &&& request matches Ok(spawn)
                &&& spawn.num_workers == old(self)@.num_workers
                &&& !spawn.is_global
                &&& spawn.object@ == old(self)@.object
                &&& spawn.first_slot == old(self)@.senders.len()
                &&& spawn.slots == old(self)@.num_workers
                &&& final(self)@.built_from(old(self)@)
            },
            old(self)@.num_workers > MAX_CAPACITY ==> {
                &&& request matches Err(BuildError::TooManyWorkers { requested, limit })
                &&& requested == old(self)@.num_workers
                &&& limit == MAX_CAPACITY
                &&& final(self)@ == old(self)@
            },
    {
        let workers = self.num_workers;
        if workers > MAX_CAPACITY {
            return Err(BuildError::TooManyWorkers { requested: workers, limit: MAX_CAPACITY });
        }
        self.rendezvous = Some(RendezvousChannel::new(workers));
        let first_slot = self.obj_senders.len();
        let mut made: usize = 0;
        while made < workers
            invariant
                made <= workers,
                self.object == old(self).object,
                self.num_workers == old(self).num_workers,
                self@.has_fresh_rendezvous(),
                self@.extends_slots(old(self)@, made as nat),
            decreases workers - made,
        {
            let ghost held = self@;
            let (sender, receiver) = slot_channel(1);
            self.obj_senders.push(sender);
            self.obj_receivers.push(WasmReceiver::new(receiver));
            made = made + 1;
            assert(self@.senders.subrange(0, old(self)@.senders.len() as int)
                =~= held.senders.subrange(0, old(self)@.senders.len() as int));
            assert(self@.receivers.subrange(0, old(self)@.receivers.len() as int)
                =~= held.receivers.subrange(0, old(self)@.receivers.len() as int));
        }
        Ok(
            SpawnRequest {
                num_workers: workers,
                is_global: false,
                object: self.object.duplicate(),
                first_slot,
                slots: workers,
            },
        )
    }

    /// Allocates the channel of tasks for a pool that serves the whole
    /// process, and says which workers to spawn.
    ///
    /// This path has no shared value and no one-shot channels: whatever was
    /// configured, the request carries the undefined value and no slots, and
    /// the builder's one-shot channels are left as they were.
    pub fn build_global(&mut self) -> (request: Result<SpawnRequest, BuildError>)
        ensures
            old(self)@.num_workers <= MAX_CAPACITY ==> {
                &&& request matches Ok(spawn)
                &&& spawn.num_workers == old(self)@.num_workers
                &&& spawn.is_global
                &&& spawn.object@ is None
                &&& spawn.first_slot == old(self)@.senders.len()
                &&& spawn.slots == 0
                &&& final(self)@.built_global_from(old(self)@)
            },
            old(self)@.num_workers > MAX_CAPACITY ==> {
                &&& request matches Err(BuildError::TooManyWorkers { requested, limit })
                &&& requested == old(self)@.num_workers
                &&& limit == MAX_CAPACITY
                &&& final(self)@ == old(self)@
            },
    {
        let workers = self.num_workers;
        if workers > MAX_CAPACITY {
            return Err(BuildError::TooManyWorkers { requested: workers, limit: MAX_CAPACITY });
        }
        self.rendezvous = Some(RendezvousChannel::new(workers));
        Ok(
            SpawnRequest {
                num_workers: workers,
                is_global: true,
                object: SharedValue::undefined(),
                first_slot: self.obj_senders.len(),
                slots: 0,
            },
        )
    }
}

} // verus!
