//! What holds of every start-up and of every construction.

use vstd::prelude::*;

use crate::buildable::pool_built;
use crate::builder::{BuildError, BuilderView};
use crate::worker::{
    is_final, next_state, progress, state_after, WorkerEvent, WorkerState,
};

verus! {

/// The state of a worker after the first `seen` of `events`.
pub open spec fn state_at(global: bool, events: Seq<WorkerEvent>, seen: int) -> WorkerState {
    state_after(global, events.take(seen))
}

/// A final state stays whatever happens; from any other state every event
/// takes the worker further along.
pub proof fn lemma_step(global: bool, state: WorkerState, event: WorkerEvent)
    ensures
        is_final(state) ==> next_state(global, state, event) == state,
        !is_final(state) ==> progress(next_state(global, state, event)) > progress(state),
{
}

/// One more event moves the worker by one step of [`next_state`].
pub proof fn lemma_state_at_next(global: bool, events: Seq<WorkerEvent>, seen: int)
    requires
        0 <= seen < events.len(),
    ensures
        state_at(global, events, seen + 1) == next_state(
            global,
            state_at(global, events, seen),
            events[seen],
        ),
        state_at(global, events, 0) == WorkerState::Spawned,
{
    let longer = events.take(seen + 1);
    assert(longer.drop_last() =~= events.take(seen));
    assert(longer.last() == events[seen]);
}

/// A worker never goes back: later it is at least as far along as earlier,
/// strictly further if it was not final yet, and where it was if it was.
pub proof fn lemma_progress(global: bool, events: Seq<WorkerEvent>, earlier: int, later: int)
    requires
        0 <= earlier <= later <= events.len(),
    ensures
        progress(state_at(global, events, earlier)) <= progress(state_at(global, events, later)),
        earlier < later && !is_final(state_at(global, events, earlier)) ==> progress(
            state_at(global, events, earlier),
        ) < progress(state_at(global, events, later)),
        is_final(state_at(global, events, earlier)) ==> state_at(global, events, later)
            == state_at(global, events, earlier),
    decreases later - earlier,
{
    if earlier < later {
        lemma_progress(global, events, earlier, later - 1);
        lemma_state_at_next(global, events, later - 1);
        lemma_step(global, state_at(global, events, later - 1), events[later - 1]);
    }
}

/// A worker is in each state that has something to do at most once. So it
/// sends its shared value at most once, and it receives at most one task:
/// no worker takes two.
pub proof fn lemma_no_state_twice(global: bool, events: Seq<WorkerEvent>, earlier: int, later: int)
    requires
        0 <= earlier < later <= events.len(),
        !is_final(state_at(global, events, earlier)),
    ensures
        state_at(global, events, later) != state_at(global, events, earlier),
{
    lemma_progress(global, events, earlier, later);
}

/// In a pool that is not global, a worker that waits for its task, or runs
/// it, has delivered its shared value before: the one-shot channel took the
/// value at an earlier moment, at which the worker was there to send it.
pub proof fn lemma_value_before_task(events: Seq<WorkerEvent>, seen: int)
    requires
        0 <= seen <= events.len(),
        state_at(false, events, seen) == WorkerState::AwaitingTask || state_at(false, events, seen)
            == WorkerState::Running,
    ensures
        exists|before: int|
            0 <= before < seen && #[trigger] state_at(false, events, before)
                == WorkerState::AwaitingSharedValue && events[before]
                == WorkerEvent::ValueDelivered,
    decreases seen,
{
    if seen == 0 {
        assert(events.take(0).len() == 0);
    } else {
        lemma_state_at_next(false, events, seen - 1);
        if state_at(false, events, seen - 1) == WorkerState::AwaitingSharedValue {
            assert(events[seen - 1] == WorkerEvent::ValueDelivered);
        } else {
            lemma_value_before_task(events, seen - 1);
        }
    }
}

/// A worker that runs has received its task before: a task came out of the
/// channel at an earlier moment, at which the worker was waiting for one.
pub proof fn lemma_task_before_run(global: bool, events: Seq<WorkerEvent>, seen: int)
    requires
        0 <= seen <= events.len(),
        state_at(global, events, seen) == WorkerState::Running,
    ensures
        exists|before: int|
            0 <= before < seen && #[trigger] state_at(global, events, before)
                == WorkerState::AwaitingTask && events[before] == WorkerEvent::TaskArrived,
    decreases seen,
{
    if seen == 0 {
        assert(events.take(0).len() == 0);
    } else {
        lemma_state_at_next(global, events, seen - 1);
        if state_at(global, events, seen - 1) == WorkerState::AwaitingTask {
            assert(events[seen - 1] == WorkerEvent::TaskArrived);
        } else {
            lemma_task_before_run(global, events, seen - 1);
        }
    }
}

/// A worker of the global pool is never about to send a shared value,
/// whatever happens: the global path uses no one-shot channel.
pub proof fn lemma_global_never_shares(events: Seq<WorkerEvent>, seen: int)
    requires
        0 <= seen <= events.len(),
    ensures
        state_at(true, events, seen) != WorkerState::AwaitingSharedValue,
    decreases seen,
{
    if seen == 0 {
        assert(events.take(0).len() == 0);
    } else {
        lemma_state_at_next(true, events, seen - 1);
        lemma_global_never_shares(events, seen - 1);
    }
}

/// Allocating and then building the pool pushes exactly one task per worker,
/// or the construction fails; and failed or not, never more tasks than
/// workers: for a builder `fresh` as `build` or `build_global` left it, and
/// `after` a pool was built on it with the answer `built`.
pub proof fn lemma_one_task_per_worker<P>(
    fresh: BuilderView,
    after: BuilderView,
    built: Result<P, BuildError>,
)
    requires
        fresh.has_fresh_rendezvous(),
        pool_built(fresh, after, built),
    ensures
        after.num_workers == fresh.num_workers,
        after.rendezvous matches Some(channel) && channel.pushed() <= fresh.num_workers && (built
            is Ok ==> channel.pushed() == fresh.num_workers),
{
}

/// Building a pool leaves the one-shot channels, the shared value and the
/// number of workers as they were, whatever the answer.
pub proof fn lemma_pool_keeps_slots<P>(
    before: BuilderView,
    after: BuilderView,
    built: Result<P, BuildError>,
)
    requires
        pool_built(before, after, built),
    ensures
        after.senders == before.senders,
        after.receivers == before.receivers,
        after.object == before.object,
        after.num_workers == before.num_workers,
{
}

/// The global path allocates no one-shot channel, whether a shared value was
/// configured or not.
pub proof fn lemma_global_allocates_no_slot(before: BuilderView, after: BuilderView)
    requires
        after.built_global_from(before),
    ensures
        after.senders == before.senders,
        after.receivers == before.receivers,
        after.senders.len() == before.senders.len(),
{
}

/// The other path allocates exactly one one-shot channel per worker, each
/// of capacity 1, behind those that were there.
pub proof fn lemma_one_slot_per_worker(before: BuilderView, after: BuilderView)
    requires
        after.built_from(before),
    ensures
        after.senders.len() == before.senders.len() + before.num_workers,
        after.receivers.len() == before.receivers.len() + before.num_workers,
        forall|slot: int|
            0 <= slot < before.senders.len() ==> #[trigger] after.senders[slot]
                == before.senders[slot],
{
    assert forall|slot: int| 0 <= slot < before.senders.len() implies #[trigger] after.senders[slot]
        == before.senders[slot] by {
        assert(after.senders.subrange(0, before.senders.len() as int)[slot] == after.senders[slot]);
    }
}

} // verus!
