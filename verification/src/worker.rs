//! What a worker does when the spawning collaborator starts it.
//!
//! A worker goes through a few states, each with one thing to do:
//!
//! ```text
//! Spawned -> AwaitingSharedValue -> AwaitingTask -> Running
//!         \_______(global)_________/            \-> Fatal
//! ```
//!
//! The entry points below walk these states and do what each asks for, so
//! what is proved of the states holds of the calls that a worker makes.

use crossbeam_channel::Sender;
use rayon::ThreadBuilder;
use vstd::prelude::*;

use crate::channel::send_to;
use crate::receiver::{Disconnected, WasmReceiver};
use crate::shared::SharedValue;

verus! {

/// Where a worker stands in its start-up.
#[derive(Debug, Clone, Copy, PartialEq, Eq, Structural)]
pub enum WorkerState {
    /// Created by the collaborator; the entry point has not run yet.
    Spawned,
    /// About to put its shared value into its one-shot channel. Only a
    /// worker of a non-global pool is ever here.
    AwaitingSharedValue,
    /// Blocked on the channel of tasks.
    AwaitingTask,
    /// Holds its task and runs it. The run does not return, so this state is
    /// final.
    Running,
    /// A channel failed. The worker cannot join the pool any more, so this
    /// state is final.
    Fatal,
}

/// What a worker sees happen.
#[derive(Debug, Clone, Copy, PartialEq, Eq, Structural)]
pub enum WorkerEvent {
    /// The collaborator called the entry point.
    Entered,
    /// The one-shot channel took the shared value.
    ValueDelivered,
    /// The one-shot channel had lost its receiving end.
    ValueRefused,
    /// A task came out of the channel of tasks.
    TaskArrived,
    /// The channel of tasks was closed before a task came.
    ChannelClosed,
}

/// What a worker has to do in a state.
#[derive(Debug, Clone, Copy, PartialEq, Eq, Structural)]
pub enum WorkerAction {
    /// Wait to be entered.
    Enter,
    /// Send the shared value into the one-shot channel.
    SendSharedValue,
    /// Receive one task from the channel of tasks.
    ReceiveTask,
    /// Run the task.
    RunTask,
    /// Terminate abnormally.
    Abort,
}

/// Why a worker did not get to run a task.
#[derive(Debug, PartialEq, Eq)]
pub enum WorkerFault {
    /// The one-shot channel did not take the shared value, which is handed
    /// back.
    ValueRefused(SharedValue),
    /// The channel of tasks was closed before a task came.
    Disconnected,
}

/// `Running` and `Fatal` are final.
pub open spec fn is_final(state: WorkerState) -> bool {
    state == WorkerState::Running || state == WorkerState::Fatal
}

/// The state that follows `state` on `event`, for a worker of a global pool
/// or of another.
///
/// The final states stay. Elsewhere the one event that the state waits for
/// moves the worker on; any other event is a failure.
pub open spec fn next_state(global: bool, state: WorkerState, event: WorkerEvent) -> WorkerState {
    match (state, event) {
        (WorkerState::Spawned, WorkerEvent::Entered) => if global {
            WorkerState::AwaitingTask
        } else {
            WorkerState::AwaitingSharedValue
        },
        (WorkerState::AwaitingSharedValue, WorkerEvent::ValueDelivered) => WorkerState::AwaitingTask,
        (WorkerState::AwaitingTask, WorkerEvent::TaskArrived) => WorkerState::Running,
        (WorkerState::Running, _) => WorkerState::Running,
        _ => WorkerState::Fatal,
    }
}

/// What a worker does in `state`.
pub open spec fn action_of(state: WorkerState) -> WorkerAction {
    match state {
        WorkerState::Spawned => WorkerAction::Enter,
        WorkerState::AwaitingSharedValue => WorkerAction::SendSharedValue,
        WorkerState::AwaitingTask => WorkerAction::ReceiveTask,
        WorkerState::Running => WorkerAction::RunTask,
        WorkerState::Fatal => WorkerAction::Abort,
    }
}

/// How far a state is along the start-up.
pub open spec fn progress(state: WorkerState) -> nat {
    match state {
        WorkerState::Spawned => 0,
        WorkerState::AwaitingSharedValue => 1,
        WorkerState::AwaitingTask => 2,
        WorkerState::Running => 3,
        WorkerState::Fatal => 3,
    }
}

/// The state of a worker that started as `Spawned` and saw `events`, first
/// to last.
pub open spec fn state_after(global: bool, events: Seq<WorkerEvent>) -> WorkerState
    decreases events.len(),
{
    if events.len() == 0 {
        WorkerState::Spawned
    } else {
        next_state(global, state_after(global, events.drop_last()), events.last())
    }
}

/// What the one-shot channel's answer means to the worker.
pub open spec fn sent_event_spec(sent: Result<(), SharedValue>) -> WorkerEvent {
    match sent {
        Ok(()) => WorkerEvent::ValueDelivered,
        Err(_) => WorkerEvent::ValueRefused,
    }
}

/// What the answer of the channel of tasks means to the worker.
pub open spec fn got_event_spec(got: Result<ThreadBuilder, Disconnected>) -> WorkerEvent {
    match got {
        Ok(_) => WorkerEvent::TaskArrived,
        Err(_) => WorkerEvent::ChannelClosed,
    }
}

/// Moves a worker on: the state after `event`.
pub fn advance(global: bool, state: WorkerState, event: WorkerEvent) -> (next: WorkerState)
    ensures
        next == next_state(global, state, event),
{
    match (state, event) {
        (WorkerState::Spawned, WorkerEvent::Entered) => if global {
            WorkerState::AwaitingTask
        } else {
            WorkerState::AwaitingSharedValue
        },
        (WorkerState::AwaitingSharedValue, WorkerEvent::ValueDelivered) => WorkerState::AwaitingTask,
        (WorkerState::AwaitingTask, WorkerEvent::TaskArrived) => WorkerState::Running,
        (WorkerState::Running, _) => WorkerState::Running,
        _ => WorkerState::Fatal,
    }
}

/// What a worker has to do in `state`.
pub fn next_action(state: WorkerState) -> (action: WorkerAction)
    ensures
        action == action_of(state),
{
    match state {
        WorkerState::Spawned => WorkerAction::Enter,
        WorkerState::AwaitingSharedValue => WorkerAction::SendSharedValue,
        WorkerState::AwaitingTask => WorkerAction::ReceiveTask,
        WorkerState::Running => WorkerAction::RunTask,
        WorkerState::Fatal => WorkerAction::Abort,
    }
}

/// Reads the one-shot channel's answer as an event.
pub fn sent_event(sent: &Result<(), SharedValue>) -> (event: WorkerEvent)
    ensures
        event == sent_event_spec(*sent),
{
    match sent {
        Ok(()) => WorkerEvent::ValueDelivered,
        Err(_) => WorkerEvent::ValueRefused,
    }
}

/// Reads the answer of the channel of tasks as an event.
pub fn got_event(got: &Result<ThreadBuilder, Disconnected>) -> (event: WorkerEvent)
    ensures
        event == got_event_spec(*got),
{
    match got {
        Ok(_) => WorkerEvent::TaskArrived,
        Err(_) => WorkerEvent::ChannelClosed,
    }
}

/// Whether a worker in `state` has nothing left to do but run or abort.
pub fn finished(state: WorkerState) -> (done: bool)
    ensures
        done == is_final(state),
{
    match state {
        WorkerState::Running => true,
        WorkerState::Fatal => true,
        _ => false,
    }
}

/// Walks a worker from its entry to a final state, doing in each state what
/// [`next_action`] asks for and moving on by what the channel answered.
///
/// A worker of a non-global pool comes with its `slot`: the sending end of
/// its one-shot channel and the value to put into it. A worker without one is
/// a worker of the global pool.
fn start(
    receiver: &WasmReceiver<ThreadBuilder>,
    slot: Option<(&Sender<SharedValue>, SharedValue)>,
) -> (started: Result<ThreadBuilder, WorkerFault>)
    ensures
        started matches Err(WorkerFault::ValueRefused(back)) ==> slot matches Some(given) && back
            == given.1,
{
    let global = slot.is_none();
    let mut held = slot;
    // What the two channels answered, once they were asked.
    let mut sent: Option<Result<(), SharedValue>> = None;
    let mut got: Option<Result<ThreadBuilder, Disconnected>> = None;
    let mut state = advance(global, WorkerState::Spawned, WorkerEvent::Entered);
    while !finished(state)
        invariant
            global == (slot is None),
            state != WorkerState::Spawned,
            state == WorkerState::AwaitingSharedValue ==> held == slot && !global,
            state == WorkerState::AwaitingSharedValue ==> sent is None,
            state == WorkerState::Running <==> got matches Some(Ok(_)),
            got is Some ==> is_final(state),
            sent matches Some(Err(_)) ==> state == WorkerState::Fatal && got is None,
            sent matches Some(Err(back)) ==> slot matches Some(given) && back == given.1,
        decreases 3 - progress(state),
    {
        match next_action(state) {
            WorkerAction::SendSharedValue => {
                match held.take() {
                    Some((sender, object)) => {
                        // The value goes first; a task is asked for only
                        // once the one-shot channel has taken it.
                        let outcome = send_to(sender, object);
                        state = advance(global, state, sent_event(&outcome));
                        sent = Some(outcome);
                    },
                    None => {
                        // Nothing to send into. Only a worker with a slot is
                        // ever in this state.
                        state = advance(global, state, WorkerEvent::ValueRefused);
                    },
                }
            },
            WorkerAction::ReceiveTask => {
                // One receive: whatever the channel answers is final.
                let outcome = receiver.recv();
                state = advance(global, state, got_event(&outcome));
                got = Some(outcome);
            },
            // The other actions belong to states that the loop is never in.
            _ => {},
        }
    }
    reported(sent, got)
}

/// The entry point of a worker of the global pool: blocks on the channel of
/// tasks and returns the one task that this worker is to run.
///
/// The worker has no shared value and no one-shot channel. It fails with
/// `Disconnected` when the channel of tasks is closed before a task came;
/// that is final for the worker, which has to terminate abnormally. On
/// success the caller runs the task, which does not return.
pub fn wbg_rayon_start_global_worker(receiver: &WasmReceiver<ThreadBuilder>) -> (started: Result<
    ThreadBuilder,
    WorkerFault,
>)
    ensures
        started matches Err(fault) ==> fault == WorkerFault::Disconnected,
{
    start(receiver, None)
}

/// The entry point of a worker of a non-global pool: puts `object` into the
/// worker's one-shot channel, then blocks on the channel of tasks and returns
/// the one task that this worker is to run.
///
/// The send tells the builder's side that the worker is alive and has its
/// value; it comes before the receive. When the one-shot channel has lost its
/// receiving end the worker fails with `ValueRefused`, which hands `object`
/// back, and does not touch the channel of tasks. When the channel of tasks
/// is closed before a task came it fails with `Disconnected`. Either failure
/// is final for the worker, which has to terminate abnormally. On success the
/// caller runs the task, which does not return.
pub fn wbg_rayon_start_worker(
    receiver: &WasmReceiver<ThreadBuilder>,
    object: SharedValue,
    obj_sender: &Sender<SharedValue>,
) -> (started: Result<ThreadBuilder, WorkerFault>)
    ensures
        started matches Err(WorkerFault::ValueRefused(back)) ==> back == object,
{
    start(receiver, Some((obj_sender, object)))
}

/// What a worker reports at the end of its start-up, for what its two
/// channels answered: `sent` is the answer of the one-shot channel, `None`
/// for a worker that has none to send into; `got` is the answer of the
/// channel of tasks, `None` for a worker that never asked.
///
/// A refused value is the end, and is handed back. Otherwise the task that
/// came is the worker's to run, and no task is `Disconnected`.
pub open spec fn reported_spec(
    sent: Option<Result<(), SharedValue>>,
    got: Option<Result<ThreadBuilder, Disconnected>>,
) -> Result<ThreadBuilder, WorkerFault> {
    match sent {
        Some(Err(back)) => Err(WorkerFault::ValueRefused(back)),
        _ => match got {
            Some(Ok(task)) => Ok(task),
            _ => Err(WorkerFault::Disconnected),
        },
    }
}

/// Decides what a worker reports once its channels have answered:
/// [`reported_spec`] of the two answers.
pub fn reported(
    sent: Option<Result<(), SharedValue>>,
    got: Option<Result<ThreadBuilder, Disconnected>>,
) -> (started: Result<ThreadBuilder, WorkerFault>)
    ensures
        started == reported_spec(sent, got),
{
    match sent {
        Some(Err(back)) => Err(WorkerFault::ValueRefused(back)),
        _ => match got {
            Some(Ok(task)) => Ok(task),
            _ => Err(WorkerFault::Disconnected),
        },
    }
}

} // verus!
