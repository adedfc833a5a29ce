use crossbeam_channel::RecvError;
use rayon_on_worker::receiver::{received, Disconnected};
use rayon_on_worker::shared::SharedValue;
use rayon_on_worker::worker::{
    advance, finished, got_event, next_action, sent_event, WorkerAction, WorkerEvent, WorkerState,
};

const STATES: [WorkerState; 5] = [
    WorkerState::Spawned,
    WorkerState::AwaitingSharedValue,
    WorkerState::AwaitingTask,
    WorkerState::Running,
    WorkerState::Fatal,
];

const EVENTS: [WorkerEvent; 5] = [
    WorkerEvent::Entered,
    WorkerEvent::ValueDelivered,
    WorkerEvent::ValueRefused,
    WorkerEvent::TaskArrived,
    WorkerEvent::ChannelClosed,
];

fn run(global: bool, events: &[WorkerEvent]) -> Vec<WorkerState> {
    let mut state = WorkerState::Spawned;
    let mut visited = vec![state];
    for event in events {
        state = advance(global, state, *event);
        visited.push(state);
    }
    visited
}

#[test]
fn a_worker_goes_from_value_to_task_to_running() {
    let visited = run(
        false,
        &[WorkerEvent::Entered, WorkerEvent::ValueDelivered, WorkerEvent::TaskArrived],
    );
    assert_eq!(
        visited,
        vec![
            WorkerState::Spawned,
            WorkerState::AwaitingSharedValue,
            WorkerState::AwaitingTask,
            WorkerState::Running,
        ]
    );
}

#[test]
fn a_global_worker_skips_the_shared_value() {
    let visited = run(true, &[WorkerEvent::Entered, WorkerEvent::TaskArrived]);
    assert_eq!(
        visited,
        vec![WorkerState::Spawned, WorkerState::AwaitingTask, WorkerState::Running]
    );
}

#[test]
fn a_refused_value_is_fatal() {
    let visited = run(false, &[WorkerEvent::Entered, WorkerEvent::ValueRefused]);
    assert_eq!(visited.last(), Some(&WorkerState::Fatal));
}

#[test]
fn a_closed_channel_is_fatal() {
    let visited = run(
        false,
        &[WorkerEvent::Entered, WorkerEvent::ValueDelivered, WorkerEvent::ChannelClosed],
    );
    assert_eq!(visited.last(), Some(&WorkerState::Fatal));
    let visited = run(true, &[WorkerEvent::Entered, WorkerEvent::ChannelClosed]);
    assert_eq!(visited.last(), Some(&WorkerState::Fatal));
}

#[test]
fn an_event_out_of_turn_is_fatal() {
    assert_eq!(advance(false, WorkerState::Spawned, WorkerEvent::TaskArrived), WorkerState::Fatal);
    assert_eq!(
        advance(false, WorkerState::AwaitingSharedValue, WorkerEvent::TaskArrived),
        WorkerState::Fatal
    );
    assert_eq!(
        advance(false, WorkerState::AwaitingTask, WorkerEvent::ValueDelivered),
        WorkerState::Fatal
    );
    assert_eq!(
        advance(true, WorkerState::AwaitingTask, WorkerEvent::Entered),
        WorkerState::Fatal
    );
}

#[test]
fn final_states_stay_whatever_happens() {
    for global in [false, true] {
        for event in EVENTS {
            assert_eq!(advance(global, WorkerState::Running, event), WorkerState::Running);
            assert_eq!(advance(global, WorkerState::Fatal, event), WorkerState::Fatal);
        }
    }
}

#[test]
fn only_running_and_fatal_are_finished() {
    let done: Vec<bool> = STATES.iter().map(|state| finished(*state)).collect();
    assert_eq!(done, vec![false, false, false, true, true]);
}

#[test]
fn each_state_has_its_action() {
    let actions: Vec<WorkerAction> = STATES.iter().map(|state| next_action(*state)).collect();
    assert_eq!(
        actions,
        vec![
            WorkerAction::Enter,
            WorkerAction::SendSharedValue,
            WorkerAction::ReceiveTask,
            WorkerAction::RunTask,
            WorkerAction::Abort,
        ]
    );
}

#[test]
fn no_run_sends_or_receives_twice() {
    for global in [false, true] {
        for first in EVENTS {
            for second in EVENTS {
                for third in EVENTS {
                    for fourth in EVENTS {
                        let visited = run(global, &[first, second, third, fourth]);
                        let sends = visited
                            .iter()
                            .filter(|state| next_action(**state) == WorkerAction::SendSharedValue)
                            .count();
                        let receives = visited
                            .iter()
                            .filter(|state| next_action(**state) == WorkerAction::ReceiveTask)
                            .count();
                        assert!(sends <= 1);
                        assert!(receives <= 1);
                        if global {
                            assert_eq!(sends, 0);
                        } else if receives == 1 {
                            assert_eq!(sends, 1);
                            let sent = visited
                                .iter()
                                .position(|state| *state == WorkerState::AwaitingSharedValue);
                            let took = visited
                                .iter()
                                .position(|state| *state == WorkerState::AwaitingTask);
                            assert!(sent < took);
                        }
                    }
                }
            }
        }
    }
}

#[test]
fn channel_answers_read_as_events() {
    assert_eq!(sent_event(&Ok(())), WorkerEvent::ValueDelivered);
    assert_eq!(sent_event(&Err(SharedValue::text("cfg-v1"))), WorkerEvent::ValueRefused);
    assert_eq!(got_event(&Err(Disconnected)), WorkerEvent::ChannelClosed);
}

#[test]
fn received_keeps_the_item_and_names_the_failure() {
    assert_eq!(received::<u32>(Ok(5)), Ok(5));
    assert_eq!(received::<u32>(Err(RecvError)), Err(Disconnected));
}

#[test]
fn shared_values_compare_by_their_text() {
    assert_eq!(SharedValue::undefined(), SharedValue::Undefined);
    assert!(SharedValue::undefined().is_undefined());
    assert_eq!(SharedValue::text("cfg-v1"), SharedValue::Text(String::from("cfg-v1")));
    assert!(!SharedValue::text("").is_undefined());
    assert_ne!(SharedValue::text(""), SharedValue::Undefined);
    assert_ne!(SharedValue::text("cfg-v1"), SharedValue::text("cfg-v2"));
}

#[test]
fn a_duplicate_is_equal_and_independent() {
    let first = SharedValue::text("cfg-v1");
    let copy = first.duplicate();
    drop(first);
    assert_eq!(copy, SharedValue::text("cfg-v1"));
    assert_eq!(SharedValue::Undefined.duplicate(), SharedValue::Undefined);
}
