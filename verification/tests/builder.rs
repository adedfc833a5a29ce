use rayon_on_worker::builder::{BuildError, SpawnRequest, WebWorkersBuilder};
use rayon_on_worker::channel::MAX_CAPACITY;
use rayon_on_worker::shared::SharedValue;

#[test]
fn new_builder_has_one_worker_and_no_value() {
    let builder = WebWorkersBuilder::new();
    assert_eq!(builder.worker_count(), 1);
    assert_eq!(builder.shared(), &SharedValue::Undefined);
    assert!(builder.rendezvous().is_none());
    assert_eq!(builder.slot_count(), 0);
    assert_eq!(builder.tasks_pushed(), 0);
}

#[test]
fn num_workers_sets_the_count() {
    let builder = WebWorkersBuilder::new().num_workers(7);
    assert_eq!(builder.worker_count(), 7);
    assert!(builder.rendezvous().is_none());
    assert_eq!(builder.slot_count(), 0);
}

#[test]
fn share_sets_the_value_and_keeps_the_count() {
    let builder = WebWorkersBuilder::new().num_workers(3).share(SharedValue::text("cfg-v1"));
    assert_eq!(builder.shared(), &SharedValue::Text(String::from("cfg-v1")));
    assert_eq!(builder.worker_count(), 3);
}

#[test]
fn build_allocates_one_slot_per_worker() {
    let mut builder = WebWorkersBuilder::new().num_workers(3).share(SharedValue::text("cfg-v1"));
    let request = builder.build().unwrap();
    assert_eq!(
        request,
        SpawnRequest {
            num_workers: 3,
            is_global: false,
            object: SharedValue::text("cfg-v1"),
            first_slot: 0,
            slots: 3,
        }
    );
    assert_eq!(builder.slot_count(), 3);
    assert_eq!(builder.receivers().len(), 3);
    assert_eq!(builder.tasks_pushed(), 0);
    let channel = builder.rendezvous().unwrap();
    assert_eq!(channel.capacity(), Some(3));
    assert_eq!(channel.workers(), 3);
    assert_eq!(channel.receiver().channel().capacity(), Some(3));
    assert_eq!(channel.receiver().channel().len(), 0);
    for slot in 0..3 {
        assert_eq!(builder.slot_capacity(slot), Some(1));
        assert!(builder.sender(slot).is_some());
    }
    assert_eq!(builder.slot_capacity(3), None);
    assert!(builder.sender(3).is_none());
}

#[test]
fn build_again_puts_new_slots_behind_the_old() {
    let mut builder = WebWorkersBuilder::new().num_workers(2);
    let first = builder.build().unwrap();
    let second = builder.build().unwrap();
    assert_eq!(first.first_slot, 0);
    assert_eq!(second.first_slot, 2);
    assert_eq!(second.slots, 2);
    assert_eq!(builder.slot_count(), 4);
    assert_eq!(builder.receivers().len(), 4);
}

#[test]
fn build_refuses_more_workers_than_a_channel_holds() {
    let mut builder = WebWorkersBuilder::new().num_workers(MAX_CAPACITY + 1);
    match builder.build() {
        Err(BuildError::TooManyWorkers { requested, limit }) => {
            assert_eq!(requested, 65536);
            assert_eq!(limit, 65535);
        }
        other => panic!("unexpected answer: {:?}", other),
    }
    assert!(builder.rendezvous().is_none());
    assert_eq!(builder.slot_count(), 0);
    match builder.build_global() {
        Err(BuildError::TooManyWorkers { requested, limit }) => {
            assert_eq!(requested, 65536);
            assert_eq!(limit, 65535);
        }
        other => panic!("unexpected answer: {:?}", other),
    }
    assert!(builder.rendezvous().is_none());
}

#[test]
fn build_accepts_as_many_workers_as_a_channel_holds() {
    let mut builder = WebWorkersBuilder::new().num_workers(MAX_CAPACITY);
    let request = builder.build_global().unwrap();
    assert_eq!(request.num_workers, 65535);
    assert_eq!(builder.rendezvous().unwrap().capacity(), Some(65535));
    assert_eq!(builder.rendezvous().unwrap().workers(), 65535);
}

#[test]
fn build_global_allocates_no_slot_and_carries_no_value() {
    let mut builder = WebWorkersBuilder::new().num_workers(4).share(SharedValue::text("cfg-v1"));
    let request = builder.build_global().unwrap();
    assert_eq!(
        request,
        SpawnRequest {
            num_workers: 4,
            is_global: true,
            object: SharedValue::Undefined,
            first_slot: 0,
            slots: 0,
        }
    );
    assert_eq!(builder.slot_count(), 0);
    assert_eq!(builder.receivers().len(), 0);
    assert_eq!(builder.rendezvous().unwrap().capacity(), Some(4));
    assert_eq!(builder.shared(), &SharedValue::text("cfg-v1"));
}

#[test]
fn build_global_leaves_earlier_slots_alone() {
    let mut builder = WebWorkersBuilder::new().num_workers(2);
    builder.build().unwrap();
    let request = builder.build_global().unwrap();
    assert_eq!(request.first_slot, 2);
    assert_eq!(request.slots, 0);
    assert_eq!(builder.slot_count(), 2);
    assert_eq!(builder.receivers().len(), 2);
}
