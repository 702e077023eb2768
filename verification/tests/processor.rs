use metrix::instruments::Counter;
use metrix::processor::{
    AggregatesProcessors, ProcessesTelemetryMessages, ProcessingDecider, ProcessingOutcome,
    ProcessingStrategy, ProcessorMount, TelemetryProcessor, TransmitsTelemetryData,
};
use metrix::snapshot::FindItem::{Found, NotFound};
use metrix::snapshot::{ItemKind, Snapshot};
use metrix::time::{now, Duration, Instant};
use metrix::{Observation, PutsSnapshot};

#[test]
fn observations_reach_the_handlers_with_their_label() {
    let (tx, mut rx) = TelemetryProcessor::<u32>::new_pair("proc");
    tx.add_handler(Counter::new("count").for_label(1u32));
    tx.observed_one_now(1).observed_one_now(2).observed_now(1, 3);

    let outcome = rx.process(100, ProcessingStrategy::ProcessAll);
    assert_eq!(outcome.processed, 4);
    assert_eq!(outcome.dropped, 0);
    assert_eq!(outcome.observations_enqueued, 0);

    let mut snapshot = Snapshot::default();
    rx.put_snapshot(&mut snapshot, false);
    assert_eq!(snapshot.find("proc/count"), Found(&ItemKind::UInt(4)));
}

#[test]
fn drop_all_drops_every_observation() {
    let (tx, mut rx) = TelemetryProcessor::<u32>::new_pair_without_name();
    tx.add_handler(Counter::new("count").for_label(1u32));
    tx.observed_one_now(1).observed_one_now(1);

    let outcome = rx.process(100, ProcessingStrategy::DropAll);
    assert_eq!(outcome.processed, 1);
    assert_eq!(outcome.dropped, 2);

    let mut snapshot = Snapshot::default();
    rx.put_snapshot(&mut snapshot, false);
    assert_eq!(snapshot.find("count"), Found(&ItemKind::UInt(0)));
}

#[test]
fn old_observations_are_dropped() {
    let (tx, mut rx) = TelemetryProcessor::<u32>::new_pair_without_name();
    tx.add_handler(Counter::new("count").for_label(1u32));
    tx.observed_one(1, Instant::from_nanos(0));
    tx.observed_one_now(1);

    let outcome = rx.process(100, ProcessingStrategy::default());
    assert_eq!(outcome.processed, 2);
    assert_eq!(outcome.dropped, 1);
}

#[test]
fn at_most_max_messages_are_taken() {
    let (tx, mut rx) = TelemetryProcessor::<u32>::new_pair_without_name();
    tx.observed_one_now(1).observed_one_now(1).observed_one_now(1);

    let outcome = rx.process(2, ProcessingStrategy::ProcessAll);
    assert_eq!(outcome.processed, 2);
    assert_eq!(outcome.observations_enqueued, 1);

    let outcome = rx.process(2, ProcessingStrategy::ProcessAll);
    assert_eq!(outcome.processed, 1);
}

#[test]
fn a_full_bounded_queue_drops_without_blocking() {
    let (tx, mut rx) = TelemetryProcessor::<u32>::new_pair_bounded_without_name(1, false);
    tx.observed_one_now(1).observed_one_now(1);

    let outcome = rx.process(10, ProcessingStrategy::ProcessAll);
    assert_eq!(outcome.processed, 1);
}

#[test]
fn a_disconnected_processor_stops() {
    let (tx, mut rx) = TelemetryProcessor::<u32>::new_pair_without_name();
    tx.observed_one_now(1);
    drop(tx);

    let outcome = rx.process(10, ProcessingStrategy::ProcessAll);
    assert_eq!(outcome.processed, 1);
    let outcome = rx.process(10, ProcessingStrategy::ProcessAll);
    assert_eq!(outcome.processed, 0);
    assert_eq!(outcome.dropped, 0);
}

#[test]
fn an_inactive_processor_shows_it() {
    let (_tx, mut rx) = TelemetryProcessor::<u32>::new_pair("p");
    rx.add_handler(Counter::new("count").for_label(1u32));
    rx.set_inactivity_limit(Duration::from_secs(1));

    let later = Instant::from_nanos(now().nanos + 10_000_000_000);
    let mut snapshot = Snapshot::default();
    rx.put_snapshot_at(&mut snapshot, false, later);
    assert_eq!(snapshot.find("p/_inactive"), Found(&ItemKind::Boolean(true)));
    assert_eq!(snapshot.find("p/_active"), Found(&ItemKind::Boolean(false)));
    assert_eq!(snapshot.find("p/count"), NotFound);

    let mut snapshot = Snapshot::default();
    rx.put_snapshot(&mut snapshot, false);
    assert_eq!(snapshot.find("p/_inactive"), Found(&ItemKind::Boolean(false)));
    assert_eq!(snapshot.find("p/count"), Found(&ItemKind::UInt(0)));
}

#[test]
fn titles_are_written_in_descriptive_snapshots() {
    let (_tx, mut rx) = TelemetryProcessor::<u32>::new_pair("p");
    rx.set_title("The title");
    rx.set_description("The description");
    let mut snapshot = Snapshot::default();
    rx.put_snapshot(&mut snapshot, true);
    assert_eq!(
        snapshot.find("p/_title"),
        Found(&ItemKind::Text("The title".to_string()))
    );
    assert_eq!(
        snapshot.find("p/_description"),
        Found(&ItemKind::Text("The description".to_string()))
    );
    let mut snapshot = Snapshot::default();
    rx.put_snapshot(&mut snapshot, false);
    assert_eq!(snapshot.find("p/_title"), NotFound);
}

#[test]
fn a_mount_groups_processors() {
    let (tx, rx) = TelemetryProcessor::<u32>::new_pair("proc");
    tx.add_handler(Counter::new("count").for_label(1u32));
    tx.observed_one_now(1);

    let mut mount = ProcessorMount::new("mount");
    mount.add_processor(rx);
    let outcome = mount.process(10, ProcessingStrategy::ProcessAll);
    assert_eq!(outcome.processed, 2);

    let mut snapshot = Snapshot::default();
    mount.put_snapshot(&mut snapshot, false);
    assert_eq!(snapshot.find("mount/proc/count"), Found(&ItemKind::UInt(1)));
}

#[test]
fn an_attached_mount_receives_what_is_added_later() {
    let mut mount = ProcessorMount::new("outer");
    let mut attached = mount.attached_mount(ProcessorMount::new("inner"));

    let (tx, rx) = TelemetryProcessor::<u32>::new_pair("proc");
    tx.add_handler(Counter::new("count").for_label(1u32));
    tx.observed_one_now(1);
    attached.add_processor(rx);

    let outcome = mount.process(10, ProcessingStrategy::ProcessAll);
    assert_eq!(outcome.processed, 2);

    let mut snapshot = Snapshot::default();
    mount.put_snapshot(&mut snapshot, false);
    assert_eq!(snapshot.find("outer/inner/proc/count"), Found(&ItemKind::UInt(1)));
}

#[test]
fn outcomes_combine_field_by_field() {
    let mut a = ProcessingOutcome { processed: 1, dropped: 2, instruments_updated: 3, observations_enqueued: 4 };
    let b = ProcessingOutcome { processed: 10, dropped: 20, instruments_updated: 30, observations_enqueued: 40 };
    a.combine_with(&b);
    assert_eq!(a.processed, 11);
    assert_eq!(a.dropped, 22);
    assert_eq!(a.instruments_updated, 33);
    assert_eq!(a.observations_enqueued, 44);
    assert!(a.something_happened());
    assert!(!ProcessingOutcome::default().something_happened());
    let only_dropped = ProcessingOutcome { processed: 0, dropped: 1, instruments_updated: 0, observations_enqueued: 0 };
    assert!(only_dropped.something_happened());
}

#[test]
fn strategies_give_deciders() {
    let t = Instant::from_nanos(100_000_000_000);
    assert_eq!(ProcessingStrategy::ProcessAll.decider_at(t), ProcessingDecider::ProcessAll);
    assert_eq!(ProcessingStrategy::DropAll.decider_at(t), ProcessingDecider::DropAll);
    assert_eq!(
        ProcessingStrategy::DropOlderThan(Duration::from_secs(30)).decider_at(t),
        ProcessingDecider::DropBeforeDeadline(Instant::from_nanos(70_000_000_000))
    );
    assert_eq!(
        ProcessingStrategy::DropOlderThan(Duration::from_secs(300)).decider_at(t),
        ProcessingDecider::DropBeforeDeadline(Instant::from_nanos(0))
    );
    assert_eq!(
        ProcessingStrategy::default(),
        ProcessingStrategy::DropOlderThan(Duration::from_secs(60))
    );
}

#[test]
fn deciders_judge_by_the_timestamp() {
    let deadline = ProcessingDecider::DropBeforeDeadline(Instant::from_nanos(1_000));
    let young = Observation::observed_one(1u32, Instant::from_nanos(1_001));
    let exact = Observation::observed_one(1u32, Instant::from_nanos(1_000));
    let old = Observation::observed_one(1u32, Instant::from_nanos(999));
    assert!(deadline.should_be_processed(&young));
    assert!(deadline.should_be_processed(&exact));
    assert!(!deadline.should_be_processed(&old));
    assert!(ProcessingDecider::ProcessAll.should_be_processed(&exact));
    assert!(!ProcessingDecider::DropAll.should_be_processed(&young));
}

#[test]
fn the_telemetry_transmitter_is_sync() {
    fn is_sync<T>(_proc: T)
    where
        T: TransmitsTelemetryData<()> + Sync,
    {
    }

    let (tx, _rx) = TelemetryProcessor::new_pair_without_name();
    is_sync(tx);
}
