use metrix::cockpit::Cockpit;
use metrix::instruments::{Counter, Gauge};
use metrix::processor::{
    ProcessesTelemetryMessages, ProcessingDecider, ProcessingStrategy, TelemetryMessage,
    TelemetryProcessor, TransmitsTelemetryData,
};
use metrix::snapshot::FindItem::{Found, NotFound};
use metrix::snapshot::{ItemKind, Snapshot};
use metrix::time::{now, Duration, Instant};
use metrix::{HandlesObservations, Observation, ObservedValue, PutsSnapshot};

#[derive(Clone, PartialEq, Eq)]
enum Request {
    Successful,
    Failed,
}

#[test]
fn a_cockpit_passes_observations_to_its_handlers() {
    let mut cockpit = Cockpit::new("requests");
    cockpit.add_handler(Counter::new("successful").for_label(Request::Successful));
    cockpit.add_handler(Gauge::new("last_failed").for_label(Request::Failed));

    let updated = cockpit.handle_observation(&Observation::observed_one_now(Request::Successful));
    assert_eq!(updated, 1);
    cockpit.handle_observation(&Observation::observed_one_value_now(
        Request::Failed,
        ObservedValue::UnsignedInteger(667),
    ));

    let mut snapshot = Snapshot::default();
    cockpit.put_snapshot(&mut snapshot, false);
    assert_eq!(snapshot.find("requests/successful"), Found(&ItemKind::UInt(1)));
    assert_eq!(snapshot.find("requests/last_failed"), Found(&ItemKind::Int(667)));
}

#[test]
fn a_cockpit_without_a_name_writes_directly() {
    let mut cockpit: Cockpit<u32> = Cockpit::without_name();
    cockpit.add_handler(Counter::new("count").for_all_labels());
    let mut snapshot = Snapshot::default();
    cockpit.put_snapshot(&mut snapshot, false);
    assert_eq!(snapshot.find("count"), Found(&ItemKind::UInt(0)));
    assert_eq!(cockpit.name(), None);
}

#[test]
fn an_inactive_cockpit_shows_it() {
    let mut cockpit: Cockpit<u32> = Cockpit::new_at("c", Instant::from_nanos(0));
    cockpit.add_handler(Counter::new("count").for_all_labels());
    cockpit.set_inactivity_limit(Duration::from_secs(1));

    let mut snapshot = Snapshot::default();
    cockpit.put_snapshot_at(&mut snapshot, false, Instant::from_nanos(2_000_000_000));
    assert_eq!(snapshot.find("c/_inactive"), Found(&ItemKind::Boolean(true)));
    assert_eq!(snapshot.find("c/count"), NotFound);

    cockpit.handle_observation_at(&Observation::observed_one(1, now()), Instant::from_nanos(1_900_000_000));
    let mut snapshot = Snapshot::default();
    cockpit.put_snapshot_at(&mut snapshot, false, Instant::from_nanos(2_000_000_000));
    assert_eq!(snapshot.find("c/_active"), Found(&ItemKind::Boolean(true)));
    assert_eq!(snapshot.find("c/count"), Found(&ItemKind::UInt(1)));
}

#[test]
fn a_processor_drives_its_cockpits() {
    let (tx, mut rx) = TelemetryProcessor::<u32>::new_pair("proc");
    let mut cockpit = Cockpit::new("cockpit");
    cockpit.add_handler(Counter::new("count").for_label(1u32));
    tx.add_cockpit(cockpit);
    tx.observed_one_now(1);

    let outcome = rx.process(10, ProcessingStrategy::ProcessAll);
    assert_eq!(outcome.processed, 2);
    assert_eq!(outcome.instruments_updated, 1);

    let mut snapshot = Snapshot::default();
    rx.put_snapshot(&mut snapshot, false);
    assert_eq!(snapshot.find("proc/cockpit/count"), Found(&ItemKind::UInt(1)));
}

#[test]
fn a_second_cockpit_with_the_same_name_is_not_added() {
    let (_tx, mut rx) = TelemetryProcessor::<u32>::new_pair("proc");
    let mut first = Cockpit::new("cockpit");
    first.add_handler(Counter::new("first").for_all_labels());
    let mut second = Cockpit::new("cockpit");
    second.add_handler(Counter::new("second").for_all_labels());
    rx.add_cockpit(first);
    rx.add_cockpit(second);

    let mut snapshot = Snapshot::default();
    rx.put_snapshot(&mut snapshot, false);
    assert_eq!(snapshot.find("proc/cockpit/first"), Found(&ItemKind::UInt(0)));
    assert_eq!(snapshot.find("proc/cockpit/second"), NotFound);
}

#[test]
fn cockpits_can_be_removed_by_name() {
    let (_tx, mut rx) = TelemetryProcessor::<u32>::new_pair("proc");
    let mut keep = Cockpit::new("keep");
    keep.add_handler(Counter::new("count").for_all_labels());
    let mut gone = Cockpit::new("gone");
    gone.add_handler(Counter::new("count").for_all_labels());
    rx.add_cockpit(keep);
    rx.add_cockpit(gone);

    let o = rx.handle_message(TelemetryMessage::RemoveCockpit("gone".to_string()), &ProcessingDecider::ProcessAll);
    assert_eq!(o.processed, 1);

    let mut snapshot = Snapshot::default();
    rx.put_snapshot(&mut snapshot, false);
    assert_eq!(snapshot.find("proc/keep/count"), Found(&ItemKind::UInt(0)));
    assert_eq!(snapshot.find("proc/gone"), NotFound);
}
