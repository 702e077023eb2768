use metrix::driver::{
    DriverBuilder, GetSnapshotError, LoopAction, NamedInstrument, TelemetryLoop,
};
use metrix::instruments::{Counter, Instrument, Update, Updates};
use metrix::processor::{
    ProcessingOutcome, ProcessingStrategy, RecordingProcessor, TelemetryProcessor,
    TransmitsTelemetryData,
};
use metrix::snapshot::FindItem::{Found, NotFound};
use metrix::snapshot::{ItemKind, Snapshot};
use metrix::time::{Duration, Instant};
use metrix::PutsSnapshot;

/// A rate or histogram stand-in that counts its updates.
struct Counting(Counter);

impl Updates for Counting {
    fn update(&mut self, with: &Update) -> usize {
        self.0.update(with)
    }
}

impl PutsSnapshot for Counting {
    fn put_snapshot(&mut self, into: &mut Snapshot, descriptive: bool) {
        self.0.put_snapshot(into, descriptive)
    }
}

impl Instrument for Counting {}

impl NamedInstrument for Counting {
    fn with_name(name: &str) -> Self {
        Counting(Counter::new(name))
    }
}

fn outcome(processed: usize, dropped: usize) -> ProcessingOutcome {
    ProcessingOutcome { processed, dropped, instruments_updated: 0, observations_enqueued: 0 }
}

fn secs(s: u64) -> Instant {
    Instant::from_nanos(s * 1_000_000_000)
}

fn new_loop(with_metrics: bool) -> TelemetryLoop<Counting, Counting> {
    TelemetryLoop::new(
        Some("driver".to_string()),
        None,
        None,
        ProcessingStrategy::ProcessAll,
        with_metrics,
        secs(1_000),
    )
}

#[test]
fn dropped_observations_are_reported_at_most_every_five_seconds() {
    let mut l = new_loop(false);

    let a = l.after_run(&outcome(0, 2), secs(1_000), secs(1_000), secs(1_000));
    assert_eq!(a.log_dropped, Some(2));
    assert_eq!(a.sleep, Duration::from_nanos(0));

    let a = l.after_run(&outcome(0, 1), secs(1_001), secs(1_001), secs(1_001));
    assert_eq!(a.log_dropped, None);

    let a = l.after_run(&outcome(0, 0), secs(1_006), secs(1_006), secs(1_006));
    assert_eq!(a.log_dropped, Some(1));

    let a = l.after_run(&outcome(0, 0), secs(1_020), secs(1_020), secs(1_020));
    assert_eq!(a.log_dropped, None);
}

#[test]
fn quiet_runs_are_ten_milliseconds_apart() {
    let mut l = new_loop(false);
    let started = secs(1_000);
    let finished = Instant::from_nanos(started.nanos + 3_000_000);

    let a = l.after_run(&outcome(5, 0), started, finished, finished);
    assert_eq!(a, LoopAction { log_dropped: None, sleep: Duration::from_nanos(7_000_000) });

    let late = Instant::from_nanos(started.nanos + 30_000_000);
    let a = l.after_run(&outcome(5, 0), started, late, late);
    assert_eq!(a.sleep, Duration::from_nanos(0));

    let a = l.after_run(&outcome(101, 0), started, finished, finished);
    assert_eq!(a.sleep, Duration::from_nanos(0));

    let a = l.after_run(&outcome(100, 0), started, finished, finished);
    assert_eq!(a.sleep, Duration::from_nanos(7_000_000));
}

#[test]
fn a_paused_loop_only_waits() {
    let mut l = new_loop(false);
    l.pause();
    assert_eq!(
        l.run_once(),
        LoopAction { log_dropped: None, sleep: Duration::from_nanos(50_000_000) }
    );
    l.resume();
    let a = l.run_once();
    assert!(a.sleep.nanos <= 10_000_000);
}

#[test]
fn the_loop_drives_its_processors() {
    let mut l = new_loop(true);
    let (tx, rx) = TelemetryProcessor::<u32>::new_pair("proc");
    tx.add_handler(Counter::new("count").for_label(1u32));
    tx.observed_one_now(1).observed_one_now(1);
    l.add_processor(Box::new(RecordingProcessor::new(rx)));

    l.run_once();

    let mut snapshot = Snapshot::default();
    l.put_values_into_snapshot(&mut snapshot, false);
    assert_eq!(snapshot.find("driver/proc/count"), Found(&ItemKind::UInt(2)));
    assert_eq!(snapshot.find("driver/_metrix/collections_per_second"), Found(&ItemKind::UInt(1)));
    assert_eq!(snapshot.find("driver/_metrix/snapshots_per_second"), Found(&ItemKind::UInt(1)));
    assert_eq!(
        snapshot.find("driver/_metrix/dropped_observations_alarm"),
        Found(&ItemKind::Boolean(false))
    );
}

#[test]
fn a_loop_without_metrics_writes_none() {
    let mut l = new_loop(false);
    let mut snapshot = Snapshot::default();
    l.put_values_into_snapshot(&mut snapshot, false);
    assert_eq!(snapshot.find("driver/_metrix"), NotFound);
    assert_eq!(l.name(), Some("driver"));
}

#[test]
fn the_builder_has_the_documented_defaults() {
    let b = DriverBuilder::default();
    assert_eq!(b.name, None);
    assert_eq!(b.title, None);
    assert_eq!(b.description, None);
    assert_eq!(b.processing_strategy, ProcessingStrategy::DropOlderThan(Duration::from_secs(60)));
    assert!(b.with_driver_metrics);

    let b = DriverBuilder::new("d")
        .set_title("t")
        .set_description("x")
        .set_processing_strategy(ProcessingStrategy::DropAll)
        .set_driver_metrics(false);
    assert_eq!(b.name.as_deref(), Some("d"));
    assert_eq!(b.title.as_deref(), Some("t"));
    assert_eq!(b.description.as_deref(), Some("x"));
    assert_eq!(b.processing_strategy, ProcessingStrategy::DropAll);
    assert!(!b.with_driver_metrics);
}

#[test]
fn the_snapshot_error_says_what_went_wrong() {
    assert_eq!(GetSnapshotError.description(), "Could not create a snapshot");
}
