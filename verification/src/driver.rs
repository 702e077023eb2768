//! The decisions of the telemetry driver.
//!
//! A driver regularly lets its processors process the observations that
//! arrived and answers requests for snapshots. Running it on a thread of its
//! own, sleeping and receiving requests are left to the caller: after each
//! run this module says how long to wait and what to report.
use crate::instruments::switches::{
    NonOccurrenceIndicator, NonOccurrenceIndicatorView, StaircaseTimer, StaircaseTimerView,
};
use crate::instruments::{Instrument, Update};
use crate::observation::ObservedValue;
use crate::processor::{
    last_runs_total, ran_all, with_default_descriptives, BoxedProcessor, ProcessingOutcome,
    ProcessingStrategy,
};
use crate::snapshot::{ItemKind, ItemValue, Snapshot};
use crate::time::{now, saturating_add_spec, saturating_sub_spec, Duration, Instant, NANOS_PER_MICRO};
use crate::util::{lemma_push_len, lemma_remove_first, put_default_descriptives, saturating_total};
use crate::{opt_as_str, opt_str_view, opt_string_view, Descriptive, PutsSnapshot};
use vstd::prelude::*;

verus! {

/// A builder for a telemetry driver.
pub struct DriverBuilder {
    /// An optional name that will also group the metrics under the name.
    ///
    /// Default is `None`.
    pub name: Option<String>,
    /// A title to be added when a `Snapshot` with descriptions is created.
    ///
    /// Default is `None`.
    pub title: Option<String>,
    /// A description to be added when a `Snapshot` with descriptions is
    /// created.
    ///
    /// Default is `None`.
    pub description: Option<String>,
    /// The `ProcessingStrategy`. By default observations older than 60
    /// seconds are dropped.
    pub processing_strategy: ProcessingStrategy,
    /// If true metrics for the driver will be added to the generated
    /// `Snapshot`.
    ///
    /// Default is `true`.
    pub with_driver_metrics: bool,
}

impl DriverBuilder {
    /// A builder with the defaults and the given name.
    pub fn new(name: &str) -> (b: DriverBuilder)
        ensures
            opt_string_view(b.name) == Some(name@),
            b.title is None,
            b.description is None,
            b.processing_strategy == ProcessingStrategy::DropOlderThan(
                Duration { nanos: 60_000_000_000 },
            ),
            b.with_driver_metrics,
    {
        let mut me = Self::default();
        me.name = Some(String::from_str(name));
        me
    }

    pub fn set_name(self, name: &str) -> (b: Self)
        ensures
            opt_string_view(b.name) == Some(name@),
            b.title == self.title,
            b.description == self.description,
            b.processing_strategy == self.processing_strategy,
            b.with_driver_metrics == self.with_driver_metrics,
    {
        let mut me = self;
        me.name = Some(String::from_str(name));
        me
    }

    pub fn set_title(self, title: &str) -> (b: Self)
        ensures
            b.name == self.name,
            opt_string_view(b.title) == Some(title@),
            b.description == self.description,
            b.processing_strategy == self.processing_strategy,
            b.with_driver_metrics == self.with_driver_metrics,
    {
        let mut me = self;
        me.title = Some(String::from_str(title));
        me
    }

    pub fn set_description(self, description: &str) -> (b: Self)
        ensures
            b.name == self.name,
            b.title == self.title,
            opt_string_view(b.description) == Some(description@),
            b.processing_strategy == self.processing_strategy,
            b.with_driver_metrics == self.with_driver_metrics,
    {
        let mut me = self;
        me.description = Some(String::from_str(description));
        me
    }

    pub fn set_processing_strategy(self, processing_strategy: ProcessingStrategy) -> (b: Self)
        ensures
            b.name == self.name,
            b.title == self.title,
            b.description == self.description,
            b.processing_strategy == processing_strategy,
            b.with_driver_metrics == self.with_driver_metrics,
    {
        let mut me = self;
        me.processing_strategy = processing_strategy;
        me
    }

    pub fn set_driver_metrics(self, enabled: bool) -> (b: Self)
        ensures
            b.name == self.name,
            b.title == self.title,
            b.description == self.description,
            b.processing_strategy == self.processing_strategy,
            b.with_driver_metrics == enabled,
    {
        let mut me = self;
        me.with_driver_metrics = enabled;
        me
    }
}

impl Default for DriverBuilder {
    fn default() -> (b: Self)
        ensures
            b.name is None,
            b.title is None,
            b.description is None,
            b.processing_strategy == ProcessingStrategy::DropOlderThan(
                Duration { nanos: 60_000_000_000 },
            ),
            b.with_driver_metrics,
    {
        Self {
            name: None,
            title: None,
            description: None,
            processing_strategy: ProcessingStrategy::default(),
            with_driver_metrics: true,
        }
    }
}

/// A snapshot could not be taken: the driver did not answer.
#[derive(Clone, Copy, Debug)]
pub struct GetSnapshotError;

impl GetSnapshotError {
    /// What went wrong.
    pub fn description(&self) -> (r: &'static str)
        ensures
            r@ == "Could not create a snapshot"@,
    {
        "Could not create a snapshot"
    }
}

/// The name, title and description of a driver.
pub struct Descriptives {
    pub name: Option<String>,
    pub title: Option<String>,
    pub description: Option<String>,
}

impl Default for Descriptives {
    fn default() -> (d: Self)
        ensures
            d.name is None,
            d.title is None,
            d.description is None,
    {
        Self { name: None, title: None, description: None }
    }
}

impl Descriptive for Descriptives {
    open spec fn title_spec(&self) -> Option<Seq<char>> {
        opt_string_view(self.title)
    }

    open spec fn description_spec(&self) -> Option<Seq<char>> {
        opt_string_view(self.description)
    }

    fn title(&self) -> (r: Option<&str>) {
        opt_as_str(&self.title)
    }

    fn description(&self) -> (r: Option<&str>) {
        opt_as_str(&self.description)
    }
}

/// The microseconds of a span, whole ones only.
pub open spec fn micros_of(d: Duration) -> u64 {
    (d.nanos / NANOS_PER_MICRO) as u64
}

fn duration_to_micros(d: Duration) -> (us: u64)
    ensures
        us == micros_of(d),
{
    d.nanos / NANOS_PER_MICRO
}

/// An instrument of the driver's own metrics that can be made from a name.
pub trait NamedInstrument: Instrument + Send + 'static + Sized {
    /// An instrument named `name`, with defaults for everything else.
    fn with_name(name: &str) -> Self;
}

/// The metrics a driver keeps on its own activities.
///
/// * `collections_per_second`: the number of collection runs per second
/// * `collection_times_us`: a histogram of how long each run took, in
///   microseconds
/// * `observations_processed_per_second`, `observations_processed_per_collection`
/// * `observations_dropped_per_second`, `observations_dropped_per_collection`
/// * `snapshots_per_second`, `snapshots_times_us`
/// * `dropped_observations_alarm`: on for 60 seconds once observations have
///   been dropped
/// * `inactivity_alarm`: on where no collection run happened for 60 seconds
pub struct DriverInstruments<R, H> {
    collections_per_second: R,
    collection_times_us: H,
    observations_processed_per_second: R,
    observations_processed_per_collection: H,
    observations_dropped_per_second: R,
    observations_dropped_per_collection: H,
    snapshots_per_second: R,
    snapshots_times_us: H,
    dropped_observations_alarm: StaircaseTimer,
    inactivity_alarm: NonOccurrenceIndicator,
}

impl<R: NamedInstrument, H: NamedInstrument> DriverInstruments<R, H> {
    /// The state of the two alarms.
    pub closed spec fn alarms(&self) -> (StaircaseTimerView, NonOccurrenceIndicatorView) {
        (self.dropped_observations_alarm@, self.inactivity_alarm@)
    }

    /// The driver's instruments, with rates of type `R` and histograms of
    /// type `H`.
    pub fn new() -> (d: Self)
        ensures
            d.alarms().0 == (StaircaseTimerView {
                name: "dropped_observations_alarm"@,
                title: None,
                description: None,
                switch_off_after: Duration { nanos: 60_000_000_000 },
                invert: false,
                stay_on_until: None,
                show_inverted: None,
            }),
            d.alarms().1.name == "inactivity_alarm"@,
            d.alarms().1.if_not_happened_within == (Duration { nanos: 60_000_000_000 }),
            !d.alarms().1.invert,
    {
        DriverInstruments {
            collections_per_second: R::with_name("collections_per_second"),
            collection_times_us: H::with_name("collection_times_us"),
            observations_processed_per_second: R::with_name("observations_processed_per_second"),
            observations_processed_per_collection: H::with_name(
                "observations_processed_per_collection",
            ),
            observations_dropped_per_second: R::with_name("observations_dropped_per_second"),
            observations_dropped_per_collection: H::with_name(
                "observations_dropped_per_collection",
            ),
            snapshots_per_second: R::with_name("snapshots_per_second"),
            snapshots_times_us: H::with_name("snapshots_times_us"),
            dropped_observations_alarm: StaircaseTimer::new_with_defaults(
                "dropped_observations_alarm",
            ),
            inactivity_alarm: NonOccurrenceIndicator::new_with_defaults("inactivity_alarm"),
        }
    }

    /// Records a collection run that started at `collection_started`, at
    /// `now`: the dropped-observations alarm is switched on where something
    /// was dropped, and the inactivity alarm sees an occurrence.
    pub fn update_post_collection(
        &mut self,
        outcome: &ProcessingOutcome,
        collection_started: Instant,
        now: Instant,
    )
        ensures
            final(self).alarms().0 == if outcome.dropped > 0 {
                (StaircaseTimerView {
                    stay_on_until: Some(
                        Instant {
                            nanos: saturating_add_spec(
                                now.nanos,
                                old(self).alarms().0.switch_off_after.nanos,
                            ),
                        },
                    ),
                    ..old(self).alarms().0
                })
            } else {
                old(self).alarms().0
            },
            final(self).alarms().1 == (NonOccurrenceIndicatorView {
                happened_last: now,
                ..old(self).alarms().1
            }),
    {
        self.collections_per_second.update(&Update::Observation(now));
        let took = duration_to_micros(now.saturating_duration_since(collection_started));
        self.collection_times_us.update(
            &Update::ObservationWithValue(ObservedValue::UnsignedInteger(took), now),
        );
        if outcome.processed > 0 {
            let processed = outcome.processed as u64;
            self.observations_processed_per_second.update(
                &Update::Observations(processed, now),
            );
            self.observations_processed_per_collection.update(
                &Update::ObservationWithValue(ObservedValue::UnsignedInteger(processed), now),
            );
        }
        if outcome.dropped > 0 {
            let dropped = outcome.dropped as u64;
            self.observations_dropped_per_second.update(&Update::Observations(dropped, now));
            self.observations_dropped_per_collection.update(
                &Update::ObservationWithValue(ObservedValue::UnsignedInteger(dropped), now),
            );
            self.dropped_observations_alarm.update_at(now);
        }
        self.inactivity_alarm.update_at(now);
    }

    /// Records a snapshot that started at `snapshot_started`, at `now`.
    pub fn update_post_snapshot(&mut self, snapshot_started: Instant, now: Instant)
        ensures
            final(self).alarms() == old(self).alarms(),
    {
        self.snapshots_per_second.update(&Update::Observation(now));
        let took = duration_to_micros(now.saturating_duration_since(snapshot_started));
        self.snapshots_times_us.update(
            &Update::ObservationWithValue(ObservedValue::UnsignedInteger(took), now),
        );
    }

    /// Writes all the driver's metrics into a sub snapshot `_metrix`.
    pub fn put_snapshot(&mut self, into: &mut Snapshot, descriptive: bool)
        ensures
            final(self).alarms() == old(self).alarms(),
            final(into)@.len() == old(into)@.len() + 1,
            final(into)@.take(old(into)@.len() as int) == old(into)@,
            final(into)@.last().0 == "_metrix"@,
            final(into)@.last().1 is Group,
    {
        let mut container = Snapshot::new();
        self.collections_per_second.put_snapshot(&mut container, descriptive);
        self.collection_times_us.put_snapshot(&mut container, descriptive);
        self.observations_processed_per_second.put_snapshot(&mut container, descriptive);
        self.observations_processed_per_collection.put_snapshot(&mut container, descriptive);
        self.observations_dropped_per_second.put_snapshot(&mut container, descriptive);
        self.observations_dropped_per_collection.put_snapshot(&mut container, descriptive);
        self.snapshots_per_second.put_snapshot(&mut container, descriptive);
        self.snapshots_times_us.put_snapshot(&mut container, descriptive);
        self.dropped_observations_alarm.put_snapshot(&mut container, descriptive);
        self.inactivity_alarm.put_snapshot(&mut container, descriptive);
        into.push(String::from_str("_metrix"), ItemKind::Snapshot(container));
        assert(final(into)@.take(old(into)@.len() as int) =~= old(into)@);
        proof {
            reveal_strlit("_metrix");
        }
    }
}


/// What the caller of the driver's loop does after a run.
#[derive(Debug, Clone, Copy, PartialEq, Eq, Structural)]
pub struct LoopAction {
    /// Report that this many observations were dropped since the last
    /// report.
    pub log_dropped: Option<usize>,
    /// Wait this long before the next run.
    pub sleep: Duration,
}

/// The most messages a processor is asked to handle in one run.
pub const MAX_MESSAGES_PER_RUN: usize = 1000;

/// A run that processed more than this many observations is followed by
/// the next one at once.
pub const BUSY_RUN_PROCESSED: usize = 100;

/// Runs are this far apart at least, in nanoseconds, unless the last one
/// was busy.
pub const RUN_INTERVAL_NANOS: u64 = 10_000_000;

/// A paused loop waits this long, in nanoseconds, between checks.
pub const PAUSE_SLEEP_NANOS: u64 = 50_000_000;

/// Dropped observations are reported at most this often, in nanoseconds.
pub const LOG_INTERVAL_NANOS: u64 = 5_000_000_000;

/// What a driver's loop is, apart from its processors and snapshooters.
pub struct LoopView {
    pub name: Option<Seq<char>>,
    pub title: Option<Seq<char>>,
    pub description: Option<Seq<char>>,
    pub strategy: ProcessingStrategy,
    pub paused: bool,
    pub last_outcome_logged: Instant,
    pub dropped_since_last_logged: usize,
    /// The two alarms of the driver's metrics, where it keeps metrics.
    pub alarms: Option<(StaircaseTimerView, NonOccurrenceIndicatorView)>,
    /// How many processors and snapshooters the driver has.
    pub processor_count: nat,
    pub snapshooter_count: nat,
}

/// The state and action after a run that dropped `dropped` and processed
/// `processed` observations; it started at `started`, its outcome was
/// looked at `now` and it was done at `finished`.
///
/// Dropped observations are added up and reported once more than five
/// seconds passed since the last report. A run that dropped something or
/// processed more than a hundred observations is followed by the next one
/// at once; otherwise runs start ten milliseconds apart.
pub open spec fn after_run_spec(
    v: LoopView,
    dropped: usize,
    processed: usize,
    started: Instant,
    now: Instant,
    finished: Instant,
) -> (LoopView, LoopAction) {
    let since = if v.dropped_since_last_logged + dropped <= usize::MAX {
        (v.dropped_since_last_logged + dropped) as usize
    } else {
        usize::MAX
    };
    let log = since > 0 && saturating_sub_spec(now.nanos, v.last_outcome_logged.nanos)
        > LOG_INTERVAL_NANOS;
    let elapsed = saturating_sub_spec(finished.nanos, started.nanos);
    let sleep: u64 = if dropped > 0 || processed > BUSY_RUN_PROCESSED {
        0
    } else if elapsed < RUN_INTERVAL_NANOS {
        (RUN_INTERVAL_NANOS - elapsed) as u64
    } else {
        0
    };
    let alarms = match v.alarms {
        Some((dropped_alarm, inactivity_alarm)) => Some(
            (
                if dropped > 0 {
                    StaircaseTimerView {
                        stay_on_until: Some(
                            Instant {
                                nanos: saturating_add_spec(
                                    now.nanos,
                                    dropped_alarm.switch_off_after.nanos,
                                ),
                            },
                        ),
                        ..dropped_alarm
                    }
                } else {
                    dropped_alarm
                },
                NonOccurrenceIndicatorView { happened_last: now, ..inactivity_alarm },
            ),
        ),
        None => None,
    };
    (
        LoopView {
            last_outcome_logged: if log {
                now
            } else {
                v.last_outcome_logged
            },
            dropped_since_last_logged: if log {
                0
            } else {
                since
            },
            alarms,
            ..v
        },
        LoopAction { log_dropped: if log {
            Some(since)
        } else {
            None
        }, sleep: Duration { nanos: sleep } },
    )
}

/// The action of a paused loop: wait a little and look again.
pub open spec fn paused_action() -> LoopAction {
    LoopAction { log_dropped: None, sleep: Duration { nanos: PAUSE_SLEEP_NANOS } }
}

/// What a driver `v` leaves of its values in a snapshot that held `into`:
/// `result`. Where it keeps metrics, their group `_metrix` comes last; a
/// driver with nothing else to show writes just its title and description.
pub open spec fn driver_values(
    v: LoopView,
    into: Seq<(Seq<char>, ItemValue)>,
    result: Seq<(Seq<char>, ItemValue)>,
    descriptive: bool,
) -> bool {
    &&& v.alarms is Some ==> {
        &&& result.len() > 0
        &&& result.last().0 == "_metrix"@
        &&& result.last().1 is Group
    }
    &&& v.alarms is None && v.processor_count == 0 && v.snapshooter_count == 0 ==> result
        == with_default_descriptives(into, v.title, v.description, descriptive)
}

/// The state of a driver: its processors, its snapshooters and what its
/// loop decides by.
pub struct TelemetryLoop<R, H> {
    descriptives: Descriptives,
    processors: Vec<Box<dyn BoxedProcessor>>,
    snapshooters: Vec<Box<dyn PutsSnapshot>>,
    processing_strategy: ProcessingStrategy,
    paused: bool,
    last_outcome_logged: Instant,
    dropped_since_last_logged: usize,
    driver_metrics: Option<DriverInstruments<R, H>>,
    /// For each processor, its runs as it recorded them at its last run.
    runs_seen: Ghost<Seq<Seq<(usize, ProcessingStrategy, ProcessingOutcome)>>>,
}

impl<R, H> TelemetryLoop<R, H> {
    /// The runs of each processor, in the processors' order, as each
    /// processor recorded them at its last run (none for one that has not
    /// run).
    pub closed spec fn processor_runs(&self) -> Seq<Seq<(usize, ProcessingStrategy, ProcessingOutcome)>> {
        Seq::new(
            self.processors@.len(),
            |i: int|
                if i < self.runs_seen@.len() {
                    self.runs_seen@[i]
                } else {
                    Seq::empty()
                },
        )
    }
}

impl<R: NamedInstrument, H: NamedInstrument> View for TelemetryLoop<R, H> {
    type V = LoopView;

    closed spec fn view(&self) -> LoopView {
        LoopView {
            name: opt_string_view(self.descriptives.name),
            title: opt_string_view(self.descriptives.title),
            description: opt_string_view(self.descriptives.description),
            strategy: self.processing_strategy,
            paused: self.paused,
            last_outcome_logged: self.last_outcome_logged,
            dropped_since_last_logged: self.dropped_since_last_logged,
            alarms: match self.driver_metrics {
                Some(m) => Some(m.alarms()),
                None => None,
            },
            processor_count: self.processors@.len(),
            snapshooter_count: self.snapshooters@.len(),
        }
    }
}

impl<R: NamedInstrument, H: NamedInstrument> TelemetryLoop<R, H> {
    /// A loop created at `now`: it counts as having reported dropped
    /// observations a minute before.
    pub fn new(
        name: Option<String>,
        title: Option<String>,
        description: Option<String>,
        processing_strategy: ProcessingStrategy,
        with_driver_metrics: bool,
        now: Instant,
    ) -> (l: Self)
        ensures
            l@.name == opt_string_view(name),
            l@.title == opt_string_view(title),
            l@.description == opt_string_view(description),
            l@.strategy == processing_strategy,
            !l@.paused,
            l@.last_outcome_logged == (Instant {
                nanos: saturating_sub_spec(now.nanos, 60_000_000_000u64),
            }),
            l@.dropped_since_last_logged == 0,
            l@.alarms is Some <==> with_driver_metrics,
            l@.processor_count == 0,
            l@.snapshooter_count == 0,
    {
        let driver_metrics = if with_driver_metrics {
            Some(DriverInstruments::new())
        } else {
            None
        };
        TelemetryLoop {
            descriptives: Descriptives { name, title, description },
            processors: Vec::new(),
            snapshooters: Vec::new(),
            processing_strategy,
            paused: false,
            last_outcome_logged: now.saturating_sub(Duration::from_secs(60)),
            dropped_since_last_logged: 0,
            driver_metrics,
            runs_seen: Ghost(Seq::empty()),
        }
    }

    /// The name of the driver.
    pub fn name(&self) -> (r: Option<&str>)
        ensures
            opt_str_view(r) == self@.name,
    {
        opt_as_str(&self.descriptives.name)
    }

    /// Adds a processor.
    pub fn add_processor(&mut self, processor: Box<dyn BoxedProcessor>)
        ensures
            final(self)@ == (LoopView { processor_count: old(self)@.processor_count + 1, ..old(self)@ }),
            final(self).processor_runs() == old(self).processor_runs().push(Seq::empty()),
    {
        let ghost runs = self.processor_runs();
        proof {
            lemma_push_len(self.processors@, processor);
        }
        self.processors.push(processor);
        proof {
            self.runs_seen@ = runs.push(Seq::empty());
        }
        assert(self.processor_runs() =~= runs.push(Seq::empty()));
    }

    /// Adds a snapshooter.
    pub fn add_snapshooter(&mut self, snapshooter: Box<dyn PutsSnapshot>)
        ensures
            final(self)@ == (LoopView {
                snapshooter_count: old(self)@.snapshooter_count + 1,
                ..old(self)@
            }),
    {
        proof {
            lemma_push_len(self.snapshooters@, snapshooter);
        }
        self.snapshooters.push(snapshooter);
    }

    /// Changes the processing strategy.
    pub fn set_processing_strategy(&mut self, strategy: ProcessingStrategy)
        ensures
            final(self)@ == (LoopView { strategy, ..old(self)@ }),
    {
        self.processing_strategy = strategy;
    }

    /// Pauses processing of observations.
    pub fn pause(&mut self)
        ensures
            final(self)@ == (LoopView { paused: true, ..old(self)@ }),
    {
        self.paused = true;
    }

    /// Resumes processing of observations.
    pub fn resume(&mut self)
        ensures
            final(self)@ == (LoopView { paused: false, ..old(self)@ }),
    {
        self.paused = false;
    }

    /// Lets every processor process up to `MAX_MESSAGES_PER_RUN` messages
    /// with the current strategy and adds up the outcomes (each field cut at
    /// `usize::MAX`); a driver without processors processes nothing.
    fn do_a_run(&mut self) -> (o: ProcessingOutcome)
        ensures
            final(self)@ == old(self)@,
            ran_all(
                old(self).processor_runs(),
                final(self).processor_runs(),
                MAX_MESSAGES_PER_RUN,
                old(self)@.strategy,
            ),
            o == last_runs_total(final(self).processor_runs()),
            old(self)@.processor_count == 0 ==> o == (ProcessingOutcome {
                processed: 0,
                dropped: 0,
                instruments_updated: 0,
                observations_enqueued: 0,
            }),
    {
        let mut outcome = ProcessingOutcome::default();
        let ghost runs0 = self.processor_runs();
        let mut rest: Vec<Box<dyn BoxedProcessor>> = Vec::new();
        std::mem::swap(&mut rest, &mut self.processors);
        let n = rest.len();
        let ghost mut new_runs: Seq<Seq<(usize, ProcessingStrategy, ProcessingOutcome)>> = Seq::empty();
        let ghost mut os: Seq<ProcessingOutcome> = Seq::empty();
        let mut i: usize = 0;
        while i < n
            invariant
                runs0.len() == n,
                i <= n,
                self.processors@.len() == i,
                rest@.len() == n - i,
                self.descriptives == old(self).descriptives,
                self.snapshooters == old(self).snapshooters,
                self.processing_strategy == old(self).processing_strategy,
                self.paused == old(self).paused,
                self.last_outcome_logged == old(self).last_outcome_logged,
                self.dropped_since_last_logged == old(self).dropped_since_last_logged,
                self.driver_metrics == old(self).driver_metrics,
                new_runs.len() == i,
                os.len() == i,
                forall|m: int|
                    0 <= m < i ==> #[trigger] new_runs[m] == runs0[m].push(
                        (MAX_MESSAGES_PER_RUN, old(self).processing_strategy, os[m]),
                    ),
                outcome.processed == saturating_total(os.map_values(|o: ProcessingOutcome| o.processed)),
                outcome.dropped == saturating_total(os.map_values(|o: ProcessingOutcome| o.dropped)),
                outcome.instruments_updated == saturating_total(
                    os.map_values(|o: ProcessingOutcome| o.instruments_updated),
                ),
                outcome.observations_enqueued == saturating_total(
                    os.map_values(|o: ProcessingOutcome| o.observations_enqueued),
                ),
            decreases n - i,
        {
            proof {
                lemma_remove_first(rest@);
            }
            let mut p = rest.remove(0);
            let o = p.process_boxed(MAX_MESSAGES_PER_RUN, self.processing_strategy);
            proof {
                lemma_push_len(self.processors@, p);
                assert(p.runs().last() == (MAX_MESSAGES_PER_RUN, self.processing_strategy, o));
                new_runs = new_runs.push(runs0[i as int].push(p.runs().last()));
                let nos = os.push(o);
                assert(nos.map_values(|o: ProcessingOutcome| o.processed).drop_last() =~= os.map_values(
                    |o: ProcessingOutcome| o.processed,
                ));
                assert(nos.map_values(|o: ProcessingOutcome| o.dropped).drop_last() =~= os.map_values(
                    |o: ProcessingOutcome| o.dropped,
                ));
                assert(nos.map_values(|o: ProcessingOutcome| o.instruments_updated).drop_last()
                    =~= os.map_values(|o: ProcessingOutcome| o.instruments_updated));
                assert(nos.map_values(|o: ProcessingOutcome| o.observations_enqueued).drop_last()
                    =~= os.map_values(|o: ProcessingOutcome| o.observations_enqueued));
                os = nos;
            }
            self.processors.push(p);
            outcome.processed = outcome.processed.saturating_add(o.processed);
            outcome.dropped = outcome.dropped.saturating_add(o.dropped);
            outcome.instruments_updated = outcome.instruments_updated.saturating_add(
                o.instruments_updated,
            );
            outcome.observations_enqueued = outcome.observations_enqueued.saturating_add(
                o.observations_enqueued,
            );
            i = i + 1;
        }
        proof {
            self.runs_seen@ = new_runs;
        }
        assert(self.processor_runs() =~= new_runs);
        assert(new_runs.map_values(
            |r: Seq<(usize, ProcessingStrategy, ProcessingOutcome)>| r.last().2,
        ) =~= os);
        outcome
    }

    /// Takes note of a run with the outcome `outcome` that started at
    /// `started`, looked at at `now` and done at `finished`, and says what
    /// to do next.
    pub fn after_run(
        &mut self,
        outcome: &ProcessingOutcome,
        started: Instant,
        now: Instant,
        finished: Instant,
    ) -> (a: LoopAction)
        ensures
            final(self).processor_runs() == old(self).processor_runs(),
            (final(self)@, a) == after_run_spec(
                old(self)@,
                outcome.dropped,
                outcome.processed,
                started,
                now,
                finished,
            ),
    {
        let since = self.dropped_since_last_logged.saturating_add(outcome.dropped);
        let log = since > 0 && now.saturating_duration_since(self.last_outcome_logged).nanos
            > LOG_INTERVAL_NANOS;
        if log {
            self.last_outcome_logged = now;
            self.dropped_since_last_logged = 0;
        } else {
            self.dropped_since_last_logged = since;
        }
        match &mut self.driver_metrics {
            Some(m) => m.update_post_collection(outcome, started, now),
            None => {},
        }
        let elapsed = finished.saturating_duration_since(started).nanos;
        let sleep: u64 = if outcome.dropped > 0 || outcome.processed > BUSY_RUN_PROCESSED {
            0
        } else if elapsed < RUN_INTERVAL_NANOS {
            RUN_INTERVAL_NANOS - elapsed
        } else {
            0
        };
        LoopAction {
            log_dropped: if log {
                Some(since)
            } else {
                None
            },
            sleep: Duration { nanos: sleep },
        }
    }

    /// One turn of the driver's loop: a paused loop only waits; otherwise
    /// the processors process and `after_run` decides on the rest. What the
    /// processors report comes from user code and the clock, so it is stated
    /// for some outcome; a driver without processors has nothing processed
    /// or dropped.
    pub fn run_once(&mut self) -> (a: LoopAction)
        ensures
            old(self)@.paused ==> a == paused_action() && final(self)@ == old(self)@,
            !old(self)@.paused ==> exists|
                dropped: usize,
                processed: usize,
                started: Instant,
                now: Instant,
                finished: Instant,
            |
                (final(self)@, a) == #[trigger] after_run_spec(
                    old(self)@,
                    dropped,
                    processed,
                    started,
                    now,
                    finished,
                ) && (old(self)@.processor_count == 0 ==> dropped == 0 && processed == 0)
                    && ran_all(
                    old(self).processor_runs(),
                    final(self).processor_runs(),
                    MAX_MESSAGES_PER_RUN,
                    old(self)@.strategy,
                ) && dropped == last_runs_total(final(self).processor_runs()).dropped
                    && processed == last_runs_total(final(self).processor_runs()).processed,
    {
        if self.paused {
            return LoopAction { log_dropped: None, sleep: Duration::from_nanos(PAUSE_SLEEP_NANOS) };
        }
        let started = now();
        let outcome = self.do_a_run();
        let looked_at = now();
        let finished = now();
        self.after_run(&outcome, started, looked_at, finished)
    }

    /// Writes the values of the driver into `into`, grouped under its name
    /// where it has one: title and description where `descriptive` is set,
    /// what the processors and snapshooters put, and the driver's own
    /// metrics where it keeps them.
    pub fn put_values_into_snapshot(&mut self, into: &mut Snapshot, descriptive: bool)
        ensures
            final(self)@ == old(self)@,
            match old(self)@.name {
                Some(n) => {
                    &&& final(into)@.len() == old(into)@.len() + 1
                    &&& final(into)@.take(old(into)@.len() as int) == old(into)@
                    &&& final(into)@.last().0 == n
                    &&& final(into)@.last().1 matches ItemValue::Group(g) && driver_values(
                        old(self)@,
                        Seq::empty(),
                        g,
                        descriptive,
                    )
                },
                None => driver_values(old(self)@, old(into)@, final(into)@, descriptive),
            },
    {
        let started = now();
        let name: Option<String> = match &self.descriptives.name {
            Some(n) => Some(n.clone()),
            None => None,
        };
        match name {
            Some(n) => {
                let mut new_level = Snapshot::new();
                self.add_snapshot_values(&mut new_level, descriptive, started);
                into.push(n, ItemKind::Snapshot(new_level));
                assert(final(into)@.take(old(into)@.len() as int) =~= old(into)@);
            },
            None => {
                self.add_snapshot_values(into, descriptive, started);
            },
        }
    }

    /// Writes title and description where `descriptive` is set, what the
    /// processors and snapshooters put, and last, where the driver keeps
    /// metrics, the group `_metrix`.
    fn add_snapshot_values(&mut self, into: &mut Snapshot, descriptive: bool, started: Instant)
        ensures
            final(self)@ == old(self)@,
            driver_values(old(self)@, old(into)@, final(into)@, descriptive),
    {
        put_default_descriptives(&self.descriptives, into, descriptive);
        let ghost described = into@;
        let n = self.processors.len();
        let mut i: usize = 0;
        while i < n
            invariant
                n == self.processors@.len(),
                i <= n,
                self@ == old(self)@,
                n == 0 ==> into@ == described,
            decreases n - i,
        {
            self.processors[i].put_snapshot_boxed(into, descriptive);
            i = i + 1;
        }
        let m = self.snapshooters.len();
        let mut j: usize = 0;
        while j < m
            invariant
                m == self.snapshooters@.len(),
                j <= m,
                self@ == old(self)@,
                n == 0 && m == 0 ==> into@ == described,
            decreases m - j,
        {
            self.snapshooters[j].put_snapshot(into, descriptive);
            j = j + 1;
        }
        match &mut self.driver_metrics {
            Some(metrics) => {
                metrics.update_post_snapshot(started, now());
                metrics.put_snapshot(into, descriptive);
            },
            None => {},
        }
    }
}


/// Every dropped observation is reported once: what is still unreported
/// after a run plus what that run reports is what was unreported before plus
/// what the run dropped (as long as the counts fit in a `usize`).
pub proof fn law_every_drop_is_reported_once(
    v: LoopView,
    dropped: usize,
    processed: usize,
    started: Instant,
    now: Instant,
    finished: Instant,
)
    requires
        v.dropped_since_last_logged + dropped <= usize::MAX,
    ensures
        ({
            let (w, a) = after_run_spec(v, dropped, processed, started, now, finished);
            w.dropped_since_last_logged + match a.log_dropped {
                Some(n) => n as int,
                None => 0,
            } == v.dropped_since_last_logged + dropped
        }),
{
}

/// Reports of dropped observations are more than five seconds apart.
pub proof fn law_reports_are_five_seconds_apart(
    v: LoopView,
    dropped: usize,
    processed: usize,
    started: Instant,
    now: Instant,
    finished: Instant,
)
    ensures
        ({
            let (w, a) = after_run_spec(v, dropped, processed, started, now, finished);
            &&& a.log_dropped is Some ==> now.nanos - v.last_outcome_logged.nanos > LOG_INTERVAL_NANOS
                && w.last_outcome_logged == now
            &&& a.log_dropped is None ==> w.last_outcome_logged == v.last_outcome_logged
        }),
{
}

/// A run that dropped observations or processed many is followed by the
/// next one at once; no run waits longer than the run interval.
pub proof fn law_busy_runs_do_not_wait(
    v: LoopView,
    dropped: usize,
    processed: usize,
    started: Instant,
    now: Instant,
    finished: Instant,
)
    ensures
        ({
            let (w, a) = after_run_spec(v, dropped, processed, started, now, finished);
            &&& dropped > 0 || processed > BUSY_RUN_PROCESSED ==> a.sleep.nanos == 0
            &&& a.sleep.nanos <= RUN_INTERVAL_NANOS
            &&& a.sleep.nanos + saturating_sub_spec(finished.nanos, started.nanos) <= RUN_INTERVAL_NANOS
                || a.sleep.nanos == 0
        }),
{
}

} // verus!
