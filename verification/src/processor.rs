//! Transmitting observations and processing them.
use crate::cockpit::{answers_total, handed_to_all, Cockpit, CockpitView};
use crate::observation::{Observation, ObservationLike, ObservedValue, TimeUnit};
use crate::time::{now, Duration, Instant, saturating_sub_spec, NANOS_PER_SEC};
use crate::snapshot::{ItemKind, ItemValue, Snapshot};
use crate::util::{
    lemma_push_len, lemma_remove_first, put_default_descriptives, saturating_total, with_descriptives,
};
use crate::{opt_as_str, opt_string_view, Descriptive, HandlesObservations, PutsSnapshot};
use vstd::prelude::*;

verus! {

#[verifier::external_type_specification]
#[verifier::external_body]
#[verifier::reject_recursive_types(T)]
pub struct ExSender<T>(crossbeam_channel::Sender<T>);

#[verifier::external_type_specification]
#[verifier::external_body]
#[verifier::reject_recursive_types(T)]
pub struct ExReceiver<T>(crossbeam_channel::Receiver<T>);

/// `Clone` of `crossbeam_channel::Sender`: another sender into the same
/// channel. Nothing is stated of it; the library only hands it on.
pub assume_specification<T>[ <crossbeam_channel::Sender<T> as Clone>::clone ](
    sender: &crossbeam_channel::Sender<T>,
) -> (r: crossbeam_channel::Sender<T>);

/// The result of processing messages.
///
/// Used for making decisions for further processing within the driver.
#[derive(Debug)]
pub struct ProcessingOutcome {
    pub processed: usize,
    pub dropped: usize,
    pub instruments_updated: usize,
    pub observations_enqueued: usize,
}

impl ProcessingOutcome {
    /// The field-wise sums of `self` and `other` all fit in a `usize`.
    pub open spec fn can_combine_with(&self, other: &ProcessingOutcome) -> bool {
        &&& self.processed + other.processed <= usize::MAX
        &&& self.dropped + other.dropped <= usize::MAX
        &&& self.instruments_updated + other.instruments_updated <= usize::MAX
        &&& self.observations_enqueued + other.observations_enqueued <= usize::MAX
    }

    /// Simply adds the corresponding fields.
    pub fn combine_with(&mut self, other: &ProcessingOutcome)
        requires
            old(self).can_combine_with(other),
        ensures
            final(self).processed == old(self).processed + other.processed,
            final(self).dropped == old(self).dropped + other.dropped,
            final(self).instruments_updated == old(self).instruments_updated
                + other.instruments_updated,
            final(self).observations_enqueued == old(self).observations_enqueued
                + other.observations_enqueued,
    {
        self.processed = self.processed + other.processed;
        self.dropped = self.dropped + other.dropped;
        self.instruments_updated = self.instruments_updated + other.instruments_updated;
        self.observations_enqueued = self.observations_enqueued + other.observations_enqueued;
    }

    /// Whether something was processed or dropped.
    pub fn something_happened(&self) -> (r: bool)
        ensures
            r == (self.processed > 0 || self.dropped > 0),
    {
        self.processed > 0 || self.dropped > 0
    }
}

impl Default for ProcessingOutcome {
    fn default() -> (o: ProcessingOutcome)
        ensures
            o.processed == 0,
            o.dropped == 0,
            o.instruments_updated == 0,
            o.observations_enqueued == 0,
    {
        ProcessingOutcome { processed: 0, dropped: 0, instruments_updated: 0, observations_enqueued: 0 }
    }
}

/// A strategy for processing observations.
#[derive(Debug, Copy, Clone, PartialEq, Eq, Structural)]
pub enum ProcessingStrategy {
    /// Process all observations.
    ProcessAll,
    /// Drop all observations.
    DropAll,
    /// Process only observations that are not older than the given
    /// `Duration` by the time messages are processed.
    DropOlderThan(Duration),
}

/// Decides which observations are processed.
#[derive(Debug, Copy, Clone, PartialEq, Eq, Structural)]
pub enum ProcessingDecider {
    ProcessAll,
    DropAll,
    /// Processes what was observed at or after the deadline.
    DropBeforeDeadline(Instant),
}

/// The decider that `strategy` gives when messages are processed at `now`.
pub open spec fn decider_spec(strategy: ProcessingStrategy, now: Instant) -> ProcessingDecider {
    match strategy {
        ProcessingStrategy::ProcessAll => ProcessingDecider::ProcessAll,
        ProcessingStrategy::DropAll => ProcessingDecider::DropAll,
        ProcessingStrategy::DropOlderThan(max_age) => ProcessingDecider::DropBeforeDeadline(
            Instant { nanos: saturating_sub_spec(now.nanos, max_age.nanos) },
        ),
    }
}

impl ProcessingStrategy {
    /// The decider for messages processed at `now`: observations older than
    /// the maximum age at `now` are dropped.
    pub fn decider_at(&self, now: Instant) -> (d: ProcessingDecider)
        ensures
            d == decider_spec(*self, now),
    {
        match *self {
            ProcessingStrategy::ProcessAll => ProcessingDecider::ProcessAll,
            ProcessingStrategy::DropAll => ProcessingDecider::DropAll,
            ProcessingStrategy::DropOlderThan(max_age) => ProcessingDecider::DropBeforeDeadline(
                now.saturating_sub(max_age),
            ),
        }
    }

    /// The decider for messages processed now.
    pub fn decider(&self) -> (d: ProcessingDecider)
        ensures
            exists|now: Instant| d == decider_spec(*self, now),
    {
        self.decider_at(now())
    }
}

impl Default for ProcessingStrategy {
    /// Drops observations older than 60 seconds.
    fn default() -> (s: ProcessingStrategy)
        ensures
            s == ProcessingStrategy::DropOlderThan(Duration { nanos: (60 * NANOS_PER_SEC) as u64 }),
    {
        ProcessingStrategy::DropOlderThan(Duration::from_secs(60))
    }
}

impl ProcessingDecider {
    /// Whether an observation made at `t` is processed.
    pub open spec fn accepts_at(self, t: Instant) -> bool {
        match self {
            ProcessingDecider::ProcessAll => true,
            ProcessingDecider::DropAll => false,
            ProcessingDecider::DropBeforeDeadline(deadline) => t.nanos >= deadline.nanos,
        }
    }

    /// Whether `observation` is processed.
    pub fn should_be_processed<T: ObservationLike>(&self, observation: &T) -> (r: bool)
        ensures
            r == self.accepts_at(observation.timestamp_of()),
    {
        match self {
            ProcessingDecider::ProcessAll => true,
            ProcessingDecider::DropAll => false,
            ProcessingDecider::DropBeforeDeadline(drop_deadline) => {
                ObservationLike::timestamp(observation).nanos >= drop_deadline.nanos
            },
        }
    }
}

/// Can process telemetry messages.
///
/// Since this mostly results in metrics this trait also requires the
/// capability to write `Snapshot`s.
pub trait ProcessesTelemetryMessages: PutsSnapshot + Send + 'static {
    /// Receives and handles pending messages.
    fn process(&mut self, max: usize, strategy: ProcessingStrategy) -> ProcessingOutcome;
}

/// A processor in a form that can be boxed, that keeps a record of its runs:
/// `RecordingProcessor` makes one of every `ProcessesTelemetryMessages`.
pub trait BoxedProcessor: Send + 'static {
    /// The runs so far, in order: the limit and the strategy each run was
    /// handed, and the outcome it gave.
    spec fn runs(&self) -> Seq<(usize, ProcessingStrategy, ProcessingOutcome)>;

    /// Receives and handles pending messages.
    fn process_boxed(&mut self, max: usize, strategy: ProcessingStrategy) -> (o: ProcessingOutcome)
        ensures
            final(self).runs() == old(self).runs().push((max, strategy, o)),
    ;

    /// Writes the current values into `into`.
    fn put_snapshot_boxed(&mut self, into: &mut Snapshot, descriptive: bool);
}

/// A processor together with the record of its runs.
pub struct RecordingProcessor<P: ProcessesTelemetryMessages> {
    processor: P,
    runs: Ghost<Seq<(usize, ProcessingStrategy, ProcessingOutcome)>>,
}

impl<P: ProcessesTelemetryMessages> RecordingProcessor<P> {
    /// `processor`, which has not run yet.
    pub fn new(processor: P) -> (r: Self)
        ensures
            r.runs() == Seq::<(usize, ProcessingStrategy, ProcessingOutcome)>::empty(),
    {
        RecordingProcessor { processor, runs: Ghost(Seq::empty()) }
    }
}

impl<P: ProcessesTelemetryMessages> BoxedProcessor for RecordingProcessor<P> {
    closed spec fn runs(&self) -> Seq<(usize, ProcessingStrategy, ProcessingOutcome)> {
        self.runs@
    }

    fn process_boxed(&mut self, max: usize, strategy: ProcessingStrategy) -> (o: ProcessingOutcome) {
        let o = self.processor.process(max, strategy);
        proof {
            self.runs@ = self.runs@.push((max, strategy, o));
        }
        o
    }

    fn put_snapshot_boxed(&mut self, into: &mut Snapshot, descriptive: bool) {
        self.processor.put_snapshot(into, descriptive)
    }
}

/// Every processor ran once more, handed `max` and `strategy`: `new_runs`
/// are the records `runs`, each with one more run.
pub open spec fn ran_all(
    runs: Seq<Seq<(usize, ProcessingStrategy, ProcessingOutcome)>>,
    new_runs: Seq<Seq<(usize, ProcessingStrategy, ProcessingOutcome)>>,
    max: usize,
    strategy: ProcessingStrategy,
) -> bool {
    &&& new_runs.len() == runs.len()
    &&& forall|i: int|
        0 <= i < runs.len() ==> #[trigger] new_runs[i] == runs[i].push(
            (max, strategy, new_runs[i].last().2),
        )
}

/// The outcomes of the last runs of the processors whose runs are `runs`,
/// each field added up in order and cut at `usize::MAX`.
pub open spec fn last_runs_total(
    runs: Seq<Seq<(usize, ProcessingStrategy, ProcessingOutcome)>>,
) -> ProcessingOutcome {
    let os = runs.map_values(|r: Seq<(usize, ProcessingStrategy, ProcessingOutcome)>| r.last().2);
    ProcessingOutcome {
        processed: saturating_total(os.map_values(|o: ProcessingOutcome| o.processed)),
        dropped: saturating_total(os.map_values(|o: ProcessingOutcome| o.dropped)),
        instruments_updated: saturating_total(
            os.map_values(|o: ProcessingOutcome| o.instruments_updated),
        ),
        observations_enqueued: saturating_total(
            os.map_values(|o: ProcessingOutcome| o.observations_enqueued),
        ),
    }
}

/// A message for a `TelemetryProcessor`.
#[verifier::reject_recursive_types(L)]
pub enum TelemetryMessage<L> {
    /// An observation has been made.
    Observation(Observation<L>),
    /// A handler of observations should be added.
    AddHandler(Box<dyn HandlesObservationsOf<L>>),
    /// A `Cockpit` should be added.
    AddCockpit(Cockpit<L>),
    /// The cockpits with this name should be removed.
    RemoveCockpit(String),
}

/// A handler of observations with labels of type `L`, in a form that can be
/// boxed, that keeps a record of what it was handed: `ObservingHandler`
/// makes one of every `HandlesObservations` with that label.
pub trait HandlesObservationsOf<L>: PutsSnapshot + Send + 'static {
    /// The observations handed to this handler, in order.
    spec fn observed(&self) -> Seq<Observation<L>>;

    /// The handler's answers to them, in order.
    spec fn answers(&self) -> Seq<usize>;

    /// Handles `observation`; returns the number of instruments updated.
    fn handle_observation_of(&mut self, observation: &Observation<L>) -> (n: usize)
        ensures
            final(self).observed() == old(self).observed().push(*observation),
            final(self).answers() == old(self).answers().push(n),
    ;
}

/// A handler together with the record of the observations it was handed
/// and of its answers.
pub struct ObservingHandler<H: HandlesObservations> {
    handler: H,
    observed: Ghost<Seq<Observation<H::Label>>>,
    answers: Ghost<Seq<usize>>,
}

impl<H: HandlesObservations> ObservingHandler<H> {
    /// `handler`, which has not been handed anything yet.
    pub fn new(handler: H) -> (h: Self)
        ensures
            h.observed() == Seq::<Observation<H::Label>>::empty(),
            h.answers() == Seq::<usize>::empty(),
    {
        ObservingHandler { handler, observed: Ghost(Seq::empty()), answers: Ghost(Seq::empty()) }
    }
}

impl<H: HandlesObservations> PutsSnapshot for ObservingHandler<H> {
    fn put_snapshot(&mut self, into: &mut Snapshot, descriptive: bool) {
        self.handler.put_snapshot(into, descriptive)
    }
}

impl<H: HandlesObservations> HandlesObservationsOf<H::Label> for ObservingHandler<H> {
    closed spec fn observed(&self) -> Seq<Observation<H::Label>> {
        self.observed@
    }

    closed spec fn answers(&self) -> Seq<usize> {
        self.answers@
    }

    fn handle_observation_of(&mut self, observation: &Observation<H::Label>) -> (n: usize) {
        let n = self.handler.handle_observation(observation);
        proof {
            self.observed@ = self.observed@.push(*observation);
            self.answers@ = self.answers@.push(n);
        }
        n
    }
}

/// What an attempt to take a message from a channel gave.
pub enum Received<T> {
    /// A message.
    Message(T),
    /// No message was waiting.
    Empty,
    /// No message was waiting and no sender is left.
    Disconnected,
}

/// Creates a channel without a bound through
/// `crossbeam_channel::unbounded`. Nothing is stated of the two ends.
#[verifier::external_body]
fn new_unbounded_channel<T>() -> (crossbeam_channel::Sender<T>, crossbeam_channel::Receiver<T>) {
    crossbeam_channel::unbounded()
}

/// Creates a channel that holds at most `cap` messages through
/// `crossbeam_channel::bounded`, which panics where `cap` is too large for
/// its index arithmetic; `requires` leaves those out.
#[verifier::external_body]
fn new_bounded_channel<T>(cap: usize) -> (crossbeam_channel::Sender<T>, crossbeam_channel::Receiver<T>)
    requires
        cap <= usize::MAX / 4,
{
    crossbeam_channel::bounded(cap)
}

/// Takes a waiting message through `crossbeam_channel::Receiver::try_recv`.
/// What comes back depends on the other threads: nothing is stated of it.
#[verifier::external_body]
fn try_receive<T>(receiver: &crossbeam_channel::Receiver<T>) -> Received<T> {
    match receiver.try_recv() {
        Ok(message) => Received::Message(message),
        Err(crossbeam_channel::TryRecvError::Empty) => Received::Empty,
        Err(crossbeam_channel::TryRecvError::Disconnected) => Received::Disconnected,
    }
}

/// The number of waiting messages through
/// `crossbeam_channel::Receiver::len`; other threads change it at any time,
/// so nothing is stated of it.
#[verifier::external_body]
fn waiting_messages<T>(receiver: &crossbeam_channel::Receiver<T>) -> usize {
    receiver.len()
}


/// `v` with the title and description of a component under `_title` and
/// `_description`, where `descriptive` is set.
pub open spec fn with_default_descriptives(
    v: Seq<(Seq<char>, ItemValue)>,
    title: Option<Seq<char>>,
    description: Option<Seq<char>>,
    descriptive: bool,
) -> Seq<(Seq<char>, ItemValue)> {
    if descriptive {
        with_descriptives(v, "_title"@, "_description"@, title, description)
    } else {
        v
    }
}

/// Whether a component last active at `last_activity` counts as inactive at
/// `now` under the limit `limit`.
pub open spec fn is_inactive(limit: Option<Duration>, last_activity: Instant, now: Instant) -> bool {
    match limit {
        Some(d) => saturating_sub_spec(now.nanos, last_activity.nanos) > d.nanos,
        None => false,
    }
}

/// `v` with the activity state of a component: `_inactive` and `_active`,
/// where a limit is set and the state is shown.
pub open spec fn with_activity_state(
    v: Seq<(Seq<char>, ItemValue)>,
    limit: Option<Duration>,
    show: bool,
    last_activity: Instant,
    now: Instant,
) -> Seq<(Seq<char>, ItemValue)> {
    if limit is Some && show {
        let inactive = is_inactive(limit, last_activity, now);
        v.push(("_inactive"@, ItemValue::Boolean(inactive))).push(
            ("_active"@, ItemValue::Boolean(!inactive)),
        )
    } else {
        v
    }
}

/// Whether a component last active at `last_activity` counts as inactive at
/// `now` under the limit `limit`.
pub fn inactive_at(limit: Option<Duration>, last_activity: Instant, now: Instant) -> (r: bool)
    ensures
        r == is_inactive(limit, last_activity, now),
{
    match limit {
        Some(d) => now.saturating_duration_since(last_activity).nanos > d.nanos,
        None => false,
    }
}

/// Writes the activity state of a component, as `with_activity_state` says.
pub fn put_activity_state(
    into: &mut Snapshot,
    limit: Option<Duration>,
    show: bool,
    last_activity: Instant,
    now: Instant,
) -> (inactive: bool)
    ensures
        final(into)@ == with_activity_state(old(into)@, limit, show, last_activity, now),
        inactive == (show && is_inactive(limit, last_activity, now)),
{
    match limit {
        Some(d) => {
            if show {
                let inactive = now.saturating_duration_since(last_activity).nanos > d.nanos;
                into.push(String::from_str("_inactive"), ItemKind::Boolean(inactive));
                into.push(String::from_str("_active"), ItemKind::Boolean(!inactive));
                proof {
                    reveal_strlit("_inactive");
                    reveal_strlit("_active");
                }
                inactive
            } else {
                false
            }
        },
        None => false,
    }
}

/// What a `TelemetryProcessor` is: of its cockpits, their names in the
/// order in which they were added; of its handlers and snapshooters, how
/// many it has.
pub struct ProcessorView {
    pub name: Option<Seq<char>>,
    pub title: Option<Seq<char>>,
    pub description: Option<Seq<char>>,
    pub inactivity_limit: Option<Duration>,
    pub show_activity_state: bool,
    pub disconnected: bool,
    pub last_activity: Instant,
    pub cockpits: Seq<CockpitView>,
    pub handler_count: nat,
    pub snapshooter_count: nat,
}

/// The counterpart of the `TelemetryTransmitter`. It receives the
/// observations and other messages and processes them.
///
/// A `TelemetryProcessor` is tied to a specific kind of label which is used
/// to determine which metrics are triggered.
#[verifier::reject_recursive_types(L)]
pub struct TelemetryProcessor<L> {
    name: Option<String>,
    title: Option<String>,
    description: Option<String>,
    cockpits: Vec<Cockpit<L>>,
    handlers: Vec<Box<dyn HandlesObservationsOf<L>>>,
    receiver: crossbeam_channel::Receiver<TelemetryMessage<L>>,
    snapshooters: Vec<Box<dyn PutsSnapshot>>,
    last_activity_at: Instant,
    max_inactivity_duration: Option<Duration>,
    show_activity_state: bool,
    is_disconnected: bool,
    /// For each handler, the observations it recorded as handed to it,
    /// taken from the handler after each call.
    handed: Ghost<Seq<Seq<Observation<L>>>>,
    /// For each handler, the answers it recorded.
    answered: Ghost<Seq<Seq<usize>>>,
}

impl<L> TelemetryProcessor<L> {
    /// What each handler was handed, in the handlers' order, as each handler
    /// recorded it at its last call.
    pub closed spec fn handlers_observed(&self) -> Seq<Seq<Observation<L>>> {
        Seq::new(
            self.handlers@.len(),
            |i: int|
                if i < self.handed@.len() {
                    self.handed@[i]
                } else {
                    Seq::empty()
                },
        )
    }

    /// Each handler's answers, in the handlers' order.
    pub closed spec fn handlers_answers(&self) -> Seq<Seq<usize>> {
        Seq::new(
            self.handlers@.len(),
            |i: int|
                if i < self.answered@.len() {
                    self.answered@[i]
                } else {
                    Seq::empty()
                },
        )
    }

    /// What each cockpit's handlers were handed, in the cockpits' order.
    pub closed spec fn cockpits_observed(&self) -> Seq<Seq<Seq<Observation<L>>>> {
        self.cockpits@.map_values(|c: Cockpit<L>| c.handlers_observed())
    }

    /// Each cockpit's handlers' answers, in the cockpits' order.
    pub closed spec fn cockpits_answers(&self) -> Seq<Seq<Seq<usize>>> {
        self.cockpits@.map_values(|c: Cockpit<L>| c.handlers_answers())
    }
}

impl<L> View for TelemetryProcessor<L> {
    type V = ProcessorView;

    closed spec fn view(&self) -> ProcessorView {
        ProcessorView {
            name: opt_string_view(self.name),
            title: opt_string_view(self.title),
            description: opt_string_view(self.description),
            inactivity_limit: self.max_inactivity_duration,
            show_activity_state: self.show_activity_state,
            disconnected: self.is_disconnected,
            last_activity: self.last_activity_at,
            cockpits: cockpit_views(self.cockpits@),
            handler_count: self.handlers@.len(),
            snapshooter_count: self.snapshooters@.len(),
        }
    }
}

/// The views of `cockpits`, in their order.
pub open spec fn cockpit_views<L>(cockpits: Seq<Cockpit<L>>) -> Seq<CockpitView> {
    cockpits.map_values(|c: Cockpit<L>| c@)
}

/// The names of the cockpits `cs`, in their order.
pub open spec fn names_of(cs: Seq<CockpitView>) -> Seq<Option<Seq<char>>> {
    cs.map_values(|c: CockpitView| c.name)
}

/// The cockpits after the cockpit `c` was offered: one with a name that is
/// already there is not added.
pub open spec fn cockpits_after_adding(cs: Seq<CockpitView>, c: CockpitView) -> Seq<CockpitView> {
    if c.name is Some && names_of(cs).contains(c.name) {
        cs
    } else {
        cs.push(c)
    }
}

/// The cockpits after those named `name` were removed.
pub open spec fn cockpits_after_removing(cs: Seq<CockpitView>, name: Seq<char>) -> Seq<CockpitView> {
    cs.filter(|c: CockpitView| c.name != Some(name))
}

/// No two of the cockpits `cs` that have a name share it.
pub open spec fn names_distinct(cs: Seq<CockpitView>) -> bool {
    forall|i: int, j: int|
        0 <= i < j < cs.len() && (#[trigger] cs[i]).name is Some ==> cs[i].name != (#[trigger] cs[j]).name
}

/// Offering a cockpit whose name is already taken by one of the cockpits
/// `cs` (as `add_cockpit` does) leaves the cockpits as they are; a cockpit
/// whose name is free, or that has none, is added last.
pub proof fn law_a_taken_name_is_not_added_twice(cs: Seq<CockpitView>, c: CockpitView, k: int)
    requires
        0 <= k < cs.len(),
    ensures
        c.name is Some && cs[k].name == c.name ==> cockpits_after_adding(cs, c) == cs,
        (c.name is None || forall|i: int| 0 <= i < cs.len() ==> #[trigger] cs[i].name != c.name)
            ==> cockpits_after_adding(cs, c) == cs.push(c),
{
    if c.name is Some && cs[k].name == c.name {
        assert(names_of(cs)[k] == c.name);
    }
    if c.name is Some && names_of(cs).contains(c.name) {
        let m = choose|m: int| 0 <= m < names_of(cs).len() && names_of(cs)[m] == c.name;
        assert(cs[m].name == c.name);
    }
}

/// The named cockpits of a processor have pairwise distinct names: adding
/// a cockpit and removing cockpits by name keep it so, and a processor
/// starts with none.
pub proof fn law_cockpit_names_stay_distinct(cs: Seq<CockpitView>, c: CockpitView, name: Seq<char>)
    requires
        names_distinct(cs),
    ensures
        names_distinct(Seq::<CockpitView>::empty()),
        names_distinct(cockpits_after_adding(cs, c)),
        names_distinct(cockpits_after_removing(cs, name)),
{
    let added = cockpits_after_adding(cs, c);
    if !(c.name is Some && names_of(cs).contains(c.name)) {
        assert forall|i: int, j: int|
            0 <= i < j < added.len() && (#[trigger] added[i]).name is Some implies added[i].name
                != (#[trigger] added[j]).name by {
            if j == cs.len() {
                assert(added[i] == cs[i]);
                assert(names_of(cs)[i] == cs[i].name);
                if added[i].name == c.name {
                    assert(names_of(cs).contains(c.name));
                }
            } else {
                assert(added[i] == cs[i] && added[j] == cs[j]);
            }
        }
    }
    let keep = |x: CockpitView| x.name != Some(name);
    let removed = cs.filter(keep);
    assert forall|i: int, j: int|
        0 <= i < j < removed.len() && (#[trigger] removed[i]).name is Some implies removed[i].name
            != (#[trigger] removed[j]).name by {
        lemma_filter_keeps_order(cs, keep, i, j);
    }
}

/// Two entries of a filtered sequence come, in the same order, from two
/// distinct entries of the sequence.
proof fn lemma_filter_keeps_order<A>(s: Seq<A>, f: spec_fn(A) -> bool, i: int, j: int)
    requires
        0 <= i < j < s.filter(f).len(),
    ensures
        exists|a: int, b: int|
            0 <= a < b < s.len() && s[a] == s.filter(f)[i] && s[b] == s.filter(f)[j],
    decreases s.len(),
{
    reveal(Seq::filter);
    let q = s.drop_last();
    s.lemma_filter_len(f);
    let fq = q.filter(f);
    assert(s.filter(f) == if f(s.last()) { fq.push(s.last()) } else { fq });
    if j < fq.len() {
        lemma_filter_keeps_order(q, f, i, j);
        let (a, b) = choose|a: int, b: int| 0 <= a < b < q.len() && q[a] == fq[i] && q[b] == fq[j];
        assert(s[a] == q[a] && s[b] == q[b]);
    } else {
        // j is the last entry, which is s.last()
        assert(s.filter(f)[j] == s.last());
        let k = s.len() - 1;
        assert(i < fq.len());
        lemma_filtered_entry_is_an_entry(q, f, i);
        let a = choose|a: int| 0 <= a < q.len() && q[a] == fq[i];
        assert(s[a] == q[a]);
        assert(s[k] == s.last());
    }
}

/// An entry of a filtered sequence is an entry of the sequence.
proof fn lemma_filtered_entry_is_an_entry<A>(s: Seq<A>, f: spec_fn(A) -> bool, i: int)
    requires
        0 <= i < s.filter(f).len(),
    ensures
        exists|a: int| 0 <= a < s.len() && s[a] == s.filter(f)[i],
{
    assert(s.filter(f).contains(s.filter(f)[i]));
    s.lemma_filter_contains_rev(f, s.filter(f)[i]);
}

/// The cockpits after each of them handled an observation at `now`.
pub open spec fn cockpits_active_at(cs: Seq<CockpitView>, now: Instant) -> Seq<CockpitView> {
    cs.map_values(|c: CockpitView| CockpitView { last_activity: now, ..c })
}

/// What handling `message` with `decider` at `now` does: `old` becomes
/// `new` and the outcome is `o`.
pub open spec fn message_handled<L>(
    old: ProcessorView,
    new: ProcessorView,
    o: ProcessingOutcome,
    message: TelemetryMessage<L>,
    decider: ProcessingDecider,
    now: Instant,
) -> bool {
    &&& o.observations_enqueued == 0
    &&& match message {
        TelemetryMessage::Observation(obs) => if decider.accepts_at(obs.timestamp_spec()) {
            &&& o.processed == 1
            &&& o.dropped == 0
            &&& new == (ProcessorView { cockpits: cockpits_active_at(old.cockpits, now), ..old })
        } else {
            &&& o.processed == 0
            &&& o.dropped == 1
            &&& o.instruments_updated == 0
            &&& new == old
        },
        TelemetryMessage::AddHandler(_) => {
            &&& o.processed == 1
            &&& o.dropped == 0
            &&& o.instruments_updated == 0
            &&& new == (ProcessorView { handler_count: old.handler_count + 1, ..old })
        },
        TelemetryMessage::AddCockpit(c) => {
            &&& o.processed == 1
            &&& o.dropped == 0
            &&& o.instruments_updated == 0
            &&& new == (ProcessorView { cockpits: cockpits_after_adding(old.cockpits, c@), ..old })
        },
        TelemetryMessage::RemoveCockpit(name) => {
            &&& o.processed == 1
            &&& o.dropped == 0
            &&& o.instruments_updated == 0
            &&& new == (ProcessorView {
                cockpits: cockpits_after_removing(old.cockpits, name@),
                ..old
            })
        },
    }
}

/// Handling the messages `ms` one after another with `decider` at `now`
/// goes through the views `vs` (one more than the messages) with the
/// outcomes `os`.
pub open spec fn handled_in_turn<L>(
    vs: Seq<ProcessorView>,
    os: Seq<ProcessingOutcome>,
    ms: Seq<TelemetryMessage<L>>,
    decider: ProcessingDecider,
    now: Instant,
) -> bool {
    &&& vs.len() == ms.len() + 1
    &&& os.len() == ms.len()
    &&& forall|i: int|
        0 <= i < ms.len() ==> message_handled(vs[i], #[trigger] vs[i + 1], os[i], ms[i], decider, now)
}

/// The number of messages processed in the outcomes `os`.
pub open spec fn processed_total(os: Seq<ProcessingOutcome>) -> int
    decreases os.len(),
{
    if os.len() == 0 {
        0
    } else {
        processed_total(os.drop_last()) + os.last().processed
    }
}

/// The number of observations dropped in the outcomes `os`.
pub open spec fn dropped_total(os: Seq<ProcessingOutcome>) -> int
    decreases os.len(),
{
    if os.len() == 0 {
        0
    } else {
        dropped_total(os.drop_last()) + os.last().dropped
    }
}

/// A processor at `old` received the messages `ms`, at most `max` of them,
/// and handled them in turn with `decider` at `now`, going through the views
/// `vs` with the outcomes `os`; `o` counts what they processed and dropped.
pub open spec fn received_in_turn<L>(
    old: ProcessorView,
    o: ProcessingOutcome,
    max: usize,
    decider: ProcessingDecider,
    now: Instant,
    ms: Seq<TelemetryMessage<L>>,
    vs: Seq<ProcessorView>,
    os: Seq<ProcessingOutcome>,
) -> bool {
    &&& handled_in_turn(vs, os, ms, decider, now)
    &&& vs[0] == old
    &&& ms.len() <= max
    &&& o.processed == processed_total(os)
    &&& o.dropped == dropped_total(os)
}

/// An observation reached every cockpit's handlers and every handler of a
/// processor: each record grew by `obs`, and `n` is the cockpits' answers
/// and then the handlers' answers added up in order, cut at `usize::MAX`.
pub open spec fn handed_to_everyone<L>(
    c_obs: Seq<Seq<Seq<Observation<L>>>>,
    c_ans: Seq<Seq<Seq<usize>>>,
    new_c_obs: Seq<Seq<Seq<Observation<L>>>>,
    new_c_ans: Seq<Seq<Seq<usize>>>,
    h_obs: Seq<Seq<Observation<L>>>,
    h_ans: Seq<Seq<usize>>,
    new_h_obs: Seq<Seq<Observation<L>>>,
    new_h_ans: Seq<Seq<usize>>,
    obs: Observation<L>,
    n: usize,
) -> bool {
    &&& c_ans.len() == c_obs.len()
    &&& new_c_obs.len() == c_obs.len()
    &&& new_c_ans.len() == c_obs.len()
    &&& forall|j: int|
        0 <= j < c_obs.len() ==> handed_to_all(
            c_obs[j],
            c_ans[j],
            #[trigger] new_c_obs[j],
            new_c_ans[j],
            obs,
            answers_total(new_c_ans[j]),
        )
    &&& handed_to_all(h_obs, h_ans, new_h_obs, new_h_ans, obs, answers_total(new_h_ans))
    &&& n == saturating_total(
        new_c_ans.map_values(|a: Seq<Seq<usize>>| answers_total(a)) + new_h_ans.map_values(
            |a: Seq<usize>| a.last(),
        ),
    )
}

/// The entries a processor puts into `into` before those of its handlers
/// and snapshooters.
pub open spec fn processor_head(
    p: ProcessorView,
    into: Seq<(Seq<char>, ItemValue)>,
    descriptive: bool,
    now: Instant,
) -> Seq<(Seq<char>, ItemValue)> {
    with_activity_state(
        with_default_descriptives(into, p.title, p.description, descriptive),
        p.inactivity_limit,
        p.show_activity_state,
        p.last_activity,
        now,
    )
}

/// The processor has no handlers and no snapshooters, and each of its
/// cockpits has a name: all it puts is known to the library.
pub open spec fn puts_only_cockpits(p: ProcessorView) -> bool {
    &&& p.handler_count == 0
    &&& p.snapshooter_count == 0
    &&& forall|i: int| 0 <= i < p.cockpits.len() ==> (#[trigger] p.cockpits[i]).name is Some
}

/// `v` is `head` followed by one entry per cockpit of `cs`, under that
/// cockpit's name, in order.
pub open spec fn head_then_cockpits(
    v: Seq<(Seq<char>, ItemValue)>,
    head: Seq<(Seq<char>, ItemValue)>,
    cs: Seq<CockpitView>,
) -> bool {
    &&& v.len() == head.len() + cs.len()
    &&& v.take(head.len() as int) == head
    &&& forall|i: int| 0 <= i < cs.len() ==> (#[trigger] v[head.len() + i]).0 == cs[i].name->0
}

/// What a processor `p` leaves in a snapshot that held `into` when it puts
/// its values at `now`: `result`.
pub open spec fn processor_snapshot(
    p: ProcessorView,
    into: Seq<(Seq<char>, ItemValue)>,
    result: Seq<(Seq<char>, ItemValue)>,
    descriptive: bool,
    now: Instant,
) -> bool {
    match p.name {
        Some(n) => {
            &&& result.len() == into.len() + 1
            &&& result.take(into.len() as int) == into
            &&& result.last().0 == n
            &&& shows_inactive(p, now) ==> result.last().1 == ItemValue::Group(
                processor_head(p, Seq::empty(), descriptive, now),
            )
            &&& !shows_inactive(p, now) && puts_only_cockpits(p)
                ==> (result.last().1 matches ItemValue::Group(g) && head_then_cockpits(
                g,
                processor_head(p, Seq::empty(), descriptive, now),
                p.cockpits,
            ))
        },
        None => {
            &&& shows_inactive(p, now) ==> result == processor_head(
                p,
                into,
                descriptive,
                now,
            )
            &&& !shows_inactive(p, now) && puts_only_cockpits(p)
                ==> head_then_cockpits(
                result,
                processor_head(p, into, descriptive, now),
                p.cockpits,
            )
        },
    }
}

/// The processor shows that it is inactive; it then puts nothing more.
pub open spec fn shows_inactive(p: ProcessorView, now: Instant) -> bool {
    p.show_activity_state && is_inactive(p.inactivity_limit, p.last_activity, now)
}

impl<L: Clone + Eq + Send + 'static> TelemetryProcessor<L> {
    fn create(name: Option<String>, bounded: Option<usize>, use_send: bool) -> (r: (
        TelemetryTransmitter<L>,
        TelemetryProcessor<L>,
    ))
        requires
            bounded matches Some(cap) ==> cap <= usize::MAX / 4,
        ensures
            r.1@ == (ProcessorView {
                name: opt_string_view(name),
                title: None,
                description: None,
                inactivity_limit: None,
                show_activity_state: true,
                disconnected: false,
                last_activity: r.1@.last_activity,
                cockpits: Seq::empty(),
                handler_count: 0,
                snapshooter_count: 0,
            }),
            r.0.blocks_when_full() == use_send,
    {
        let (tx, receiver) = match bounded {
            Some(bound) => new_bounded_channel(bound),
            None => new_unbounded_channel(),
        };
        let transmitter = TelemetryTransmitter { sender: tx, use_send };
        let processor = TelemetryProcessor {
            name,
            title: None,
            description: None,
            cockpits: Vec::new(),
            handlers: Vec::new(),
            receiver,
            snapshooters: Vec::new(),
            last_activity_at: now(),
            max_inactivity_duration: None,
            show_activity_state: true,
            is_disconnected: false,
            handed: Ghost(Seq::empty()),
            answered: Ghost(Seq::empty()),
        };
        assert(processor@.cockpits =~= Seq::empty());
        (transmitter, processor)
    }

    /// Creates a `TelemetryTransmitter` and the corresponding
    /// `TelemetryProcessor`.
    ///
    /// The `name` will cause a grouping in the `Snapshot`.
    pub fn new_pair(name: &str) -> (r: (TelemetryTransmitter<L>, TelemetryProcessor<L>))
        ensures
            r.1@.name == Some(name@),
            r.1@.title is None,
            r.1@.description is None,
            r.1@.inactivity_limit is None,
            r.1@.show_activity_state,
            !r.1@.disconnected,
            r.0.blocks_when_full(),
    {
        Self::create(Some(String::from_str(name)), None, true)
    }

    /// Creates a `TelemetryTransmitter` and the corresponding
    /// `TelemetryProcessor`.
    ///
    /// The message queue will be bound to `cap` elements. If
    /// `block_on_full` is `false` messages will be dropped if `cap` elements
    /// are in the queue.
    pub fn new_pair_bounded(name: &str, cap: usize, block_on_full: bool) -> (r: (
        TelemetryTransmitter<L>,
        TelemetryProcessor<L>,
    ))
        requires
            cap <= usize::MAX / 4,
        ensures
            r.1@.name == Some(name@),
            r.1@.title is None,
            r.1@.description is None,
            r.1@.inactivity_limit is None,
            r.1@.show_activity_state,
            !r.1@.disconnected,
            r.0.blocks_when_full() == block_on_full,
    {
        Self::create(Some(String::from_str(name)), Some(cap), block_on_full)
    }

    /// Creates a `TelemetryTransmitter` and the corresponding
    /// `TelemetryProcessor`. No grouping will occur unless the name is set.
    pub fn new_pair_without_name() -> (r: (TelemetryTransmitter<L>, TelemetryProcessor<L>))
        ensures
            r.1@.name is None,
            r.1@.title is None,
            r.1@.description is None,
            r.1@.inactivity_limit is None,
            r.1@.show_activity_state,
            !r.1@.disconnected,
            r.0.blocks_when_full(),
    {
        Self::create(None, None, true)
    }

    /// Creates a bounded pair without a name.
    pub fn new_pair_bounded_without_name(cap: usize, block_on_full: bool) -> (r: (
        TelemetryTransmitter<L>,
        TelemetryProcessor<L>,
    ))
        requires
            cap <= usize::MAX / 4,
        ensures
            r.1@.name is None,
            r.1@.title is None,
            r.1@.description is None,
            r.1@.inactivity_limit is None,
            r.1@.show_activity_state,
            !r.1@.disconnected,
            r.0.blocks_when_full() == block_on_full,
    {
        Self::create(None, Some(cap), block_on_full)
    }

    /// Adds a `Cockpit`.
    ///
    /// If the cockpit has a name and another cockpit with the same name is
    /// already present the cockpit is not added.
    pub fn add_cockpit(&mut self, cockpit: Cockpit<L>)
        ensures
            final(self)@ == (ProcessorView {
                cockpits: cockpits_after_adding(old(self)@.cockpits, cockpit@),
                ..old(self)@
            }),
    {
        if let Some(name) = cockpit.name() {
            let n = self.cockpits.len();
            let mut i: usize = 0;
            while i < n
                invariant
                    n == self.cockpits@.len(),
                    i <= n,
                    self == old(self),
                    cockpit@.name == Some(name@),
                    forall|j: int| 0 <= j < i ==> self@.cockpits[j].name != Some(name@),
                decreases n - i,
            {
                if self.cockpits[i].has_name(name) {
                    assert(names_of(self@.cockpits)[i as int] == Some(name@));
                    return;
                }
                i = i + 1;
            }
            assert(!names_of(self@.cockpits).contains(Some(name@))) by {
                if names_of(self@.cockpits).contains(Some(name@)) {
                    let k = choose|k: int|
                        0 <= k < names_of(self@.cockpits).len() && names_of(self@.cockpits)[k]
                            == Some(name@);
                    assert(self@.cockpits[k].name == Some(name@));
                }
            }
        }
        let ghost cs = self@.cockpits;
        self.cockpits.push(cockpit);
        assert(self@.cockpits =~= cs.push(cockpit@));
    }

    /// Adds a `Cockpit`, as `add_cockpit` does.
    pub fn cockpit(self, cockpit: Cockpit<L>) -> (p: Self)
        ensures
            p@ == (ProcessorView { cockpits: cockpits_after_adding(self@.cockpits, cockpit@), ..self@ }),
    {
        let mut p = self;
        p.add_cockpit(cockpit);
        p
    }

    /// Removes the cockpits named `name`; the others keep their order.
    fn remove_cockpit(&mut self, name: &str)
        ensures
            final(self)@ == (ProcessorView {
                cockpits: cockpits_after_removing(old(self)@.cockpits, name@),
                ..old(self)@
            }),
    {
        let ghost cs = old(self)@.cockpits;
        let ghost keep = |c: CockpitView| c.name != Some(name@);
        let mut old_cockpits: Vec<Cockpit<L>> = Vec::new();
        std::mem::swap(&mut old_cockpits, &mut self.cockpits);
        assert(self@.cockpits =~= cs.take(0).filter(keep)) by {
            reveal(Seq::filter);
        }
        let n = old_cockpits.len();
        let mut i: usize = 0;
        while i < n
            invariant
                n == old_cockpits@.len(),
                cs.len() == n,
                i <= n,
                forall|j: int| i <= j < n ==> old_cockpits@[j]@ == #[trigger] cs[j],
                self@.cockpits == cs.take(i as int).filter(keep),
                self@ == (ProcessorView { cockpits: self@.cockpits, ..old(self)@ }),
                keep == (|c: CockpitView| c.name != Some(name@)),
            decreases n - i,
        {
            let ghost before = self@.cockpits;
            let mut c = Cockpit::without_name_at(Instant { nanos: 0 });
            std::mem::swap(&mut c, &mut old_cockpits[i]);
            assert(c@ == cs[i as int]);
            assert(cs.take(i + 1).drop_last() =~= cs.take(i as int));
            assert(cs.take(i + 1).filter(keep) == if keep(cs[i as int]) {
                cs.take(i as int).filter(keep).push(cs[i as int])
            } else {
                cs.take(i as int).filter(keep)
            }) by {
                reveal(Seq::filter);
            }
            if !c.has_name(name) {
                self.cockpits.push(c);
                assert(self@.cockpits =~= before.push(c@));
            }
            i = i + 1;
        }
        assert(cs.take(n as int) =~= cs);
    }

    /// Adds a (custom) handler for observations.
    pub fn add_handler<T: HandlesObservations<Label = L>>(&mut self, handler: T)
        ensures
            final(self)@ == (ProcessorView {
                handler_count: old(self)@.handler_count + 1,
                ..old(self)@
            }),
            final(self).handlers_observed() == old(self).handlers_observed().push(Seq::empty()),
            final(self).handlers_answers() == old(self).handlers_answers().push(Seq::empty()),
    {
        let boxed: Box<dyn HandlesObservationsOf<L>> = Box::new(ObservingHandler::new(handler));
        self.push_handler(boxed);
    }

    /// Adds a boxed handler; its record starts empty.
    fn push_handler(&mut self, boxed: Box<dyn HandlesObservationsOf<L>>)
        ensures
            final(self)@ == (ProcessorView {
                handler_count: old(self)@.handler_count + 1,
                ..old(self)@
            }),
            final(self).handlers_observed() == old(self).handlers_observed().push(Seq::empty()),
            final(self).handlers_answers() == old(self).handlers_answers().push(Seq::empty()),
    {
        let ghost obs = self.handlers_observed();
        let ghost ans = self.handlers_answers();
        proof {
            lemma_push_len(self.handlers@, boxed);
        }
        self.handlers.push(boxed);
        proof {
            self.handed@ = obs.push(Seq::empty());
            self.answered@ = ans.push(Seq::empty());
        }
        assert(self.handlers_observed() =~= obs.push(Seq::empty()));
        assert(self.handlers_answers() =~= ans.push(Seq::empty()));
    }

    /// Adds a (custom) handler for observations.
    pub fn handler<T: HandlesObservations<Label = L>>(self, handler: T) -> (p: Self)
        ensures
            p@ == (ProcessorView { handler_count: self@.handler_count + 1, ..self@ }),
    {
        let mut p = self;
        p.add_handler(handler);
        p
    }

    /// Adds a snapshooter that writes some values into a `Snapshot` when
    /// one is requested.
    pub fn add_snapshooter<S: PutsSnapshot>(&mut self, snapshooter: S)
        ensures
            final(self)@ == (ProcessorView {
                snapshooter_count: old(self)@.snapshooter_count + 1,
                ..old(self)@
            }),
    {
        let boxed: Box<dyn PutsSnapshot> = Box::new(snapshooter);
        proof {
            lemma_push_len(self.snapshooters@, boxed);
        }
        self.snapshooters.push(boxed);
    }

    /// Adds a snapshooter.
    pub fn snapshooter<S: PutsSnapshot>(self, snapshooter: S) -> (p: Self)
        ensures
            p@ == (ProcessorView { snapshooter_count: self@.snapshooter_count + 1, ..self@ }),
    {
        let mut p = self;
        p.add_snapshooter(snapshooter);
        p
    }

    /// The name, which groups the values in the `Snapshot`.
    pub fn get_name(&self) -> (r: Option<&str>)
        ensures
            crate::opt_str_view(r) == self@.name,
    {
        opt_as_str(&self.name)
    }

    /// Sets the name which will cause a grouping in the `Snapshot`.
    pub fn set_name(&mut self, name: &str)
        ensures
            final(self)@ == (ProcessorView { name: Some(name@), ..old(self)@ }),
    {
        self.name = Some(String::from_str(name));
    }

    /// Sets the title shown in descriptive snapshots.
    pub fn set_title(&mut self, title: &str)
        ensures
            final(self)@ == (ProcessorView { title: Some(title@), ..old(self)@ }),
    {
        self.title = Some(String::from_str(title));
    }

    /// Sets the description shown in descriptive snapshots.
    pub fn set_description(&mut self, description: &str)
        ensures
            final(self)@ == (ProcessorView { description: Some(description@), ..old(self)@ }),
    {
        self.description = Some(String::from_str(description));
    }

    /// Sets the maximum amount of time this processor may be inactive
    /// until it is shown as inactive and takes no more snapshots.
    pub fn set_inactivity_limit(&mut self, limit: Duration)
        ensures
            final(self)@ == (ProcessorView { inactivity_limit: Some(limit), ..old(self)@ }),
    {
        self.max_inactivity_duration = Some(limit);
    }

    /// Sets the maximum amount of time this processor may be inactive.
    pub fn inactivity_limit(self, limit: Duration) -> (p: Self)
        ensures
            p@ == (ProcessorView { inactivity_limit: Some(limit), ..self@ }),
    {
        let mut p = self;
        p.set_inactivity_limit(limit);
        p
    }

    /// Sets whether to show if the processor is inactive or not if an
    /// inactivity limit is set. The default is `true`.
    pub fn set_show_activity_state(&mut self, show: bool)
        ensures
            final(self)@ == (ProcessorView { show_activity_state: show, ..old(self)@ }),
    {
        self.show_activity_state = show;
    }

    /// Sets whether to show if the processor is inactive or not.
    pub fn show_activity_state(self, show: bool) -> (p: Self)
        ensures
            p@ == (ProcessorView { show_activity_state: show, ..self@ }),
    {
        let mut p = self;
        p.set_show_activity_state(show);
        p
    }

    /// Handles one received message with the decider `decider` at `now`.
    ///
    /// An observation that the decider lets through goes to every cockpit
    /// (each of which then counts as active at `now`) and every handler, and
    /// counts as processed; one that it drops counts as dropped and changes
    /// nothing. A new handler or cockpit is added, a cockpit is removed; each
    /// counts as processed.
    pub fn handle_message_at(
        &mut self,
        message: TelemetryMessage<L>,
        decider: &ProcessingDecider,
        now: Instant,
    ) -> (o: ProcessingOutcome)
        ensures
            message_handled(old(self)@, final(self)@, o, message, *decider, now),
            message matches TelemetryMessage::Observation(obs) ==> if decider.accepts_at(
                obs.timestamp_spec(),
            ) {
                handed_to_everyone(
                    old(self).cockpits_observed(),
                    old(self).cockpits_answers(),
                    final(self).cockpits_observed(),
                    final(self).cockpits_answers(),
                    old(self).handlers_observed(),
                    old(self).handlers_answers(),
                    final(self).handlers_observed(),
                    final(self).handlers_answers(),
                    obs,
                    o.instruments_updated,
                )
            } else {
                &&& final(self).cockpits_observed() == old(self).cockpits_observed()
                &&& final(self).cockpits_answers() == old(self).cockpits_answers()
                &&& final(self).handlers_observed() == old(self).handlers_observed()
                &&& final(self).handlers_answers() == old(self).handlers_answers()
            },
    {
        match message {
            TelemetryMessage::Observation(obs) => {
                if decider.should_be_processed(&obs) {
                    let mut updated: usize = 0;
                    let ghost cs = old(self)@.cockpits;
                    let ghost cobs0 = old(self).cockpits_observed();
                    let ghost cans0 = old(self).cockpits_answers();
                    let ghost mut sums: Seq<usize> = Seq::empty();
                    let k = self.cockpits.len();
                    let mut j: usize = 0;
                    while j < k
                        invariant
                            k == self.cockpits@.len(),
                            j <= k,
                            cs.len() == k,
                            cobs0.len() == k,
                            cans0.len() == k,
                            self@ == (ProcessorView { cockpits: self@.cockpits, ..old(self)@ }),
                            self.handed == old(self).handed,
                            self.answered == old(self).answered,
                            self.handlers@.len() == old(self).handlers@.len(),
                            self.name == old(self).name,
                            self.title == old(self).title,
                            self.description == old(self).description,
                            self.snapshooters == old(self).snapshooters,
                            self.last_activity_at == old(self).last_activity_at,
                            self.max_inactivity_duration == old(self).max_inactivity_duration,
                            self.show_activity_state == old(self).show_activity_state,
                            self.is_disconnected == old(self).is_disconnected,
                            self@.cockpits.len() == k,
                            sums.len() == j,
                            updated == saturating_total(sums),
                            forall|m: int|
                                0 <= m < j ==> #[trigger] self@.cockpits[m] == (CockpitView {
                                    last_activity: now,
                                    ..cs[m]
                                }),
                            forall|m: int| j <= m < k ==> #[trigger] self@.cockpits[m] == cs[m],
                            forall|m: int|
                                0 <= m < j ==> handed_to_all(
                                    cobs0[m],
                                    cans0[m],
                                    #[trigger] self.cockpits@[m].handlers_observed(),
                                    self.cockpits@[m].handlers_answers(),
                                    obs,
                                    sums[m],
                                ),
                            forall|m: int|
                                j <= m < k ==> #[trigger] self.cockpits@[m].handlers_observed()
                                    == cobs0[m] && self.cockpits@[m].handlers_answers() == cans0[m],
                        decreases k - j,
                    {
                        let ghost before = self@.cockpits;
                        let ghost cbefore = self.cockpits@;
                        let u = self.cockpits[j].handle_observation_at(&obs, now);
                        assert(self@.cockpits =~= before.update(
                            j as int,
                            CockpitView { last_activity: now, ..before[j as int] },
                        ));
                        proof {
                            assert(self.cockpits@ == cbefore.update(j as int, self.cockpits@[j as int]));
                            assert forall|m: int| j + 1 <= m < k implies #[trigger] self.cockpits@[m].handlers_observed()
                                == cobs0[m] && self.cockpits@[m].handlers_answers() == cans0[m] by {
                                assert(self.cockpits@[m] == cbefore[m]);
                            }
                            let nsums = sums.push(u);
                            assert(nsums.drop_last() =~= sums);
                            sums = nsums;
                        }
                        updated = updated.saturating_add(u);
                        j = j + 1;
                    }
                    assert(self@.cockpits =~= cockpits_active_at(cs, now));
                    let ghost hobs0 = old(self).handlers_observed();
                    let ghost hans0 = old(self).handlers_answers();
                    let ghost csums = sums;
                    let ghost cockpits_handled = self.cockpits@;
                    let mut rest: Vec<Box<dyn HandlesObservationsOf<L>>> = Vec::new();
                    std::mem::swap(&mut rest, &mut self.handlers);
                    let n = rest.len();
                    let ghost mut las: Seq<usize> = Seq::empty();
                    let ghost mut new_obs: Seq<Seq<Observation<L>>> = Seq::empty();
                    let ghost mut new_ans: Seq<Seq<usize>> = Seq::empty();
                    let mut i: usize = 0;
                    while i < n
                        invariant
                            hobs0.len() == n,
                            hans0.len() == n,
                            i <= n,
                            self.handlers@.len() == i,
                            rest@.len() == n - i,
                            self.name == old(self).name,
                            self.title == old(self).title,
                            self.description == old(self).description,
                            self.cockpits@ == cockpits_handled,
                            self.snapshooters == old(self).snapshooters,
                            self.last_activity_at == old(self).last_activity_at,
                            self.max_inactivity_duration == old(self).max_inactivity_duration,
                            self.show_activity_state == old(self).show_activity_state,
                            self.is_disconnected == old(self).is_disconnected,
                            las.len() == i,
                            new_obs.len() == i,
                            new_ans.len() == i,
                            updated == saturating_total(csums + las),
                            forall|m: int| 0 <= m < i ==> #[trigger] new_obs[m] == hobs0[m].push(obs),
                            forall|m: int| 0 <= m < i ==> #[trigger] new_ans[m] == hans0[m].push(las[m]),
                        decreases n - i,
                    {
                        proof {
                            lemma_remove_first(rest@);
                        }
                        let mut h = rest.remove(0);
                        let u = h.handle_observation_of(&obs);
                        proof {
                            lemma_push_len(self.handlers@, h);
                            let nlas = las.push(u);
                            assert(nlas.drop_last() =~= las);
                            assert((csums + nlas).drop_last() =~= csums + las);
                            new_obs = new_obs.push(hobs0[i as int].push(h.observed().last()));
                            new_ans = new_ans.push(hans0[i as int].push(h.answers().last()));
                            assert(h.observed().last() == obs);
                            assert(h.answers().last() == u);
                            las = nlas;
                        }
                        self.handlers.push(h);
                        updated = updated.saturating_add(u);
                        i = i + 1;
                    }
                    proof {
                        self.handed@ = new_obs;
                        self.answered@ = new_ans;
                    }
                    assert(self.handlers_observed() =~= hobs0.map_values(
                        |o: Seq<Observation<L>>| o.push(obs),
                    ));
                    assert(self.handlers_answers() =~= new_ans);
                    assert(new_ans.map_values(|a: Seq<usize>| a.last()) =~= las);
                    assert forall|m: int| 0 <= m < k implies #[trigger] csums[m] == answers_total(
                        self.cockpits_answers()[m],
                    ) by {
                        assert(handed_to_all(
                            cobs0[m],
                            cans0[m],
                            cockpits_handled[m].handlers_observed(),
                            cockpits_handled[m].handlers_answers(),
                            obs,
                            csums[m],
                        ));
                    }
                    assert(self.cockpits_answers().map_values(|a: Seq<Seq<usize>>| answers_total(a))
                        =~= csums);
                    assert(self.cockpits_observed().len() == k);
                    ProcessingOutcome {
                        processed: 1,
                        dropped: 0,
                        instruments_updated: updated,
                        observations_enqueued: 0,
                    }
                } else {
                    ProcessingOutcome {
                        processed: 0,
                        dropped: 1,
                        instruments_updated: 0,
                        observations_enqueued: 0,
                    }
                }
            },
            TelemetryMessage::AddHandler(h) => {
                self.push_handler(h);
                ProcessingOutcome {
                    processed: 1,
                    dropped: 0,
                    instruments_updated: 0,
                    observations_enqueued: 0,
                }
            },
            TelemetryMessage::AddCockpit(c) => {
                self.add_cockpit(c);
                ProcessingOutcome {
                    processed: 1,
                    dropped: 0,
                    instruments_updated: 0,
                    observations_enqueued: 0,
                }
            },
            TelemetryMessage::RemoveCockpit(name) => {
                self.remove_cockpit(name.as_str());
                ProcessingOutcome {
                    processed: 1,
                    dropped: 0,
                    instruments_updated: 0,
                    observations_enqueued: 0,
                }
            },
        }
    }


    /// Handles one received message with the decider `decider`, as
    /// `handle_message_at` does at the current time.
    pub fn handle_message(&mut self, message: TelemetryMessage<L>, decider: &ProcessingDecider) -> (o:
        ProcessingOutcome)
        ensures
            exists|t: Instant| #[trigger] message_handled(old(self)@, final(self)@, o, message, *decider, t),
            message matches TelemetryMessage::Observation(obs) ==> if decider.accepts_at(
                obs.timestamp_spec(),
            ) {
                handed_to_everyone(
                    old(self).cockpits_observed(),
                    old(self).cockpits_answers(),
                    final(self).cockpits_observed(),
                    final(self).cockpits_answers(),
                    old(self).handlers_observed(),
                    old(self).handlers_answers(),
                    final(self).handlers_observed(),
                    final(self).handlers_answers(),
                    obs,
                    o.instruments_updated,
                )
            } else {
                &&& final(self).cockpits_observed() == old(self).cockpits_observed()
                &&& final(self).cockpits_answers() == old(self).cockpits_answers()
                &&& final(self).handlers_observed() == old(self).handlers_observed()
                &&& final(self).handlers_answers() == old(self).handlers_answers()
            },
    {
        let t = now();
        self.handle_message_at(message, decider, t)
    }

    /// Takes up to `max` messages from the channel and handles them, one
    /// after another, with `decider` at `now`; stops early once the channel
    /// is disconnected.
    fn receive_and_handle(&mut self, max: usize, decider: &ProcessingDecider, now: Instant) -> (o:
        ProcessingOutcome)
        ensures
            o.processed + o.dropped <= max,
            final(self)@ == (ProcessorView {
                disconnected: final(self)@.disconnected,
                cockpits: final(self)@.cockpits,
                handler_count: final(self)@.handler_count,
                ..old(self)@
            }),
            o.processed + o.dropped == 0 ==> final(self)@.cockpits == old(self)@.cockpits
                && final(self)@.handler_count == old(self)@.handler_count,
            exists|ms: Seq<TelemetryMessage<L>>, vs: Seq<ProcessorView>, os: Seq<ProcessingOutcome>|
                #[trigger] received_in_turn(old(self)@, o, max, *decider, now, ms, vs, os)
                    && final(self)@ == (ProcessorView {
                    disconnected: final(self)@.disconnected,
                    ..vs.last()
                }),
    {
        let mut num_received: usize = 0;
        let mut processed: usize = 0;
        let mut instruments_updated: usize = 0;
        let mut dropped: usize = 0;
        let ghost mut ms: Seq<TelemetryMessage<L>> = Seq::empty();
        let ghost mut vs: Seq<ProcessorView> = seq![self@];
        let ghost mut os: Seq<ProcessingOutcome> = Seq::empty();
        while num_received < max
            invariant_except_break
                num_received <= max,
                processed + dropped <= num_received,
                ms.len() <= num_received,
                self@ == (ProcessorView {
                    cockpits: self@.cockpits,
                    handler_count: self@.handler_count,
                    ..old(self)@
                }),
                processed + dropped == 0 ==> self@.cockpits == old(self)@.cockpits
                    && self@.handler_count == old(self)@.handler_count,
                handled_in_turn(vs, os, ms, *decider, now),
                vs[0] == old(self)@,
                vs.last() == self@,
                processed == processed_total(os),
                dropped == dropped_total(os),
            ensures
                processed + dropped <= max,
                ms.len() <= max,
                processed + dropped == 0 ==> self@.cockpits == old(self)@.cockpits
                    && self@.handler_count == old(self)@.handler_count,
                self@ == (ProcessorView {
                    disconnected: self@.disconnected,
                    cockpits: self@.cockpits,
                    handler_count: self@.handler_count,
                    ..old(self)@
                }),
                handled_in_turn(vs, os, ms, *decider, now),
                vs[0] == old(self)@,
                self@ == (ProcessorView { disconnected: self@.disconnected, ..vs.last() }),
                processed == processed_total(os),
                dropped == dropped_total(os),
            decreases max - num_received,
        {
            match try_receive(&self.receiver) {
                Received::Message(message) => {
                    let ghost m = message;
                    let ghost before = self@;
                    let o = self.handle_message_at(message, decider, now);
                    proof {
                        let nvs = vs.push(self@);
                        let nos = os.push(o);
                        let nms = ms.push(m);
                        assert forall|i: int| 0 <= i < nms.len() implies message_handled(
                            nvs[i],
                            #[trigger] nvs[i + 1],
                            nos[i],
                            nms[i],
                            *decider,
                            now,
                        ) by {
                            if i < ms.len() {
                                assert(nvs[i] == vs[i] && nvs[i + 1] == vs[i + 1]);
                                assert(message_handled(vs[i], vs[i + 1], os[i], ms[i], *decider, now));
                            } else {
                                assert(nvs[i] == before && nvs[i + 1] == self@);
                            }
                        }
                        assert(nos.drop_last() =~= os);
                        vs = nvs;
                        os = nos;
                        ms = nms;
                    }
                    processed = processed + o.processed;
                    dropped = dropped + o.dropped;
                    instruments_updated = instruments_updated.saturating_add(o.instruments_updated);
                },
                Received::Empty => {},
                Received::Disconnected => {
                    self.is_disconnected = true;
                    break;
                },
            }
            num_received = num_received + 1;
        }
        let o = ProcessingOutcome {
            processed,
            dropped,
            instruments_updated,
            observations_enqueued: waiting_messages(&self.receiver),
        };
        assert(received_in_turn(old(self)@, o, max, *decider, now, ms, vs, os));
        o
    }

    /// Writes the values of this processor into `into`, at `now`.
    fn put_values_into_snapshot(&mut self, into: &mut Snapshot, descriptive: bool, now: Instant)
        ensures
            final(self)@ == old(self)@,
            shows_inactive(old(self)@, now) ==> final(into)@ == processor_head(
                old(self)@,
                old(into)@,
                descriptive,
                now,
            ),
            !shows_inactive(old(self)@, now) && puts_only_cockpits(old(self)@) ==> head_then_cockpits(
                final(into)@,
                processor_head(old(self)@, old(into)@, descriptive, now),
                old(self)@.cockpits,
            ),
    {
        let ghost cs = self@.cockpits;
        let ghost known = puts_only_cockpits(self@);
        put_default_descriptives(self, into, descriptive);
        let inactive = put_activity_state(
            into,
            self.max_inactivity_duration,
            self.show_activity_state,
            self.last_activity_at,
            now,
        );
        if inactive {
            return;
        }
        let ghost head = into@;
        assert(into@.take(head.len() as int) =~= head);
        assert(cs.take(0) =~= Seq::<CockpitView>::empty());
        let k = self.cockpits.len();
        let mut c: usize = 0;
        while c < k
            invariant
                k == self.cockpits@.len(),
                c <= k,
                self@ == old(self)@,
                cs == self@.cockpits,
                known == puts_only_cockpits(self@),
                known ==> head_then_cockpits(into@, head, cs.take(c as int)),
            decreases k - c,
        {
            let ghost before = self@;
            let ghost prev = into@;
            self.cockpits[c].put_snapshot(into, descriptive);
            assert(self@.cockpits =~= before.cockpits);
            proof {
                if known {
                    assert(cs[c as int].name is Some);
                    assert(into@.take(prev.len() as int) =~= prev);
                    assert(into@.take(head.len() as int) =~= head) by {
                        assert(prev.take(head.len() as int) == head);
                    }
                    assert forall|i: int| 0 <= i < cs.take(c + 1).len() implies (#[trigger] into@[head.len() + i]).0
                        == cs.take(c + 1)[i].name->0 by {
                        if i < c {
                            assert(into@[head.len() + i] == into@.take(prev.len() as int)[head.len() + i]);
                            assert(prev[head.len() + i].0 == cs.take(c as int)[i].name->0);
                        }
                    }
                }
            }
            c = c + 1;
        }
        assert(cs.take(k as int) =~= cs);
        let ghost after_cockpits = into@;
        let n = self.handlers.len();
        let mut i: usize = 0;
        while i < n
            invariant
                n == self.handlers@.len(),
                i <= n,
                self@ == old(self)@,
                n == 0 ==> into@ == after_cockpits,
            decreases n - i,
        {
            self.handlers[i].put_snapshot(into, descriptive);
            i = i + 1;
        }
        let m = self.snapshooters.len();
        let mut j: usize = 0;
        while j < m
            invariant
                m == self.snapshooters@.len(),
                j <= m,
                self@ == old(self)@,
                n == 0 && m == 0 ==> into@ == after_cockpits,
            decreases m - j,
        {
            self.snapshooters[j].put_snapshot(into, descriptive);
            j = j + 1;
        }
    }
}

impl<L> Descriptive for TelemetryProcessor<L> {
    closed spec fn title_spec(&self) -> Option<Seq<char>> {
        opt_string_view(self.title)
    }

    closed spec fn description_spec(&self) -> Option<Seq<char>> {
        opt_string_view(self.description)
    }

    fn title(&self) -> (r: Option<&str>) {
        opt_as_str(&self.title)
    }

    fn description(&self) -> (r: Option<&str>) {
        opt_as_str(&self.description)
    }
}

/// Transmits observations to a `TelemetryProcessor`.
#[derive(Clone)]
#[verifier::reject_recursive_types(L)]
pub struct TelemetryTransmitter<L> {
    sender: crossbeam_channel::Sender<TelemetryMessage<L>>,
    use_send: bool,
}

impl<L> TelemetryTransmitter<L> {
    /// Whether a transmission waits for room in a full queue (rather than
    /// dropping the message).
    pub closed spec fn blocks_when_full(&self) -> bool {
        self.use_send
    }
}


impl<L: Clone + Eq + Send + 'static> TelemetryProcessor<L> {
    /// Writes the values of this processor into `into` at `now`: grouped
    /// under its name where it has one, with its title and description where
    /// `descriptive` is set, its activity state where an inactivity limit is
    /// set and shown, and then, unless it shows itself inactive, what its
    /// cockpits, handlers and snapshooters put. Where it has no handlers or
    /// snapshooters and all its cockpits have names, that is one entry per
    /// cockpit under the cockpit's name.
    pub fn put_snapshot_at(&mut self, into: &mut Snapshot, descriptive: bool, now: Instant)
        ensures
            final(self)@ == old(self)@,
            processor_snapshot(old(self)@, old(into)@, final(into)@, descriptive, now),
    {
        let name: Option<String> = match &self.name {
            Some(n) => Some(n.clone()),
            None => None,
        };
        match name {
            Some(n) => {
                let mut new_level = Snapshot::new();
                self.put_values_into_snapshot(&mut new_level, descriptive, now);
                into.push(n, ItemKind::Snapshot(new_level));
                assert(final(into)@.take(old(into)@.len() as int) =~= old(into)@);
            },
            None => {
                self.put_values_into_snapshot(into, descriptive, now);
            },
        }
    }
}

impl<L: Clone + Eq + Send + 'static> PutsSnapshot for TelemetryProcessor<L> {
    /// Writes the values of this processor as `put_snapshot_at` does, at
    /// the current time.
    fn put_snapshot(&mut self, into: &mut Snapshot, descriptive: bool)
        ensures
            final(self)@ == old(self)@,
            exists|t: Instant|
                #[trigger] processor_snapshot(old(self)@, old(into)@, final(into)@, descriptive, t),
    {
        self.put_snapshot_at(into, descriptive, now());
    }
}

impl<L: Clone + Eq + Send + 'static> ProcessesTelemetryMessages for TelemetryProcessor<L> {
    /// Takes up to `max` waiting messages and handles them, one after
    /// another, with the decider that `strategy` gives at the current time. A processor whose channel has been found
    /// disconnected does nothing more.
    fn process(&mut self, max: usize, strategy: ProcessingStrategy) -> (o: ProcessingOutcome)
        ensures
            old(self)@.disconnected ==> {
                &&& o.processed == 0
                &&& o.dropped == 0
                &&& o.instruments_updated == 0
                &&& o.observations_enqueued == 0
                &&& final(self)@ == old(self)@
            },
            !old(self)@.disconnected ==> {
                &&& o.processed + o.dropped <= max
                &&& final(self)@ == (ProcessorView {
                    disconnected: final(self)@.disconnected,
                    last_activity: final(self)@.last_activity,
                    cockpits: final(self)@.cockpits,
                    handler_count: final(self)@.handler_count,
                    ..old(self)@
                })
                &&& !(o.processed > 0 || o.dropped > 0) ==> {
                    &&& final(self)@.last_activity == old(self)@.last_activity
                    &&& final(self)@.cockpits == old(self)@.cockpits
                    &&& final(self)@.handler_count == old(self)@.handler_count
                }
                &&& exists|
                    t: Instant,
                    ms: Seq<TelemetryMessage<L>>,
                    vs: Seq<ProcessorView>,
                    os: Seq<ProcessingOutcome>,
                |
                    #[trigger] received_in_turn(
                        old(self)@,
                        o,
                        max,
                        decider_spec(strategy, t),
                        t,
                        ms,
                        vs,
                        os,
                    ) && final(self)@ == (ProcessorView {
                        disconnected: final(self)@.disconnected,
                        last_activity: if o.processed > 0 || o.dropped > 0 {
                            t
                        } else {
                            old(self)@.last_activity
                        },
                        ..vs.last()
                    })
            },
    {
        if self.is_disconnected {
            return ProcessingOutcome::default();
        }
        let t = now();
        let decider = strategy.decider_at(t);
        let outcome = self.receive_and_handle(max, &decider, t);
        if outcome.something_happened() {
            self.last_activity_at = t;
        }
        outcome
    }
}

/// Sends a message through `crossbeam_channel::Sender::send`, which waits
/// for room in a full bounded channel. Returns whether the message was
/// sent; that depends on the receiving side, so nothing is stated of it.
#[verifier::external_body]
fn send_message<T>(sender: &crossbeam_channel::Sender<T>, message: T) -> bool {
    sender.send(message).is_ok()
}

/// Sends a message through `crossbeam_channel::Sender::try_send`, which
/// drops it where a bounded channel is full. Returns whether the message was
/// sent; that depends on the receiving side, so nothing is stated of it.
#[verifier::external_body]
fn try_send_message<T>(sender: &crossbeam_channel::Sender<T>, message: T) -> bool {
    sender.try_send(message).is_ok()
}

/// Transmits telemetry data to the backend.
///
/// Implementors should transfer observations to a backend and update the
/// instruments there, so as not to interfere too much with the task being
/// observed. Every method returns the transmitter itself.
pub trait TransmitsTelemetryData<L> {
    /// Transmits an observation to the backend.
    fn transmit(&self, observation: Observation<L>) -> (r: &Self)
        ensures
            r == self,
    ;

    /// Observed `count` occurrences at time `timestamp`.
    fn observed(&self, label: L, count: u64, timestamp: Instant) -> (r: &Self)
        ensures
            r == self,
    {
        self.transmit(Observation::observed(label, count, timestamp))
    }

    /// Observed one occurrence at time `timestamp`.
    fn observed_one(&self, label: L, timestamp: Instant) -> (r: &Self)
        ensures
            r == self,
    {
        self.transmit(Observation::observed_one(label, timestamp))
    }

    /// Observed one occurrence with value `value` at time `timestamp`.
    fn observed_one_value(&self, label: L, value: ObservedValue, timestamp: Instant) -> (r: &Self)
        ensures
            r == self,
    {
        self.transmit(Observation::observed_one_value(label, value, timestamp))
    }

    /// Sends a `Duration` in nanoseconds as an observed value observed at
    /// `timestamp`.
    fn observed_duration(&self, label: L, duration: Duration, timestamp: Instant) -> (r: &Self)
        ensures
            r == self,
    {
        self.observed_one_value(label, ObservedValue::Duration(duration.nanos, TimeUnit::Nanoseconds), timestamp)
    }

    /// Observed `count` occurrences now.
    fn observed_now(&self, label: L, count: u64) -> (r: &Self)
        ensures
            r == self,
    {
        self.observed(label, count, now())
    }

    /// Observed one occurrence now.
    fn observed_one_now(&self, label: L) -> (r: &Self)
        ensures
            r == self,
    {
        self.observed_one(label, now())
    }

    /// Observed one occurrence with value `value` now.
    fn observed_one_value_now(&self, label: L, value: ObservedValue) -> (r: &Self)
        ensures
            r == self,
    {
        self.observed_one_value(label, value, now())
    }

    /// Sends a `Duration` in nanoseconds as an observed value observed now.
    fn observed_one_duration_now(&self, label: L, duration: Duration) -> (r: &Self)
        ensures
            r == self,
    {
        self.observed_duration(label, duration, now())
    }

    /// Measures the time from `from` until now and sends it as an observed
    /// value in nanoseconds; nothing is sent where `from` is later than now.
    fn measure_time(&self, label: L, from: Instant) -> (r: &Self)
        ensures
            r == self,
    {
        let now = now();
        if from.nanos <= now.nanos {
            self.observed_duration(label, now.saturating_duration_since(from), now);
        }
        self
    }

    /// Adds a handler.
    fn add_handler<H: HandlesObservations<Label = L>>(&self, handler: H) -> (r: &Self)
        ensures
            r == self,
    ;

    /// Adds a `Cockpit`.
    fn add_cockpit(&self, cockpit: Cockpit<L>) -> (r: &Self)
        ensures
            r == self,
    ;
}

impl<L: Send + 'static> TransmitsTelemetryData<L> for TelemetryTransmitter<L> {
    fn transmit(&self, observation: Observation<L>) -> (r: &Self) {
        let message = TelemetryMessage::Observation(observation);
        if self.use_send {
            let _ = send_message(&self.sender, message);
        } else {
            let _ = try_send_message(&self.sender, message);
        }
        self
    }

    fn add_handler<H: HandlesObservations<Label = L>>(&self, handler: H) -> (r: &Self) {
        let _ = send_message(&self.sender, TelemetryMessage::AddHandler(Box::new(ObservingHandler::new(handler))));
        self
    }

    fn add_cockpit(&self, cockpit: Cockpit<L>) -> (r: &Self) {
        let _ = send_message(&self.sender, TelemetryMessage::AddCockpit(cockpit));
        self
    }
}


/// Can group everything that processes telemetry messages.
///
/// Since snapshooters can be added almost everywhere the `add_snapshooter`
/// method is placed here, too.
pub trait AggregatesProcessors {
    /// Adds a processor.
    fn add_processor<P: ProcessesTelemetryMessages>(&mut self, processor: P);

    /// Adds a snapshooter.
    fn add_snapshooter<S: PutsSnapshot>(&mut self, snapshooter: S);

    /// Adds `mount` as a processor and returns a handle through which
    /// processors and snapshooters can be added to it later.
    fn attached_mount(&mut self, mount: ProcessorMount) -> AttachedMount {
        let (sender, receiver) = new_unbounded_channel();
        let attached = InternalAttachedMount { receiver: Some(receiver), inner: mount };
        self.add_processor(attached);
        AttachedMount { sender }
    }
}

/// What a `ProcessorMount` is, apart from its processors and snapshooters.
pub struct MountView {
    pub name: Option<Seq<char>>,
    pub title: Option<Seq<char>>,
    pub description: Option<Seq<char>>,
    pub inactivity_limit: Option<Duration>,
    pub last_activity: Instant,
    pub processor_count: nat,
    pub snapshooter_count: nat,
}

/// A building block for grouping processors.
pub struct ProcessorMount {
    name: Option<String>,
    title: Option<String>,
    description: Option<String>,
    processors: Vec<Box<dyn BoxedProcessor>>,
    snapshooters: Vec<Box<dyn PutsSnapshot>>,
    last_activity_at: Instant,
    max_inactivity_duration: Option<Duration>,
    /// For each processor, its runs as it recorded them at its last run.
    runs_seen: Ghost<Seq<Seq<(usize, ProcessingStrategy, ProcessingOutcome)>>>,
}

impl ProcessorMount {
    /// The runs of each processor, in the processors' order, as each
    /// processor recorded them at its last run.
    pub closed spec fn processor_runs(&self) -> Seq<Seq<(usize, ProcessingStrategy, ProcessingOutcome)>> {
        Seq::new(
            self.processors@.len(),
            |i: int|
                if i < self.runs_seen@.len() {
                    self.runs_seen@[i]
                } else {
                    Seq::empty()
                },
        )
    }
}

impl View for ProcessorMount {
    type V = MountView;

    closed spec fn view(&self) -> MountView {
        MountView {
            name: opt_string_view(self.name),
            title: opt_string_view(self.title),
            description: opt_string_view(self.description),
            inactivity_limit: self.max_inactivity_duration,
            last_activity: self.last_activity_at,
            processor_count: self.processors@.len(),
            snapshooter_count: self.snapshooters@.len(),
        }
    }
}

/// The entries a mount puts into `into` before those of its processors and
/// snapshooters: a mount shows its activity state wherever a limit is set.
pub open spec fn mount_head(
    m: MountView,
    into: Seq<(Seq<char>, ItemValue)>,
    descriptive: bool,
    now: Instant,
) -> Seq<(Seq<char>, ItemValue)> {
    with_activity_state(
        with_default_descriptives(into, m.title, m.description, descriptive),
        m.inactivity_limit,
        true,
        m.last_activity,
        now,
    )
}

/// The mount has neither processors nor snapshooters: it puts its head only.
pub open spec fn mount_puts_only_head(m: MountView) -> bool {
    m.processor_count == 0 && m.snapshooter_count == 0
}

/// What a mount `m` leaves in a snapshot that held `into` when it puts its
/// values at `now`: `result`.
pub open spec fn mount_snapshot(
    m: MountView,
    into: Seq<(Seq<char>, ItemValue)>,
    result: Seq<(Seq<char>, ItemValue)>,
    descriptive: bool,
    now: Instant,
) -> bool {
    let only_head = is_inactive(m.inactivity_limit, m.last_activity, now) || mount_puts_only_head(m);
    match m.name {
        Some(n) => {
            &&& result.len() == into.len() + 1
            &&& result.take(into.len() as int) == into
            &&& result.last().0 == n
            &&& only_head ==> result.last().1 == ItemValue::Group(
                mount_head(m, Seq::empty(), descriptive, now),
            )
        },
        None => only_head ==> result == mount_head(m, into, descriptive, now),
    }
}

impl ProcessorMount {
    /// Creates a mount with the given name.
    ///
    /// Even though a name is optional having one is the default since this
    /// struct is mostly used to group other components.
    pub fn new(name: &str) -> (m: ProcessorMount)
        ensures
            m@.name == Some(name@),
            m@.title is None,
            m@.description is None,
            m@.inactivity_limit is None,
            m@.processor_count == 0,
            m@.snapshooter_count == 0,
    {
        let mut mount = ProcessorMount::default();
        mount.set_name(name);
        mount
    }

    /// The name.
    pub fn name(&self) -> (r: Option<&str>)
        ensures
            crate::opt_str_view(r) == self@.name,
    {
        opt_as_str(&self.name)
    }

    /// Sets the name, which groups the values in the `Snapshot`.
    pub fn set_name(&mut self, name: &str)
        ensures
            final(self)@ == (MountView { name: Some(name@), ..old(self)@ }),
    {
        self.name = Some(String::from_str(name));
    }

    /// Sets the maximum amount of time this mount may be inactive until it
    /// is shown as inactive and takes no more snapshots.
    pub fn set_inactivity_limit(&mut self, limit: Duration)
        ensures
            final(self)@ == (MountView { inactivity_limit: Some(limit), ..old(self)@ }),
    {
        self.max_inactivity_duration = Some(limit);
    }

    /// Adds a boxed processor.
    pub fn add_processor_dyn(&mut self, processor: Box<dyn BoxedProcessor>)
        ensures
            final(self)@ == (MountView { processor_count: old(self)@.processor_count + 1, ..old(self)@ }),
            final(self).processor_runs() == old(self).processor_runs().push(Seq::empty()),
    {
        let ghost runs = self.processor_runs();
        proof {
            lemma_push_len(self.processors@, processor);
        }
        self.processors.push(processor);
        proof {
            self.runs_seen@ = runs.push(Seq::empty());
        }
        assert(self.processor_runs() =~= runs.push(Seq::empty()));
    }

    /// Adds a boxed snapshooter.
    pub fn add_snapshooter_dyn(&mut self, snapshooter: Box<dyn PutsSnapshot>)
        ensures
            final(self)@ == (MountView {
                snapshooter_count: old(self)@.snapshooter_count + 1,
                ..old(self)@
            }),
    {
        proof {
            lemma_push_len(self.snapshooters@, snapshooter);
        }
        self.snapshooters.push(snapshooter);
    }

    fn put_values_into_snapshot(&mut self, into: &mut Snapshot, descriptive: bool, now: Instant)
        ensures
            final(self)@ == old(self)@,
            is_inactive(old(self)@.inactivity_limit, old(self)@.last_activity, now)
                || mount_puts_only_head(old(self)@) ==> final(into)@ == mount_head(
                old(self)@,
                old(into)@,
                descriptive,
                now,
            ),
    {
        put_default_descriptives(self, into, descriptive);
        let inactive = put_activity_state(
            into,
            self.max_inactivity_duration,
            true,
            self.last_activity_at,
            now,
        );
        if inactive {
            return;
        }
        let ghost head = into@;
        let n = self.processors.len();
        let mut i: usize = 0;
        while i < n
            invariant
                n == self.processors@.len(),
                i <= n,
                self@ == old(self)@,
                n == 0 ==> into@ == head,
            decreases n - i,
        {
            self.processors[i].put_snapshot_boxed(into, descriptive);
            i = i + 1;
        }
        let m = self.snapshooters.len();
        let mut j: usize = 0;
        while j < m
            invariant
                m == self.snapshooters@.len(),
                j <= m,
                self@ == old(self)@,
                n == 0 && m == 0 ==> into@ == head,
            decreases m - j,
        {
            self.snapshooters[j].put_snapshot(into, descriptive);
            j = j + 1;
        }
    }

    /// Writes the values of this mount into `into` at `now`: grouped under
    /// its name where it has one, with its title and description where
    /// `descriptive` is set, its activity state where an inactivity limit is
    /// set, and then, unless it is inactive, what its processors and
    /// snapshooters put.
    pub fn put_snapshot_at(&mut self, into: &mut Snapshot, descriptive: bool, now: Instant)
        ensures
            final(self)@ == old(self)@,
            mount_snapshot(old(self)@, old(into)@, final(into)@, descriptive, now),
    {
        let name: Option<String> = match &self.name {
            Some(n) => Some(n.clone()),
            None => None,
        };
        match name {
            Some(n) => {
                let mut new_level = Snapshot::new();
                self.put_values_into_snapshot(&mut new_level, descriptive, now);
                into.push(n, ItemKind::Snapshot(new_level));
                assert(final(into)@.take(old(into)@.len() as int) =~= old(into)@);
            },
            None => {
                self.put_values_into_snapshot(into, descriptive, now);
            },
        }
    }
}

impl Default for ProcessorMount {
    fn default() -> (m: ProcessorMount)
        ensures
            m@.name is None,
            m@.title is None,
            m@.description is None,
            m@.inactivity_limit is None,
            m@.processor_count == 0,
            m@.snapshooter_count == 0,
    {
        ProcessorMount {
            name: None,
            title: None,
            description: None,
            processors: Vec::new(),
            snapshooters: Vec::new(),
            last_activity_at: now(),
            max_inactivity_duration: None,
            runs_seen: Ghost(Seq::empty()),
        }
    }
}

impl AggregatesProcessors for ProcessorMount {
    fn add_processor<P: ProcessesTelemetryMessages>(&mut self, processor: P)
        ensures
            final(self)@ == (MountView { processor_count: old(self)@.processor_count + 1, ..old(self)@ }),
    {
        let boxed: Box<dyn BoxedProcessor> = Box::new(RecordingProcessor::new(processor));
        self.add_processor_dyn(boxed);
    }

    fn add_snapshooter<S: PutsSnapshot>(&mut self, snapshooter: S)
        ensures
            final(self)@ == (MountView {
                snapshooter_count: old(self)@.snapshooter_count + 1,
                ..old(self)@
            }),
    {
        let boxed: Box<dyn PutsSnapshot> = Box::new(snapshooter);
        self.add_snapshooter_dyn(boxed);
    }
}

impl ProcessesTelemetryMessages for ProcessorMount {
    /// Lets every processor process up to `max` messages and adds up their
    /// outcomes (each field cut at `usize::MAX`); a mount without processors
    /// processes nothing.
    fn process(&mut self, max: usize, strategy: ProcessingStrategy) -> (o: ProcessingOutcome)
        ensures
            final(self)@ == (MountView { last_activity: final(self)@.last_activity, ..old(self)@ }),
            ran_all(old(self).processor_runs(), final(self).processor_runs(), max, strategy),
            o == last_runs_total(final(self).processor_runs()),
            old(self)@.processor_count == 0 ==> o == (ProcessingOutcome {
                processed: 0,
                dropped: 0,
                instruments_updated: 0,
                observations_enqueued: 0,
            }),
            !(o.processed > 0 || o.dropped > 0) ==> final(self)@.last_activity == old(
                self,
            )@.last_activity,
    {
        let mut outcome = ProcessingOutcome::default();
        let ghost runs0 = self.processor_runs();
        let mut rest: Vec<Box<dyn BoxedProcessor>> = Vec::new();
        std::mem::swap(&mut rest, &mut self.processors);
        let n = rest.len();
        let ghost mut new_runs: Seq<Seq<(usize, ProcessingStrategy, ProcessingOutcome)>> = Seq::empty();
        let ghost mut os: Seq<ProcessingOutcome> = Seq::empty();
        let mut i: usize = 0;
        while i < n
            invariant
                runs0.len() == n,
                i <= n,
                self.processors@.len() == i,
                rest@.len() == n - i,
                self.name == old(self).name,
                self.title == old(self).title,
                self.description == old(self).description,
                self.snapshooters == old(self).snapshooters,
                self.last_activity_at == old(self).last_activity_at,
                self.max_inactivity_duration == old(self).max_inactivity_duration,
                new_runs.len() == i,
                os.len() == i,
                forall|m: int| 0 <= m < i ==> #[trigger] new_runs[m] == runs0[m].push((max, strategy, os[m])),
                outcome.processed == saturating_total(os.map_values(|o: ProcessingOutcome| o.processed)),
                outcome.dropped == saturating_total(os.map_values(|o: ProcessingOutcome| o.dropped)),
                outcome.instruments_updated == saturating_total(
                    os.map_values(|o: ProcessingOutcome| o.instruments_updated),
                ),
                outcome.observations_enqueued == saturating_total(
                    os.map_values(|o: ProcessingOutcome| o.observations_enqueued),
                ),
            decreases n - i,
        {
            proof {
                lemma_remove_first(rest@);
            }
            let mut p = rest.remove(0);
            let o = p.process_boxed(max, strategy);
            proof {
                lemma_push_len(self.processors@, p);
                assert(p.runs().last() == (max, strategy, o));
                new_runs = new_runs.push(runs0[i as int].push(p.runs().last()));
                let nos = os.push(o);
                assert(nos.map_values(|o: ProcessingOutcome| o.processed).drop_last() =~= os.map_values(
                    |o: ProcessingOutcome| o.processed,
                ));
                assert(nos.map_values(|o: ProcessingOutcome| o.dropped).drop_last() =~= os.map_values(
                    |o: ProcessingOutcome| o.dropped,
                ));
                assert(nos.map_values(|o: ProcessingOutcome| o.instruments_updated).drop_last()
                    =~= os.map_values(|o: ProcessingOutcome| o.instruments_updated));
                assert(nos.map_values(|o: ProcessingOutcome| o.observations_enqueued).drop_last()
                    =~= os.map_values(|o: ProcessingOutcome| o.observations_enqueued));
                os = nos;
            }
            self.processors.push(p);
            outcome.processed = outcome.processed.saturating_add(o.processed);
            outcome.dropped = outcome.dropped.saturating_add(o.dropped);
            outcome.instruments_updated = outcome.instruments_updated.saturating_add(
                o.instruments_updated,
            );
            outcome.observations_enqueued = outcome.observations_enqueued.saturating_add(
                o.observations_enqueued,
            );
            i = i + 1;
        }
        proof {
            self.runs_seen@ = new_runs;
        }
        assert(self.processor_runs() =~= new_runs);
        assert(new_runs.map_values(
            |r: Seq<(usize, ProcessingStrategy, ProcessingOutcome)>| r.last().2,
        ) =~= os);
        if outcome.something_happened() {
            self.last_activity_at = now();
        }
        outcome
    }
}

impl PutsSnapshot for ProcessorMount {
    /// Writes the values of this mount as `put_snapshot_at` does, at the
    /// current time.
    fn put_snapshot(&mut self, into: &mut Snapshot, descriptive: bool)
        ensures
            final(self)@ == old(self)@,
            exists|t: Instant|
                #[trigger] mount_snapshot(old(self)@, old(into)@, final(into)@, descriptive, t),
    {
        self.put_snapshot_at(into, descriptive, now());
    }
}

impl Descriptive for ProcessorMount {
    closed spec fn title_spec(&self) -> Option<Seq<char>> {
        opt_string_view(self.title)
    }

    closed spec fn description_spec(&self) -> Option<Seq<char>> {
        opt_string_view(self.description)
    }

    fn title(&self) -> (r: Option<&str>) {
        opt_as_str(&self.title)
    }

    fn description(&self) -> (r: Option<&str>) {
        opt_as_str(&self.description)
    }
}

/// A message to a mount that was attached.
pub enum ScopedMountMessage {
    Processor(Box<dyn BoxedProcessor>),
    Snapshooter(Box<dyn PutsSnapshot>),
}

/// A handle to a `ProcessorMount` that was added to an aggregate: what is
/// added through it reaches the mount when that is next asked to process.
#[derive(Clone)]
pub struct AttachedMount {
    sender: crossbeam_channel::Sender<ScopedMountMessage>,
}

impl AttachedMount {
    /// Adds `mount` to the attached mount and returns a handle to it.
    pub fn attached_mount(&mut self, mount: ProcessorMount) -> AttachedMount {
        let (sender, receiver) = new_unbounded_channel();
        let attached = InternalAttachedMount { receiver: Some(receiver), inner: mount };
        self.add_processor(attached);
        AttachedMount { sender }
    }
}

impl AggregatesProcessors for AttachedMount {
    fn add_processor<P: ProcessesTelemetryMessages>(&mut self, processor: P) {
        let _ = send_message(&self.sender, ScopedMountMessage::Processor(Box::new(RecordingProcessor::new(processor))));
    }

    fn add_snapshooter<S: PutsSnapshot>(&mut self, snapshooter: S) {
        let _ = send_message(&self.sender, ScopedMountMessage::Snapshooter(Box::new(snapshooter)));
    }
}

/// The receiving side of an `AttachedMount`: the mount itself and the
/// channel through which additions arrive, until that is disconnected.
pub struct InternalAttachedMount {
    receiver: Option<crossbeam_channel::Receiver<ScopedMountMessage>>,
    inner: ProcessorMount,
}

impl InternalAttachedMount {
    /// The mount that is attached.
    pub closed spec fn mount_view(&self) -> MountView {
        self.inner@
    }
}

impl PutsSnapshot for InternalAttachedMount {
    /// Writes the values of the attached mount, as its `put_snapshot` does.
    fn put_snapshot(&mut self, into: &mut Snapshot, descriptive: bool)
        ensures
            final(self).mount_view() == old(self).mount_view(),
            exists|t: Instant|
                #[trigger] mount_snapshot(old(self).mount_view(), old(into)@, final(into)@, descriptive, t),
    {
        self.inner.put_snapshot(into, descriptive);
    }
}

impl ProcessesTelemetryMessages for InternalAttachedMount {
    /// Adds what arrived for the mount, then lets the mount process. The
    /// mount keeps its name, title, description and limit, and its numbers
    /// of processors and snapshooters only grow.
    fn process(&mut self, max: usize, strategy: ProcessingStrategy) -> (o: ProcessingOutcome)
        ensures
            final(self).mount_view() == (MountView {
                last_activity: final(self).mount_view().last_activity,
                processor_count: final(self).mount_view().processor_count,
                snapshooter_count: final(self).mount_view().snapshooter_count,
                ..old(self).mount_view()
            }),
            final(self).mount_view().processor_count >= old(self).mount_view().processor_count,
            final(self).mount_view().snapshooter_count >= old(self).mount_view().snapshooter_count,
    {
        if let Some(the_receiver) = self.receiver.take() {
            let mut still_connected = true;
            let mut taken: usize = 0;
            while taken < usize::MAX
                invariant_except_break
                    still_connected,
                invariant
                    self.inner@ == (MountView {
                        processor_count: self.inner@.processor_count,
                        snapshooter_count: self.inner@.snapshooter_count,
                        ..old(self).inner@
                    }),
                    self.inner@.processor_count >= old(self).inner@.processor_count,
                    self.inner@.snapshooter_count >= old(self).inner@.snapshooter_count,
                decreases usize::MAX - taken,
            {
                match try_receive(&the_receiver) {
                    Received::Message(ScopedMountMessage::Processor(p)) => {
                        self.inner.add_processor_dyn(p);
                    },
                    Received::Message(ScopedMountMessage::Snapshooter(s)) => {
                        self.inner.add_snapshooter_dyn(s);
                    },
                    Received::Empty => {
                        break;
                    },
                    Received::Disconnected => {
                        still_connected = false;
                        break;
                    },
                }
                taken = taken + 1;
            }
            if still_connected {
                self.receiver = Some(the_receiver);
            }
        }
        self.inner.process(max, strategy)
    }
}


/// Under `ProcessAll` every observation is processed, under `DropAll` none
/// is, whenever the messages are processed.
pub proof fn law_process_all_and_drop_all(now: Instant, t: Instant)
    ensures
        decider_spec(ProcessingStrategy::ProcessAll, now).accepts_at(t),
        !decider_spec(ProcessingStrategy::DropAll, now).accepts_at(t),
{
}

/// Under `DropOlderThan(max_age)` an observation is processed exactly when
/// it is not older than `max_age` at the time of processing; and what is
/// processed, anything observed later is processed too.
pub proof fn law_drop_older_than_keeps_the_young(max_age: Duration, now: Instant, t: Instant, later: Instant)
    requires
        now.nanos >= max_age.nanos,
        t.nanos <= later.nanos,
    ensures
        decider_spec(ProcessingStrategy::DropOlderThan(max_age), now).accepts_at(t) <==> now.nanos
            - t.nanos <= max_age.nanos,
        decider_spec(ProcessingStrategy::DropOlderThan(max_age), now).accepts_at(t) ==> decider_spec(
            ProcessingStrategy::DropOlderThan(max_age),
            now,
        ).accepts_at(later),
{
}

} // verus!
