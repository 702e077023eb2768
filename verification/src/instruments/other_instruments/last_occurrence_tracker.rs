use vstd::prelude::*;

use crate::instruments::{Instrument, InstrumentAdapter, Update, Updates};
use crate::snapshot::{ItemKind, ItemValue, Snapshot};
use crate::time::{now, saturating_sub_spec, Instant, NANOS_PER_SEC};
use crate::util::{self, instrument_descriptives};
use crate::{opt_as_str, opt_string_view, Descriptive, PutsSnapshot};

verus! {

/// What a `LastOccurrenceTracker` holds.
pub struct LastOccurrenceTrackerView {
    pub name: Seq<char>,
    pub title: Option<Seq<char>>,
    pub description: Option<Seq<char>>,
    pub happened_last: Option<Instant>,
    pub invert: bool,
    pub make_none_zero: bool,
}

/// The whole seconds from `last` to `now`; zero where `now` is not later.
pub open spec fn elapsed_secs_spec(last: Instant, now: Instant) -> u64 {
    (saturating_sub_spec(now.nanos, last.nanos) / NANOS_PER_SEC) as u64
}

/// The entries that the tracker `v` writes at time `now`.
pub open spec fn last_occurrence_entries(v: LastOccurrenceTrackerView, now: Instant) -> Seq<
    (Seq<char>, ItemValue),
> {
    match v.happened_last {
        Some(last) => seq![(v.name, ItemValue::UInt(elapsed_secs_spec(last, now)))],
        None => if v.make_none_zero {
            seq![(v.name, ItemValue::Int(0))]
        } else {
            seq![]
        },
    }
}

/// What a tracker that saw an occurrence at `last` writes at a time `now`
/// not before it: the whole seconds between the two, that is the `e` with
/// `e` seconds at most `now - last` and `e + 1` seconds more than it. The
/// number grows with `now`, and is zero at the occurrence itself.
pub proof fn law_the_seconds_since_the_last_occurrence(
    v: LastOccurrenceTrackerView,
    last: Instant,
    now: Instant,
    later: Instant,
)
    requires
        v.happened_last == Some(last),
        last.nanos <= now.nanos <= later.nanos,
    ensures
        ({
            let e = last_occurrence_entries(v, now);
            &&& e.len() == 1
            &&& e[0].0 == v.name
            &&& e[0].1 matches ItemValue::UInt(secs) && secs * NANOS_PER_SEC <= now.nanos - last.nanos
                < (secs + 1) * NANOS_PER_SEC
        }),
        last_occurrence_entries(v, now)[0].1 matches ItemValue::UInt(a) && last_occurrence_entries(
            v,
            later,
        )[0].1 matches ItemValue::UInt(b) && a <= b,
        last_occurrence_entries(v, last)[0].1 == ItemValue::UInt(0),
{
    let x = (now.nanos - last.nanos) as int;
    let y = (later.nanos - last.nanos) as int;
    vstd::arithmetic::div_mod::lemma_fundamental_div_mod(x, NANOS_PER_SEC as int);
    vstd::arithmetic::div_mod::lemma_div_is_ordered(x, y, NANOS_PER_SEC as int);
    assert(x / NANOS_PER_SEC as int <= u64::MAX) by {
        vstd::arithmetic::div_mod::lemma_div_is_ordered(x, u64::MAX as int, NANOS_PER_SEC as int);
    }
    assert(y / NANOS_PER_SEC as int <= u64::MAX) by {
        vstd::arithmetic::div_mod::lemma_div_is_ordered(y, u64::MAX as int, NANOS_PER_SEC as int);
    }
    assert(0int / NANOS_PER_SEC as int == 0);
}

/// Tracks how many seconds elapsed since the last occurrence
pub struct LastOccurrenceTracker {
    name: String,
    title: Option<String>,
    description: Option<String>,
    happened_last: Option<Instant>,
    invert: bool,
    make_none_zero: bool,
}

impl View for LastOccurrenceTracker {
    type V = LastOccurrenceTrackerView;

    closed spec fn view(&self) -> LastOccurrenceTrackerView {
        LastOccurrenceTrackerView {
            name: self.name@,
            title: opt_string_view(self.title),
            description: opt_string_view(self.description),
            happened_last: self.happened_last,
            invert: self.invert,
            make_none_zero: self.make_none_zero,
        }
    }
}

impl LastOccurrenceTracker {
    pub fn new(name: &str) -> (t: LastOccurrenceTracker)
        ensures
            t@ == (LastOccurrenceTrackerView {
                name: name@,
                title: None,
                description: None,
                happened_last: None,
                invert: false,
                make_none_zero: false,
            }),
    {
        LastOccurrenceTracker {
            name: String::from_str(name),
            title: None,
            description: None,
            happened_last: None,
            invert: false,
            make_none_zero: false,
        }
    }

    pub fn new_with_defaults(name: &str) -> (t: LastOccurrenceTracker)
        ensures
            t@ == (LastOccurrenceTrackerView {
                name: name@,
                title: None,
                description: None,
                happened_last: None,
                invert: false,
                make_none_zero: false,
            }),
    {
        Self::new(name)
    }

    pub fn get_name(&self) -> (n: &str)
        ensures
            n@ == self@.name,
    {
        self.name.as_str()
    }

    pub fn set_name(&mut self, name: &str)
        ensures
            final(self)@ == (LastOccurrenceTrackerView { name: name@, ..old(self)@ }),
    {
        self.name = String::from_str(name);
    }

    pub fn name(self, name: &str) -> (t: Self)
        ensures
            t@ == (LastOccurrenceTrackerView { name: name@, ..self@ }),
    {
        let mut t = self;
        t.set_name(name);
        t
    }

    pub fn set_title(&mut self, title: &str)
        ensures
            final(self)@ == (LastOccurrenceTrackerView { title: Some(title@), ..old(self)@ }),
    {
        self.title = Some(String::from_str(title));
    }

    pub fn title(self, title: &str) -> (t: Self)
        ensures
            t@ == (LastOccurrenceTrackerView { title: Some(title@), ..self@ }),
    {
        let mut t = self;
        t.set_title(title);
        t
    }

    pub fn set_description(&mut self, description: &str)
        ensures
            final(self)@ == (LastOccurrenceTrackerView {
                description: Some(description@),
                ..old(self)@
            }),
    {
        self.description = Some(String::from_str(description));
    }

    pub fn description(self, description: &str) -> (t: Self)
        ensures
            t@ == (LastOccurrenceTrackerView { description: Some(description@), ..self@ }),
    {
        let mut t = self;
        t.set_description(description);
        t
    }

    /// Set whether the current value should be inverted in a snapshot or not
    ///
    /// Default is `false`
    pub fn set_invert_enabled(&mut self, invert: bool)
        ensures
            final(self)@ == (LastOccurrenceTrackerView { invert, ..old(self)@ }),
    {
        self.invert = invert;
    }

    /// Set whether the current value should be inverted in a snapshot or not
    pub fn invert_enabled(self, invert: bool) -> (t: Self)
        ensures
            t@ == (LastOccurrenceTrackerView { invert, ..self@ }),
    {
        let mut t = self;
        t.set_invert_enabled(invert);
        t
    }

    /// The current value should be inverted in a snapshot
    pub fn inverted(self) -> (t: Self)
        ensures
            t@ == (LastOccurrenceTrackerView { invert: true, ..self@ }),
    {
        let mut t = self;
        t.set_invert_enabled(true);
        t
    }

    /// return whether invert is on or off
    pub fn is_inverted(&self) -> (r: bool)
        ensures
            r == self@.invert,
    {
        self.invert
    }

    /// If set to `true` a missing value (there was no occurrence yet) is
    /// written as `0`.
    pub fn set_make_none_zero(&mut self, make_zero: bool)
        ensures
            final(self)@ == (LastOccurrenceTrackerView { make_none_zero: make_zero, ..old(self)@ }),
    {
        self.make_none_zero = make_zero;
    }

    /// If set to `true` a missing value (there was no occurrence yet) is
    /// written as `0`.
    pub fn make_none_zero(self, make_zero: bool) -> (t: Self)
        ensures
            t@ == (LastOccurrenceTrackerView { make_none_zero: make_zero, ..self@ }),
    {
        let mut t = self;
        t.set_make_none_zero(make_zero);
        t
    }

    /// return whether `make_none_zero` is on or off
    pub fn get_make_none_zero(&self) -> (r: bool)
        ensures
            r == self@.make_none_zero,
    {
        self.make_none_zero
    }

    /// The whole seconds since the last occurrence, at time `now`.
    pub fn elapsed_since_last_occurrence_at(&self, now: Instant) -> (r: Option<u64>)
        ensures
            r == match self@.happened_last {
                Some(last) => Some(elapsed_secs_spec(last, now)),
                None => None,
            },
    {
        match self.happened_last {
            Some(last) => Some(now.saturating_duration_since(last).as_secs()),
            None => None,
        }
    }

    /// Writes the seconds since the last occurrence at time `now` into `into`.
    pub fn put_snapshot_at(&self, into: &mut Snapshot, descriptive: bool, now: Instant)
        ensures
            final(into)@ == instrument_descriptives(
                old(into)@,
                self@.name,
                self@.title,
                self@.description,
                descriptive,
            ) + last_occurrence_entries(self@, now),
    {
        util::put_postfixed_descriptives(self, self.name.as_str(), into, descriptive);
        let ghost mid = into@;
        if let Some(v) = self.elapsed_since_last_occurrence_at(now) {
            into.push(self.name.clone(), ItemKind::UInt(v));
        } else {
            if self.get_make_none_zero() {
                into.push(self.name.clone(), ItemKind::Int(0));
            }
        }
        assert(into@ =~= mid + last_occurrence_entries(self@, now));
    }

    /// Records an occurrence at `now`.
    pub fn update_at(&mut self, now: Instant)
        ensures
            final(self)@ == (LastOccurrenceTrackerView { happened_last: Some(now), ..old(self)@ }),
    {
        self.happened_last = Some(now);
    }
}

impl Instrument for LastOccurrenceTracker {}

impl PutsSnapshot for LastOccurrenceTracker {
    fn put_snapshot(&mut self, into: &mut Snapshot, descriptive: bool)
        ensures
            final(self)@ == old(self)@,
            exists|t: Instant|
                final(into)@ == instrument_descriptives(
                    old(into)@,
                    old(self)@.name,
                    old(self)@.title,
                    old(self)@.description,
                    descriptive,
                ) + #[trigger] last_occurrence_entries(old(self)@, t),
    {
        self.put_snapshot_at(into, descriptive, now())
    }
}

impl Updates for LastOccurrenceTracker {
    /// Any update is an occurrence, at the time the update is handled.
    fn update(&mut self, _with: &Update) -> (n: usize)
        ensures
            n == 1,
            final(self)@.happened_last is Some,
            final(self)@ == (LastOccurrenceTrackerView {
                happened_last: final(self)@.happened_last,
                ..old(self)@
            }),
    {
        self.update_at(now());
        1
    }
}

impl Descriptive for LastOccurrenceTracker {
    open spec fn title_spec(&self) -> Option<Seq<char>> {
        self@.title
    }

    open spec fn description_spec(&self) -> Option<Seq<char>> {
        self@.description
    }

    fn title(&self) -> (r: Option<&str>) {
        opt_as_str(&self.title)
    }

    fn description(&self) -> (r: Option<&str>) {
        opt_as_str(&self.description)
    }
}

impl LastOccurrenceTracker {
    /// Creates an `InstrumentAdapter` that makes this instrument
    /// react on observations on the given label.
    pub fn for_label<T: PartialEq + Send + 'static>(self, label: T) -> (a: InstrumentAdapter<T, Self>)
        ensures
            a.filter().labels() == seq![label],
            !a.filter().accepts_all(),
            !a.filter().has_predicate(),
            a.instrument_spec() == self,
            a.keeps_updates(),
            a.fresh(),
    {
        InstrumentAdapter::for_label(label, self)
    }

    /// Creates an `InstrumentAdapter` that makes this instrument
    /// react on observations with the given labels.
    ///
    /// If `labels` is empty the instrument will not react to any observations
    pub fn for_labels<T: PartialEq + Send + 'static>(self, labels: Vec<T>) -> (a: InstrumentAdapter<T, Self>)
        ensures
            a.filter().labels() == labels@,
            !a.filter().accepts_all(),
            !a.filter().has_predicate(),
            a.instrument_spec() == self,
            a.keeps_updates(),
            a.fresh(),
    {
        InstrumentAdapter::for_labels(labels, self)
    }

    /// Creates an `InstrumentAdapter` that makes this instrument react on
    /// all observations.
    pub fn for_all_labels<T: PartialEq + Send + 'static>(self) -> (a: InstrumentAdapter<T, Self>)
        ensures
            a.filter().accepts_all(),
            a.instrument_spec() == self,
            a.keeps_updates(),
            a.fresh(),
    {
        InstrumentAdapter::new(self)
    }

    /// Creates an `InstrumentAdapter` that makes this instrument react on no
    /// observations.
    pub fn adapter<T: PartialEq + Send + 'static>(self) -> (a: InstrumentAdapter<T, Self>)
        ensures
            a.filter().labels() == Seq::<T>::empty(),
            !a.filter().accepts_all(),
            !a.filter().has_predicate(),
            a.instrument_spec() == self,
            a.keeps_updates(),
            a.fresh(),
    {
        InstrumentAdapter::deaf(self)
    }
}

} // verus!
