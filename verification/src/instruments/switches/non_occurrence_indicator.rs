use vstd::prelude::*;

use super::{alternated_name, NameAlternation};
use crate::instruments::{Instrument, InstrumentAdapter, Update, Updates};
use crate::snapshot::{ItemKind, ItemValue, Snapshot};
use crate::time::{now, saturating_sub_spec, Duration, Instant};
use crate::util::{self, instrument_descriptives};
use crate::{opt_as_str, opt_string_view, Descriptive, PutsSnapshot};

verus! {

/// What a `NonOccurrenceIndicator` holds.
pub struct NonOccurrenceIndicatorView {
    pub name: Seq<char>,
    pub title: Option<Seq<char>>,
    pub description: Option<Seq<char>>,
    pub if_not_happened_within: Duration,
    pub happened_last: Instant,
    pub invert: bool,
    pub show_inverted: Option<NameAlternation>,
}

/// The state of the indicator `v` at time `now`: on where nothing occurred
/// within `if_not_happened_within` before `now` (the last occurrence is at
/// least that old), inverted if `invert` is set.
pub open spec fn non_occurrence_state(v: NonOccurrenceIndicatorView, now: Instant) -> bool {
    let current = v.happened_last.nanos <= saturating_sub_spec(
        now.nanos,
        v.if_not_happened_within.nanos,
    );
    if v.invert {
        !current
    } else {
        current
    }
}

/// The entries that the indicator `v` writes at time `now`.
pub open spec fn non_occurrence_entries(v: NonOccurrenceIndicatorView, now: Instant) -> Seq<
    (Seq<char>, ItemValue),
> {
    let s = non_occurrence_state(v, now);
    match v.show_inverted {
        None => seq![(v.name, ItemValue::Boolean(s))],
        Some(a) => seq![
            (v.name, ItemValue::Boolean(s)),
            (alternated_name(a, v.name), ItemValue::Boolean(!s)),
        ],
    }
}

/// Changes the state based on the absence of an observation within a
/// given time.
///
/// Can be used for alerting, e.g. if something expected was not observed
/// within a given time-frame.
///
/// The first occurrence is when this instrument is created so that the
/// indicator does not turn on right from the start.
pub struct NonOccurrenceIndicator {
    name: String,
    title: Option<String>,
    description: Option<String>,
    if_not_happened_within: Duration,
    happened_last: Instant,
    invert: bool,
    show_inverted: Option<NameAlternation>,
}

impl View for NonOccurrenceIndicator {
    type V = NonOccurrenceIndicatorView;

    closed spec fn view(&self) -> NonOccurrenceIndicatorView {
        NonOccurrenceIndicatorView {
            name: self.name@,
            title: opt_string_view(self.title),
            description: opt_string_view(self.description),
            if_not_happened_within: self.if_not_happened_within,
            happened_last: self.happened_last,
            invert: self.invert,
            show_inverted: self.show_inverted,
        }
    }
}

impl NonOccurrenceIndicator {
    /// A new indicator whose first occurrence is at `now`; the time span is 60 seconds.
    pub fn new_at(name: &str, now: Instant) -> (i: Self)
        ensures
            i@ == (NonOccurrenceIndicatorView {
                name: name@,
                title: None,
                description: None,
                if_not_happened_within: Duration { nanos: 60_000_000_000 },
                happened_last: now,
                invert: false,
                show_inverted: None,
            }),
    {
        Self {
            name: String::from_str(name),
            title: None,
            description: None,
            if_not_happened_within: Duration::from_secs(60),
            happened_last: now,
            invert: false,
            show_inverted: None,
        }
    }

    /// A new indicator whose first occurrence is now; the time span is 60 seconds.
    pub fn new(name: &str) -> (i: Self)
        ensures
            i@ == (NonOccurrenceIndicatorView {
                name: name@,
                title: None,
                description: None,
                if_not_happened_within: Duration { nanos: 60_000_000_000 },
                happened_last: i@.happened_last,
                invert: false,
                show_inverted: None,
            }),
    {
        Self::new_at(name, now())
    }

    pub fn new_with_defaults(name: &str) -> (i: Self)
        ensures
            i@ == (NonOccurrenceIndicatorView {
                name: name@,
                title: None,
                description: None,
                if_not_happened_within: Duration { nanos: 60_000_000_000 },
                happened_last: i@.happened_last,
                invert: false,
                show_inverted: None,
            }),
    {
        Self::new(name)
    }

    pub fn get_name(&self) -> (n: &str)
        ensures
            n@ == self@.name,
    {
        self.name.as_str()
    }

    pub fn set_name(&mut self, name: &str)
        ensures
            final(self)@ == (NonOccurrenceIndicatorView { name: name@, ..old(self)@ }),
    {
        self.name = String::from_str(name);
    }

    pub fn name(self, name: &str) -> (i: Self)
        ensures
            i@ == (NonOccurrenceIndicatorView { name: name@, ..self@ }),
    {
        let mut i = self;
        i.set_name(name);
        i
    }

    pub fn set_title(&mut self, title: &str)
        ensures
            final(self)@ == (NonOccurrenceIndicatorView { title: Some(title@), ..old(self)@ }),
    {
        self.title = Some(String::from_str(title));
    }

    pub fn title(self, title: &str) -> (i: Self)
        ensures
            i@ == (NonOccurrenceIndicatorView { title: Some(title@), ..self@ }),
    {
        let mut i = self;
        i.set_title(title);
        i
    }

    pub fn set_description(&mut self, description: &str)
        ensures
            final(self)@ == (NonOccurrenceIndicatorView {
                description: Some(description@),
                ..old(self)@
            }),
    {
        self.description = Some(String::from_str(description));
    }

    pub fn description(self, description: &str) -> (i: Self)
        ensures
            i@ == (NonOccurrenceIndicatorView { description: Some(description@), ..self@ }),
    {
        let mut i = self;
        i.set_description(description);
        i
    }

    /// Set whether the current value should be inverted in a snapshot or not
    ///
    /// Default is `false`
    pub fn set_invert_enabled(&mut self, invert: bool)
        ensures
            final(self)@ == (NonOccurrenceIndicatorView { invert, ..old(self)@ }),
    {
        self.invert = invert;
    }

    /// Set whether the current value should be inverted in a snapshot or not
    pub fn invert_enabled(self, invert: bool) -> (i: Self)
        ensures
            i@ == (NonOccurrenceIndicatorView { invert, ..self@ }),
    {
        let mut i = self;
        i.set_invert_enabled(invert);
        i
    }

    /// The current value should be inverted in a snapshot
    pub fn inverted(self) -> (i: Self)
        ensures
            i@ == (NonOccurrenceIndicatorView { invert: true, ..self@ }),
    {
        let mut i = self;
        i.set_invert_enabled(true);
        i
    }

    /// return whether invert is on or off
    pub fn is_inverted(&self) -> (r: bool)
        ensures
            r == self@.invert,
    {
        self.invert
    }

    pub fn set_if_not_happened_within(&mut self, d: Duration)
        ensures
            final(self)@ == (NonOccurrenceIndicatorView { if_not_happened_within: d, ..old(self)@ }),
    {
        self.if_not_happened_within = d;
    }

    pub fn if_not_happened_within(self, d: Duration) -> (i: Self)
        ensures
            i@ == (NonOccurrenceIndicatorView { if_not_happened_within: d, ..self@ }),
    {
        let mut i = self;
        i.set_if_not_happened_within(d);
        i
    }

    pub fn get_if_not_happened_within(&self) -> (d: Duration)
        ensures
            d == self@.if_not_happened_within,
    {
        self.if_not_happened_within
    }

    /// Show the inverted value. Name will be adjusted with `name_alternation`.
    pub fn set_show_inverted(&mut self, name_alternation: NameAlternation)
        ensures
            final(self)@ == (NonOccurrenceIndicatorView {
                show_inverted: Some(name_alternation),
                ..old(self)@
            }),
    {
        self.show_inverted = Some(name_alternation);
    }

    /// Show the inverted value. Name will be adjusted with `name_alternation`.
    pub fn show_inverted(self, name_alternation: NameAlternation) -> (i: Self)
        ensures
            i@ == (NonOccurrenceIndicatorView { show_inverted: Some(name_alternation), ..self@ }),
    {
        let mut i = self;
        i.set_show_inverted(name_alternation);
        i
    }

    /// Show the inverted value. Name will be prefixed with `prefix`.
    pub fn set_show_inverted_prefixed(&mut self, prefix: &str)
        ensures
            final(self)@ == (NonOccurrenceIndicatorView {
                show_inverted: final(self)@.show_inverted,
                ..old(self)@
            }),
            (final(self)@.show_inverted matches Some(NameAlternation::Prefix(s)) && s@ == prefix@),
    {
        self.set_show_inverted(NameAlternation::Prefix(String::from_str(prefix)))
    }

    /// Show the inverted value. Name will be prefixed with `prefix`.
    pub fn show_inverted_prefixed(self, prefix: &str) -> (i: Self)
        ensures
            i@ == (NonOccurrenceIndicatorView { show_inverted: i@.show_inverted, ..self@ }),
            (i@.show_inverted matches Some(NameAlternation::Prefix(s)) && s@ == prefix@),
    {
        let mut i = self;
        i.set_show_inverted_prefixed(prefix);
        i
    }

    /// Show the inverted value. Name will be postfixed with `postfix`.
    pub fn set_show_inverted_postfixed(&mut self, postfix: &str)
        ensures
            final(self)@ == (NonOccurrenceIndicatorView {
                show_inverted: final(self)@.show_inverted,
                ..old(self)@
            }),
            (final(self)@.show_inverted matches Some(NameAlternation::Postfix(s)) && s@ == postfix@),
    {
        self.set_show_inverted(NameAlternation::Postfix(String::from_str(postfix)))
    }

    /// Show the inverted value. Name will be postfixed with `postfix`.
    pub fn show_inverted_postfixed(self, postfix: &str) -> (i: Self)
        ensures
            i@ == (NonOccurrenceIndicatorView { show_inverted: i@.show_inverted, ..self@ }),
            (i@.show_inverted matches Some(NameAlternation::Postfix(s)) && s@ == postfix@),
    {
        let mut i = self;
        i.set_show_inverted_postfixed(postfix);
        i
    }

    /// Show the inverted value. Name will be replaced by `new_name`.
    pub fn set_show_inverted_renamed(&mut self, new_name: &str)
        ensures
            final(self)@ == (NonOccurrenceIndicatorView {
                show_inverted: final(self)@.show_inverted,
                ..old(self)@
            }),
            (final(self)@.show_inverted matches Some(NameAlternation::Rename(s)) && s@ == new_name@),
    {
        self.set_show_inverted(NameAlternation::Rename(String::from_str(new_name)))
    }

    /// Show the inverted value. Name will be replaced by `new_name`.
    pub fn show_inverted_renamed(self, new_name: &str) -> (i: Self)
        ensures
            i@ == (NonOccurrenceIndicatorView { show_inverted: i@.show_inverted, ..self@ }),
            (i@.show_inverted matches Some(NameAlternation::Rename(s)) && s@ == new_name@),
    {
        let mut i = self;
        i.set_show_inverted_renamed(new_name);
        i
    }

    /// The state at time `now`.
    pub fn state_at(&self, now: Instant) -> (s: bool)
        ensures
            s == non_occurrence_state(self@, now),
    {
        let must_have_happened_after = now.saturating_sub(self.if_not_happened_within);
        let current_state = self.happened_last.nanos <= must_have_happened_after.nanos;
        if self.invert {
            !current_state
        } else {
            current_state
        }
    }

    /// Returns the current state
    pub fn state(&self) -> (s: bool)
        ensures
            exists|t: Instant| s == #[trigger] non_occurrence_state(self@, t),
    {
        self.state_at(now())
    }

    /// Writes the state at time `now` into `into`.
    pub fn put_snapshot_at(&self, into: &mut Snapshot, descriptive: bool, now: Instant)
        ensures
            final(into)@ == instrument_descriptives(
                old(into)@,
                self@.name,
                self@.title,
                self@.description,
                descriptive,
            ) + non_occurrence_entries(self@, now),
    {
        util::put_postfixed_descriptives(self, self.name.as_str(), into, descriptive);
        let ghost mid = into@;
        let state = self.state_at(now);
        into.push(self.name.clone(), ItemKind::Boolean(state));
        if let Some(alternation) = &self.show_inverted {
            let label = alternation.adjust_name(self.name.as_str());
            into.push(label, ItemKind::Boolean(!state));
        }
        assert(into@ =~= mid + non_occurrence_entries(self@, now));
    }

    /// Records an occurrence at `now`.
    pub fn update_at(&mut self, now: Instant)
        ensures
            final(self)@ == (NonOccurrenceIndicatorView { happened_last: now, ..old(self)@ }),
    {
        self.happened_last = now;
    }
}

impl Instrument for NonOccurrenceIndicator {}

impl PutsSnapshot for NonOccurrenceIndicator {
    fn put_snapshot(&mut self, into: &mut Snapshot, descriptive: bool)
        ensures
            final(self)@ == old(self)@,
            exists|t: Instant|
                final(into)@ == instrument_descriptives(
                    old(into)@,
                    old(self)@.name,
                    old(self)@.title,
                    old(self)@.description,
                    descriptive,
                ) + #[trigger] non_occurrence_entries(old(self)@, t),
    {
        self.put_snapshot_at(into, descriptive, now())
    }
}

impl Updates for NonOccurrenceIndicator {
    /// Any update is an occurrence, at the time the update is handled.
    fn update(&mut self, _with: &Update) -> (n: usize)
        ensures
            n == 1,
            final(self)@ == (NonOccurrenceIndicatorView {
                happened_last: final(self)@.happened_last,
                ..old(self)@
            }),
    {
        self.update_at(now());
        1
    }
}

impl Descriptive for NonOccurrenceIndicator {
    open spec fn title_spec(&self) -> Option<Seq<char>> {
        self@.title
    }

    open spec fn description_spec(&self) -> Option<Seq<char>> {
        self@.description
    }

    fn title(&self) -> (r: Option<&str>) {
        opt_as_str(&self.title)
    }

    fn description(&self) -> (r: Option<&str>) {
        opt_as_str(&self.description)
    }
}

impl NonOccurrenceIndicator {
    /// Creates an `InstrumentAdapter` that makes this instrument
    /// react on observations on the given label.
    pub fn for_label<T: PartialEq + Send + 'static>(self, label: T) -> (a: InstrumentAdapter<T, Self>)
        ensures
            a.filter().labels() == seq![label],
            !a.filter().accepts_all(),
            !a.filter().has_predicate(),
            a.instrument_spec() == self,
            a.keeps_updates(),
            a.fresh(),
    {
        InstrumentAdapter::for_label(label, self)
    }

    /// Creates an `InstrumentAdapter` that makes this instrument
    /// react on observations with the given labels.
    ///
    /// If `labels` is empty the instrument will not react to any observations
    pub fn for_labels<T: PartialEq + Send + 'static>(self, labels: Vec<T>) -> (a: InstrumentAdapter<T, Self>)
        ensures
            a.filter().labels() == labels@,
            !a.filter().accepts_all(),
            !a.filter().has_predicate(),
            a.instrument_spec() == self,
            a.keeps_updates(),
            a.fresh(),
    {
        InstrumentAdapter::for_labels(labels, self)
    }

    /// Creates an `InstrumentAdapter` that makes this instrument react on
    /// all observations.
    pub fn for_all_labels<T: PartialEq + Send + 'static>(self) -> (a: InstrumentAdapter<T, Self>)
        ensures
            a.filter().accepts_all(),
            a.instrument_spec() == self,
            a.keeps_updates(),
            a.fresh(),
    {
        InstrumentAdapter::new(self)
    }

    /// Creates an `InstrumentAdapter` that makes this instrument react on no
    /// observations.
    pub fn adapter<T: PartialEq + Send + 'static>(self) -> (a: InstrumentAdapter<T, Self>)
        ensures
            a.filter().labels() == Seq::<T>::empty(),
            !a.filter().accepts_all(),
            !a.filter().has_predicate(),
            a.instrument_spec() == self,
            a.keeps_updates(),
            a.fresh(),
    {
        InstrumentAdapter::deaf(self)
    }
}


/// An indicator that is not inverted, once it turned on because nothing
/// occurred within its time span, stays on at every later time until
/// something occurs again.
pub proof fn law_non_occurrence_state_stays_on(v: NonOccurrenceIndicatorView, t1: Instant, t2: Instant)
    requires
        !v.invert,
        t1.nanos <= t2.nanos,
        non_occurrence_state(v, t1),
    ensures
        non_occurrence_state(v, t2),
{
}

/// Right after an occurrence the state of an indicator that is not inverted
/// is off, as long as its time span is not zero.
pub proof fn law_non_occurrence_state_after_occurrence(v: NonOccurrenceIndicatorView, now: Instant)
    requires
        !v.invert,
        v.happened_last == now,
        v.if_not_happened_within.nanos > 0,
        now.nanos > 0,
    ensures
        !non_occurrence_state(v, now),
{
}

} // verus!
