use vstd::prelude::*;

use crate::instruments::{Instrument, Update, Updates};
use crate::snapshot::{ItemKind, ItemValue, Snapshot};
use crate::time::{now, saturating_add_spec, saturating_sub_spec, Duration, Instant};
use crate::util::{self, instrument_descriptives};
use crate::{opt_as_str, opt_string_view, Descriptive, PutsSnapshot};

verus! {

/// What an `OccuranceIndicator` holds.
pub struct OccuranceIndicatorView {
    pub name: Seq<char>,
    pub title: Option<Seq<char>>,
    pub description: Option<Seq<char>>,
    pub if_happened_within: Duration,
    pub happened_last: Instant,
    pub invert: bool,
}

/// The state of the indicator `v` at time `now`: whether the last
/// occurrence plus `if_happened_within` reaches `now`, inverted if
/// `invert` is set.
pub open spec fn occurrence_state(v: OccuranceIndicatorView, now: Instant) -> bool {
    let current = saturating_add_spec(v.happened_last.nanos, v.if_happened_within.nanos)
        >= now.nanos;
    if v.invert {
        !current
    } else {
        current
    }
}

/// Changes the state based on the occurrence of an observation within a
/// given time.
///
/// Can be used for alerting, e.g. if something bad was observed within a
/// time frame.
pub struct OccuranceIndicator {
    name: String,
    title: Option<String>,
    description: Option<String>,
    if_happened_within: Duration,
    happened_last: Instant,
    invert: bool,
}

impl View for OccuranceIndicator {
    type V = OccuranceIndicatorView;

    closed spec fn view(&self) -> OccuranceIndicatorView {
        OccuranceIndicatorView {
            name: self.name@,
            title: opt_string_view(self.title),
            description: opt_string_view(self.description),
            if_happened_within: self.if_happened_within,
            happened_last: self.happened_last,
            invert: self.invert,
        }
    }
}

impl OccuranceIndicator {
    /// A new indicator, with the clock reading `now`: the time span is 60
    /// seconds and the last occurrence lies that long ago.
    pub fn new_at(name: &str, now: Instant) -> (i: Self)
        ensures
            i@ == (OccuranceIndicatorView {
                name: name@,
                title: None,
                description: None,
                if_happened_within: Duration { nanos: 60_000_000_000 },
                happened_last: Instant { nanos: saturating_sub_spec(now.nanos, 60_000_000_000) },
                invert: false,
            }),
    {
        let within = Duration::from_secs(60);
        Self {
            name: String::from_str(name),
            title: None,
            description: None,
            if_happened_within: within,
            happened_last: now.saturating_sub(within),
            invert: false,
        }
    }

    /// A new indicator: the time span is 60 seconds and the last occurrence
    /// lies that long ago.
    pub fn new_with_defaults(name: &str) -> (i: Self)
        ensures
            exists|t: Instant|
                i@ == (OccuranceIndicatorView {
                    name: name@,
                    title: None,
                    description: None,
                    if_happened_within: Duration { nanos: 60_000_000_000 },
                    happened_last: Instant {
                        nanos: #[trigger] saturating_sub_spec(t.nanos, 60_000_000_000),
                    },
                    invert: false,
                }),
    {
        Self::new_at(name, now())
    }

    /// Gets the name of this `OccuranceIndicator`
    pub fn name(&self) -> (n: &str)
        ensures
            n@ == self@.name,
    {
        self.name.as_str()
    }

    /// Set the name of this `OccuranceIndicator`.
    ///
    /// The name is a path segment within a `Snapshot`
    pub fn set_name(&mut self, name: &str)
        ensures
            final(self)@ == (OccuranceIndicatorView { name: name@, ..old(self)@ }),
    {
        self.name = String::from_str(name);
    }

    /// Sets the `title` of this `OccuranceIndicator`.
    pub fn set_title(&mut self, title: &str)
        ensures
            final(self)@ == (OccuranceIndicatorView { title: Some(title@), ..old(self)@ }),
    {
        self.title = Some(String::from_str(title));
    }

    /// Sets the `description` of this `OccuranceIndicator`.
    pub fn set_description(&mut self, description: &str)
        ensures
            final(self)@ == (OccuranceIndicatorView { description: Some(description@), ..old(self)@ }),
    {
        self.description = Some(String::from_str(description));
    }

    /// Set whether the current value should be inverted in a snapshot or not
    ///
    /// Default is `false`
    pub fn set_invert(&mut self, invert: bool)
        ensures
            final(self)@ == (OccuranceIndicatorView { invert, ..old(self)@ }),
    {
        self.invert = invert;
    }

    /// The current value should be inverted in a snapshot
    pub fn enable_invert(&mut self)
        ensures
            final(self)@ == (OccuranceIndicatorView { invert: true, ..old(self)@ }),
    {
        self.invert = true;
    }

    /// return whether invert is on or off
    pub fn invert(&self) -> (r: bool)
        ensures
            r == self@.invert,
    {
        self.invert
    }

    /// Sets the time span, with the clock reading `now`; the last occurrence
    /// is put that long before `now`.
    pub fn set_if_happened_within_at(&mut self, d: Duration, now: Instant)
        ensures
            final(self)@ == (OccuranceIndicatorView {
                if_happened_within: d,
                happened_last: Instant { nanos: saturating_sub_spec(now.nanos, d.nanos) },
                ..old(self)@
            }),
    {
        self.if_happened_within = d;
        self.happened_last = now.saturating_sub(d);
    }

    /// Sets the time span; the last occurrence is put that long ago.
    pub fn set_if_happened_within(&mut self, d: Duration)
        ensures
            exists|t: Instant|
                final(self)@ == (OccuranceIndicatorView {
                    if_happened_within: d,
                    happened_last: Instant {
                        nanos: #[trigger] saturating_sub_spec(t.nanos, d.nanos),
                    },
                    ..old(self)@
                }),
    {
        self.set_if_happened_within_at(d, now())
    }

    pub fn if_happened_within(&self) -> (d: Duration)
        ensures
            d == self@.if_happened_within,
    {
        self.if_happened_within
    }

    /// The state at time `now`.
    pub fn state_at(&self, now: Instant) -> (s: bool)
        ensures
            s == occurrence_state(self@, now),
    {
        let current_state = self.happened_last.saturating_add(self.if_happened_within).nanos
            >= now.nanos;
        if self.invert {
            !current_state
        } else {
            current_state
        }
    }

    /// Returns the current state
    pub fn state(&self) -> (s: bool)
        ensures
            exists|t: Instant| s == #[trigger] occurrence_state(self@, t),
    {
        self.state_at(now())
    }

    /// Writes the state at time `now` into `into`.
    pub fn put_snapshot_at(&self, into: &mut Snapshot, descriptive: bool, now: Instant)
        ensures
            final(into)@ == instrument_descriptives(
                old(into)@,
                self@.name,
                self@.title,
                self@.description,
                descriptive,
            ).push((self@.name, ItemValue::Boolean(occurrence_state(self@, now)))),
    {
        util::put_postfixed_descriptives(self, self.name.as_str(), into, descriptive);
        into.push(self.name.clone(), ItemKind::Boolean(self.state_at(now)));
    }

    /// Records an occurrence at `now`.
    pub fn update_at(&mut self, now: Instant)
        ensures
            final(self)@ == (OccuranceIndicatorView { happened_last: now, ..old(self)@ }),
    {
        self.happened_last = now;
    }
}

impl Instrument for OccuranceIndicator {}

impl PutsSnapshot for OccuranceIndicator {
    fn put_snapshot(&mut self, into: &mut Snapshot, descriptive: bool)
        ensures
            final(self)@ == old(self)@,
            exists|t: Instant|
                final(into)@ == instrument_descriptives(
                    old(into)@,
                    old(self)@.name,
                    old(self)@.title,
                    old(self)@.description,
                    descriptive,
                ).push((old(self)@.name, ItemValue::Boolean(#[trigger] occurrence_state(old(self)@, t)))),
    {
        self.put_snapshot_at(into, descriptive, now())
    }
}

impl Updates for OccuranceIndicator {
    /// Any update is an occurrence, at the time the update is handled.
    fn update(&mut self, _with: &Update) -> (n: usize)
        ensures
            n == 1,
            final(self)@ == (OccuranceIndicatorView {
                happened_last: final(self)@.happened_last,
                ..old(self)@
            }),
    {
        self.update_at(now());
        1
    }
}

impl Descriptive for OccuranceIndicator {
    open spec fn title_spec(&self) -> Option<Seq<char>> {
        self@.title
    }

    open spec fn description_spec(&self) -> Option<Seq<char>> {
        self@.description
    }

    fn title(&self) -> (r: Option<&str>) {
        opt_as_str(&self.title)
    }

    fn description(&self) -> (r: Option<&str>) {
        opt_as_str(&self.description)
    }
}


/// An indicator that is not inverted and is off at some time stays off at
/// every later time, until something occurs again.
pub proof fn law_occurrence_fades(v: OccuranceIndicatorView, t1: Instant, t2: Instant)
    requires
        !v.invert,
        t1.nanos <= t2.nanos,
        !occurrence_state(v, t1),
    ensures
        !occurrence_state(v, t2),
{
}

} // verus!
