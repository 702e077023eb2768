use vstd::prelude::*;

use super::{alternated_name, NameAlternation};
use crate::instruments::{Instrument, Update, Updates};
use crate::snapshot::{ItemKind, ItemValue, Snapshot};
use crate::time::{now, saturating_add_spec, Duration, Instant};
use crate::util::{self, instrument_descriptives};
use crate::{opt_as_str, opt_string_view, Descriptive, PutsSnapshot};

verus! {

/// What a `StaircaseTimer` holds.
pub struct StaircaseTimerView {
    pub name: Seq<char>,
    pub title: Option<Seq<char>>,
    pub description: Option<Seq<char>>,
    pub switch_off_after: Duration,
    pub invert: bool,
    pub stay_on_until: Option<Instant>,
    pub show_inverted: Option<NameAlternation>,
}

/// The state of the timer `v` at time `now`: on while `now` has not passed
/// the time it stays on until, inverted if `invert` is set.
pub open spec fn staircase_state(v: StaircaseTimerView, now: Instant) -> bool {
    let value = match v.stay_on_until {
        Some(t) => t.nanos >= now.nanos,
        None => false,
    };
    if v.invert {
        !value
    } else {
        value
    }
}

/// The entries that the timer `v` writes at time `now`.
pub open spec fn staircase_entries(v: StaircaseTimerView, now: Instant) -> Seq<(Seq<char>, ItemValue)> {
    let s = staircase_state(v, now);
    match v.show_inverted {
        None => seq![(v.name, ItemValue::Boolean(s))],
        Some(a) => seq![
            (v.name, ItemValue::Boolean(s)),
            (alternated_name(a, v.name), ItemValue::Boolean(!s)),
        ],
    }
}

/// A `StaircaseTimer` is 'tapped' by an `Observation` and then stays on for
/// some time.
///
/// It works like a switch in a staircase: you press the switch and the
/// light stays on for some time. Here an `Observation` pushes the switch
/// and the light is a boolean that is `true` for some time. Triggered while
/// already on, the time being `true` is prolonged.
///
/// The state written to a `Snapshot` can be inverted.
pub struct StaircaseTimer {
    name: String,
    title: Option<String>,
    description: Option<String>,
    switch_off_after: Duration,
    invert: bool,
    stay_on_until: Option<Instant>,
    show_inverted: Option<NameAlternation>,
}

impl View for StaircaseTimer {
    type V = StaircaseTimerView;

    closed spec fn view(&self) -> StaircaseTimerView {
        StaircaseTimerView {
            name: self.name@,
            title: opt_string_view(self.title),
            description: opt_string_view(self.description),
            switch_off_after: self.switch_off_after,
            invert: self.invert,
            stay_on_until: self.stay_on_until,
            show_inverted: self.show_inverted,
        }
    }
}

impl StaircaseTimer {
    pub fn new_with_defaults(name: &str) -> (t: StaircaseTimer)
        ensures
            t@ == (StaircaseTimerView {
                name: name@,
                title: None,
                description: None,
                switch_off_after: Duration { nanos: 60_000_000_000 },
                invert: false,
                stay_on_until: None,
                show_inverted: None,
            }),
    {
        StaircaseTimer {
            name: String::from_str(name),
            title: None,
            description: None,
            switch_off_after: Duration::from_secs(60),
            invert: false,
            stay_on_until: None,
            show_inverted: None,
        }
    }

    /// Gets the name of this `StaircaseTimer`
    pub fn name(&self) -> (n: &str)
        ensures
            n@ == self@.name,
    {
        self.name.as_str()
    }

    /// Set the name of this `StaircaseTimer`.
    ///
    /// The name is a path segment within a `Snapshot`
    pub fn set_name(&mut self, name: &str)
        ensures
            final(self)@ == (StaircaseTimerView { name: name@, ..old(self)@ }),
    {
        self.name = String::from_str(name);
    }

    /// Sets the `title` of this `StaircaseTimer`.
    pub fn set_title(&mut self, title: &str)
        ensures
            final(self)@ == (StaircaseTimerView { title: Some(title@), ..old(self)@ }),
    {
        self.title = Some(String::from_str(title));
    }

    /// Sets the `description` of this `StaircaseTimer`.
    pub fn set_description(&mut self, description: &str)
        ensures
            final(self)@ == (StaircaseTimerView { description: Some(description@), ..old(self)@ }),
    {
        self.description = Some(String::from_str(description));
    }

    /// Set whether the current value should be inverted in a snapshot or not
    ///
    /// Default is `false`
    pub fn set_invert(&mut self, invert: bool)
        ensures
            final(self)@ == (StaircaseTimerView { invert, ..old(self)@ }),
    {
        self.invert = invert;
    }

    /// The current value should be inverted in a snapshot
    pub fn enable_invert(&mut self)
        ensures
            final(self)@ == (StaircaseTimerView { invert: true, ..old(self)@ }),
    {
        self.invert = true;
    }

    /// return whether invert is on or off
    pub fn invert(&self) -> (r: bool)
        ensures
            r == self@.invert,
    {
        self.invert
    }

    /// Sets the time after which the state switches back to `false`
    ///
    /// Default is 60 seconds
    pub fn set_switch_off_after(&mut self, d: Duration)
        ensures
            final(self)@ == (StaircaseTimerView { switch_off_after: d, ..old(self)@ }),
    {
        self.switch_off_after = d;
    }

    /// Gets the time after which the state switches back to `false`
    pub fn switch_off_after(&self) -> (d: Duration)
        ensures
            d == self@.switch_off_after,
    {
        self.switch_off_after
    }

    /// Show the inverted value. Name will be adjusted with `name_alternation`.
    pub fn show_inverted(&mut self, name_alternation: NameAlternation)
        ensures
            final(self)@ == (StaircaseTimerView { show_inverted: Some(name_alternation), ..old(self)@ }),
    {
        self.show_inverted = Some(name_alternation);
    }

    /// Show the inverted value. Name will be prefixed with `prefix`.
    pub fn show_inverted_prefixed(&mut self, prefix: &str)
        ensures
            final(self)@ == (StaircaseTimerView {
                show_inverted: final(self)@.show_inverted,
                ..old(self)@
            }),
            (final(self)@.show_inverted matches Some(NameAlternation::Prefix(s)) && s@ == prefix@),
    {
        self.show_inverted(NameAlternation::Prefix(String::from_str(prefix)))
    }

    /// Show the inverted value. Name will be postfixed with `postfix`.
    pub fn show_inverted_postfixed(&mut self, postfix: &str)
        ensures
            final(self)@ == (StaircaseTimerView {
                show_inverted: final(self)@.show_inverted,
                ..old(self)@
            }),
            (final(self)@.show_inverted matches Some(NameAlternation::Postfix(s)) && s@ == postfix@),
    {
        self.show_inverted(NameAlternation::Postfix(String::from_str(postfix)))
    }

    /// Show the inverted value. Name will be replaced by `new_name`.
    pub fn show_inverted_renamed(&mut self, new_name: &str)
        ensures
            final(self)@ == (StaircaseTimerView {
                show_inverted: final(self)@.show_inverted,
                ..old(self)@
            }),
            (final(self)@.show_inverted matches Some(NameAlternation::Rename(s)) && s@ == new_name@),
    {
        self.show_inverted(NameAlternation::Rename(String::from_str(new_name)))
    }

    /// The state at time `now`.
    pub fn state_at(&self, now: Instant) -> (s: bool)
        ensures
            s == staircase_state(self@, now),
    {
        let value = match self.stay_on_until {
            Some(stay_on_until) => stay_on_until.nanos >= now.nanos,
            None => false,
        };
        if self.invert {
            !value
        } else {
            value
        }
    }

    /// Returns the current state
    pub fn state(&self) -> (s: bool)
        ensures
            exists|t: Instant| s == #[trigger] staircase_state(self@, t),
    {
        self.state_at(now())
    }

    /// Writes the state at time `now` into `into`.
    pub fn put_snapshot_at(&self, into: &mut Snapshot, descriptive: bool, now: Instant)
        ensures
            final(into)@ == instrument_descriptives(
                old(into)@,
                self@.name,
                self@.title,
                self@.description,
                descriptive,
            ) + staircase_entries(self@, now),
    {
        util::put_postfixed_descriptives(self, self.name.as_str(), into, descriptive);
        let ghost mid = into@;
        let state = self.state_at(now);
        into.push(self.name.clone(), ItemKind::Boolean(state));
        if let Some(alternation) = &self.show_inverted {
            let label = alternation.adjust_name(self.name.as_str());
            into.push(label, ItemKind::Boolean(!state));
        }
        assert(into@ =~= mid + staircase_entries(self@, now));
    }

    /// Taps the switch at `now`: the state stays on for `switch_off_after`.
    pub fn update_at(&mut self, now: Instant)
        ensures
            final(self)@ == (StaircaseTimerView {
                stay_on_until: Some(
                    Instant {
                        nanos: saturating_add_spec(now.nanos, old(self)@.switch_off_after.nanos),
                    },
                ),
                ..old(self)@
            }),
    {
        self.stay_on_until = Some(now.saturating_add(self.switch_off_after));
    }
}

impl Instrument for StaircaseTimer {}

impl PutsSnapshot for StaircaseTimer {
    fn put_snapshot(&mut self, into: &mut Snapshot, descriptive: bool)
        ensures
            final(self)@ == old(self)@,
            exists|t: Instant|
                final(into)@ == instrument_descriptives(
                    old(into)@,
                    old(self)@.name,
                    old(self)@.title,
                    old(self)@.description,
                    descriptive,
                ) + #[trigger] staircase_entries(old(self)@, t),
    {
        self.put_snapshot_at(into, descriptive, now())
    }
}

impl Updates for StaircaseTimer {
    /// Any update taps the switch, at the time the update is handled.
    fn update(&mut self, _with: &Update) -> (n: usize)
        ensures
            n == 1,
            exists|t: Instant|
                final(self)@ == (StaircaseTimerView {
                    stay_on_until: Some(
                        Instant {
                            nanos: #[trigger] saturating_add_spec(
                                t.nanos,
                                old(self)@.switch_off_after.nanos,
                            ),
                        },
                    ),
                    ..old(self)@
                }),
    {
        self.update_at(now());
        1
    }
}

impl Descriptive for StaircaseTimer {
    open spec fn title_spec(&self) -> Option<Seq<char>> {
        self@.title
    }

    open spec fn description_spec(&self) -> Option<Seq<char>> {
        self@.description
    }

    fn title(&self) -> (r: Option<&str>) {
        opt_as_str(&self.title)
    }

    fn description(&self) -> (r: Option<&str>) {
        opt_as_str(&self.description)
    }
}


/// A tapped timer that is not inverted is on until the time it was tapped
/// plus its `switch_off_after`, and off after that.
pub proof fn law_staircase_stays_on_for_its_time(v: StaircaseTimerView, tapped: Instant, now: Instant)
    requires
        !v.invert,
        v.stay_on_until == Some(
            Instant { nanos: saturating_add_spec(tapped.nanos, v.switch_off_after.nanos) },
        ),
        tapped.nanos + v.switch_off_after.nanos <= u64::MAX,
    ensures
        staircase_state(v, now) <==> now.nanos <= tapped.nanos + v.switch_off_after.nanos,
{
}

/// An inverted timer shows the opposite of the same timer not inverted.
pub proof fn law_staircase_inverted_is_opposite(v: StaircaseTimerView, now: Instant)
    ensures
        staircase_state(StaircaseTimerView { invert: true, ..v }, now) == !staircase_state(
            StaircaseTimerView { invert: false, ..v },
            now,
        ),
{
}

} // verus!
