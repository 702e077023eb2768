use vstd::prelude::*;

use crate::instruments::{Instrument, Update, Updates};
use crate::snapshot::{ItemKind, ItemValue, Snapshot};
use crate::time::{now, saturating_sub_spec, Duration, Instant};
use crate::util::{self, instrument_descriptives};
use crate::{opt_as_str, opt_string_view, Descriptive, ObservedValue, PutsSnapshot, DECR, INCR};

verus! {

/// The value of an `IncDecGauge` with its extrema.
#[derive(Debug, Clone, Copy)]
pub struct IncDecState {
    pub current: i64,
    pub peak: i64,
    pub bottom: i64,
    pub last_peak_at: Instant,
    pub last_bottom_at: Instant,
}

/// What an `IncDecGauge` holds.
pub struct IncDecGaugeView {
    pub name: Seq<char>,
    pub title: Option<Seq<char>>,
    pub description: Option<Seq<char>>,
    pub value: IncDecState,
    pub memorize_extrema: Option<Duration>,
}

/// The state `s` after its value moved to `v` at time `now`.
///
/// Where extrema are memorized for `ext`, a value that reaches the peak (or
/// the bottom) becomes it and restarts its time; a peak (or bottom) older
/// than `ext` is replaced by the value.
pub open spec fn inc_dec_modified(s: IncDecState, v: i64, ext: Option<Duration>, now: Instant) -> IncDecState {
    match ext {
        None => IncDecState { current: v, ..s },
        Some(d) => {
            let limit = saturating_sub_spec(now.nanos, d.nanos);
            let (peak, last_peak_at) = if v >= s.peak {
                (v, now)
            } else if s.last_peak_at.nanos < limit {
                (v, s.last_peak_at)
            } else {
                (s.peak, s.last_peak_at)
            };
            let (bottom, last_bottom_at) = if v <= s.bottom {
                (v, now)
            } else if s.last_bottom_at.nanos < limit {
                (v, s.last_bottom_at)
            } else {
                (s.bottom, s.last_bottom_at)
            };
            IncDecState { current: v, peak, bottom, last_peak_at, last_bottom_at }
        },
    }
}

/// The entries that the gauge `g` writes at time `now`: its value and,
/// where extrema are memorized, the peak and the bottom while they are
/// recent and the value otherwise.
pub open spec fn inc_dec_entries(g: IncDecGaugeView, now: Instant) -> Seq<(Seq<char>, ItemValue)> {
    let s = g.value;
    match g.memorize_extrema {
        None => seq![(g.name, ItemValue::Int(s.current))],
        Some(d) => {
            let limit = saturating_sub_spec(now.nanos, d.nanos);
            seq![
                (g.name, ItemValue::Int(s.current)),
                (g.name + "_peak"@, ItemValue::Int(
                    if s.last_peak_at.nanos > limit {
                        s.peak
                    } else {
                        s.current
                    },
                )),
                (g.name + "_bottom"@, ItemValue::Int(
                    if s.last_bottom_at.nanos > limit {
                        s.bottom
                    } else {
                        s.current
                    },
                )),
            ]
        },
    }
}

/// A gauge that is only incremented or decremented.
///
/// An observed value of `INCR` increments it and one of `DECR` decrements
/// it.
pub struct IncDecGauge {
    name: String,
    title: Option<String>,
    description: Option<String>,
    value: IncDecState,
    memorize_extrema: Option<Duration>,
}

impl View for IncDecGauge {
    type V = IncDecGaugeView;

    closed spec fn view(&self) -> IncDecGaugeView {
        IncDecGaugeView {
            name: self.name@,
            title: opt_string_view(self.title),
            description: opt_string_view(self.description),
            value: self.value,
            memorize_extrema: self.memorize_extrema,
        }
    }
}

impl IncDecGauge {
    /// A new gauge at 0, created at `now`.
    pub fn new_at(name: &str, now: Instant) -> (g: IncDecGauge)
        ensures
            g@ == (IncDecGaugeView {
                name: name@,
                title: None,
                description: None,
                value: IncDecState {
                    current: 0,
                    peak: 0,
                    bottom: 0,
                    last_peak_at: now,
                    last_bottom_at: now,
                },
                memorize_extrema: None,
            }),
    {
        Self {
            name: String::from_str(name),
            title: None,
            description: None,
            value: IncDecState {
                current: 0,
                peak: 0,
                bottom: 0,
                last_peak_at: now,
                last_bottom_at: now,
            },
            memorize_extrema: None,
        }
    }

    /// A new gauge at 0.
    pub fn new_with_defaults(name: &str) -> (g: IncDecGauge)
        ensures
            g@ == (IncDecGaugeView {
                name: name@,
                title: None,
                description: None,
                value: IncDecState { current: 0, peak: 0, bottom: 0, ..g@.value },
                memorize_extrema: None,
            }),
    {
        Self::new_at(name, now())
    }

    /// Moves the value by one up (`incr`) or down, at time `now`.
    fn modify_at(&mut self, incr: bool, now: Instant)
        requires
            incr ==> old(self)@.value.current < i64::MAX,
            !incr ==> old(self)@.value.current > i64::MIN,
        ensures
            final(self)@ == (IncDecGaugeView {
                value: inc_dec_modified(
                    old(self)@.value,
                    (if incr {
                        old(self)@.value.current + 1
                    } else {
                        old(self)@.value.current - 1
                    }) as i64,
                    old(self)@.memorize_extrema,
                    now,
                ),
                ..old(self)@
            }),
    {
        let state = &mut self.value;
        let v = if incr {
            state.current + 1
        } else {
            state.current - 1
        };
        if let Some(ext_dur) = self.memorize_extrema {
            let limit = now.saturating_sub(ext_dur);
            if v >= state.peak {
                state.last_peak_at = now;
                state.peak = v;
            } else if state.last_peak_at.nanos < limit.nanos {
                state.peak = v;
            }
            if v <= state.bottom {
                state.last_bottom_at = now;
                state.bottom = v;
            } else if state.last_bottom_at.nanos < limit.nanos {
                state.bottom = v;
            }
        }
        state.current = v;
    }

    pub fn get(&self) -> (v: i64)
        ensures
            v == self@.value.current,
    {
        self.value.current
    }

    /// Shows the peak and the bottom values for `d` unless there is a new
    /// peak or bottom, which restarts that time. The fields are named
    /// `[gauge_name]_peak` and `[gauge_name]_bottom`.
    pub fn set_memorize_extrema(&mut self, d: Duration)
        ensures
            final(self)@ == (IncDecGaugeView { memorize_extrema: Some(d), ..old(self)@ }),
    {
        self.memorize_extrema = Some(d);
    }

    /// Gets the name of this gauge
    pub fn name(&self) -> (n: &str)
        ensures
            n@ == self@.name,
    {
        self.name.as_str()
    }

    /// Set the name of this gauge.
    ///
    /// The name is a path segment within a `Snapshot`
    pub fn set_name(&mut self, name: &str)
        ensures
            final(self)@ == (IncDecGaugeView { name: name@, ..old(self)@ }),
    {
        self.name = String::from_str(name);
    }

    /// Sets the `title` of this gauge.
    pub fn set_title(&mut self, title: &str)
        ensures
            final(self)@ == (IncDecGaugeView { title: Some(title@), ..old(self)@ }),
    {
        self.title = Some(String::from_str(title));
    }

    /// Sets the `description` of this gauge.
    pub fn set_description(&mut self, description: &str)
        ensures
            final(self)@ == (IncDecGaugeView { description: Some(description@), ..old(self)@ }),
    {
        self.description = Some(String::from_str(description));
    }

    /// Writes the gauge at time `now` into `into`.
    pub fn put_snapshot_at(&self, into: &mut Snapshot, descriptive: bool, now: Instant)
        ensures
            final(into)@ == instrument_descriptives(
                old(into)@,
                self@.name,
                self@.title,
                self@.description,
                descriptive,
            ) + inc_dec_entries(self@, now),
    {
        util::put_postfixed_descriptives(self, self.name.as_str(), into, descriptive);
        let ghost mid = into@;
        let state = &self.value;
        into.push(self.name.clone(), ItemKind::Int(state.current));
        if let Some(ext_dur) = self.memorize_extrema {
            let limit = now.saturating_sub(ext_dur);
            let peak_name = self.name.clone().concat("_peak");
            if state.last_peak_at.nanos > limit.nanos {
                into.push(peak_name, ItemKind::Int(state.peak));
            } else {
                into.push(peak_name, ItemKind::Int(state.current));
            }
            let bottom_name = self.name.clone().concat("_bottom");
            if state.last_bottom_at.nanos > limit.nanos {
                into.push(bottom_name, ItemKind::Int(state.bottom));
            } else {
                into.push(bottom_name, ItemKind::Int(state.current));
            }
        }
        assert(into@ =~= mid + inc_dec_entries(self@, now));
    }

    /// Handles `with` at time `now`. See `update`.
    pub fn update_at(&mut self, with: &Update, now: Instant) -> (n: usize)
        ensures
            n == if with is ObservationWithValue {
                1usize
            } else {
                0usize
            },
            final(self)@ == match *with {
                Update::ObservationWithValue(ObservedValue::UnsignedInteger(x), _) => {
                    let c = old(self)@.value.current;
                    if x == INCR && c < i64::MAX {
                        IncDecGaugeView {
                            value: inc_dec_modified(old(self)@.value, (c + 1) as i64, old(self)@.memorize_extrema, now),
                            ..old(self)@
                        }
                    } else if x == DECR && c > i64::MIN {
                        IncDecGaugeView {
                            value: inc_dec_modified(old(self)@.value, (c - 1) as i64, old(self)@.memorize_extrema, now),
                            ..old(self)@
                        }
                    } else {
                        old(self)@
                    }
                },
                _ => old(self)@,
            },
    {
        match *with {
            Update::ObservationWithValue(v, _) => {
                match v {
                    ObservedValue::UnsignedInteger(x) => {
                        if x == INCR && self.value.current < i64::MAX {
                            self.modify_at(true, now);
                        } else if x == DECR && self.value.current > i64::MIN {
                            self.modify_at(false, now);
                        }
                    },
                    _ => {},
                }
                1
            },
            _ => 0,
        }
    }
}

impl Instrument for IncDecGauge {}

impl PutsSnapshot for IncDecGauge {
    fn put_snapshot(&mut self, into: &mut Snapshot, descriptive: bool)
        ensures
            final(self)@ == old(self)@,
            exists|t: Instant|
                final(into)@ == instrument_descriptives(
                    old(into)@,
                    old(self)@.name,
                    old(self)@.title,
                    old(self)@.description,
                    descriptive,
                ) + #[trigger] inc_dec_entries(old(self)@, t),
    {
        self.put_snapshot_at(into, descriptive, now())
    }
}

impl Updates for IncDecGauge {
    /// An observed value of `INCR` increments the gauge, one of `DECR`
    /// decrements it; a step beyond the range of `i64` is left out.
    fn update(&mut self, with: &Update) -> (n: usize)
        ensures
            n == if with is ObservationWithValue {
                1usize
            } else {
                0usize
            },
            final(self)@.name == old(self)@.name,
            final(self)@.memorize_extrema == old(self)@.memorize_extrema,
            with matches Update::ObservationWithValue(ObservedValue::UnsignedInteger(x), _) && x
                == INCR && old(self)@.value.current < i64::MAX ==> final(self)@.value.current
                == old(self)@.value.current + 1,
            with matches Update::ObservationWithValue(ObservedValue::UnsignedInteger(x), _) && x
                == DECR && old(self)@.value.current > i64::MIN ==> final(self)@.value.current
                == old(self)@.value.current - 1,
            !(with matches Update::ObservationWithValue(ObservedValue::UnsignedInteger(x), _) && (x
                == INCR || x == DECR)) ==> final(self)@ == old(self)@,
    {
        self.update_at(with, now())
    }
}

impl Descriptive for IncDecGauge {
    open spec fn title_spec(&self) -> Option<Seq<char>> {
        self@.title
    }

    open spec fn description_spec(&self) -> Option<Seq<char>> {
        self@.description
    }

    fn title(&self) -> (r: Option<&str>) {
        opt_as_str(&self.title)
    }

    fn description(&self) -> (r: Option<&str>) {
        opt_as_str(&self.description)
    }
}


/// What a gauge that memorizes extrema for `d` writes at time `now`: its
/// value first; then under "_peak" its peak while the peak is younger than
/// `d` and the value once the peak is `d` old or older; the same for the
/// bottom under "_bottom".
pub proof fn law_extrema_are_shown_only_while_recent(g: IncDecGaugeView, d: Duration, now: Instant)
    requires
        g.memorize_extrema == Some(d),
    ensures
        ({
            let e = inc_dec_entries(g, now);
            let s = g.value;
            &&& e.len() == 3
            &&& e[0] == (g.name, ItemValue::Int(s.current))
            &&& e[1].0 == g.name + "_peak"@
            &&& e[2].0 == g.name + "_bottom"@
            &&& s.last_peak_at.nanos + d.nanos <= now.nanos ==> e[1].1 == ItemValue::Int(s.current)
            &&& d.nanos <= now.nanos < s.last_peak_at.nanos + d.nanos ==> e[1].1 == ItemValue::Int(
                s.peak,
            )
            &&& s.last_bottom_at.nanos + d.nanos <= now.nanos ==> e[2].1 == ItemValue::Int(
                s.current,
            )
            &&& d.nanos <= now.nanos < s.last_bottom_at.nanos + d.nanos ==> e[2].1 == ItemValue::Int(
                s.bottom,
            )
        }),
{
}

/// Without memorized extrema a gauge writes only its value.
pub proof fn law_without_extrema_only_the_value_is_shown(g: IncDecGaugeView, now: Instant)
    requires
        g.memorize_extrema is None,
    ensures
        inc_dec_entries(g, now) == seq![(g.name, ItemValue::Int(g.value.current))],
{
}


/// Where extrema are memorized, the peak is never below the value and the
/// bottom never above it.
pub proof fn law_extrema_enclose_the_value(s: IncDecState, v: i64, d: Duration, now: Instant)
    ensures
        inc_dec_modified(s, v, Some(d), now).current == v,
        inc_dec_modified(s, v, Some(d), now).peak >= v,
        inc_dec_modified(s, v, Some(d), now).bottom <= v,
{
}

/// How an update changes an `IncDecGauge`: `1` for `INCR`, `-1` for
/// `DECR`, nothing for any other update.
pub open spec fn inc_dec_change(u: Update) -> int {
    match u {
        Update::ObservationWithValue(ObservedValue::UnsignedInteger(x), _) => if x == INCR {
            1
        } else if x == DECR {
            -1
        } else {
            0
        },
        _ => 0,
    }
}

/// The sum of the changes of the updates `us`.
pub open spec fn inc_dec_total(us: Seq<Update>) -> int
    decreases us.len(),
{
    if us.len() == 0 {
        0
    } else {
        inc_dec_total(us.drop_last()) + inc_dec_change(us.last())
    }
}

/// One update `u` takes the gauge's value from `c` to `next`, as `update`
/// states it.
pub open spec fn inc_dec_step(c: i64, next: i64, u: Update) -> bool {
    &&& inc_dec_change(u) == 1 && c < i64::MAX ==> next == c + 1
    &&& inc_dec_change(u) == -1 && c > i64::MIN ==> next == c - 1
    &&& inc_dec_change(u) == 0 ==> next == c
}

/// After the updates `us`, with no value leaving `i64` on the way, the
/// gauge's value is its first value plus the number of `INCR`s minus the
/// number of `DECR`s; other updates leave it as it is.
pub proof fn law_inc_dec_counts_add_up(cs: Seq<i64>, us: Seq<Update>)
    requires
        cs.len() == us.len() + 1,
        forall|i: int| 0 <= i < us.len() ==> inc_dec_step(cs[i], #[trigger] cs[i + 1], us[i]),
        forall|i: int|
            0 <= i < us.len() ==> (inc_dec_change(#[trigger] us[i]) == 1 ==> cs[i] < i64::MAX)
                && (inc_dec_change(us[i]) == -1 ==> cs[i] > i64::MIN),
    ensures
        cs.last() == cs[0] + inc_dec_total(us),
    decreases us.len(),
{
    if us.len() > 0 {
        let n = us.len() - 1;
        let cs1 = cs.drop_last();
        let us1 = us.drop_last();
        assert forall|i: int| 0 <= i < us1.len() implies inc_dec_step(cs1[i], #[trigger] cs1[i + 1], us1[i]) by {
            assert(inc_dec_step(cs[i], cs[i + 1], us[i]));
        }
        assert forall|i: int| 0 <= i < us1.len() implies (inc_dec_change(#[trigger] us1[i]) == 1
            ==> cs1[i] < i64::MAX) && (inc_dec_change(us1[i]) == -1 ==> cs1[i] > i64::MIN) by {
            assert(us1[i] == us[i]);
        }
        law_inc_dec_counts_add_up(cs1, us1);
        assert(inc_dec_step(cs[n], cs[n + 1], us[n]));
        assert(us.last() == us[n]);
    }
}

} // verus!
