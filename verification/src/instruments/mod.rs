//! Instruments that track values and/or derive values
//! from observations.
use vstd::prelude::*;

use crate::time::Instant;
use crate::{Observation, ObservedValue, PutsSnapshot, TimeUnit};

mod counter;
pub mod fundamentals;
mod gauge;
mod instrument_adapter;
pub mod jemalloc;
mod label_filter;
pub mod other_instruments;
pub mod polled;
pub mod switches;

pub use self::counter::{counted, Counter, CounterView};
pub use crate::cockpit::Cockpit;
pub use self::fundamentals::buckets::SecondsBuckets;
pub use self::fundamentals::{Clock, WallClock};
pub use self::gauge::{
    can_set_spec, gauge_adapted, gauge_set, gauge_updated, GaugeAdapter, GaugeUpdateStrategy, gauge_snapshot, gauge_snapshot_taken, gauge_value_entries,
    next_value_spec, recorded, records_at, stats_entries,
    stats_match, stats_of, tracking_moved, Bucket, BucketsStats, Gauge, GaugeView, StatsSpec,
};
pub use self::other_instruments::{IncDecGauge, LastOccurrenceTracker};
pub use self::polled::PollingInstrument;
pub use self::switches::{
    Flag, NameAlternation, NonOccurrenceIndicator, OccuranceIndicator, StaircaseTimer,
};
pub use self::instrument_adapter::{modifier_applied, passed_on, InstrumentAdapter, ModifiesUpdate, UpdateModifier};
pub use self::label_filter::{
    listed, may_accept, must_accept, AcceptAllLabels, AcceptNoLabel, AcceptOneLabel, AcceptsLabel, LabelFilter,
    LabelFilterInternal, LabelPredicate, L, LP,
};

verus! {

/// An update instruction for an instrument
#[derive(Debug, Clone, Copy, PartialEq, Eq, Structural)]
pub enum Update {
    /// Many observations without a value observed at a given time
    Observations(u64, Instant),
    /// One observation without a value observed at a given time
    Observation(Instant),
    /// One observation with a value observed at a given time
    ObservationWithValue(ObservedValue, Instant),
}

/// The update that an observation makes.
pub open spec fn update_of<T>(obs: Observation<T>) -> Update {
    match obs {
        Observation::Observed { count, timestamp, .. } => Update::Observations(count, timestamp),
        Observation::ObservedOne { timestamp, .. } => Update::Observation(timestamp),
        Observation::ObservedOneValue { value, timestamp, .. } => Update::ObservationWithValue(
            value,
            timestamp,
        ),
    }
}

/// A label with the associated `Update`
///
/// This is basically a split `Observation`
pub struct LabelAndUpdate<T>(pub T, pub Update);

impl<T> From<Observation<T>> for LabelAndUpdate<T> {
    fn from(obs: Observation<T>) -> (r: LabelAndUpdate<T>)
        ensures
            r.0 == obs.label_spec(),
            r.1 == update_of(obs),
    {
        match obs {
            Observation::Observed { label, count, timestamp } => LabelAndUpdate(
                label,
                Update::Observations(count, timestamp),
            ),
            Observation::ObservedOne { label, timestamp } => LabelAndUpdate(
                label,
                Update::Observation(timestamp),
            ),
            Observation::ObservedOneValue { label, value, timestamp } => LabelAndUpdate(
                label,
                Update::ObservationWithValue(value, timestamp),
            ),
        }
    }
}

impl<T> vstd::std_specs::convert::FromSpecImpl<Observation<T>> for LabelAndUpdate<T> {
    open spec fn obeys_from_spec() -> bool {
        true
    }

    open spec fn from_spec(obs: Observation<T>) -> Self {
        LabelAndUpdate(obs.label_spec(), update_of(obs))
    }
}

/// A borrowed label with the associated `Update`
///
/// This is basically a split `Observation`
pub struct BorrowedLabelAndUpdate<'a, T: 'a>(pub &'a T, pub Update);

impl<'a, T> From<&'a Observation<T>> for BorrowedLabelAndUpdate<'a, T> {
    fn from(obs: &'a Observation<T>) -> (r: BorrowedLabelAndUpdate<'a, T>)
        ensures
            *r.0 == obs.label_spec(),
            r.1 == update_of(*obs),
    {
        match obs {
            Observation::Observed { label, count, timestamp } => BorrowedLabelAndUpdate(
                label,
                Update::Observations(*count, *timestamp),
            ),
            Observation::ObservedOne { label, timestamp } => BorrowedLabelAndUpdate(
                label,
                Update::Observation(*timestamp),
            ),
            Observation::ObservedOneValue { label, value, timestamp } => BorrowedLabelAndUpdate(
                label,
                Update::ObservationWithValue(*value, *timestamp),
            ),
        }
    }
}

impl<'a, T> vstd::std_specs::convert::FromSpecImpl<&'a Observation<T>> for BorrowedLabelAndUpdate<'a, T> {
    open spec fn obeys_from_spec() -> bool {
        true
    }

    open spec fn from_spec(obs: &'a Observation<T>) -> Self {
        BorrowedLabelAndUpdate(&obs.label_spec(), update_of(*obs))
    }
}

/// Implementors of `Updates` can handle `Update`s.
///
/// `Update`s are basically observations without a label.
pub trait Updates {
    /// Update the internal state according to the given `Update`.
    ///
    /// Not all `Update`s modify the internal state: only those that are
    /// meaningful for the implementor.
    ///
    /// Returns the number of instruments updated
    fn update(&mut self, with: &Update) -> usize;
}

/// Requirement for an instrument
pub trait Instrument: Updates + PutsSnapshot {}

/// Nanoseconds in one `unit`.
pub open spec fn unit_nanos(unit: TimeUnit) -> nat {
    match unit {
        TimeUnit::Nanoseconds => 1,
        TimeUnit::Microseconds => 1_000,
        TimeUnit::Milliseconds => 1_000_000,
        TimeUnit::Seconds => 1_000_000_000,
    }
}

/// A time of `time` in `current_unit`, in whole `target_unit`s.
pub open spec fn display_value_spec(time: u64, current_unit: TimeUnit, target_unit: TimeUnit) -> int {
    if unit_nanos(current_unit) >= unit_nanos(target_unit) {
        time * (unit_nanos(current_unit) / unit_nanos(target_unit)) as int
    } else {
        time as int / (unit_nanos(target_unit) / unit_nanos(current_unit)) as int
    }
}

pub(crate) proof fn lemma_unit_ratios()
    ensures
        1_000nat / 1nat == 1_000nat,
        1_000_000nat / 1nat == 1_000_000nat,
        1_000_000_000nat / 1nat == 1_000_000_000nat,
        1_000_000nat / 1_000nat == 1_000nat,
        1_000_000_000nat / 1_000nat == 1_000_000nat,
        1_000_000_000nat / 1_000_000nat == 1_000nat,
        1nat / 1nat == 1nat,
        1_000nat / 1_000nat == 1nat,
        1_000_000nat / 1_000_000nat == 1nat,
        1_000_000_000nat / 1_000_000_000nat == 1nat,
{
    assert(1_000nat / 1nat == 1_000nat) by (nonlinear_arith);
    assert(1_000_000nat / 1nat == 1_000_000nat) by (nonlinear_arith);
    assert(1_000_000_000nat / 1nat == 1_000_000_000nat) by (nonlinear_arith);
    assert(1_000_000nat / 1_000nat == 1_000nat) by (nonlinear_arith);
    assert(1_000_000_000nat / 1_000nat == 1_000_000nat) by (nonlinear_arith);
    assert(1_000_000_000nat / 1_000_000nat == 1_000nat) by (nonlinear_arith);
    assert(1nat / 1nat == 1nat) by (nonlinear_arith);
    assert(1_000nat / 1_000nat == 1nat) by (nonlinear_arith);
    assert(1_000_000nat / 1_000_000nat == 1nat) by (nonlinear_arith);
    assert(1_000_000_000nat / 1_000_000_000nat == 1nat) by (nonlinear_arith);
}

/// Converts `time` from `current_unit` to `target_unit`, dropping fractions.
pub fn duration_to_display_value(time: u64, current_unit: TimeUnit, target_unit: TimeUnit) -> (r: u64)
    requires
        display_value_spec(time, current_unit, target_unit) <= u64::MAX,
    ensures
        r == display_value_spec(time, current_unit, target_unit),
{
    proof {
        lemma_unit_ratios();
    }
    match (current_unit, target_unit) {
        (TimeUnit::Nanoseconds, TimeUnit::Nanoseconds) => time,
        (TimeUnit::Nanoseconds, TimeUnit::Microseconds) => time / 1_000,
        (TimeUnit::Nanoseconds, TimeUnit::Milliseconds) => time / 1_000_000,
        (TimeUnit::Nanoseconds, TimeUnit::Seconds) => time / 1_000_000_000,
        (TimeUnit::Microseconds, TimeUnit::Nanoseconds) => time * 1_000,
        (TimeUnit::Microseconds, TimeUnit::Microseconds) => time,
        (TimeUnit::Microseconds, TimeUnit::Milliseconds) => time / 1_000,
        (TimeUnit::Microseconds, TimeUnit::Seconds) => time / 1_000_000,
        (TimeUnit::Milliseconds, TimeUnit::Nanoseconds) => time * 1_000_000,
        (TimeUnit::Milliseconds, TimeUnit::Microseconds) => time * 1_000,
        (TimeUnit::Milliseconds, TimeUnit::Milliseconds) => time,
        (TimeUnit::Milliseconds, TimeUnit::Seconds) => time / 1_000,
        (TimeUnit::Seconds, TimeUnit::Nanoseconds) => time * 1_000_000_000,
        (TimeUnit::Seconds, TimeUnit::Microseconds) => time * 1_000_000,
        (TimeUnit::Seconds, TimeUnit::Milliseconds) => time * 1_000,
        (TimeUnit::Seconds, TimeUnit::Seconds) => time,
    }
}


/// Converts `time` from `current_unit` to `target_unit` like
/// `duration_to_display_value`; `None` where the result does not fit in a
/// `u64`.
pub fn checked_duration_to_display_value(time: u64, current_unit: TimeUnit, target_unit: TimeUnit) -> (r:
    Option<u64>)
    ensures
        display_value_spec(time, current_unit, target_unit) <= u64::MAX ==> r == Some(
            display_value_spec(time, current_unit, target_unit) as u64,
        ),
        display_value_spec(time, current_unit, target_unit) > u64::MAX ==> r is None,
{
    proof {
        lemma_unit_ratios();
    }
    let factor: u64 = match (current_unit, target_unit) {
        (TimeUnit::Microseconds, TimeUnit::Nanoseconds) => 1_000,
        (TimeUnit::Milliseconds, TimeUnit::Nanoseconds) => 1_000_000,
        (TimeUnit::Milliseconds, TimeUnit::Microseconds) => 1_000,
        (TimeUnit::Seconds, TimeUnit::Nanoseconds) => 1_000_000_000,
        (TimeUnit::Seconds, TimeUnit::Microseconds) => 1_000_000,
        (TimeUnit::Seconds, TimeUnit::Milliseconds) => 1_000,
        _ => 1,
    };
    if time.checked_mul(factor).is_none() {
        return None;
    }
    Some(duration_to_display_value(time, current_unit, target_unit))
}


/// Converting to a finer unit and back gives the time back.
pub proof fn law_finer_and_back_gives_the_time_back(time: u64, unit: TimeUnit, finer: TimeUnit)
    requires
        unit_nanos(finer) <= unit_nanos(unit),
        display_value_spec(time, unit, finer) <= u64::MAX,
    ensures
        display_value_spec(display_value_spec(time, unit, finer) as u64, finer, unit) == time,
{
    lemma_unit_ratios();
    if unit_nanos(finer) < unit_nanos(unit) {
        let f: int = (unit_nanos(unit) / unit_nanos(finer)) as int;
        assert(f >= 1) by (nonlinear_arith)
            requires
                unit_nanos(finer) < unit_nanos(unit),
                unit_nanos(finer) >= 1,
                f == unit_nanos(unit) / unit_nanos(finer),
        ;
        let x: int = time * f;
        assert(x >= 0) by (nonlinear_arith)
            requires
                x == time * f,
                f >= 1,
                time >= 0,
        ;
        assert(x / f == time) by (nonlinear_arith)
            requires
                x == time * f,
                f >= 1,
        ;
        assert(display_value_spec(time, unit, finer) == x);
        assert(display_value_spec(x as u64, finer, unit) == x / f);
    } else {
        assert(unit == finer);
        assert(unit_nanos(unit) / unit_nanos(unit) == 1) by {
            match unit {
                TimeUnit::Nanoseconds => {},
                TimeUnit::Microseconds => {},
                TimeUnit::Milliseconds => {},
                TimeUnit::Seconds => {},
            }
        }
        let k: int = (unit_nanos(unit) / unit_nanos(finer)) as int;
        assert(time * k == time) by (nonlinear_arith)
            requires
                k == 1,
        ;
        assert(display_value_spec(time, unit, finer) == time);
    }
}

} // verus!
