//! Observations and the values they carry.
use crate::snapshot::ItemKind;
use vstd::prelude::*;

use crate::time::{now, Duration, Instant, NANOS_PER_MICRO, NANOS_PER_MILLI, NANOS_PER_SEC};

verus! {

/// The unit of a measured time.
#[derive(Debug, Clone, Copy, PartialEq, Eq, Structural)]
pub enum TimeUnit {
    Nanoseconds,
    Microseconds,
    Milliseconds,
    Seconds,
}

impl Default for TimeUnit {
    fn default() -> (u: Self)
        ensures
            u == TimeUnit::Microseconds,
    {
        TimeUnit::Microseconds
    }
}

/// Increments a value by one (e.g. in a `Gauge`)
#[derive(Debug, Copy, Clone)]
pub struct Increment;

/// Increments a value by the given amount (e.g. in a `Gauge`)
#[derive(Debug, Copy, Clone)]
pub struct IncrementBy(pub u32);

/// Decrements a value by one (e.g. in a `Gauge`)
#[derive(Debug, Copy, Clone)]
pub struct Decrement;

/// Decrements a value by the given amount (e.g. in a `Gauge`)
#[derive(Debug, Copy, Clone)]
pub struct DecrementBy(pub u32);

/// Changes a value by the given amount (e.g. in a `Gauge`)
#[derive(Debug, Copy, Clone)]
pub struct ChangeBy(pub i64);

/// The value of an observation.
#[derive(Debug, Clone, Copy, PartialEq, Eq, Structural)]
pub enum ObservedValue {
    SignedInteger(i64),
    UnsignedInteger(u64),
    Bool(bool),
    Duration(u64, TimeUnit),
    ChangedBy(i64),
}

/// An observation that has been made.
///
/// Not all instruments handle all observations or values. E.g. a `Counter`
/// does not look at the value of an `Observation::ObservedOneValue`; it
/// counts it as one occurrence.
#[derive(Debug)]
pub enum Observation<L> {
    /// Observed many occurrences with no value at the given timestamp
    Observed { label: L, count: u64, timestamp: Instant },
    /// Observed one occurrence without a value at the given timestamp
    ObservedOne { label: L, timestamp: Instant },
    /// Observed one occurrence with a value at a given timestamp.
    ObservedOneValue { label: L, value: ObservedValue, timestamp: Instant },
}

impl<L> Observation<L> {
    /// The label of an observation.
    pub open spec fn label_spec(&self) -> L {
        match *self {
            Observation::Observed { label, .. } => label,
            Observation::ObservedOne { label, .. } => label,
            Observation::ObservedOneValue { label, .. } => label,
        }
    }

    /// The time at which an observation was made.
    pub open spec fn timestamp_spec(&self) -> Instant {
        match *self {
            Observation::Observed { timestamp, .. } => timestamp,
            Observation::ObservedOne { timestamp, .. } => timestamp,
            Observation::ObservedOneValue { timestamp, .. } => timestamp,
        }
    }

    pub fn observed(label: L, count: u64, timestamp: Instant) -> (o: Self)
        ensures
            o == (Observation::Observed { label, count, timestamp }),
    {
        Observation::Observed { label, count, timestamp }
    }

    pub fn observed_now(label: L, count: u64) -> (o: Self)
        ensures
            o matches Observation::Observed { label: l, count: c, .. } && l == label && c == count,
    {
        Self::observed(label, count, now())
    }

    pub fn observed_one(label: L, timestamp: Instant) -> (o: Self)
        ensures
            o == (Observation::ObservedOne { label, timestamp }),
    {
        Observation::ObservedOne { label, timestamp }
    }

    pub fn observed_one_now(label: L) -> (o: Self)
        ensures
            o matches Observation::ObservedOne { label: l, .. } && l == label,
    {
        Self::observed_one(label, now())
    }

    pub fn observed_one_value(label: L, value: ObservedValue, timestamp: Instant) -> (o: Self)
        ensures
            o == (Observation::ObservedOneValue { label, value, timestamp }),
    {
        Observation::ObservedOneValue { label, value, timestamp }
    }

    pub fn observed_one_value_now(label: L, value: ObservedValue) -> (o: Self)
        ensures
            o matches Observation::ObservedOneValue { label: l, value: v, .. } && l == label
                && v == value,
    {
        Self::observed_one_value(label, value, now())
    }

    /// Extracts the label `L` from an observation.
    pub fn label(&self) -> (l: &L)
        ensures
            *l == self.label_spec(),
    {
        match self {
            Observation::Observed { label, .. } => label,
            Observation::ObservedOne { label, .. } => label,
            Observation::ObservedOneValue { label, .. } => label,
        }
    }

    pub fn timestamp(&self) -> (t: Instant)
        ensures
            t == self.timestamp_spec(),
    {
        match self {
            Observation::Observed { timestamp, .. } => *timestamp,
            Observation::ObservedOne { timestamp, .. } => *timestamp,
            Observation::ObservedOneValue { timestamp, .. } => *timestamp,
        }
    }
}

/// Something that was observed at a point in time.
pub trait ObservationLike {
    spec fn timestamp_of(&self) -> Instant;

    fn timestamp(&self) -> (t: Instant)
        ensures
            t == self.timestamp_of(),
    ;
}

impl<L> ObservationLike for Observation<L> {
    open spec fn timestamp_of(&self) -> Instant {
        self.timestamp_spec()
    }

    fn timestamp(&self) -> (t: Instant) {
        self.timestamp()
    }
}

/// The signed integer that a value stands for, where there is one.
pub open spec fn to_i64_spec(v: ObservedValue) -> Option<i64> {
    match v {
        ObservedValue::SignedInteger(x) => Some(x),
        ObservedValue::UnsignedInteger(x) => if x <= i64::MAX { Some(x as i64) } else { None },
        _ => None,
    }
}

/// The unsigned integer that a value stands for, where there is one.
pub open spec fn to_u64_spec(v: ObservedValue) -> Option<u64> {
    match v {
        ObservedValue::SignedInteger(x) => if x >= 0 { Some(x as u64) } else { None },
        ObservedValue::UnsignedInteger(x) => Some(x),
        _ => None,
    }
}

/// The boolean that a value stands for, where there is one: integers are
/// `true` unless they are zero.
pub open spec fn to_bool_spec(v: ObservedValue) -> Option<bool> {
    match v {
        ObservedValue::SignedInteger(x) => Some(x != 0),
        ObservedValue::UnsignedInteger(x) => Some(x != 0),
        ObservedValue::Bool(b) => Some(b),
        _ => None,
    }
}

impl ObservedValue {
    pub fn convert_to_i64(&self) -> (r: Option<i64>)
        ensures
            r == to_i64_spec(*self),
    {
        match *self {
            ObservedValue::SignedInteger(v) => Some(v),
            ObservedValue::UnsignedInteger(v) => {
                if v <= i64::MAX as u64 {
                    Some(v as i64)
                } else {
                    None
                }
            },
            ObservedValue::Bool(_) => None,
            ObservedValue::Duration(_, _) => None,
            ObservedValue::ChangedBy(_) => None,
        }
    }

    pub fn convert_to_u64(&self) -> (r: Option<u64>)
        ensures
            r == to_u64_spec(*self),
    {
        match *self {
            ObservedValue::SignedInteger(v) => {
                if v >= 0 {
                    Some(v as u64)
                } else {
                    None
                }
            },
            ObservedValue::UnsignedInteger(v) => Some(v),
            ObservedValue::Bool(_) => None,
            ObservedValue::Duration(_, _) => None,
            ObservedValue::ChangedBy(_) => None,
        }
    }

    pub fn convert_to_bool(&self) -> (r: Option<bool>)
        ensures
            r == to_bool_spec(*self),
    {
        match *self {
            ObservedValue::SignedInteger(v) => Some(v != 0),
            ObservedValue::UnsignedInteger(v) => Some(v != 0),
            ObservedValue::Bool(v) => Some(v),
            ObservedValue::Duration(_, _) => None,
            ObservedValue::ChangedBy(_) => None,
        }
    }

    /// A measured time of `d` in `unit`, whole units only.
    pub fn from_duration_in(d: Duration, unit: TimeUnit) -> (v: ObservedValue)
        ensures
            v == ObservedValue::Duration(
                match unit {
                    TimeUnit::Nanoseconds => d.nanos,
                    TimeUnit::Microseconds => d.nanos / NANOS_PER_MICRO,
                    TimeUnit::Milliseconds => d.nanos / NANOS_PER_MILLI,
                    TimeUnit::Seconds => d.nanos / NANOS_PER_SEC,
                },
                unit,
            ),
    {
        let t = match unit {
            TimeUnit::Nanoseconds => d.nanos,
            TimeUnit::Microseconds => d.nanos / NANOS_PER_MICRO,
            TimeUnit::Milliseconds => d.nanos / NANOS_PER_MILLI,
            TimeUnit::Seconds => d.nanos / NANOS_PER_SEC,
        };
        ObservedValue::Duration(t, unit)
    }
}

impl From<i64> for ObservedValue {
    fn from(v: i64) -> (r: Self) {
        ObservedValue::SignedInteger(v)
    }
}

impl vstd::std_specs::convert::FromSpecImpl<i64> for ObservedValue {
    open spec fn obeys_from_spec() -> bool {
        true
    }

    open spec fn from_spec(v: i64) -> Self {
        ObservedValue::SignedInteger(v)
    }
}

impl From<u64> for ObservedValue {
    fn from(v: u64) -> (r: Self) {
        ObservedValue::UnsignedInteger(v)
    }
}

impl vstd::std_specs::convert::FromSpecImpl<u64> for ObservedValue {
    open spec fn obeys_from_spec() -> bool {
        true
    }

    open spec fn from_spec(v: u64) -> Self {
        ObservedValue::UnsignedInteger(v)
    }
}

impl From<bool> for ObservedValue {
    fn from(v: bool) -> (r: Self) {
        ObservedValue::Bool(v)
    }
}

impl vstd::std_specs::convert::FromSpecImpl<bool> for ObservedValue {
    open spec fn obeys_from_spec() -> bool {
        true
    }

    open spec fn from_spec(v: bool) -> Self {
        ObservedValue::Bool(v)
    }
}

impl From<Duration> for ObservedValue {
    fn from(v: Duration) -> (r: Self) {
        ObservedValue::Duration(v.nanos, TimeUnit::Nanoseconds)
    }
}

impl vstd::std_specs::convert::FromSpecImpl<Duration> for ObservedValue {
    open spec fn obeys_from_spec() -> bool {
        true
    }

    open spec fn from_spec(v: Duration) -> Self {
        ObservedValue::Duration(v.nanos, TimeUnit::Nanoseconds)
    }
}

impl From<(u64, TimeUnit)> for ObservedValue {
    fn from(d: (u64, TimeUnit)) -> (r: Self) {
        ObservedValue::Duration(d.0, d.1)
    }
}

impl vstd::std_specs::convert::FromSpecImpl<(u64, TimeUnit)> for ObservedValue {
    open spec fn obeys_from_spec() -> bool {
        true
    }

    open spec fn from_spec(d: (u64, TimeUnit)) -> Self {
        ObservedValue::Duration(d.0, d.1)
    }
}

impl From<Increment> for ObservedValue {
    fn from(_v: Increment) -> (r: Self) {
        ObservedValue::ChangedBy(1)
    }
}

impl vstd::std_specs::convert::FromSpecImpl<Increment> for ObservedValue {
    open spec fn obeys_from_spec() -> bool {
        true
    }

    open spec fn from_spec(v: Increment) -> Self {
        ObservedValue::ChangedBy(1)
    }
}

impl From<Decrement> for ObservedValue {
    fn from(_v: Decrement) -> (r: Self) {
        ObservedValue::ChangedBy(-1)
    }
}

impl vstd::std_specs::convert::FromSpecImpl<Decrement> for ObservedValue {
    open spec fn obeys_from_spec() -> bool {
        true
    }

    open spec fn from_spec(v: Decrement) -> Self {
        ObservedValue::ChangedBy(-1i64)
    }
}

impl From<IncrementBy> for ObservedValue {
    fn from(v: IncrementBy) -> (r: Self) {
        ObservedValue::ChangedBy(v.0 as i64)
    }
}

impl vstd::std_specs::convert::FromSpecImpl<IncrementBy> for ObservedValue {
    open spec fn obeys_from_spec() -> bool {
        true
    }

    open spec fn from_spec(v: IncrementBy) -> Self {
        ObservedValue::ChangedBy(v.0 as i64)
    }
}

impl From<DecrementBy> for ObservedValue {
    fn from(v: DecrementBy) -> (r: Self) {
        ObservedValue::ChangedBy(-(v.0 as i64))
    }
}

impl vstd::std_specs::convert::FromSpecImpl<DecrementBy> for ObservedValue {
    open spec fn obeys_from_spec() -> bool {
        true
    }

    open spec fn from_spec(v: DecrementBy) -> Self {
        ObservedValue::ChangedBy((-(v.0 as int)) as i64)
    }
}

impl From<ChangeBy> for ObservedValue {
    fn from(v: ChangeBy) -> (r: Self) {
        ObservedValue::ChangedBy(v.0)
    }
}

impl vstd::std_specs::convert::FromSpecImpl<ChangeBy> for ObservedValue {
    open spec fn obeys_from_spec() -> bool {
        true
    }

    open spec fn from_spec(v: ChangeBy) -> Self {
        ObservedValue::ChangedBy(v.0)
    }
}


impl From<i32> for ObservedValue {
    fn from(v: i32) -> (r: Self) {
        ObservedValue::SignedInteger(v as i64)
    }
}

impl vstd::std_specs::convert::FromSpecImpl<i32> for ObservedValue {
    open spec fn obeys_from_spec() -> bool {
        true
    }

    open spec fn from_spec(v: i32) -> Self {
        ObservedValue::SignedInteger(v as i64)
    }
}

impl From<i16> for ObservedValue {
    fn from(v: i16) -> (r: Self) {
        ObservedValue::SignedInteger(v as i64)
    }
}

impl vstd::std_specs::convert::FromSpecImpl<i16> for ObservedValue {
    open spec fn obeys_from_spec() -> bool {
        true
    }

    open spec fn from_spec(v: i16) -> Self {
        ObservedValue::SignedInteger(v as i64)
    }
}

impl From<i8> for ObservedValue {
    fn from(v: i8) -> (r: Self) {
        ObservedValue::SignedInteger(v as i64)
    }
}

impl vstd::std_specs::convert::FromSpecImpl<i8> for ObservedValue {
    open spec fn obeys_from_spec() -> bool {
        true
    }

    open spec fn from_spec(v: i8) -> Self {
        ObservedValue::SignedInteger(v as i64)
    }
}

impl From<u32> for ObservedValue {
    fn from(v: u32) -> (r: Self) {
        ObservedValue::UnsignedInteger(v as u64)
    }
}

impl vstd::std_specs::convert::FromSpecImpl<u32> for ObservedValue {
    open spec fn obeys_from_spec() -> bool {
        true
    }

    open spec fn from_spec(v: u32) -> Self {
        ObservedValue::UnsignedInteger(v as u64)
    }
}

impl From<u16> for ObservedValue {
    fn from(v: u16) -> (r: Self) {
        ObservedValue::UnsignedInteger(v as u64)
    }
}

impl vstd::std_specs::convert::FromSpecImpl<u16> for ObservedValue {
    open spec fn obeys_from_spec() -> bool {
        true
    }

    open spec fn from_spec(v: u16) -> Self {
        ObservedValue::UnsignedInteger(v as u64)
    }
}

impl From<u8> for ObservedValue {
    fn from(v: u8) -> (r: Self) {
        ObservedValue::UnsignedInteger(v as u64)
    }
}

impl vstd::std_specs::convert::FromSpecImpl<u8> for ObservedValue {
    open spec fn obeys_from_spec() -> bool {
        true
    }

    open spec fn from_spec(v: u8) -> Self {
        ObservedValue::UnsignedInteger(v as u64)
    }
}

impl From<usize> for ObservedValue {
    fn from(v: usize) -> (r: Self) {
        ObservedValue::UnsignedInteger(v as u64)
    }
}

impl vstd::std_specs::convert::FromSpecImpl<usize> for ObservedValue {
    open spec fn obeys_from_spec() -> bool {
        true
    }

    open spec fn from_spec(v: usize) -> Self {
        ObservedValue::UnsignedInteger(v as u64)
    }
}

impl From<(Duration, TimeUnit)> for ObservedValue {
    fn from(d: (Duration, TimeUnit)) -> (r: Self) {
        ObservedValue::from_duration_in(d.0, d.1)
    }
}

impl vstd::std_specs::convert::FromSpecImpl<(Duration, TimeUnit)> for ObservedValue {
    open spec fn obeys_from_spec() -> bool {
        true
    }

    open spec fn from_spec(d: (Duration, TimeUnit)) -> Self {
        ObservedValue::Duration(
            match d.1 {
                TimeUnit::Nanoseconds => d.0.nanos,
                TimeUnit::Microseconds => d.0.nanos / NANOS_PER_MICRO,
                TimeUnit::Milliseconds => d.0.nanos / NANOS_PER_MILLI,
                TimeUnit::Seconds => d.0.nanos / NANOS_PER_SEC,
            },
            d.1,
        )
    }
}

/// The item that shows a value, where there is one: integers and booleans
/// show as they are; measured times and changes do not show.
pub open spec fn item_of_value(v: ObservedValue) -> Option<ItemKind> {
    match v {
        ObservedValue::SignedInteger(x) => Some(ItemKind::Int(x)),
        ObservedValue::UnsignedInteger(x) => Some(ItemKind::UInt(x)),
        ObservedValue::Bool(x) => Some(ItemKind::Boolean(x)),
        ObservedValue::Duration(_, _) => None,
        ObservedValue::ChangedBy(_) => None,
    }
}

impl ObservedValue {
    /// The item that shows this value, where there is one.
    pub fn to_item_kind(&self) -> (r: Option<ItemKind>)
        ensures
            r == item_of_value(*self),
    {
        match self {
            ObservedValue::SignedInteger(v) => Some(ItemKind::Int(*v)),
            ObservedValue::UnsignedInteger(v) => Some(ItemKind::UInt(*v)),
            ObservedValue::Bool(v) => Some(ItemKind::Boolean(*v)),
            ObservedValue::Duration(_, _) => None,
            ObservedValue::ChangedBy(_) => None,
        }
    }
}

} // verus!
