//! Metrics for monitoring applications and alerting.
//!
//! Observations made while an application runs are turned into updates of
//! instruments (counters, gauges, switches, ...). The instruments write their
//! current values into a `Snapshot`.
pub mod cockpit;
pub mod driver;
pub mod instruments;
pub mod json_output;
pub mod processor;
pub mod snapshot;
pub mod time;
mod observation;
pub mod util;

pub use observation::{
    item_of_value, to_bool_spec, to_i64_spec, to_u64_spec, ChangeBy, Decrement, DecrementBy,
    Increment, IncrementBy, Observation, ObservationLike, ObservedValue, TimeUnit,
};
pub use processor::{AggregatesProcessors, TelemetryTransmitter, TransmitsTelemetryData};

use snapshot::Snapshot;
use vstd::prelude::*;

verus! {

/// Const for setting boolean values. `true` is `1`.
pub const TRUE: u64 = 1;

/// Const for setting boolean values. `false` is `0`.
pub const FALSE: u64 = 0;

/// The observed value that increments instruments with support: `u64::MAX`.
pub const INCR: u64 = 18446744073709551615;

/// The observed value that decrements instruments with support: `u64::MAX - 1`.
pub const DECR: u64 = 18446744073709551614;

/// The characters of an optional text.
pub open spec fn opt_str_view(o: Option<&str>) -> Option<Seq<char>> {
    match o {
        Some(s) => Some(s@),
        None => None,
    }
}

/// The characters of an optional owned text.
pub open spec fn opt_string_view(o: Option<String>) -> Option<Seq<char>> {
    match o {
        Some(s) => Some(s@),
        None => None,
    }
}

/// The text that an optional owned text lends.
pub fn opt_as_str(o: &Option<String>) -> (r: Option<&str>)
    ensures
        opt_str_view(r) == opt_string_view(*o),
{
    match o {
        Some(s) => Some(s.as_str()),
        None => None,
    }
}

/// Something that has a title and a description.
///
/// When a `Snapshot` is taken there is usually a parameter `descriptive`
/// that determines whether title and description should be part of it.
pub trait Descriptive {
    /// The title. Every implementation in this library gives it; one that
    /// does not has none.
    open spec fn title_spec(&self) -> Option<Seq<char>> {
        None
    }

    /// The description. Every implementation in this library gives it; one
    /// that does not has none.
    open spec fn description_spec(&self) -> Option<Seq<char>> {
        None
    }

    fn title(&self) -> (r: Option<&str>)
        ensures
            opt_str_view(r) == self.title_spec(),
    ;

    fn description(&self) -> (r: Option<&str>)
        ensures
            opt_str_view(r) == self.description_spec(),
    ;
}

/// Implementors write their current data into a given `Snapshot`.
///
/// * One that has a name creates a sub snapshot under its name, one
///   without a name adds its values directly.
/// * With `descriptive` set, titles and descriptions are added without
///   overwriting ones that are already there; instruments add them with the
///   suffixes "_title" and "_description" to their names.
pub trait PutsSnapshot: Send + 'static {
    fn put_snapshot(&mut self, into: &mut Snapshot, descriptive: bool);
}

/// Something that reacts on `Observation`s with labels of type `Label`.
///
/// Returns the number of instruments updated.
pub trait HandlesObservations: PutsSnapshot + Send + 'static {
    type Label: Send + 'static;

    fn handle_observation(&mut self, observation: &Observation<Self::Label>) -> usize;
}

} // verus!
