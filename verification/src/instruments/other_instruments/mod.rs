//! Other instruments
mod inc_dec_gauge;
mod last_occurrence_tracker;

pub use self::inc_dec_gauge::{inc_dec_modified, inc_dec_entries, IncDecGauge, IncDecGaugeView, IncDecState};
pub use self::last_occurrence_tracker::{
    elapsed_secs_spec, last_occurrence_entries, LastOccurrenceTracker, LastOccurrenceTrackerView,
};
