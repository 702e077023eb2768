//! Switches have a boolean state that is changed by `Observation`s.
//!
//! Switches can be used to attach alerts.
use vstd::prelude::*;

mod flag;
mod non_occurrence_indicator;
mod occurance_indicator;
mod staircase_timer;

pub use self::flag::{Flag, FlagView};
pub use self::non_occurrence_indicator::{
    non_occurrence_state, NonOccurrenceIndicator, NonOccurrenceIndicatorView,
};
pub use self::occurance_indicator::{occurrence_state, OccuranceIndicator, OccuranceIndicatorView};
pub use self::staircase_timer::{staircase_state, StaircaseTimer, StaircaseTimerView};

verus! {

/// Describes how to change a name using the given `String` in the variant.
#[derive(Debug, Clone)]
pub enum NameAlternation {
    /// Put the text before the name
    Prefix(String),
    /// Put the text after the name
    Postfix(String),
    /// Use the text in place of the name
    Rename(String),
}

/// The name that `alternation` makes of `name`.
pub open spec fn alternated_name(alternation: NameAlternation, name: Seq<char>) -> Seq<char> {
    match alternation {
        NameAlternation::Rename(s) => s@,
        NameAlternation::Prefix(s) => s@ + name,
        NameAlternation::Postfix(s) => name + s@,
    }
}

impl NameAlternation {
    pub fn adjust_name(&self, name: &str) -> (r: String)
        ensures
            r@ == alternated_name(*self, name@),
    {
        match self {
            NameAlternation::Rename(s) => s.clone(),
            NameAlternation::Prefix(s) => s.clone().concat(name),
            NameAlternation::Postfix(s) => String::from_str(name).concat(s.as_str()),
        }
    }
}

} // verus!
