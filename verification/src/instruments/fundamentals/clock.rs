use vstd::prelude::*;

use crate::time::{now, Instant};

verus! {

/// A source of the current time.
pub trait Clock {
    fn now(&self) -> Instant;
}

/// The system's clock.
#[derive(Debug, Clone, Copy)]
pub struct WallClock;

impl Clock for WallClock {
    #[inline]
    fn now(&self) -> Instant {
        now()
    }
}

} // verus!
