//! The library's model of time.
//!
//! A point in time is a number of nanoseconds since a fixed origin; a span
//! of time is a number of nanoseconds. Reading the current time is the only
//! thing that is left to the platform.
use vstd::prelude::*;

verus! {

/// Nanoseconds per second.
pub const NANOS_PER_SEC: u64 = 1_000_000_000;

/// Nanoseconds per millisecond.
pub const NANOS_PER_MILLI: u64 = 1_000_000;

/// Nanoseconds per microsecond.
pub const NANOS_PER_MICRO: u64 = 1_000;

/// A span of time in nanoseconds.
#[derive(Clone, Copy, Debug, PartialEq, Eq, Structural)]
pub struct Duration {
    pub nanos: u64,
}

impl Duration {
    pub fn from_nanos(nanos: u64) -> (d: Duration)
        ensures
            d.nanos == nanos,
    {
        Duration { nanos }
    }

    pub fn from_micros(micros: u64) -> (d: Duration)
        requires
            micros * NANOS_PER_MICRO <= u64::MAX,
        ensures
            d.nanos == micros * NANOS_PER_MICRO,
    {
        Duration { nanos: micros * NANOS_PER_MICRO }
    }

    pub fn from_millis(millis: u64) -> (d: Duration)
        requires
            millis * NANOS_PER_MILLI <= u64::MAX,
        ensures
            d.nanos == millis * NANOS_PER_MILLI,
    {
        Duration { nanos: millis * NANOS_PER_MILLI }
    }

    pub fn from_secs(secs: u64) -> (d: Duration)
        requires
            secs * NANOS_PER_SEC <= u64::MAX,
        ensures
            d.nanos == secs * NANOS_PER_SEC,
    {
        Duration { nanos: secs * NANOS_PER_SEC }
    }

    /// The whole seconds of this span.
    pub fn as_secs(&self) -> (s: u64)
        ensures
            s == self.nanos / NANOS_PER_SEC,
    {
        self.nanos / NANOS_PER_SEC
    }

    pub fn as_nanos(&self) -> (n: u64)
        ensures
            n == self.nanos,
    {
        self.nanos
    }
}

/// A point in time in nanoseconds since the clock's origin.
#[derive(Clone, Copy, Debug, PartialEq, Eq, Structural)]
pub struct Instant {
    pub nanos: u64,
}

/// `a + b`, or `u64::MAX` where the sum does not fit.
pub open spec fn saturating_add_spec(a: u64, b: u64) -> u64 {
    if a + b <= u64::MAX { (a + b) as u64 } else { u64::MAX }
}

/// `a - b`, or `0` where `b` is larger.
pub open spec fn saturating_sub_spec(a: u64, b: u64) -> u64 {
    if a >= b { (a - b) as u64 } else { 0 }
}

impl Instant {
    pub fn from_nanos(nanos: u64) -> (i: Instant)
        ensures
            i.nanos == nanos,
    {
        Instant { nanos }
    }

    /// The span from `earlier` to `self`; zero where `earlier` is later.
    pub fn saturating_duration_since(&self, earlier: Instant) -> (d: Duration)
        ensures
            d.nanos == saturating_sub_spec(self.nanos, earlier.nanos),
    {
        if self.nanos >= earlier.nanos {
            Duration { nanos: self.nanos - earlier.nanos }
        } else {
            Duration { nanos: 0 }
        }
    }

    /// The point `d` after `self`; the latest representable point where that overflows.
    pub fn saturating_add(&self, d: Duration) -> (i: Instant)
        ensures
            i.nanos == saturating_add_spec(self.nanos, d.nanos),
    {
        Instant { nanos: self.nanos.saturating_add(d.nanos) }
    }

    /// The point `d` before `self`; the origin where that underflows.
    pub fn saturating_sub(&self, d: Duration) -> (i: Instant)
        ensures
            i.nanos == saturating_sub_spec(self.nanos, d.nanos),
    {
        Instant { nanos: self.nanos.saturating_sub(d.nanos) }
    }
}

/// Reads the system clock through `std::time::SystemTime::elapsed` on the
/// Unix epoch, in nanoseconds. Nothing is promised of the value: the system
/// clock may be set back at any moment. A clock before the epoch reads as 0.
#[verifier::external_body]
fn system_time_nanos() -> u64 {
    match std::time::UNIX_EPOCH.elapsed() {
        Ok(d) => d.as_nanos() as u64,
        Err(_) => 0,
    }
}

/// The current time of the system clock.
pub fn now() -> Instant {
    Instant { nanos: system_time_nanos() }
}

} // verus!
