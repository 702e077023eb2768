pub mod buckets;
mod clock;

pub use clock::{Clock, WallClock};
