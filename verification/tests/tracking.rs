use std::sync::{Arc, Mutex};

use metrix::instruments::{Bucket, BucketsStats, Clock, SecondsBuckets};
use metrix::time::{Duration, Instant};

/// A clock for testing: clones share the offset.
#[derive(Debug, Clone)]
struct ManualOffsetClock {
    reference: Instant,
    offset: Arc<Mutex<Duration>>,
}

impl ManualOffsetClock {
    fn advance_by(&self, by: Duration) {
        let mut offset = self.offset.lock().unwrap();
        *offset = Duration::from_nanos(offset.nanos + by.nanos);
    }

    fn advance_a_second(&self) {
        self.advance_by(Duration::from_secs(1))
    }
}

impl Clock for ManualOffsetClock {
    fn now(&self) -> Instant {
        self.reference
            .saturating_add(*self.offset.lock().unwrap())
    }
}

impl Default for ManualOffsetClock {
    fn default() -> Self {
        Self {
            reference: Instant::from_nanos(1_000_000_000_000_000),
            offset: Arc::new(Mutex::new(Duration::from_millis(0))),
        }
    }
}

/// The average of the peaks over all buckets.
fn peak_avg(stats: &BucketsStats) -> f64 {
    (stats.sum_peak as f64) / (stats.buckets as f64)
}

/// The average of the bottoms over all buckets.
fn bottom_avg(stats: &BucketsStats) -> f64 {
    (stats.sum_bottom as f64) / (stats.buckets as f64)
}

/// The average of all values.
fn avg(stats: &BucketsStats) -> f64 {
    (stats.total_sum as f64) / (stats.total_count as f64)
}

#[test]
fn empty_bucket_returns_none() {
    let clock = ManualOffsetClock::default();
    let mut buckets = SecondsBuckets::<Bucket, _>::with_clock(1, clock);

    assert!(BucketsStats::from_buckets(&mut buckets).is_none());
}

#[test]
fn none_empty_bucket_returns_some() {
    let clock = ManualOffsetClock::default();
    let mut buckets = SecondsBuckets::<Bucket, _>::with_clock(1, clock);
    buckets.current_mut().update(1);

    assert!(BucketsStats::from_buckets(&mut buckets).is_some());
}

#[test]
fn one_bucket_works_correctly_with_one_update() {
    let clock = ManualOffsetClock::default();
    let mut buckets = SecondsBuckets::<Bucket, _>::with_clock(1, clock.clone());
    buckets.current_mut().update(1);

    let stats = BucketsStats::from_buckets(&mut buckets).unwrap();
    assert_eq!(stats.peak, 1, "peak");
    assert_eq!(stats.peak_min, 1, "peak_min");
    assert_eq!(peak_avg(&stats), 1.0, "peak_avg");
    assert_eq!(stats.bottom, 1, "bottom");
    assert_eq!(stats.bottom_max, 1, "bottom_max");
    assert_eq!(bottom_avg(&stats), 1.0, "bottom_avg");
    assert_eq!(avg(&stats), 1.0, "avg");
}
#[test]
fn one_bucket_works_correctly_with_two_different_updates_in_the_same_bucket() {
    let clock = ManualOffsetClock::default();
    let mut buckets = SecondsBuckets::<Bucket, _>::with_clock(1, clock.clone());
    buckets.current_mut().update(1);
    buckets.current_mut().update(2);

    let stats = BucketsStats::from_buckets(&mut buckets).unwrap();
    assert_eq!(stats.peak, 2, "peak");
    assert_eq!(stats.peak_min, 2, "peak_min");
    assert_eq!(peak_avg(&stats), 2.0, "peak_avg");
    assert_eq!(stats.bottom, 1, "bottom");
    assert_eq!(stats.bottom_max, 1, "bottom_max");
    assert_eq!(bottom_avg(&stats), 1.0, "bottom_avg");
    assert_eq!(avg(&stats), 1.5, "avg");
}
#[test]
fn one_bucket_works_correctly_with_2_times_the_same_updates_and_one_bucket_shift() {
    let clock = ManualOffsetClock::default();
    let mut buckets = SecondsBuckets::<Bucket, _>::with_clock(1, clock.clone());
    buckets.current_mut().update(1);
    clock.advance_a_second();
    buckets.current_mut().update(1);

    let stats = BucketsStats::from_buckets(&mut buckets).unwrap();
    assert_eq!(stats.peak, 1, "peak");
    assert_eq!(stats.peak_min, 1, "peak_min");
    assert_eq!(peak_avg(&stats), 1.0, "peak_avg");
    assert_eq!(stats.bottom, 1, "bottom");
    assert_eq!(stats.bottom_max, 1, "bottom_max");
    assert_eq!(bottom_avg(&stats), 1.0, "bottom_avg");
    assert_eq!(avg(&stats), 1.0, "avg");
}
#[test]
fn one_bucket_works_correctly_with_2_times_a_different_update_and_one_bucket_shift() {
    let clock = ManualOffsetClock::default();
    let mut buckets = SecondsBuckets::<Bucket, _>::with_clock(1, clock.clone());
    buckets.current_mut().update(1);
    clock.advance_a_second();
    buckets.current_mut().update(2);

    let stats = BucketsStats::from_buckets(&mut buckets).unwrap();
    assert_eq!(stats.peak, 2, "peak");
    assert_eq!(stats.peak_min, 2, "peak_min");
    assert_eq!(peak_avg(&stats), 2.0, "peak_avg");
    assert_eq!(stats.bottom, 2, "bottom");
    assert_eq!(stats.bottom_max, 2, "bottom_max");
    assert_eq!(bottom_avg(&stats), 2.0, "bottom_avg");
    assert_eq!(avg(&stats), 2.0, "avg");
}
#[test]
fn two_buckets_works_correctly_with_2_times_the_same_updates_and_one_bucket_shift() {
    let clock = ManualOffsetClock::default();
    let mut buckets = SecondsBuckets::<Bucket, _>::with_clock(2, clock.clone());
    buckets.current_mut().update(1);
    clock.advance_a_second();
    buckets.current_mut().update(1);

    let stats = BucketsStats::from_buckets(&mut buckets).unwrap();
    assert_eq!(stats.peak, 1, "peak");
    assert_eq!(stats.peak_min, 1, "peak_min");
    assert_eq!(peak_avg(&stats), 1.0, "peak_avg");
    assert_eq!(stats.bottom, 1, "bottom");
    assert_eq!(stats.bottom_max, 1, "bottom_max");
    assert_eq!(bottom_avg(&stats), 1.0, "bottom_avg");
    assert_eq!(avg(&stats), 1.0, "avg");
}
#[test]
fn two_buckets_works_correctly_with_different_updates_and_one_bucket_shift() {
    let clock = ManualOffsetClock::default();
    let mut buckets = SecondsBuckets::<Bucket, _>::with_clock(2, clock.clone());
    buckets.current_mut().update(1);
    clock.advance_a_second();
    buckets.current_mut().update(2);

    let stats = BucketsStats::from_buckets(&mut buckets).unwrap();
    assert_eq!(stats.peak, 2, "peak");
    assert_eq!(stats.peak_min, 1, "peak_min");
    assert_eq!(peak_avg(&stats), 1.5, "peak_avg");
    assert_eq!(stats.bottom, 1, "bottom");
    assert_eq!(stats.bottom_max, 2, "bottom_max");
    assert_eq!(bottom_avg(&stats), 1.5, "bottom_avg");
    assert_eq!(avg(&stats), 1.5, "avg");
}
#[test]
fn two_buckets_works_correctly_2_different_updates_in_each_bucket_with_one_bucket_shift() {
    let clock = ManualOffsetClock::default();
    let mut buckets = SecondsBuckets::<Bucket, _>::with_clock(2, clock.clone());
    buckets.current_mut().update(2);
    buckets.current_mut().update(5);
    clock.advance_a_second();
    buckets.current_mut().update(4);
    buckets.current_mut().update(7);

    let stats = BucketsStats::from_buckets(&mut buckets).unwrap();
    assert_eq!(stats.peak, 7, "peak");
    assert_eq!(stats.peak_min, 5, "peak_min");
    assert_eq!(peak_avg(&stats), 6.0, "peak_avg");
    assert_eq!(stats.bottom, 2, "bottom");
    assert_eq!(stats.bottom_max, 4, "bottom_max");
    assert_eq!(bottom_avg(&stats), 3.0, "bottom_avg");
    assert_eq!(avg(&stats), 4.5, "avg");
}
