use std::sync::{Arc, Mutex};

use metrix::instruments::{Clock, SecondsBuckets};
use metrix::time::{Duration, Instant};

/// A clock for testing: clones share the offset.
#[derive(Debug, Clone)]
struct ManualOffsetClock {
    reference: Instant,
    offset: Arc<Mutex<Duration>>,
}

impl ManualOffsetClock {
    fn advance_by(&self, by: Duration) {
        let mut offset = self.offset.lock().unwrap();
        *offset = Duration::from_nanos(offset.nanos + by.nanos);
    }

    fn advance_millis(&self, millis: u64) {
        self.advance_by(Duration::from_millis(millis))
    }

    fn advance_a_second(&self) {
        self.advance_by(Duration::from_secs(1))
    }

    fn in_the_past_by(&self, by: Duration) -> Instant {
        self.now().saturating_sub(by)
    }

    fn seconds_in_the_past(&self, secs: u64) -> Instant {
        self.in_the_past_by(Duration::from_secs(secs))
    }
}

impl Clock for ManualOffsetClock {
    fn now(&self) -> Instant {
        self.reference
            .saturating_add(*self.offset.lock().unwrap())
    }
}

impl Default for ManualOffsetClock {
    fn default() -> Self {
        Self {
            reference: Instant::from_nanos(1_000_000_000_000_000),
            offset: Arc::new(Mutex::new(Duration::from_millis(0))),
        }
    }
}

#[test]
fn buckets_with_one_item_works_without_ticks() {
    let clock = ManualOffsetClock::default();
    let mut buckets = SecondsBuckets::<u32, _>::with_clock(1, clock.clone());

    assert_eq!(*buckets.current_mut(), 0);

    *buckets.current_mut() = 1;
    assert_eq!(*buckets.current_mut(), 1);
    assert_eq!(buckets.get_at_mut(clock.now()).copied(), Some(1));
    assert_eq!(
        buckets
            .get_at_mut(clock.in_the_past_by(Duration::from_millis(999)))
            .copied(),
        Some(1),
        "+999 millis"
    );
    assert_eq!(
        buckets.get_at_mut(clock.seconds_in_the_past(1)).copied(),
        None,
        "+1 second"
    );

    let all: Vec<_> = buckets.iter();

    assert_eq!(all, vec![1]);
}

#[test]
fn initial_buckets() {
    let clock = ManualOffsetClock::default();
    let mut buckets = SecondsBuckets::<u32, _>::with_clock(3, clock.clone());

    assert_eq!(buckets.len(), 3,);

    assert_eq!(
        buckets.get_at_mut(clock.seconds_in_the_past(0)).copied(),
        Some(0),
    );
    assert_eq!(
        buckets.get_at_mut(clock.seconds_in_the_past(1)).copied(),
        Some(0),
    );
    assert_eq!(
        buckets.get_at_mut(clock.seconds_in_the_past(2)).copied(),
        Some(0),
    );
    assert_eq!(
        buckets.get_at_mut(clock.seconds_in_the_past(3)).copied(),
        None,
    );
}

#[test]
fn with_three_initialized_items() {
    let clock = ManualOffsetClock::default();
    let mut buckets =
        SecondsBuckets::<u32, _>::initialized_with_clock(vec![1, 2, 3], clock.clone());

    assert_eq!(*buckets.current_mut(), 3);
    assert_eq!(
        buckets.get_at_mut(clock.seconds_in_the_past(0)).copied(),
        Some(3),
    );
    assert_eq!(
        buckets.get_at_mut(clock.seconds_in_the_past(1)).copied(),
        Some(2),
    );
    assert_eq!(
        buckets.get_at_mut(clock.seconds_in_the_past(2)).copied(),
        Some(1),
    );
    assert_eq!(
        buckets.get_at_mut(clock.seconds_in_the_past(3)).copied(),
        None,
    );

    assert_eq!(vec![3, 2, 1], buckets.iter());
}

#[test]
fn with_three_initialized_items_tick_one_second() {
    let clock = ManualOffsetClock::default();
    let mut buckets =
        SecondsBuckets::<u32, _>::initialized_with_clock(vec![1, 2, 3], clock.clone());

    assert_eq!(*buckets.current_mut(), 3);
    assert_eq!(
        buckets.get_at_mut(clock.seconds_in_the_past(0)).copied(),
        Some(3),
    );
    assert_eq!(
        buckets.get_at_mut(clock.seconds_in_the_past(1)).copied(),
        Some(2),
    );
    assert_eq!(
        buckets.get_at_mut(clock.seconds_in_the_past(2)).copied(),
        Some(1),
    );
    assert_eq!(
        buckets.get_at_mut(clock.seconds_in_the_past(3)).copied(),
        None,
    );
    assert_eq!(vec![3, 2, 1], buckets.iter());

    clock.advance_a_second();

    assert_eq!(*buckets.current_mut(), 0);
    assert_eq!(
        buckets.get_at_mut(clock.seconds_in_the_past(0)).copied(),
        Some(0),
    );
    assert_eq!(
        buckets.get_at_mut(clock.seconds_in_the_past(1)).copied(),
        Some(3),
    );
    assert_eq!(
        buckets.get_at_mut(clock.seconds_in_the_past(2)).copied(),
        Some(2),
    );
    assert_eq!(
        buckets.get_at_mut(clock.seconds_in_the_past(3)).copied(),
        None,
    );
    assert_eq!(vec![0, 3, 2], buckets.iter());

    clock.advance_a_second();

    assert_eq!(*buckets.current_mut(), 0);
    assert_eq!(
        buckets.get_at_mut(clock.seconds_in_the_past(0)).copied(),
        Some(0),
    );
    assert_eq!(
        buckets.get_at_mut(clock.seconds_in_the_past(1)).copied(),
        Some(0),
    );
    assert_eq!(
        buckets.get_at_mut(clock.seconds_in_the_past(2)).copied(),
        Some(3),
    );
    assert_eq!(
        buckets.get_at_mut(clock.seconds_in_the_past(3)).copied(),
        None,
    );
    assert_eq!(vec![0, 0, 3], buckets.iter());

    clock.advance_a_second();

    assert_eq!(*buckets.current_mut(), 0);
    assert_eq!(
        buckets.get_at_mut(clock.seconds_in_the_past(0)).copied(),
        Some(0),
    );
    assert_eq!(
        buckets.get_at_mut(clock.seconds_in_the_past(1)).copied(),
        Some(0),
    );
    assert_eq!(
        buckets.get_at_mut(clock.seconds_in_the_past(2)).copied(),
        Some(0),
    );
    assert_eq!(
        buckets.get_at_mut(clock.seconds_in_the_past(3)).copied(),
        None,
    );
    assert_eq!(vec![0, 0, 0], buckets.iter());
}

#[test]
fn with_three_uninitialized_items_tick_one_second() {
    let clock = ManualOffsetClock::default();
    let mut buckets = SecondsBuckets::<u32, _>::with_clock(3, clock.clone());

    assert_eq!(*buckets.current_mut(), 0);
    assert_eq!(
        buckets.get_at_mut(clock.seconds_in_the_past(0)).copied(),
        Some(0),
    );
    assert_eq!(
        buckets.get_at_mut(clock.seconds_in_the_past(1)).copied(),
        Some(0),
    );
    assert_eq!(
        buckets.get_at_mut(clock.seconds_in_the_past(2)).copied(),
        Some(0),
    );
    assert_eq!(
        buckets.get_at_mut(clock.seconds_in_the_past(3)).copied(),
        None,
    );
    assert_eq!(vec![0, 0, 0], buckets.iter());

    *buckets.current_mut() = 1;
    clock.advance_a_second();

    assert_eq!(*buckets.current_mut(), 0);
    assert_eq!(
        buckets.get_at_mut(clock.seconds_in_the_past(0)).copied(),
        Some(0),
    );
    assert_eq!(
        buckets.get_at_mut(clock.seconds_in_the_past(1)).copied(),
        Some(1),
    );
    assert_eq!(
        buckets.get_at_mut(clock.seconds_in_the_past(2)).copied(),
        Some(0),
    );
    assert_eq!(
        buckets.get_at_mut(clock.seconds_in_the_past(3)).copied(),
        None,
    );
    assert_eq!(vec![0, 1, 0], buckets.iter());

    *buckets.current_mut() = 2;
    clock.advance_a_second();

    assert_eq!(*buckets.current_mut(), 0);
    assert_eq!(
        buckets.get_at_mut(clock.seconds_in_the_past(0)).copied(),
        Some(0),
    );
    assert_eq!(
        buckets.get_at_mut(clock.seconds_in_the_past(1)).copied(),
        Some(2),
    );
    assert_eq!(
        buckets.get_at_mut(clock.seconds_in_the_past(2)).copied(),
        Some(1),
    );
    assert_eq!(
        buckets.get_at_mut(clock.seconds_in_the_past(3)).copied(),
        None,
    );
    assert_eq!(vec![0, 2, 1], buckets.iter());

    *buckets.current_mut() = 3;
    clock.advance_a_second();

    assert_eq!(*buckets.current_mut(), 0);
    assert_eq!(
        buckets.get_at_mut(clock.seconds_in_the_past(0)).copied(),
        Some(0),
    );
    assert_eq!(
        buckets.get_at_mut(clock.seconds_in_the_past(1)).copied(),
        Some(3),
    );
    assert_eq!(
        buckets.get_at_mut(clock.seconds_in_the_past(2)).copied(),
        Some(2),
    );
    assert_eq!(
        buckets.get_at_mut(clock.seconds_in_the_past(3)).copied(),
        None,
    );
    assert_eq!(vec![0, 3, 2], buckets.iter());
}

#[test]
fn shift_by_tick() {
    let clock = ManualOffsetClock::default();
    let mut buckets = SecondsBuckets::<u32, _>::with_clock(5, clock.clone());
    *buckets.current_mut() = 1;

    assert_eq!(
        vec![1, 0, 0, 0, 0],
        buckets.iter()
    );
    clock.advance_a_second();
    assert_eq!(
        vec![0, 1, 0, 0, 0],
        buckets.iter()
    );
    clock.advance_a_second();
    assert_eq!(
        vec![0, 0, 1, 0, 0],
        buckets.iter()
    );
    clock.advance_a_second();
    assert_eq!(
        vec![0, 0, 0, 1, 0],
        buckets.iter()
    );
    clock.advance_a_second();
    assert_eq!(
        vec![0, 0, 0, 0, 1],
        buckets.iter()
    );
    clock.advance_a_second();
    assert_eq!(
        vec![0, 0, 0, 0, 0],
        buckets.iter()
    );
}

#[test]
fn shift_by_half_ticks() {
    let clock = ManualOffsetClock::default();
    let mut buckets = SecondsBuckets::<u32, _>::with_clock(3, clock.clone());
    *buckets.current_mut() = 1;

    assert_eq!(vec![1, 0, 0], buckets.iter());
    clock.advance_millis(500);
    assert_eq!(vec![1, 0, 0], buckets.iter());
    clock.advance_millis(500);
    assert_eq!(vec![0, 1, 0], buckets.iter());
    clock.advance_millis(500);
    assert_eq!(vec![0, 1, 0], buckets.iter());
    clock.advance_millis(500);
    assert_eq!(vec![0, 0, 1], buckets.iter());
    clock.advance_millis(500);
    assert_eq!(vec![0, 0, 1], buckets.iter());
    clock.advance_millis(500);
    assert_eq!(vec![0, 0, 0], buckets.iter());
}

#[test]
fn non_equidistant_advance() {
    let clock = ManualOffsetClock::default();
    let mut buckets = SecondsBuckets::<u32, _>::with_clock(5, clock.clone());
    *buckets.current_mut() = 1;

    assert_eq!(
        vec![1, 0, 0, 0, 0],
        buckets.iter()
    );

    clock.advance_millis(1_500);
    assert_eq!(
        vec![0, 1, 0, 0, 0],
        buckets.iter()
    );

    clock.advance_millis(500);
    assert_eq!(
        vec![0, 0, 1, 0, 0],
        buckets.iter()
    );

    clock.advance_millis(1_500);
    assert_eq!(
        vec![0, 0, 0, 1, 0],
        buckets.iter()
    );

    clock.advance_millis(500);
    assert_eq!(
        vec![0, 0, 0, 0, 1],
        buckets.iter()
    );
}

#[test]
fn shift_by_double_tick() {
    let clock = ManualOffsetClock::default();
    let mut buckets = SecondsBuckets::<u32, _>::with_clock(5, clock.clone());
    *buckets.current_mut() = 1;

    assert_eq!(
        vec![1, 0, 0, 0, 0],
        buckets.iter()
    );
    clock.advance_a_second();
    clock.advance_a_second();
    assert_eq!(
        vec![0, 0, 1, 0, 0],
        buckets.iter()
    );
    clock.advance_a_second();
    clock.advance_a_second();
    assert_eq!(
        vec![0, 0, 0, 0, 1],
        buckets.iter()
    );
    clock.advance_a_second();
    assert_eq!(
        vec![0, 0, 0, 0, 0],
        buckets.iter()
    );
}

#[test]
fn empty_by_over_tick_1() {
    let clock = ManualOffsetClock::default();
    let mut buckets = SecondsBuckets::<u32, _>::with_clock(5, clock.clone());
    *buckets.current_mut() = 1;

    assert_eq!(
        vec![1, 0, 0, 0, 0],
        buckets.iter()
    );
    clock.advance_a_second();
    clock.advance_a_second();
    clock.advance_a_second();
    clock.advance_a_second();
    clock.advance_a_second();
    assert_eq!(
        vec![0, 0, 0, 0, 0],
        buckets.iter()
    );
}

#[test]
fn empty_by_over_tick_2() {
    let clock = ManualOffsetClock::default();
    let mut buckets = SecondsBuckets::<u32, _>::with_clock(5, clock.clone());
    *buckets.current_mut() = 1;

    assert_eq!(
        vec![1, 0, 0, 0, 0],
        buckets.iter()
    );
    clock.advance_a_second();
    clock.advance_a_second();
    clock.advance_a_second();
    clock.advance_a_second();
    clock.advance_a_second();
    clock.advance_a_second();
    assert_eq!(
        vec![0, 0, 0, 0, 0],
        buckets.iter()
    );
}
