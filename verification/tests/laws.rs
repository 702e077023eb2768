use metrix::instruments::LastOccurrenceTracker;
use metrix::instruments::switches::{NonOccurrenceIndicator, OccuranceIndicator, StaircaseTimer};
use metrix::instruments::{
    duration_to_display_value, Clock, Flag, IncDecGauge, LabelFilter, SecondsBuckets, Update,
    Updates,
};
use metrix::snapshot::{ItemKind, Snapshot};
use metrix::time::{Duration, Instant};
use metrix::util::put_default_descriptives;
use metrix::{Descriptive, ObservedValue, TimeUnit, DECR, INCR};

fn at(secs: u64) -> Instant {
    Instant::from_nanos(secs * 1_000_000_000)
}

/// A clock that always reads the same time.
#[derive(Debug, Clone, Copy)]
struct FixedClock(Instant);

impl Clock for FixedClock {
    fn now(&self) -> Instant {
        self.0
    }
}

#[test]
fn a_bucket_gives_back_what_was_written_into_it() {
    let now = at(1_000_000);
    let mut buckets = SecondsBuckets::<u32, FixedClock>::with_clock(3, FixedClock(now));
    *buckets.current_mut_at(now) = 7;
    if let Some(b) = buckets.get_at_mut_at(now, at(999_999)) {
        *b = 5;
    }
    assert_eq!(buckets.iter_at(now), vec![7, 5, 0]);
}

#[test]
fn looking_in_between_changes_nothing() {
    let start = at(1_000_000);
    let mut looked = SecondsBuckets::<u32, FixedClock>::with_clock(3, FixedClock(start));
    let mut not_looked = SecondsBuckets::<u32, FixedClock>::with_clock(3, FixedClock(start));
    *looked.current_mut_at(start) = 1;
    *not_looked.current_mut_at(start) = 1;
    looked.iter_at(at(1_000_001));
    assert_eq!(looked.iter_at(at(1_000_002)), not_looked.iter_at(at(1_000_002)));
}

#[test]
fn accepting_another_label_keeps_the_others() {
    let mut f = LabelFilter::new(1u32);
    f.accept_another(2);
    assert!(f.accepts(&1));
    assert!(f.accepts(&2));
    assert!(!f.accepts(&3));
    assert!(LabelFilter::<u32>::accept_all().accepts(&3));
    assert!(!LabelFilter::<u32>::accept_none().accepts(&3));
}

#[test]
fn a_flag_update_applied_twice_is_applied_once() {
    let mut f = Flag::new("f");
    let update = Update::ObservationWithValue(ObservedValue::Bool(true), at(1));
    f.update(&update);
    assert_eq!(f.get_state(), Some(true));
    f.update(&update);
    assert_eq!(f.get_state(), Some(true));
    f.update(&Update::ObservationWithValue(ObservedValue::UnsignedInteger(0), at(2)));
    assert_eq!(f.get_state(), Some(false));
    f.update(&Update::Observation(at(3)));
    assert_eq!(f.get_state(), Some(false));
}

#[test]
fn a_staircase_timer_stays_on_for_its_time() {
    let mut t = StaircaseTimer::new_with_defaults("t");
    t.set_switch_off_after(Duration::from_secs(10));
    assert!(!t.state_at(at(100)));
    t.update_at(at(100));
    assert!(t.state_at(at(105)));
    assert!(t.state_at(at(110)));
    assert!(!t.state_at(at(111)));
    t.set_invert(true);
    assert!(!t.state_at(at(105)));
    assert!(t.state_at(at(111)));
}

#[test]
fn an_occurrence_fades() {
    let mut i = OccuranceIndicator::new_at("o", at(1_000));
    assert!(i.state_at(at(1_000)));
    assert!(!i.state_at(at(1_001)));
    i.update_at(at(2_000));
    assert!(i.state_at(at(2_060)));
    assert!(!i.state_at(at(2_061)));
    assert!(!i.state_at(at(3_000)));
}

#[test]
fn a_non_occurrence_indicator_turns_on_and_stays_on() {
    let mut i = NonOccurrenceIndicator::new_at("n", at(1_000));
    assert!(!i.state_at(at(1_000)));
    assert!(!i.state_at(at(1_059)));
    assert!(i.state_at(at(1_060)));
    assert!(i.state_at(at(5_000)));
    i.update_at(at(5_000));
    assert!(!i.state_at(at(5_000)));
}

#[test]
fn descriptives_are_written_once_and_not_overwritten() {
    let mut t = StaircaseTimer::new_with_defaults("t");
    t.set_title("inner");
    struct Outer;
    impl Descriptive for Outer {
        fn title(&self) -> Option<&str> {
            Some("outer")
        }
        fn description(&self) -> Option<&str> {
            None
        }
    }
    let mut snapshot = Snapshot::default();
    put_default_descriptives(&Outer, &mut snapshot, true);
    put_default_descriptives(&Outer, &mut snapshot, true);
    assert_eq!(snapshot.items.len(), 1);
    assert_eq!(snapshot.items[0].1, ItemKind::Text("outer".to_string()));
    put_default_descriptives(&Outer, &mut snapshot, false);
    assert_eq!(snapshot.items.len(), 1);
}

#[test]
fn a_finer_unit_and_back_gives_the_time_back() {
    let millis = duration_to_display_value(1_234, TimeUnit::Seconds, TimeUnit::Milliseconds);
    assert_eq!(millis, 1_234_000);
    assert_eq!(duration_to_display_value(millis, TimeUnit::Milliseconds, TimeUnit::Seconds), 1_234);
}

#[test]
fn extrema_enclose_the_value() {
    let mut g = IncDecGauge::new_at("g", at(1_000));
    g.set_memorize_extrema(Duration::from_secs(60));
    g.update_at(&Update::ObservationWithValue(ObservedValue::UnsignedInteger(INCR), at(1_001)), at(1_001));
    g.update_at(&Update::ObservationWithValue(ObservedValue::UnsignedInteger(INCR), at(1_002)), at(1_002));
    g.update_at(&Update::ObservationWithValue(ObservedValue::ChangedBy(-5), at(1_003)), at(1_003));
    assert_eq!(g.get(), 2);
    for _ in 0..5 {
        g.update_at(&Update::ObservationWithValue(ObservedValue::UnsignedInteger(DECR), at(1_003)), at(1_003));
    }
    assert_eq!(g.get(), -3);
    let mut snapshot = Snapshot::default();
    g.put_snapshot_at(&mut snapshot, false, at(1_004));
    assert_eq!(snapshot.find("g_peak").opt(), Some(&ItemKind::Int(2)));
    assert_eq!(snapshot.find("g_bottom").opt(), Some(&ItemKind::Int(-3)));
}

#[test]
fn a_tracker_without_occurrence_can_show_zero() {
    let mut t = LastOccurrenceTracker::new("last");
    let mut snapshot = Snapshot::default();
    t.put_snapshot_at(&mut snapshot, false, at(10));
    assert!(snapshot.items.is_empty());
    t.set_make_none_zero(true);
    t.put_snapshot_at(&mut snapshot, false, at(10));
    assert_eq!(snapshot.items, vec![("last".to_string(), ItemKind::Int(0))]);
}

#[test]
fn a_value_written_at_the_start_moves_back() {
    let start = at(2_000);
    let mut buckets = SecondsBuckets::<u32, FixedClock>::with_clock_at(3, FixedClock(start), start);
    *buckets.current_mut_at(start) = 7;
    assert_eq!(buckets.iter_at(at(2_001)), vec![0, 7, 0]);
    assert_eq!(buckets.iter_at(at(2_002)), vec![0, 0, 7]);
    assert_eq!(buckets.iter_at(at(2_003)), vec![0, 0, 0]);
    assert_eq!(buckets.len(), 3);
}

#[test]
fn increments_and_decrements_add_up() {
    let mut g = IncDecGauge::new_at("g", at(1));
    for (i, x) in [INCR, INCR, DECR, 5, INCR].iter().enumerate() {
        let t = at(2 + i as u64);
        g.update_at(&Update::ObservationWithValue(ObservedValue::UnsignedInteger(*x), t), t);
    }
    g.update_at(&Update::Observation(at(9)), at(9));
    assert_eq!(g.get(), 2);
}

#[test]
fn looks_shift_the_buckets_by_the_seconds_begun() {
    let start = at(3_000);
    let mut buckets = SecondsBuckets::<u32, FixedClock>::with_clock_at(4, FixedClock(start), start);
    *buckets.current_mut_at(start) = 1;
    buckets.iter_at(Instant::from_nanos(3_000_500_000_000));
    assert!(buckets.get_at_mut_at(Instant::from_nanos(3_001_200_000_000), at(3_100)).is_none());
    assert_eq!(buckets.iter_at(Instant::from_nanos(3_002_100_000_000)), vec![0, 0, 1, 0]);
}

#[test]
fn the_number_of_buckets_stays_over_writes_and_looks() {
    let start = at(4_000);
    let mut buckets = SecondsBuckets::<u32, FixedClock>::with_clock_at(4, FixedClock(start), start);
    *buckets.current_mut_at(start) = 1;
    if let Some(b) = buckets.get_at_mut_at(Instant::from_nanos(4_001_200_000_000), at(4_000)) {
        *b = 2;
    }
    assert_eq!(buckets.len(), 4);
    assert_eq!(buckets.iter_at(Instant::from_nanos(4_002_100_000_000)), vec![0, 0, 2, 0]);
    assert_eq!(buckets.iter_at(at(4_010)).len(), 4);
    assert_eq!(buckets.len(), 4);
}
