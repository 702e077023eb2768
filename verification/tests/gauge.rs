use metrix::instruments::{Gauge, LabelFilter, Update, Updates};
use metrix::{HandlesObservations, Observation};
use metrix::time::now;
use metrix::{Decrement, DecrementBy, Increment, IncrementBy, ObservedValue, TimeUnit};

#[test]
fn fresh_node_is_empty() {
    let gauge = Gauge::new("");

    assert_eq!(gauge.get(), None);
}

#[test]
fn empty_gauge_updates_by_increment() {
    let mut gauge = Gauge::new("");
    assert_eq!(gauge.get(), None);

    gauge.update(&Update::ObservationWithValue(Increment.into(), now()));
    assert_eq!(gauge.get(), Some(1));
}

#[test]
fn empty_gauge_updates_by_increment_by() {
    let mut gauge = Gauge::new("");
    assert_eq!(gauge.get(), None);

    gauge.update(&Update::ObservationWithValue(IncrementBy(5).into(), now()));
    assert_eq!(gauge.get(), Some(5));
}

#[test]
fn empty_gauge_updates_by_decrement() {
    let mut gauge = Gauge::new("");
    assert_eq!(gauge.get(), None);

    gauge.update(&Update::ObservationWithValue(Decrement.into(), now()));
    assert_eq!(gauge.get(), Some(-1));
}

#[test]
fn empty_gauge_updates_by_decrement_by() {
    let mut gauge = Gauge::new("");
    assert_eq!(gauge.get(), None);

    gauge.update(&Update::ObservationWithValue(DecrementBy(5).into(), now()));
    assert_eq!(gauge.get(), Some(-5));
}

#[test]
fn empty_gauge_updates_with_value() {
    let mut gauge = Gauge::new("");
    assert_eq!(gauge.get(), None);

    gauge.update(&Update::ObservationWithValue(ObservedValue::from(10u64), now()));
    assert_eq!(gauge.get(), Some(10));
}

#[test]
fn empty_gauge_updates_with_duration() {
    let mut gauge = Gauge::new("");
    assert_eq!(gauge.get(), None);

    gauge.update(&Update::ObservationWithValue(
        (1, TimeUnit::Milliseconds).into(),
        now(),
    ));
    assert_eq!(gauge.get(), Some(1_000));
}

#[test]
fn non_empty_gauge_updates_by_increment() {
    let mut gauge = Gauge::new("");
    gauge.update(&Update::ObservationWithValue(ObservedValue::from(0u64), now()));
    assert_eq!(gauge.get(), Some(0));

    gauge.update(&Update::ObservationWithValue(Increment.into(), now()));
    assert_eq!(gauge.get(), Some(1));
}

#[test]
fn non_empty_gauge_updates_by_increment_by() {
    let mut gauge = Gauge::new("");
    gauge.update(&Update::ObservationWithValue(ObservedValue::from(0u64), now()));
    assert_eq!(gauge.get(), Some(0));

    gauge.update(&Update::ObservationWithValue(IncrementBy(5).into(), now()));
    assert_eq!(gauge.get(), Some(5));
}

#[test]
fn non_empty_gauge_updates_by_decrement() {
    let mut gauge = Gauge::new("");
    gauge.update(&Update::ObservationWithValue(ObservedValue::from(0u64), now()));
    assert_eq!(gauge.get(), Some(0));

    gauge.update(&Update::ObservationWithValue(Decrement.into(), now()));
    assert_eq!(gauge.get(), Some(-1));
}

#[test]
fn non_empty_gauge_updates_by_decrement_by() {
    let mut gauge = Gauge::new("");
    gauge.update(&Update::ObservationWithValue(ObservedValue::from(0u64), now()));
    assert_eq!(gauge.get(), Some(0));

    gauge.update(&Update::ObservationWithValue(DecrementBy(5).into(), now()));
    assert_eq!(gauge.get(), Some(-5));
}

#[test]
fn non_empty_gauge_updates_with_value() {
    let mut gauge = Gauge::new("");
    gauge.update(&Update::ObservationWithValue(ObservedValue::from(0u64), now()));
    assert_eq!(gauge.get(), Some(0));

    gauge.update(&Update::ObservationWithValue(ObservedValue::from(10u64), now()));
    assert_eq!(gauge.get(), Some(10));
}

#[test]
fn non_empty_gauge_updates_with_duration() {
    let mut gauge = Gauge::new("");
    gauge.update(&Update::ObservationWithValue(ObservedValue::from(0u64), now()));
    assert_eq!(gauge.get(), Some(0));

    gauge.update(&Update::ObservationWithValue(
        (1, TimeUnit::Milliseconds).into(),
        now(),
    ));
    assert_eq!(gauge.get(), Some(1_000));
}

#[test]
fn gauge_ignores_updates_without_a_value() {
    let mut gauge = Gauge::new("g");
    assert_eq!(gauge.update(&Update::Observation(now())), 0);
    assert_eq!(gauge.get(), None);
    gauge.update(&Update::ObservationWithValue(ObservedValue::from(7u64), now()));
    assert_eq!(gauge.update(&Update::Observations(3, now())), 0);
    assert_eq!(gauge.get(), Some(7));
}

#[test]
fn gauge_changes_add_up() {
    let mut gauge = Gauge::new("g");
    gauge.update(&Update::ObservationWithValue(ObservedValue::ChangedBy(3), now()));
    gauge.update(&Update::ObservationWithValue(ObservedValue::ChangedBy(-10), now()));
    assert_eq!(gauge.get(), Some(-7));
}

#[test]
fn gauge_leaves_out_an_overflowing_change() {
    let mut gauge = Gauge::new("g");
    gauge.update(&Update::ObservationWithValue(ObservedValue::SignedInteger(i64::MAX), now()));
    let n = gauge.update(&Update::ObservationWithValue(ObservedValue::ChangedBy(1), now()));
    assert_eq!(n, 0);
    assert_eq!(gauge.get(), Some(i64::MAX));
}

/// Turns every value into a change by that much.
struct AsChange;

impl metrix::instruments::ModifiesUpdate<u8> for AsChange {
    fn modify(&self, _label: &u8, update: Update) -> Update {
        match update {
            Update::ObservationWithValue(ObservedValue::SignedInteger(v), t) => {
                Update::ObservationWithValue(ObservedValue::ChangedBy(v), t)
            }
            other => other,
        }
    }
}

#[test]
fn a_modifier_on_a_deltas_only_adapter_decides_what_reaches_the_gauge() {
    let mut adapter = Gauge::new("g").deltas_only(LabelFilter::new(1u8)).modify_with(AsChange);
    let n = adapter.handle_observation(&Observation::observed_one_value_now(1u8, ObservedValue::SignedInteger(4)));
    assert_eq!(n, 1);
    assert_eq!(adapter.gauge().get(), Some(4));
    let n = adapter.handle_observation(&Observation::observed_one_value_now(1u8, ObservedValue::SignedInteger(-1)));
    assert_eq!(n, 1);
    assert_eq!(adapter.gauge().get(), Some(3));
    // A label the filter rejects never reaches the modifier or the gauge.
    let n = adapter.handle_observation(&Observation::observed_one_value_now(2u8, ObservedValue::SignedInteger(9)));
    assert_eq!(n, 0);
    assert_eq!(adapter.gauge().get(), Some(3));
}

#[test]
fn without_a_modifier_a_deltas_only_adapter_drops_plain_values() {
    let mut adapter = Gauge::new("g").deltas_only(LabelFilter::new(1u8));
    let n = adapter.handle_observation(&Observation::observed_one_value_now(1u8, ObservedValue::SignedInteger(4)));
    assert_eq!(n, 0);
    assert_eq!(adapter.gauge().get(), None);
}
