use metrix::snapshot::{ItemKind, Snapshot};
use metrix::PutsSnapshot;
use metrix::{HandlesObservations, Observation};
use metrix::instruments::{Counter, Update, Updates};
use metrix::time::now;
use metrix::ObservedValue;

#[test]
fn updates() {
    let mut counter = Counter::new("");

    assert_eq!(counter.get(), 0);

    counter.update(&Update::Observation(now()));
    assert_eq!(counter.get(), 1);

    counter.update(&Update::Observations(1, now()));
    assert_eq!(counter.get(), 2);

    counter.update(&Update::Observations(3, now()));
    assert_eq!(counter.get(), 5);

    counter.update(&Update::ObservationWithValue(ObservedValue::from(33u64), now()));
    assert_eq!(counter.get(), 6);
}

#[test]
fn counter_stays_at_its_limit() {
    let mut counter = Counter::new("c");
    counter.update(&Update::Observations(u64::MAX - 1, now()));
    assert_eq!(counter.get(), u64::MAX - 1);
    counter.update(&Update::Observations(5, now()));
    assert_eq!(counter.get(), u64::MAX);
    counter.update(&Update::Observation(now()));
    assert_eq!(counter.get(), u64::MAX);
}

/// Counts every single occurrence twice.
struct Twice;

impl metrix::instruments::ModifiesUpdate<u32> for Twice {
    fn modify(&self, _label: &u32, update: Update) -> Update {
        match update {
            Update::Observation(t) => Update::Observations(2, t),
            other => other,
        }
    }
}

#[test]
fn a_modifier_changes_the_update_before_the_counter_sees_it() {
    let mut adapter = Counter::new("c").for_all_labels::<u32>().modify_with(Twice);
    adapter.handle_observation(&Observation::observed_one_now(7u32));
    assert_eq!(adapter.instrument().get(), 2);
}

#[test]
fn a_title_is_written_under_the_name_followed_by_title() {
    let mut counter = Counter::new("count");
    counter.set_title("Requests");
    let mut snapshot = Snapshot::default();
    counter.put_snapshot(&mut snapshot, true);
    assert_eq!(snapshot.items[0], ("count_title".to_string(), ItemKind::Text("Requests".to_string())));
}
