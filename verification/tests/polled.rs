use metrix::instruments::PollingInstrument;
use metrix::snapshot::{ItemKind, Snapshot};
use metrix::PutsSnapshot;

/// Reports a fixed number of open connections.
struct Connections;

impl PutsSnapshot for Connections {
    fn put_snapshot(&mut self, into: &mut Snapshot, _descriptive: bool) {
        into.push("open".to_string(), ItemKind::UInt(3));
    }
}

#[test]
fn a_polling_instrument_writes_what_its_source_writes_directly() {
    let mut polled = PollingInstrument::new_with_defaults("db", Connections);
    let mut snapshot = Snapshot::default();
    polled.put_snapshot(&mut snapshot, false);
    assert_eq!(snapshot.items, vec![("open".to_string(), ItemKind::UInt(3))]);
}

#[test]
fn a_polling_instrument_groups_what_its_source_writes_under_its_name() {
    let mut polled = PollingInstrument::new_with_defaults("db", Connections);
    polled.set_create_group_with_name(true);
    let mut snapshot = Snapshot::default();
    polled.put_snapshot(&mut snapshot, false);
    let mut group = Snapshot::default();
    group.push("open".to_string(), ItemKind::UInt(3));
    assert_eq!(snapshot.items, vec![("db".to_string(), ItemKind::Snapshot(group))]);
}

#[test]
fn a_descriptive_polling_instrument_writes_its_title_first() {
    let mut polled = PollingInstrument::new_with_defaults("db", Connections);
    polled.set_title("Database");
    let mut snapshot = Snapshot::default();
    polled.put_snapshot(&mut snapshot, true);
    assert_eq!(snapshot.items[0], ("db_title".to_string(), ItemKind::Text("Database".to_string())));
    assert_eq!(snapshot.items[1], ("open".to_string(), ItemKind::UInt(3)));
}
