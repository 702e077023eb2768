use metrix::instruments::jemalloc::{put_allocator_readings, AllocatorReadings, JemallocStats};
use metrix::snapshot::FindItem::{Found, NotFound};
use metrix::snapshot::{ItemKind, Snapshot};
use metrix::PutsSnapshot;

fn all_read() -> AllocatorReadings {
    AllocatorReadings {
        epoch_advanced: true,
        active: Some(1),
        allocated: Some(2),
        mapped: Some(3),
        metadata: Some(4),
        resident: Some(5),
        retained: Some(6),
        narenas: Some(7),
        max_background_threads: Some(8),
    }
}

#[test]
fn readings_are_written_in_groups() {
    let mut snapshot = Snapshot::default();
    put_allocator_readings(&all_read(), &mut snapshot);
    assert_eq!(snapshot.items.len(), 3);
    assert_eq!(snapshot.find("stats/active"), Found(&ItemKind::UInt(1)));
    assert_eq!(snapshot.find("stats/retained"), Found(&ItemKind::UInt(6)));
    assert_eq!(snapshot.find("arenas/narenas"), Found(&ItemKind::UInt(7)));
    assert_eq!(snapshot.find("max_background_threads"), Found(&ItemKind::UInt(8)));
}

#[test]
fn a_failed_statistic_writes_nothing() {
    let mut snapshot = Snapshot::default();
    put_allocator_readings(&AllocatorReadings { mapped: None, ..all_read() }, &mut snapshot);
    assert!(snapshot.items.is_empty());

    put_allocator_readings(&AllocatorReadings { epoch_advanced: false, ..all_read() }, &mut snapshot);
    assert!(snapshot.items.is_empty());
}

#[test]
fn a_failed_arena_count_ends_after_the_statistics() {
    let mut snapshot = Snapshot::default();
    put_allocator_readings(&AllocatorReadings { narenas: None, ..all_read() }, &mut snapshot);
    assert_eq!(snapshot.items.len(), 1);
    assert_eq!(snapshot.find("arenas"), NotFound);

    let mut snapshot = Snapshot::default();
    put_allocator_readings(
        &AllocatorReadings { max_background_threads: None, ..all_read() },
        &mut snapshot,
    );
    assert_eq!(snapshot.items.len(), 2);
    assert_eq!(snapshot.find("max_background_threads"), NotFound);
}

#[test]
fn the_allocator_statistics_come_in_order() {
    let mut snapshot = Snapshot::default();
    JemallocStats.put_snapshot(&mut snapshot, false);
    if let Some((key, _)) = snapshot.items.first() {
        assert_eq!(key, "stats");
    }
}
