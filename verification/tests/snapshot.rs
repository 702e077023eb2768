use metrix::snapshot::FindItem::{Found, NotFound};
use metrix::snapshot::{find_item, FindDurationItem, ItemKind, Snapshot};
use metrix::time::Duration;

// a -> 23
// b -> c -> 42
fn example() -> (Snapshot, ItemKind) {
    let inner = ItemKind::Snapshot(Snapshot {
        items: vec![("c".to_string(), ItemKind::UInt(42))],
    });
    let inner_copy = ItemKind::Snapshot(Snapshot {
        items: vec![("c".to_string(), ItemKind::UInt(42))],
    });
    let snapshot = Snapshot {
        items: vec![
            ("a".to_string(), ItemKind::UInt(23)),
            ("b".to_string(), inner),
        ],
    };
    (snapshot, inner_copy)
}

#[test]
fn find_follows_the_documented_examples() {
    let (snapshot, inner) = example();

    assert_eq!(snapshot.find("a"), Found(&ItemKind::UInt(23)));
    assert_eq!(snapshot.find("a/x"), Found(&ItemKind::UInt(23)));
    assert_eq!(snapshot.find("/a/x"), Found(&ItemKind::UInt(23)));

    assert_eq!(snapshot.find("b"), Found(&inner));

    assert_eq!(snapshot.find("b/c"), Found(&ItemKind::UInt(42)));
    assert_eq!(snapshot.find("/b//c"), Found(&ItemKind::UInt(42)));

    assert_eq!(snapshot.find("b/c/x"), Found(&ItemKind::UInt(42)));

    assert_eq!(snapshot.find(""), NotFound);

    assert_eq!(snapshot.find("/"), NotFound);
}

#[test]
fn find_item_follows_the_documented_examples() {
    let (snapshot, inner) = example();
    let snapshot = ItemKind::Snapshot(snapshot);

    assert_eq!(find_item(&snapshot, &["a"]), Found(&ItemKind::UInt(23)));
    assert_eq!(find_item(&snapshot, &["a", "x"]), Found(&ItemKind::UInt(23)));
    assert_eq!(find_item(&snapshot, &["", "a", "x"]), Found(&ItemKind::UInt(23)));

    assert_eq!(find_item(&snapshot, &["b"]), Found(&inner));

    assert_eq!(find_item(&snapshot, &["b", "c"]), Found(&ItemKind::UInt(42)));
    assert_eq!(find_item(&snapshot, &["", "b", "", "c"]), Found(&ItemKind::UInt(42)));

    assert_eq!(find_item(&snapshot, &["b", "c", "x"]), Found(&ItemKind::UInt(42)));

    assert_eq!(find_item(&snapshot, &[]), Found(&snapshot));

    assert_eq!(find_item(&snapshot, &[""]), Found(&snapshot));
}

#[test]
fn find_takes_the_first_of_equal_names() {
    let snapshot = Snapshot {
        items: vec![
            ("a".to_string(), ItemKind::UInt(1)),
            ("a".to_string(), ItemKind::UInt(2)),
        ],
    };
    assert_eq!(snapshot.find("a"), Found(&ItemKind::UInt(1)));
    assert_eq!(snapshot.find("z"), NotFound);
}

#[test]
fn find_with_another_separator() {
    let (snapshot, _) = example();
    assert_eq!(snapshot.find_with_separator("b.c", '.'), Found(&ItemKind::UInt(42)));
    assert_eq!(snapshot.find_with_separator("b/c", '.'), NotFound);
}

#[test]
fn found_items_can_be_searched_on() {
    let (snapshot, _) = example();
    let b = snapshot.find("b");
    assert_eq!(b.find("c"), Found(&ItemKind::UInt(42)));
    assert_eq!(b.find("d"), NotFound);
    assert_eq!(snapshot.find("a").find("c"), NotFound);
    assert_eq!(snapshot.find("x").find("c"), NotFound);
    assert_eq!(b.opt(), Some(&ItemKind::Snapshot(Snapshot {
        items: vec![("c".to_string(), ItemKind::UInt(42))],
    })));
    assert_eq!(snapshot.find("x").opt(), None);
}

#[test]
fn found_integers_are_durations() {
    let snapshot = Snapshot {
        items: vec![
            ("u".to_string(), ItemKind::UInt(3)),
            ("i".to_string(), ItemKind::Int(4)),
            ("t".to_string(), ItemKind::Text("x".to_string())),
            ("huge".to_string(), ItemKind::UInt(u64::MAX)),
        ],
    };
    assert_eq!(
        snapshot.find("u").to_duration_nanoseconds(),
        FindDurationItem::Duration(Duration::from_nanos(3))
    );
    assert_eq!(
        snapshot.find("u").to_duration_microseconds(),
        FindDurationItem::Duration(Duration::from_nanos(3_000))
    );
    assert_eq!(
        snapshot.find("i").to_duration_milliseconds(),
        FindDurationItem::Duration(Duration::from_nanos(4_000_000))
    );
    assert_eq!(
        snapshot.find("u").to_duration_seconds(),
        FindDurationItem::Duration(Duration::from_nanos(3_000_000_000))
    );
    assert_eq!(snapshot.find("t").to_duration_seconds(), FindDurationItem::NotADuration);
    assert_eq!(snapshot.find("x").to_duration_seconds(), FindDurationItem::NotFound);
    assert_eq!(
        snapshot.find("huge").to_duration_seconds(),
        FindDurationItem::Duration(Duration::from_nanos(u64::MAX))
    );
    assert_eq!(snapshot.find("u").to_duration_seconds().opt(), Some(Duration::from_secs(3)));
    assert_eq!(snapshot.find("t").to_duration_seconds().opt(), None);
}

#[test]
fn push_appends_and_contains_key_finds_it() {
    let mut snapshot = Snapshot::default();
    assert!(!snapshot.contains_key("a"));
    snapshot.push("a".to_string(), ItemKind::Boolean(true));
    assert!(snapshot.contains_key("a"));
    assert_eq!(snapshot.items.len(), 1);
}
