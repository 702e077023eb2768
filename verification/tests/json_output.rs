use metrix::json_output::JsonConfig;
use metrix::snapshot::{ItemKind, Snapshot};

fn example() -> Snapshot {
    Snapshot {
        items: vec![
            ("flag".to_string(), ItemKind::Boolean(true)),
            ("count".to_string(), ItemKind::UInt(3)),
            (
                "group".to_string(),
                ItemKind::Snapshot(Snapshot {
                    items: vec![
                        ("text".to_string(), ItemKind::Text("hi".to_string())),
                        ("neg".to_string(), ItemKind::Int(-2)),
                        ("off".to_string(), ItemKind::Boolean(false)),
                    ],
                }),
            ),
        ],
    }
}

#[test]
fn default_json_is_compact() {
    assert_eq!(
        example().to_default_json(),
        r#"{"flag":true,"count":3,"group":{"text":"hi","neg":-2,"off":false}}"#
    );
}

#[test]
fn booleans_can_be_written_as_ints() {
    let config = JsonConfig { make_booleans_ints: true, pretty: None };
    assert_eq!(
        example().to_json(&config),
        r#"{"flag":1,"count":3,"group":{"text":"hi","neg":-2,"off":0}}"#
    );
}

#[test]
fn pretty_json_is_indented() {
    let snapshot = Snapshot { items: vec![("a".to_string(), ItemKind::UInt(1))] };
    let config = JsonConfig { make_booleans_ints: false, pretty: Some(2) };
    assert_eq!(snapshot.to_json(&config), "{\n  \"a\": 1\n}");
}

#[test]
fn the_default_config_is_compact_with_booleans() {
    let config = JsonConfig::default();
    assert!(!config.make_booleans_ints);
    assert_eq!(config.pretty, None);
    assert_eq!(Snapshot::default().to_default_json(), "{}");
}

#[test]
fn the_smallest_integer_cannot_be_written() {
    let snapshot = Snapshot {
        items: vec![(
            "g".to_string(),
            ItemKind::Snapshot(Snapshot { items: vec![("min".to_string(), ItemKind::Int(i64::MIN))] }),
        )],
    };
    assert!(!snapshot.writes_as_json(&JsonConfig::default()));
    assert!(example().writes_as_json(&JsonConfig::default()));
}

#[test]
fn indentation_must_fit_sixteen_bits() {
    let config = JsonConfig { make_booleans_ints: false, pretty: Some(40_000) };
    assert!(!example().writes_as_json(&config));
    let flat = Snapshot { items: vec![("a".to_string(), ItemKind::UInt(1))] };
    assert!(flat.writes_as_json(&config));
    assert!(flat.to_json(&config).starts_with("{\n"));
}
