//! Writing snapshots as JSON.
//!
//! The library decides what goes into the JSON document: one object per
//! snapshot, one entry per item, booleans optionally as `1` and `0`. The
//! `json` crate builds the document and writes its text.
use crate::snapshot::{entries_value, entry_value, lemma_entries_value, ItemKind, ItemValue, Snapshot};
use vstd::prelude::*;

verus! {

#[verifier::external_type_specification]
#[verifier::external_body]
pub struct ExJsonValue(::json::JsonValue);

/// How a snapshot is written as JSON.
pub struct JsonConfig {
    /// Serialize `true` as `1` and `false` as `0`.
    pub make_booleans_ints: bool,
    /// Produce pretty JSON with the given indentation if `Some(indentation)`.
    /// If `None` compact JSON is generated.
    pub pretty: Option<u16>,
}

impl Default for JsonConfig {
    fn default() -> (c: JsonConfig)
        ensures
            !c.make_booleans_ints,
            c.pretty is None,
    {
        JsonConfig { make_booleans_ints: false, pretty: None }
    }
}

/// The value that is written for `v`: with `ints` set, a boolean becomes
/// `1` or `0`; the values in a group are handled the same way.
pub open spec fn json_item(v: ItemValue, ints: bool) -> ItemValue
    decreases v, 0nat,
{
    match v {
        ItemValue::Boolean(b) => if ints {
            ItemValue::UInt(if b {
                1
            } else {
                0
            })
        } else {
            ItemValue::Boolean(b)
        },
        ItemValue::Group(es) => {
            proof {
                assert(decreases_to!(v => es));
            }
            ItemValue::Group(json_entries(es, ints, es.len()))
        },
        other => other,
    }
}

/// The entries that are written for the first `n` entries `es`.
pub open spec fn json_entries(es: Seq<(Seq<char>, ItemValue)>, ints: bool, n: nat) -> Seq<
    (Seq<char>, ItemValue),
>
    decreases es, n,
{
    if n == 0 || n > es.len() {
        Seq::empty()
    } else {
        proof {
            assert(decreases_to!(es => es[n - 1]));
        }
        json_entries(es, ints, (n - 1) as nat).push((es[n - 1].0, json_item(es[n - 1].1, ints)))
    }
}

/// One written entry per entry, in order.
proof fn lemma_json_entries(es: Seq<(Seq<char>, ItemValue)>, ints: bool, n: nat)
    requires
        n <= es.len(),
    ensures
        json_entries(es, ints, n).len() == n,
        forall|i: int|
            0 <= i < n ==> #[trigger] json_entries(es, ints, n)[i] == (
                es[i].0,
                json_item(es[i].1, ints),
            ),
    decreases n,
{
    if n > 0 {
        lemma_json_entries(es, ints, (n - 1) as nat);
    }
}

/// Some integer in `v`, at any depth, is `i64::MIN`: the `json` crate
/// negates a negative integer to write it, which overflows for that one.
pub open spec fn holds_min_int(v: ItemValue) -> bool
    decreases v, 0nat,
{
    match v {
        ItemValue::Int(i) => i == i64::MIN,
        ItemValue::Group(es) => {
            proof {
                assert(decreases_to!(v => es));
            }
            entries_hold_min_int(es, es.len())
        },
        _ => false,
    }
}

/// One of the first `n` entries `es` holds `i64::MIN`, at any depth.
pub open spec fn entries_hold_min_int(es: Seq<(Seq<char>, ItemValue)>, n: nat) -> bool
    decreases es, n,
{
    if n == 0 || n > es.len() {
        false
    } else {
        proof {
            assert(decreases_to!(es => es[n - 1]));
        }
        entries_hold_min_int(es, (n - 1) as nat) || holds_min_int(es[n - 1].1)
    }
}

/// How deeply non-empty objects are nested in the JSON text of `v`.
pub open spec fn item_nesting(v: ItemValue) -> nat
    decreases v, 0nat,
{
    match v {
        ItemValue::Group(es) => {
            proof {
                assert(decreases_to!(v => es));
            }
            entries_nesting(es, es.len())
        },
        _ => 0,
    }
}

/// How deeply non-empty objects are nested in the JSON text of an object
/// with the first `n` entries `es`: none for an empty object, else one more
/// than the deepest of its values.
pub open spec fn entries_nesting(es: Seq<(Seq<char>, ItemValue)>, n: nat) -> nat
    decreases es, n,
{
    if n == 0 || n > es.len() {
        0
    } else {
        proof {
            assert(decreases_to!(es => es[n - 1]));
        }
        let before = entries_nesting(es, (n - 1) as nat);
        let this = 1 + item_nesting(es[n - 1].1);
        if before >= this {
            before
        } else {
            this
        }
    }
}

/// The `json` crate can write an object with the entries `es` without an
/// arithmetic overflow: no integer is `i64::MIN` and, where it indents by
/// `spaces`, the deepest indentation (nesting times `spaces`, computed in a
/// `u16`) fits in a `u16`.
pub open spec fn json_writable(es: Seq<(Seq<char>, ItemValue)>, pretty: Option<u16>) -> bool {
    &&& !entries_hold_min_int(es, es.len())
    &&& match pretty {
        Some(spaces) => {
            &&& entries_nesting(es, es.len()) <= u16::MAX
            &&& entries_nesting(es, es.len()) * spaces <= u16::MAX
        },
        None => true,
    }
}

/// `n`, or 65536 where it is larger.
pub open spec fn capped(n: nat) -> u32 {
    if n <= 65536 {
        n as u32
    } else {
        65536
    }
}

/// The compact JSON text that `json::stringify` writes for an object with
/// the entries `entries`.
pub uninterp spec fn compact_json(entries: Seq<(Seq<char>, ItemValue)>) -> Seq<char>;

/// The JSON text that `json::stringify_pretty` writes for an object with
/// the entries `entries`, indented by `spaces`.
pub uninterp spec fn pretty_json(entries: Seq<(Seq<char>, ItemValue)>, spaces: u16) -> Seq<char>;

/// The JSON text of a snapshot with the entries `v` under `config`.
pub open spec fn json_text(v: Seq<(Seq<char>, ItemValue)>, make_booleans_ints: bool, pretty: Option<
    u16,
>) -> Seq<char> {
    let entries = json_entries(v, make_booleans_ints, v.len());
    match pretty {
        Some(spaces) => pretty_json(entries, spaces),
        None => compact_json(entries),
    }
}

/// Builds a `json::JsonValue` object for `snapshot`: `JsonValue::new_object`,
/// then for each item in order an assignment through the object's index
/// (which overwrites an earlier entry under the same key), with the value
/// converted by `From` (texts, booleans, `u64`, `i64`) or, for a sub
/// snapshot, by this function. `json` converts a negative `i64` by negating
/// it, which overflows for `i64::MIN`; `requires` leaves that out. Nothing is
/// stated of the result.
#[verifier::external_body]
fn json_value_of(snapshot: &Snapshot) -> ::json::JsonValue
    requires
        !entries_hold_min_int(snapshot@, snapshot@.len()),
{
    let mut data = ::json::JsonValue::new_object();
    for (key, value) in snapshot.items.iter() {
        data[key.as_str()] = match value {
            ItemKind::Text(t) => t.clone().into(),
            ItemKind::Boolean(b) => (*b).into(),
            ItemKind::UInt(u) => (*u).into(),
            ItemKind::Int(i) => (*i).into(),
            ItemKind::Snapshot(s) => json_value_of(s),
        };
    }
    data
}

/// Writes `snapshot` as compact JSON through `json::stringify`; the text is
/// a function of the snapshot's entries alone.
#[verifier::external_body]
fn stringify_snapshot(snapshot: &Snapshot) -> (s: String)
    requires
        json_writable(snapshot@, None),
    ensures
        s@ == compact_json(snapshot@),
{
    ::json::stringify(json_value_of(snapshot))
}

/// Writes `snapshot` as JSON indented by `spaces` through
/// `json::stringify_pretty`; the text is a function of the snapshot's
/// entries and `spaces` alone. `json` computes each line's indentation as
/// nesting depth times `spaces` in a `u16`; `requires` keeps that in range.
#[verifier::external_body]
fn stringify_snapshot_pretty(snapshot: &Snapshot, spaces: u16) -> (s: String)
    requires
        json_writable(snapshot@, Some(spaces)),
    ensures
        s@ == pretty_json(snapshot@, spaces),
{
    ::json::stringify_pretty(json_value_of(snapshot), spaces)
}

/// A copy of `item` as it is written: with `ints` set, booleans become `1`
/// and `0`.
fn json_ready_item(item: &ItemKind, ints: bool) -> (r: ItemKind)
    ensures
        r.value() == json_item(item.value(), ints),
    decreases item, 1nat,
{
    match item {
        ItemKind::Text(t) => {
            let r = ItemKind::Text(t.clone());
            r
        },
        ItemKind::Boolean(b) => if ints {
            ItemKind::UInt(if *b {
                1
            } else {
                0
            })
        } else {
            ItemKind::Boolean(*b)
        },
        ItemKind::UInt(u) => ItemKind::UInt(*u),
        ItemKind::Int(i) => ItemKind::Int(*i),
        ItemKind::Snapshot(s) => {
            let items = json_ready_entries(&s.items, ints);
            proof {
                lemma_entries_value(s.items@, s.items@.len());
            }
            let r = ItemKind::Snapshot(Snapshot { items });
            assert(r.value() == ItemValue::Group(entries_value(items@, items@.len())));
            r
        },
    }
}

/// Copies of `items` as they are written.
fn json_ready_entries(items: &Vec<(String, ItemKind)>, ints: bool) -> (r: Vec<(String, ItemKind)>)
    ensures
        entries_value(r@, r@.len()) == json_entries(
            entries_value(items@, items@.len()),
            ints,
            items@.len(),
        ),
    decreases items@, 0nat,
{
    let ghost es = entries_value(items@, items@.len());
    proof {
        lemma_entries_value(items@, items@.len());
        lemma_json_entries(es, ints, items@.len());
    }
    let mut r: Vec<(String, ItemKind)> = Vec::new();
    let mut i: usize = 0;
    while i < items.len()
        invariant
            i <= items@.len(),
            r@.len() == i,
            es == entries_value(items@, items@.len()),
            es.len() == items@.len(),
            forall|j: int| 0 <= j < items@.len() ==> #[trigger] es[j] == entry_value(items@[j]),
            forall|j: int|
                0 <= j < items@.len() ==> #[trigger] json_entries(es, ints, items@.len())[j] == (
                    es[j].0,
                    json_item(es[j].1, ints),
                ),
            forall|j: int|
                0 <= j < i ==> #[trigger] entry_value(r@[j]) == json_entries(
                    es,
                    ints,
                    items@.len(),
                )[j],
        decreases items@.len() - i,
    {
        assert(decreases_to!(items@ => items@[i as int]));
        let key = items[i].0.clone();
        let value = json_ready_item(&items[i].1, ints);
        r.push((key, value));
        assert(entry_value(r@[i as int]) == json_entries(es, ints, items@.len())[i as int]);
        i = i + 1;
    }
    proof {
        lemma_entries_value(r@, r@.len());
        assert(entries_value(r@, r@.len()) =~= json_entries(es, ints, items@.len()));
    }
    r
}

/// Whether `item` holds `i64::MIN`, and how deeply objects nest in it
/// (capped at 65536).
fn scan_item(item: &ItemKind) -> (r: (bool, u32))
    ensures
        r.0 == holds_min_int(item.value()),
        r.1 == capped(item_nesting(item.value())),
    decreases item, 1nat,
{
    match item {
        ItemKind::Int(i) => (*i == i64::MIN, 0),
        ItemKind::Snapshot(s) => {
            proof {
                lemma_entries_value(s.items@, s.items@.len());
            }
            scan_items(&s.items)
        },
        _ => (false, 0),
    }
}

/// Whether one of `items` holds `i64::MIN`, and how deeply objects nest in
/// an object with these items (capped at 65536).
fn scan_items(items: &Vec<(String, ItemKind)>) -> (r: (bool, u32))
    ensures
        r.0 == entries_hold_min_int(entries_value(items@, items@.len()), items@.len()),
        r.1 == capped(entries_nesting(entries_value(items@, items@.len()), items@.len())),
    decreases items@, 0nat,
{
    let ghost es = entries_value(items@, items@.len());
    proof {
        lemma_entries_value(items@, items@.len());
    }
    let mut has_min: bool = false;
    let mut depth: u32 = 0;
    let mut i: usize = 0;
    while i < items.len()
        invariant
            i <= items@.len(),
            es == entries_value(items@, items@.len()),
            es.len() == items@.len(),
            forall|j: int| 0 <= j < items@.len() ==> #[trigger] es[j] == entry_value(items@[j]),
            has_min == entries_hold_min_int(es, i as nat),
            depth == capped(entries_nesting(es, i as nat)),
        decreases items@.len() - i,
    {
        assert(decreases_to!(items@ => items@[i as int]));
        let (m, d) = scan_item(&items[i].1);
        assert(es[i as int].1 == items@[i as int].1.value());
        has_min = has_min || m;
        let this: u32 = if d < 65536 {
            d + 1
        } else {
            65536
        };
        if this > depth {
            depth = this;
        }
        i = i + 1;
    }
    (has_min, depth)
}

impl Snapshot {
    /// Whether `to_json` can write this snapshot with `config`: the `json`
    /// crate overflows where an integer is `i64::MIN` or, when indenting,
    /// where nesting depth times indentation does not fit in a `u16`.
    pub fn writes_as_json(&self, config: &JsonConfig) -> (r: bool)
        ensures
            r == json_writable(
                json_entries(self@, config.make_booleans_ints, self@.len()),
                config.pretty,
            ),
    {
        let ready = json_ready_entries(&self.items, config.make_booleans_ints);
        proof {
            lemma_entries_value(self.items@, self.items@.len());
            lemma_entries_value(ready@, ready@.len());
        }
        let (has_min, depth) = scan_items(&ready);
        if has_min {
            return false;
        }
        match config.pretty {
            Some(spaces) => {
                if depth > 65535 {
                    return false;
                }
                let d: u64 = depth as u64;
                let sp: u64 = spaces as u64;
                assert(d * sp <= 65535 * 65535) by (nonlinear_arith)
                    requires
                        d <= 65535,
                        sp <= 65535,
                ;
                d * sp <= 65535
            },
            None => true,
        }
    }

    /// The snapshot as JSON with the default settings: compact, booleans
    /// as `true` and `false`.
    pub fn to_default_json(&self) -> (s: String)
        requires
            json_writable(json_entries(self@, false, self@.len()), None),
        ensures
            s@ == json_text(self@, false, None),
    {
        self.to_json(&JsonConfig::default())
    }

    /// The snapshot as JSON with the given settings. The `json` crate
    /// overflows on some documents; `writes_as_json` tells which.
    pub fn to_json(&self, config: &JsonConfig) -> (s: String)
        requires
            json_writable(
                json_entries(self@, config.make_booleans_ints, self@.len()),
                config.pretty,
            ),
        ensures
            s@ == json_text(self@, config.make_booleans_ints, config.pretty),
    {
        let ready = Snapshot { items: json_ready_entries(&self.items, config.make_booleans_ints) };
        proof {
            lemma_entries_value(self.items@, self.items@.len());
        }
        match config.pretty {
            Some(spaces) => stringify_snapshot_pretty(&ready, spaces),
            None => stringify_snapshot(&ready),
        }
    }
}


proof fn lemma_json_item_unchanged(x: ItemValue)
    ensures
        json_item(x, false) == x,
    decreases x, 0nat,
{
    match x {
        ItemValue::Group(es) => {
            assert(decreases_to!(x => es));
            lemma_json_entries_unchanged(es, es.len());
            assert(es.take(es.len() as int) =~= es);
        },
        _ => {},
    }
}

proof fn lemma_json_entries_unchanged(es: Seq<(Seq<char>, ItemValue)>, n: nat)
    requires
        n <= es.len(),
    ensures
        json_entries(es, false, n) == es.take(n as int),
    decreases es, n,
{
    if n > 0 {
        lemma_json_entries_unchanged(es, (n - 1) as nat);
        assert(decreases_to!(es => es[n - 1]));
        lemma_json_item_unchanged(es[n - 1].1);
        assert(json_entries(es, false, n) =~= es.take(n as int));
    }
}

/// Without `make_booleans_ints` every value is written as it is.
pub proof fn law_values_are_written_as_they_are(v: Seq<(Seq<char>, ItemValue)>)
    ensures
        json_entries(v, false, v.len()) == v,
{
    lemma_json_entries_unchanged(v, v.len());
    assert(v.take(v.len() as int) =~= v);
}

} // verus!
