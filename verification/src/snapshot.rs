//! Values measured at a point in time.
use crate::time::{Duration, NANOS_PER_MICRO, NANOS_PER_MILLI, NANOS_PER_SEC};
use vstd::prelude::*;

verus! {

/// A `Snapshot` which contains measured values at a point in time.
#[derive(Debug, PartialEq)]
pub struct Snapshot {
    pub items: Vec<(String, ItemKind)>,
}

/// A value in a `Snapshot`.
#[derive(Debug, PartialEq)]
pub enum ItemKind {
    /// Simply a `String` in the `Snapshot`.
    Text(String),
    Boolean(bool),
    UInt(u64),
    Int(i64),
    Snapshot(Snapshot),
}

/// What an `ItemKind` holds, with texts as character sequences.
pub enum ItemValue {
    Text(Seq<char>),
    Boolean(bool),
    UInt(u64),
    Int(i64),
    Group(Seq<(Seq<char>, ItemValue)>),
}

impl ItemKind {
    /// What this item holds.
    pub open spec fn value(self) -> ItemValue
        decreases self, 0nat,
    {
        match self {
            ItemKind::Text(t) => ItemValue::Text(t@),
            ItemKind::Boolean(b) => ItemValue::Boolean(b),
            ItemKind::UInt(u) => ItemValue::UInt(u),
            ItemKind::Int(i) => ItemValue::Int(i),
            ItemKind::Snapshot(s) => {
                proof {
                    assert(decreases_to!(self => s.items@));
                }
                ItemValue::Group(entries_value(s.items@, s.items@.len()))
            },
        }
    }
}

/// What the first `n` entries of `items` hold.
pub open spec fn entries_value(items: Seq<(String, ItemKind)>, n: nat) -> Seq<(Seq<char>, ItemValue)>
    decreases items, n,
{
    if n == 0 || n > items.len() {
        Seq::empty()
    } else {
        proof {
            assert(decreases_to!(items => items[n - 1]));
        }
        entries_value(items, (n - 1) as nat).push((items[n - 1].0@, items[n - 1].1.value()))
    }
}

impl View for Snapshot {
    /// The entries, keys and values.
    type V = Seq<(Seq<char>, ItemValue)>;

    open spec fn view(&self) -> Seq<(Seq<char>, ItemValue)> {
        entries_value(self.items@, self.items@.len())
    }
}

/// The entry that a key and an item make.
pub open spec fn entry_value(e: (String, ItemKind)) -> (Seq<char>, ItemValue) {
    (e.0@, e.1.value())
}

/// The view of the first `n` entries: one entry per item, in order.
pub proof fn lemma_entries_value(items: Seq<(String, ItemKind)>, n: nat)
    requires
        n <= items.len(),
    ensures
        entries_value(items, n).len() == n,
        forall|i: int| 0 <= i < n ==> #[trigger] entries_value(items, n)[i] == entry_value(items[i]),
    decreases n,
{
    if n > 0 {
        lemma_entries_value(items, (n - 1) as nat);
    }
}

/// Appending an item appends its entry to the view.
pub proof fn lemma_entries_value_push(items: Seq<(String, ItemKind)>, e: (String, ItemKind))
    ensures
        entries_value(items.push(e), items.len() + 1) == entries_value(items, items.len()).push(
            entry_value(e),
        ),
{
    lemma_entries_value(items, items.len());
    lemma_entries_value(items.push(e), items.len() + 1);
    assert(entries_value(items.push(e), items.len() + 1) =~= entries_value(
        items,
        items.len(),
    ).push(entry_value(e)));
}

/// `v` holds an entry with key `key`.
pub open spec fn has_key(v: Seq<(Seq<char>, ItemValue)>, key: Seq<char>) -> bool {
    exists|i: int| 0 <= i < v.len() && (#[trigger] v[i]).0 == key
}

impl Snapshot {
    /// An empty snapshot.
    pub fn new() -> (s: Snapshot)
        ensures
            s@ == Seq::<(Seq<char>, ItemValue)>::empty(),
            s.items@.len() == 0,
    {
        Snapshot { items: Vec::new() }
    }

    /// Appends the item `v` under the key `k`.
    pub fn push(&mut self, k: String, v: ItemKind)
        ensures
            final(self).items@ == old(self).items@.push((k, v)),
            final(self)@ == old(self)@.push((k@, v.value())),
    {
        proof {
            lemma_entries_value_push(self.items@, (k, v));
        }
        self.items.push((k, v));
    }

    /// Whether an entry has the key `key`.
    pub fn contains_key(&self, key: &str) -> (r: bool)
        ensures
            r == has_key(self@, key@),
    {
        proof {
            lemma_entries_value(self.items@, self.items@.len());
        }
        let wanted = String::from_str(key);
        let mut i: usize = 0;
        while i < self.items.len()
            invariant
                i <= self.items@.len(),
                self@.len() == self.items@.len(),
                forall|j: int| 0 <= j < self@.len() ==> #[trigger] self@[j] == entry_value(self.items@[j]),
                wanted@ == key@,
                forall|j: int| 0 <= j < i ==> (#[trigger] self@[j]).0 != key@,
            decreases self.items@.len() - i,
        {
            if self.items[i].0 == wanted {
                assert(self@[i as int].0 == key@);
                return true;
            }
            i = i + 1;
        }
        false
    }
}

impl Default for Snapshot {
    fn default() -> (s: Snapshot)
        ensures
            s@ == Seq::<(Seq<char>, ItemValue)>::empty(),
            s.items@.len() == 0,
    {
        Snapshot::new()
    }
}


/// The index of the first entry of `items` with the key `key`.
pub open spec fn is_first_with_key(items: Seq<(String, ItemKind)>, key: Seq<char>, i: int) -> bool {
    &&& 0 <= i < items.len()
    &&& items[i].0@ == key
    &&& forall|j: int| 0 <= j < i ==> (#[trigger] items[j]).0@ != key
}

/// The first item under the key `key`, if there is one.
pub open spec fn first_with_key(items: Seq<(String, ItemKind)>, key: Seq<char>) -> Option<ItemKind> {
    if exists|i: int| is_first_with_key(items, key, i) {
        Some(items[choose|i: int| is_first_with_key(items, key, i)].1)
    } else {
        None
    }
}

/// There is only one first entry with a key.
proof fn lemma_first_with_key_unique(items: Seq<(String, ItemKind)>, key: Seq<char>, i: int, k: int)
    requires
        is_first_with_key(items, key, i),
        is_first_with_key(items, key, k),
    ensures
        i == k,
{
    if i < k {
        assert(items[i].0@ != key);
    } else if k < i {
        assert(items[k].0@ != key);
    }
}

/// What a search from `item` along the segments `path` finds.
///
/// An empty path finds the item itself, empty segments are skipped, a
/// segment leads to the first entry of a sub snapshot under that key, and a
/// value that is not a snapshot is found whatever of the path is left.
pub open spec fn find_item_spec(item: ItemKind, path: Seq<Seq<char>>) -> Option<ItemKind>
    decreases path.len(),
{
    if path.len() == 0 {
        Some(item)
    } else if path[0].len() == 0 {
        find_item_spec(item, path.drop_first())
    } else {
        match item {
            ItemKind::Snapshot(s) => match first_with_key(s.items@, path[0]) {
                Some(next) => find_item_spec(next, path.drop_first()),
                None => None,
            },
            other => Some(other),
        }
    }
}

/// The result of searching a `Snapshot`.
#[derive(Debug, PartialEq)]
pub enum FindItem<'a> {
    Found(&'a ItemKind),
    NotFound,
}

impl<'a> FindItem<'a> {
    /// The item found, if any.
    pub open spec fn found(self) -> Option<ItemKind> {
        match self {
            FindItem::Found(item) => Some(*item),
            FindItem::NotFound => None,
        }
    }
}

/// The texts of a sequence of segments.
pub open spec fn segments_view(path: Seq<&str>) -> Seq<Seq<char>> {
    path.map_values(|s: &str| s@)
}

/// The index of the first entry of `items` under the key `key`.
fn first_index_with_key(items: &Vec<(String, ItemKind)>, key: &str) -> (r: Option<usize>)
    ensures
        match r {
            Some(i) => is_first_with_key(items@, key@, i as int),
            None => !exists|i: int| is_first_with_key(items@, key@, i),
        },
{
    let wanted = String::from_str(key);
    let mut i: usize = 0;
    while i < items.len()
        invariant
            i <= items@.len(),
            wanted@ == key@,
            forall|j: int| 0 <= j < i ==> (#[trigger] items@[j]).0@ != key@,
        decreases items@.len() - i,
    {
        if items[i].0 == wanted {
            return Some(i);
        }
        i = i + 1;
    }
    proof {
        assert forall|k: int| !is_first_with_key(items@, key@, k) by {
            if 0 <= k < items@.len() {
                assert(items@[k].0@ != key@);
            }
        }
    }
    None
}

/// The first item of `items` under the key `key`.
fn first_item_with_key<'b>(items: &'b Vec<(String, ItemKind)>, key: &str) -> (r: Option<&'b ItemKind>)
    ensures
        match r {
            Some(item) => first_with_key(items@, key@) == Some(*item),
            None => first_with_key(items@, key@) is None,
        },
{
    match first_index_with_key(items, key) {
        Some(i) => {
            proof {
                let c = choose|k: int| is_first_with_key(items@, key@, k);
                lemma_first_with_key_unique(items@, key@, i as int, c);
            }
            Some(&items[i].1)
        },
        None => None,
    }
}

/// Searches from `item` along `path`, starting with the segment at `start`.
fn find_item_from<'b>(item: &'b ItemKind, path: &[&str], start: usize) -> (r: FindItem<'b>)
    requires
        start <= path@.len(),
    ensures
        r.found() == find_item_spec(*item, segments_view(path@).skip(start as int)),
    decreases path@.len() - start,
{
    let ghost rest = segments_view(path@).skip(start as int);
    if start == path.len() {
        return FindItem::Found(item);
    }
    assert(rest.drop_first() =~= segments_view(path@).skip(start + 1));
    assert(rest[0] == path@[start as int]@);
    let segment: &str = path[start];
    if segment.is_empty() {
        return find_item_from(item, path, start + 1);
    }
    match item {
        ItemKind::Snapshot(snapshot) => match first_item_with_key(&snapshot.items, segment) {
            Some(next) => find_item_from(next, path, start + 1),
            None => FindItem::NotFound,
        },
        _ => FindItem::Found(item),
    }
}

/// Finds an item in an `ItemKind` along the segments of `path`.
///
/// Since a `Snapshot` may contain multiple items with the same name only the
/// first found is returned. If a prefix of a path leads to a value that
/// value is returned and the rest of the path is discarded. Empty segments
/// of a path are ignored.
pub fn find_item<'b>(item: &'b ItemKind, path: &[&str]) -> (r: FindItem<'b>)
    ensures
        r.found() == find_item_spec(*item, segments_view(path@)),
{
    assert(segments_view(path@).skip(0) =~= segments_view(path@));
    find_item_from(item, path, 0)
}


/// Splitting the first `i` characters of `s` at `sep`: the non-empty
/// segments completed so far and where the current segment starts.
pub open spec fn split_scan(s: Seq<char>, sep: char, i: nat) -> (Seq<Seq<char>>, int)
    decreases i,
{
    if i == 0 {
        (Seq::empty(), 0)
    } else {
        let (done, start) = split_scan(s, sep, (i - 1) as nat);
        if s[i - 1] == sep {
            if start < i - 1 {
                (done.push(s.subrange(start, i - 1)), i as int)
            } else {
                (done, i as int)
            }
        } else {
            (done, start)
        }
    }
}

/// The non-empty segments of `s` between the separators `sep`, in order.
pub open spec fn path_segments(s: Seq<char>, sep: char) -> Seq<Seq<char>> {
    let (done, start) = split_scan(s, sep, s.len());
    if start < s.len() {
        done.push(s.subrange(start, s.len() as int))
    } else {
        done
    }
}

/// The non-empty segments of `path` between the separators `separator`.
fn path_segments_of<'b>(path: &'b str, separator: char) -> (r: Vec<&'b str>)
    ensures
        segments_view(r@) == path_segments(path@, separator),
{
    let n = path.unicode_len();
    let mut segments: Vec<&'b str> = Vec::new();
    let mut start: usize = 0;
    let mut i: usize = 0;
    while i < n
        invariant
            n == path@.len(),
            start <= i <= n,
            split_scan(path@, separator, i as nat) == (segments_view(segments@), start as int),
        decreases n - i,
    {
        let c = path.get_char(i);
        if c == separator {
            if start < i {
                let segment = path.substring_char(start, i);
                segments.push(segment);
                assert(segments_view(segments@) =~= split_scan(path@, separator, i as nat).0.push(
                    segment@,
                ));
            }
            start = i + 1;
        }
        i = i + 1;
    }
    if start < n {
        let segment = path.substring_char(start, n);
        segments.push(segment);
        assert(segments_view(segments@) =~= split_scan(path@, separator, n as nat).0.push(
            segment@,
        ));
    }
    segments
}

/// What searching the entries `items` along `path` finds: the first segment
/// picks an entry, the rest goes on from there as `find_item_spec` does.
pub open spec fn find_in_entries_spec(items: Seq<(String, ItemKind)>, path: Seq<Seq<char>>) -> Option<ItemKind> {
    if path.len() == 0 {
        None
    } else {
        match first_with_key(items, path[0]) {
            Some(item) => find_item_spec(item, path.drop_first()),
            None => None,
        }
    }
}

impl Snapshot {
    /// Finds an item on a path with the given separator.
    ///
    /// Same as `find` but with a configurable separator.
    pub fn find_with_separator<'b>(&'b self, path: &str, separator: char) -> (r: FindItem<'b>)
        ensures
            r.found() == find_in_entries_spec(self.items@, path_segments(path@, separator)),
    {
        let segments = path_segments_of(path, separator);
        if segments.len() == 0 {
            return FindItem::NotFound;
        }
        match first_item_with_key(&self.items, segments[0]) {
            Some(item) => {
                let found = find_item_from(item, segments.as_slice(), 1);
                assert(segments_view(segments@).skip(1) =~= segments_view(segments@).drop_first());
                found
            },
            None => FindItem::NotFound,
        }
    }

    /// Finds an item on a path with `/` as the separator.
    ///
    /// An empty path finds nothing. Since a `Snapshot` may contain multiple
    /// items with the same name only the first found is returned. If a
    /// prefix of a path leads to a value that value is returned and the rest
    /// of the path is discarded. Empty segments of a path are ignored.
    pub fn find<'b>(&'b self, path: &str) -> (r: FindItem<'b>)
        ensures
            r.found() == find_in_entries_spec(self.items@, path_segments(path@, '/')),
    {
        self.find_with_separator(path, '/')
    }
}


/// The result of reading a found item as a span of time.
#[derive(Clone, Copy, Debug, PartialEq, Eq, Structural)]
pub enum FindDurationItem {
    NotFound,
    NotADuration,
    Duration(Duration),
}

impl FindDurationItem {
    /// The span of time, if there is one.
    pub fn opt(self) -> (r: Option<Duration>)
        ensures
            r == match self {
                FindDurationItem::Duration(d) => Some(d),
                _ => None,
            },
    {
        match self {
            FindDurationItem::Duration(d) => Some(d),
            _ => None,
        }
    }
}

/// `v * nanos_per_unit`, or `u64::MAX` where the product does not fit.
pub open spec fn saturating_mul_spec(v: u64, nanos_per_unit: u64) -> u64 {
    if v * nanos_per_unit <= u64::MAX {
        (v * nanos_per_unit) as u64
    } else {
        u64::MAX
    }
}

/// What reading a found item as a number of units of `nanos_per_unit`
/// nanoseconds gives: an integer is taken as a `u64` (a negative one by
/// its two's complement), and a span too long for 64 bits of nanoseconds is
/// cut to the longest one.
pub open spec fn duration_of(found: Option<ItemKind>, nanos_per_unit: u64) -> FindDurationItem {
    match found {
        Some(ItemKind::UInt(v)) => FindDurationItem::Duration(
            Duration { nanos: saturating_mul_spec(v, nanos_per_unit) },
        ),
        Some(ItemKind::Int(v)) => FindDurationItem::Duration(
            Duration { nanos: saturating_mul_spec(v as u64, nanos_per_unit) },
        ),
        Some(_) => FindDurationItem::NotADuration,
        None => FindDurationItem::NotFound,
    }
}

/// The item that an optional reference lends.
pub open spec fn opt_item(o: Option<&ItemKind>) -> Option<ItemKind> {
    match o {
        Some(item) => Some(*item),
        None => None,
    }
}

/// What searching on from a found item finds: only a snapshot has entries.
pub open spec fn find_on_spec(found: Option<ItemKind>, path: Seq<Seq<char>>) -> Option<ItemKind> {
    match found {
        Some(ItemKind::Snapshot(s)) => find_in_entries_spec(s.items@, path),
        _ => None,
    }
}

impl<'a> FindItem<'a> {
    /// The item found, if any.
    pub fn opt(&self) -> (r: Option<&'a ItemKind>)
        ensures
            opt_item(r) == self.found(),
    {
        match self {
            FindItem::Found(v) => Some(*v),
            FindItem::NotFound => None,
        }
    }

    /// Searches on from the found item, which must be a snapshot, with the
    /// given separator.
    pub fn find_with_separator(&self, path: &str, separator: char) -> (r: FindItem<'a>)
        ensures
            r.found() == find_on_spec(self.found(), path_segments(path@, separator)),
    {
        match self {
            FindItem::Found(ItemKind::Snapshot(snapshot)) => snapshot.find_with_separator(
                path,
                separator,
            ),
            _ => FindItem::NotFound,
        }
    }

    /// Searches on from the found item, which must be a snapshot, with `/`
    /// as the separator.
    pub fn find(&self, path: &str) -> (r: FindItem<'a>)
        ensures
            r.found() == find_on_spec(self.found(), path_segments(path@, '/')),
    {
        self.find_with_separator(path, '/')
    }

    fn to_duration_in(&self, nanos_per_unit: u64) -> (r: FindDurationItem)
        ensures
            r == duration_of(self.found(), nanos_per_unit),
    {
        match self {
            FindItem::Found(v) => match v {
                ItemKind::UInt(v) => FindDurationItem::Duration(
                    saturating_duration(*v, nanos_per_unit),
                ),
                ItemKind::Int(v) => FindDurationItem::Duration(
                    saturating_duration(*v as u64, nanos_per_unit),
                ),
                _ => FindDurationItem::NotADuration,
            },
            FindItem::NotFound => FindDurationItem::NotFound,
        }
    }

    /// The found integer as a number of nanoseconds.
    pub fn to_duration_nanoseconds(&self) -> (r: FindDurationItem)
        ensures
            r == duration_of(self.found(), 1),
    {
        self.to_duration_in(1)
    }

    /// The found integer as a number of microseconds.
    pub fn to_duration_microseconds(&self) -> (r: FindDurationItem)
        ensures
            r == duration_of(self.found(), NANOS_PER_MICRO),
    {
        self.to_duration_in(NANOS_PER_MICRO)
    }

    /// The found integer as a number of milliseconds.
    pub fn to_duration_milliseconds(&self) -> (r: FindDurationItem)
        ensures
            r == duration_of(self.found(), NANOS_PER_MILLI),
    {
        self.to_duration_in(NANOS_PER_MILLI)
    }

    /// The found integer as a number of seconds.
    pub fn to_duration_seconds(&self) -> (r: FindDurationItem)
        ensures
            r == duration_of(self.found(), NANOS_PER_SEC),
    {
        self.to_duration_in(NANOS_PER_SEC)
    }
}

/// `v` units of `nanos_per_unit` nanoseconds, cut to the longest span.
fn saturating_duration(v: u64, nanos_per_unit: u64) -> (d: Duration)
    ensures
        d.nanos == saturating_mul_spec(v, nanos_per_unit),
{
    match v.checked_mul(nanos_per_unit) {
        Some(n) => Duration { nanos: n },
        None => Duration { nanos: u64::MAX },
    }
}


/// A search along an empty path finds the item itself.
pub proof fn law_empty_path_finds_the_item(item: ItemKind)
    ensures
        find_item_spec(item, Seq::empty()) == Some(item),
{
}

/// Empty segments of a path are ignored: inserting one anywhere does not
/// change what a search finds.
pub proof fn law_empty_segments_are_ignored(item: ItemKind, path: Seq<Seq<char>>, k: int)
    requires
        0 <= k <= path.len(),
    ensures
        find_item_spec(item, path.insert(k, Seq::empty())) == find_item_spec(item, path),
    decreases path.len(),
{
    let q = path.insert(k, Seq::<char>::empty());
    if k == 0 {
        assert(q.drop_first() =~= path);
    } else {
        assert(q[0] == path[0]);
        assert(q.drop_first() =~= path.drop_first().insert(k - 1, Seq::<char>::empty()));
        if path[0].len() == 0 {
            law_empty_segments_are_ignored(item, path.drop_first(), k - 1);
        } else {
            match item {
                ItemKind::Snapshot(snap) => match first_with_key(snap.items@, path[0]) {
                    Some(next) => law_empty_segments_are_ignored(next, path.drop_first(), k - 1),
                    None => {},
                },
                _ => {},
            }
        }
    }
}

/// A search from a value that is not a snapshot finds that value, whatever
/// the path.
proof fn lemma_value_is_found_whatever_the_path(item: ItemKind, path: Seq<Seq<char>>)
    requires
        !(item is Snapshot),
    ensures
        find_item_spec(item, path) == Some(item),
    decreases path.len(),
{
    if path.len() > 0 {
        lemma_value_is_found_whatever_the_path(item, path.drop_first());
    }
}

/// If a prefix of a path leads to a value that is not a snapshot, that
/// value is found and the rest of the path is discarded.
pub proof fn law_a_value_ends_the_search(item: ItemKind, path: Seq<Seq<char>>, rest: Seq<Seq<char>>)
    requires
        find_item_spec(item, path) matches Some(v) && !(v is Snapshot),
    ensures
        find_item_spec(item, path + rest) == find_item_spec(item, path),
    decreases path.len(),
{
    if path.len() == 0 {
        assert(path + rest =~= rest);
        lemma_value_is_found_whatever_the_path(item, rest);
    } else {
        let q = path + rest;
        assert(q[0] == path[0]);
        assert(q.drop_first() =~= path.drop_first() + rest);
        if path[0].len() == 0 {
            law_a_value_ends_the_search(item, path.drop_first(), rest);
        } else {
            match item {
                ItemKind::Snapshot(snap) => match first_with_key(snap.items@, path[0]) {
                    Some(next) => law_a_value_ends_the_search(next, path.drop_first(), rest),
                    None => {},
                },
                _ => {},
            }
        }
    }
}

/// Searching a snapshot along a path of non-empty segments is searching
/// the item that holds the snapshot along that path.
pub proof fn law_find_is_find_item_on_the_snapshot(s: Snapshot, path: Seq<Seq<char>>)
    requires
        path.len() > 0,
        path[0].len() > 0,
    ensures
        find_in_entries_spec(s.items@, path) == find_item_spec(ItemKind::Snapshot(s), path),
{
}

/// What splitting the first `i` characters gives: non-empty segments
/// without separators, and a current segment without separators.
proof fn lemma_split_scan_segments(s: Seq<char>, sep: char, i: nat)
    requires
        i <= s.len(),
    ensures
        ({
            let (done, start) = split_scan(s, sep, i);
            &&& 0 <= start <= i
            &&& forall|j: int| 0 <= j < done.len() ==> (#[trigger] done[j]).len() > 0
            &&& forall|j: int| 0 <= j < done.len() ==> !(#[trigger] done[j]).contains(sep)
            &&& forall|j: int| start <= j < i ==> s[j] != sep
        }),
    decreases i,
{
    if i > 0 {
        lemma_split_scan_segments(s, sep, (i - 1) as nat);
        let (done, start) = split_scan(s, sep, (i - 1) as nat);
        if s[i - 1] == sep && start < i - 1 {
            let seg = s.subrange(start, i - 1);
            assert(!seg.contains(sep)) by {
                if seg.contains(sep) {
                    let j = choose|j: int| 0 <= j < seg.len() && seg[j] == sep;
                    assert(s[start + j] == sep);
                }
            }
            let d2 = done.push(seg);
            assert forall|j: int| 0 <= j < d2.len() implies !(#[trigger] d2[j]).contains(sep) by {
                if j < done.len() {
                    assert(d2[j] == done[j]);
                }
            }
        }
    }
}

/// The segments of a path are non-empty and hold no separator.
pub proof fn law_path_segments_are_plain(s: Seq<char>, sep: char)
    ensures
        forall|j: int|
            0 <= j < path_segments(s, sep).len() ==> (#[trigger] path_segments(s, sep)[j]).len() > 0
                && !path_segments(s, sep)[j].contains(sep),
{
    lemma_split_scan_segments(s, sep, s.len());
    let (done, start) = split_scan(s, sep, s.len());
    if start < s.len() {
        let seg = s.subrange(start, s.len() as int);
        assert(!seg.contains(sep)) by {
            if seg.contains(sep) {
                let j = choose|j: int| 0 <= j < seg.len() && seg[j] == sep;
                assert(s[start + j] == sep);
            }
        }
        let d2 = done.push(seg);
        assert forall|j: int| 0 <= j < d2.len() implies (#[trigger] d2[j]).len() > 0 && !d2[j].contains(sep) by {
            if j < done.len() {
                assert(d2[j] == done[j]);
            }
        }
    }
}


impl From<u64> for ItemKind {
    fn from(v: u64) -> (r: Self) {
        ItemKind::UInt(v)
    }
}

impl vstd::std_specs::convert::FromSpecImpl<u64> for ItemKind {
    open spec fn obeys_from_spec() -> bool {
        true
    }

    open spec fn from_spec(v: u64) -> Self {
        ItemKind::UInt(v)
    }
}

impl From<u32> for ItemKind {
    fn from(v: u32) -> (r: Self) {
        ItemKind::UInt(v as u64)
    }
}

impl vstd::std_specs::convert::FromSpecImpl<u32> for ItemKind {
    open spec fn obeys_from_spec() -> bool {
        true
    }

    open spec fn from_spec(v: u32) -> Self {
        ItemKind::UInt(v as u64)
    }
}

impl From<u16> for ItemKind {
    fn from(v: u16) -> (r: Self) {
        ItemKind::UInt(v as u64)
    }
}

impl vstd::std_specs::convert::FromSpecImpl<u16> for ItemKind {
    open spec fn obeys_from_spec() -> bool {
        true
    }

    open spec fn from_spec(v: u16) -> Self {
        ItemKind::UInt(v as u64)
    }
}

impl From<u8> for ItemKind {
    fn from(v: u8) -> (r: Self) {
        ItemKind::UInt(v as u64)
    }
}

impl vstd::std_specs::convert::FromSpecImpl<u8> for ItemKind {
    open spec fn obeys_from_spec() -> bool {
        true
    }

    open spec fn from_spec(v: u8) -> Self {
        ItemKind::UInt(v as u64)
    }
}

impl From<usize> for ItemKind {
    fn from(v: usize) -> (r: Self) {
        ItemKind::UInt(v as u64)
    }
}

impl vstd::std_specs::convert::FromSpecImpl<usize> for ItemKind {
    open spec fn obeys_from_spec() -> bool {
        true
    }

    open spec fn from_spec(v: usize) -> Self {
        ItemKind::UInt(v as u64)
    }
}

impl From<i64> for ItemKind {
    fn from(v: i64) -> (r: Self) {
        ItemKind::Int(v)
    }
}

impl vstd::std_specs::convert::FromSpecImpl<i64> for ItemKind {
    open spec fn obeys_from_spec() -> bool {
        true
    }

    open spec fn from_spec(v: i64) -> Self {
        ItemKind::Int(v)
    }
}

impl From<i32> for ItemKind {
    fn from(v: i32) -> (r: Self) {
        ItemKind::Int(v as i64)
    }
}

impl vstd::std_specs::convert::FromSpecImpl<i32> for ItemKind {
    open spec fn obeys_from_spec() -> bool {
        true
    }

    open spec fn from_spec(v: i32) -> Self {
        ItemKind::Int(v as i64)
    }
}

impl From<i16> for ItemKind {
    fn from(v: i16) -> (r: Self) {
        ItemKind::Int(v as i64)
    }
}

impl vstd::std_specs::convert::FromSpecImpl<i16> for ItemKind {
    open spec fn obeys_from_spec() -> bool {
        true
    }

    open spec fn from_spec(v: i16) -> Self {
        ItemKind::Int(v as i64)
    }
}

impl From<i8> for ItemKind {
    fn from(v: i8) -> (r: Self) {
        ItemKind::Int(v as i64)
    }
}

impl vstd::std_specs::convert::FromSpecImpl<i8> for ItemKind {
    open spec fn obeys_from_spec() -> bool {
        true
    }

    open spec fn from_spec(v: i8) -> Self {
        ItemKind::Int(v as i64)
    }
}

impl From<isize> for ItemKind {
    fn from(v: isize) -> (r: Self) {
        ItemKind::Int(v as i64)
    }
}

impl vstd::std_specs::convert::FromSpecImpl<isize> for ItemKind {
    open spec fn obeys_from_spec() -> bool {
        true
    }

    open spec fn from_spec(v: isize) -> Self {
        ItemKind::Int(v as i64)
    }
}

impl From<bool> for ItemKind {
    fn from(v: bool) -> (r: Self) {
        ItemKind::Boolean(v)
    }
}

impl vstd::std_specs::convert::FromSpecImpl<bool> for ItemKind {
    open spec fn obeys_from_spec() -> bool {
        true
    }

    open spec fn from_spec(v: bool) -> Self {
        ItemKind::Boolean(v)
    }
}

impl From<String> for ItemKind {
    fn from(v: String) -> (r: Self) {
        ItemKind::Text(v)
    }
}

impl vstd::std_specs::convert::FromSpecImpl<String> for ItemKind {
    open spec fn obeys_from_spec() -> bool {
        true
    }

    open spec fn from_spec(v: String) -> Self {
        ItemKind::Text(v)
    }
}

impl<'a> From<&'a str> for ItemKind {
    fn from(v: &'a str) -> (r: Self)
        ensures
            r matches ItemKind::Text(t) && t@ == v@,
    {
        ItemKind::Text(String::from_str(v))
    }
}

impl<'a> vstd::std_specs::convert::FromSpecImpl<&'a str> for ItemKind {
    open spec fn obeys_from_spec() -> bool {
        false
    }

    open spec fn from_spec(v: &'a str) -> Self {
        arbitrary()
    }
}

} // verus!
