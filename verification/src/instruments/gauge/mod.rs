//! A gauge: the value that has been observed last.
use vstd::prelude::*;

use crate::instruments::fundamentals::buckets::SecondsBuckets;
use crate::instruments::{
    display_value_spec, duration_to_display_value, AcceptsLabel, Instrument, LabelFilter, Update,
    Updates,
};
use crate::snapshot::{ItemKind, ItemValue, Snapshot};
use crate::time::{now, Instant};
use crate::util::{self, instrument_descriptives};
use crate::{opt_as_str, opt_string_view, to_i64_spec, Descriptive, ObservedValue, PutsSnapshot, TimeUnit};

mod gauge_adapter;
mod tracking;

pub use gauge_adapter::{delta_applied, gauge_adapted, GaugeAdapter, GaugeUpdateStrategy};
pub use tracking::{recorded, stats_entries, stats_match, stats_of, Bucket, BucketsStats, StatsSpec};

verus! {

/// What a `Gauge` holds.
pub struct GaugeView {
    pub name: Seq<char>,
    pub title: Option<Seq<char>>,
    pub description: Option<Seq<char>>,
    pub value: Option<i64>,
    pub tracking: Option<SecondsBuckets<Bucket>>,
    pub display_time_unit: TimeUnit,
    pub group_values: bool,
}

/// The value that a gauge holding `current` takes on the observed value
/// `observed`; `None` where it keeps no value.
///
/// A change moves the value (and sets it where there is none); a measured
/// time is shown in `unit`; other values that stand for an integer set it;
/// all other values leave the gauge as it is.
pub open spec fn next_value_spec(current: Option<i64>, observed: ObservedValue, unit: TimeUnit) -> Option<i64> {
    match observed {
        ObservedValue::ChangedBy(d) => match current {
            Some(c) => Some((c + d) as i64),
            None => Some(d),
        },
        ObservedValue::Duration(t, u) => Some(display_value_spec(t, u, unit) as u64 as i64),
        x => match to_i64_spec(x) {
            Some(v) => Some(v),
            None => current,
        },
    }
}

/// The next value can be computed without overflow.
pub open spec fn can_set_spec(current: Option<i64>, observed: ObservedValue, unit: TimeUnit) -> bool {
    match observed {
        ObservedValue::ChangedBy(d) => match current {
            Some(c) => i64::MIN <= c + d <= i64::MAX,
            None => true,
        },
        ObservedValue::Duration(t, u) => display_value_spec(t, u, unit) <= u64::MAX,
        _ => true,
    }
}


/// The entries that a gauge `g` writes for its values, where its tracking
/// holds the records `records` (newest first).
pub open spec fn gauge_value_entries(g: GaugeView, records: Seq<Bucket>) -> Seq<(Seq<char>, ItemValue)> {
    match g.value {
        None => seq![],
        Some(v) => {
            let first = if g.group_values {
                ("current"@, ItemValue::Int(v))
            } else {
                (g.name, ItemValue::Int(v))
            };
            let prefix = if g.group_values {
                Seq::<char>::empty()
            } else {
                g.name + "_"@
            };
            let stats = if g.tracking is Some && stats_of(records).total_count != 0 {
                stats_entries(prefix, stats_of(records).peak, stats_of(records).peak_min, stats_of(records).bottom, stats_of(records).bottom_max)
            } else {
                seq![]
            };
            seq![first] + stats
        },
    }
}

/// The tracking of `b` once the clock reads `now`; `a` where there is none.
pub open spec fn tracking_moved(
    a: Option<SecondsBuckets<Bucket>>,
    b: Option<SecondsBuckets<Bucket>>,
    now: Instant,
    v: Seq<Bucket>,
) -> bool {
    match a {
        None => b is None,
        Some(x) => b matches Some(y) && x.moved_to(y, now, v),
    }
}

/// `new` is the gauge `old` after it applied `observed` with the clock
/// reading `now`: where it takes a new value and tracks values, the value
/// is recorded in the bucket of the current second.
pub open spec fn gauge_set(old: GaugeView, new: GaugeView, observed: ObservedValue, now: Instant) -> bool {
    match next_value_spec(old.value, observed, old.display_time_unit) {
        None => new == old,
        Some(x) => {
            &&& new == (GaugeView { value: Some(x), tracking: new.tracking, ..old })
            &&& tracking_moved(
                old.tracking,
                new.tracking,
                now,
                records_at(old.tracking, now).update(0, recorded(records_at(old.tracking, now)[0], x)),
            )
        },
    }
}

/// `new` is the gauge `old` after it wrote a snapshot with the clock reading
/// `now`: a gauge with a value moves its tracking to the current second.
pub open spec fn gauge_snapshot_taken(old: GaugeView, new: GaugeView, now: Instant) -> bool {
    if old.value is Some {
        &&& new == (GaugeView { tracking: new.tracking, ..old })
        &&& tracking_moved(old.tracking, new.tracking, now, records_at(old.tracking, now))
    } else {
        new == old
    }
}

/// The entries `v` after the gauge `g` wrote a snapshot into them, its
/// tracking holding the records `records`.
pub open spec fn gauge_snapshot(
    v: Seq<(Seq<char>, ItemValue)>,
    g: GaugeView,
    descriptive: bool,
    records: Seq<Bucket>,
) -> Seq<(Seq<char>, ItemValue)> {
    let d = instrument_descriptives(v, g.name, g.title, g.description, descriptive);
    if g.group_values {
        d.push((g.name, ItemValue::Group(gauge_value_entries(g, records))))
    } else {
        d + gauge_value_entries(g, records)
    }
}

/// `new` is the gauge `old` after it handled `with`, answering `n`.
///
/// The value of an `Update::ObservationWithValue` is applied; other updates
/// leave the gauge as it is. A value whose application would overflow is
/// left out too; then the answer is 0.
pub open spec fn gauge_updated(old: GaugeView, new: GaugeView, with: Update, n: usize) -> bool {
    match with {
        Update::ObservationWithValue(v, _) => if can_set_spec(old.value, v, old.display_time_unit) {
            n == 1 && exists|t: Instant| #[trigger] gauge_set(old, new, v, t)
        } else {
            n == 0 && new == old
        },
        _ => n == 0 && new == old,
    }
}

/// The records of a gauge's tracking once the clock reads `now`.
pub open spec fn records_at(t: Option<SecondsBuckets<Bucket>>, now: Instant) -> Seq<Bucket> {
    match t {
        Some(b) => b.view_at(now),
        None => seq![],
    }
}

/// Simply returns the value that has been observed last.
///
/// Reacts to `Update::ObservationWithValue` with the following values:
/// * `ObservedValue::ChangedBy` which increments or decrements the value
/// * all `ObservedValue`s that can be converted to an `i64`, which
///   directly set the value
/// * measured times, which are shown in the gauge's time unit
pub struct Gauge {
    name: String,
    title: Option<String>,
    description: Option<String>,
    value: Option<i64>,
    tracking: Option<SecondsBuckets<Bucket>>,
    display_time_unit: TimeUnit,
    group_values: bool,
}

impl View for Gauge {
    type V = GaugeView;

    closed spec fn view(&self) -> GaugeView {
        GaugeView {
            name: self.name@,
            title: opt_string_view(self.title),
            description: opt_string_view(self.description),
            value: self.value,
            tracking: self.tracking,
            display_time_unit: self.display_time_unit,
            group_values: self.group_values,
        }
    }
}

impl Gauge {
    /// The tracking buckets are well formed.
    #[verifier::type_invariant]
    closed spec fn inv(self) -> bool {
        match self.tracking {
            Some(b) => b.wf(),
            None => true,
        }
    }

    pub fn new(name: &str) -> (g: Gauge)
        ensures
            g@ == (GaugeView {
                name: name@,
                title: None,
                description: None,
                value: None,
                tracking: None,
                display_time_unit: TimeUnit::Microseconds,
                group_values: false,
            }),
    {
        Gauge {
            name: String::from_str(name),
            title: None,
            description: None,
            value: None,
            tracking: None,
            display_time_unit: TimeUnit::default(),
            group_values: false,
        }
    }

    pub fn new_with_defaults(name: &str) -> (g: Gauge)
        ensures
            g@ == (GaugeView {
                name: name@,
                title: None,
                description: None,
                value: None,
                tracking: None,
                display_time_unit: TimeUnit::Microseconds,
                group_values: false,
            }),
    {
        Self::new(name)
    }

    pub fn get_name(&self) -> (n: &str)
        ensures
            n@ == self@.name,
    {
        self.name.as_str()
    }

    pub fn set_name(&mut self, name: &str)
        ensures
            final(self)@ == (GaugeView { name: name@, ..old(self)@ }),
    {
        proof {
            use_type_invariant(&*self);
        }
        self.name = String::from_str(name);
    }

    pub fn name(self, name: &str) -> (g: Self)
        ensures
            g@ == (GaugeView { name: name@, ..self@ }),
    {
        let mut g = self;
        g.set_name(name);
        g
    }

    /// Sets the initial value and returns `self`
    pub fn value(self, value: i64) -> (g: Self)
        ensures
            g@ == (GaugeView { value: Some(value), ..self@ }),
    {
        let mut g = self;
        proof {
            use_type_invariant(&g);
        }
        g.value = Some(value);
        g
    }

    /// If set to true, this instrument will form a group with its name.
    ///
    /// The current value will be named `current` and other values
    /// will not be prefixed with the name of the instrument
    pub fn group_values(self, group_values: bool) -> (g: Self)
        ensures
            g@ == (GaugeView { group_values, ..self@ }),
    {
        let mut g = self;
        proof {
            use_type_invariant(&g);
        }
        g.group_values = group_values;
        g
    }

    pub fn set_title(&mut self, title: &str)
        ensures
            final(self)@ == (GaugeView { title: Some(title@), ..old(self)@ }),
    {
        proof {
            use_type_invariant(&*self);
        }
        self.title = Some(String::from_str(title));
    }

    pub fn title(self, title: &str) -> (g: Self)
        ensures
            g@ == (GaugeView { title: Some(title@), ..self@ }),
    {
        let mut g = self;
        g.set_title(title);
        g
    }

    pub fn set_description(&mut self, description: &str)
        ensures
            final(self)@ == (GaugeView { description: Some(description@), ..old(self)@ }),
    {
        proof {
            use_type_invariant(&*self);
        }
        self.description = Some(String::from_str(description));
    }

    pub fn description(self, description: &str) -> (g: Self)
        ensures
            g@ == (GaugeView { description: Some(description@), ..self@ }),
    {
        let mut g = self;
        g.set_description(description);
        g
    }

    /// Enables tracking of values for the last `for_seconds` seconds.
    ///
    /// For each second there is a record of the smallest and the largest
    /// value of the gauge within it, and of a sum and a count of values.
    /// A snapshot then shows `[gauge_name]_peak` (the largest value of all
    /// records), `[gauge_name]_peak_min` (the smallest of the records'
    /// largest values), `[gauge_name]_bottom` (the smallest value of all
    /// records) and `[gauge_name]_bottom_max` (the largest of the records'
    /// smallest values). Zero seconds leave the gauge as it is.
    pub fn tracking(self, for_seconds: usize) -> (g: Self)
        ensures
            for_seconds == 0 ==> g@ == self@,
            for_seconds != 0 ==> (g@.tracking matches Some(b) && b@.len() == for_seconds && (
            forall|k: int| 0 <= k < for_seconds ==> b@[k] == b.empty_spec())),
            for_seconds != 0 ==> g@ == (GaugeView { tracking: g@.tracking, ..self@ }),
    {
        let mut g = self;
        g.set_tracking(for_seconds);
        g
    }

    /// Enables tracking of values for the last `for_seconds` seconds. See `tracking`.
    pub fn set_tracking(&mut self, for_seconds: usize)
        ensures
            for_seconds == 0 ==> final(self)@ == old(self)@,
            for_seconds != 0 ==> (final(self)@.tracking matches Some(b) && b@.len() == for_seconds
                && b.empty_spec() == (Bucket { sum: 0, count: 0, min_max: (0, 0) }) && (forall|k: int|
                0 <= k < for_seconds ==> b@[k] == b.empty_spec())),
            for_seconds != 0 ==> final(self)@ == (GaugeView {
                tracking: final(self)@.tracking,
                ..old(self)@
            }),
    {
        if for_seconds != 0 {
            self.tracking = Some(SecondsBuckets::new(for_seconds));
        }
    }

    pub fn set_display_time_unit(&mut self, display_time_unit: TimeUnit)
        ensures
            final(self)@ == (GaugeView { display_time_unit, ..old(self)@ }),
    {
        proof {
            use_type_invariant(&*self);
        }
        self.display_time_unit = display_time_unit;
    }

    pub fn display_time_unit(self, display_time_unit: TimeUnit) -> (g: Self)
        ensures
            g@ == (GaugeView { display_time_unit, ..self@ }),
    {
        let mut g = self;
        g.set_display_time_unit(display_time_unit);
        g
    }

    /// Whether `observed` can be applied without overflow.
    pub fn can_set(&self, observed: ObservedValue) -> (r: bool)
        ensures
            r == can_set_spec(self@.value, observed, self@.display_time_unit),
    {
        match observed {
            ObservedValue::ChangedBy(d) => match self.value {
                Some(c) => {
                    if d > 0 {
                        c <= i64::MAX - d
                    } else {
                        c >= i64::MIN - d
                    }
                },
                None => true,
            },
            ObservedValue::Duration(t, u) => display_value_fits(t, u, self.display_time_unit),
            _ => true,
        }
    }

    /// Applies the observed value `observed`, with the clock reading `now`.
    ///
    /// Where the gauge takes a new value and tracks values, the value is
    /// recorded in the bucket of the current second.
    pub fn set_at(&mut self, observed: ObservedValue, now: Instant)
        requires
            can_set_spec(old(self)@.value, observed, old(self)@.display_time_unit),
        ensures
            gauge_set(old(self)@, final(self)@, observed, now),
    {
        proof {
            use_type_invariant(&*self);
        }
        let next = self.next_value(self.value, observed);
        if let Some(x) = next {
            let mut t: Option<SecondsBuckets<Bucket>> = None;
            std::mem::swap(&mut t, &mut self.tracking);
            if let Some(mut buckets) = t {
                buckets.current_mut_at(now).update(x);
                self.tracking = Some(buckets);
            }
            self.value = Some(x);
        }
    }

    /// Applies the observed value `observed`.
    pub fn set(&mut self, observed: ObservedValue)
        requires
            can_set_spec(old(self)@.value, observed, old(self)@.display_time_unit),
        ensures
            exists|t: Instant| #[trigger] gauge_set(old(self)@, final(self)@, observed, t),
    {
        let t = now();
        self.set_at(observed, t);
    }

    pub fn get(&self) -> (v: Option<i64>)
        ensures
            v == self@.value,
    {
        self.value
    }

    fn next_value(&self, current: Option<i64>, observed: ObservedValue) -> (r: Option<i64>)
        requires
            can_set_spec(current, observed, self@.display_time_unit),
        ensures
            r == next_value_spec(current, observed, self@.display_time_unit),
    {
        match observed {
            ObservedValue::ChangedBy(d) => match current {
                Some(c) => Some(c + d),
                None => Some(d),
            },
            ObservedValue::Duration(time, unit) => {
                let value = duration_to_display_value(time, unit, self.display_time_unit);
                Some(value as i64)
            },
            x => match x.convert_to_i64() {
                Some(v) => Some(v),
                None => current,
            },
        }
    }
}

impl Gauge {
    fn put_values_into_snapshot_at(&mut self, into: &mut Snapshot, now: Instant)
        ensures
            gauge_snapshot_taken(old(self)@, final(self)@, now),
            final(into)@ == old(into)@ + gauge_value_entries(
                old(self)@,
                records_at(old(self)@.tracking, now),
            ),
    {
        proof {
            use_type_invariant(&*self);
        }
        if let Some(value) = self.value {
            let prefix = if self.group_values {
                into.push(String::from_str("current"), ItemKind::Int(value));
                String::new()
            } else {
                into.push(self.name.clone(), ItemKind::Int(value));
                self.name.clone().concat("_")
            };
            let mut t: Option<SecondsBuckets<Bucket>> = None;
            std::mem::swap(&mut t, &mut self.tracking);
            if let Some(mut buckets) = t {
                let stats = BucketsStats::from_buckets_at(&mut buckets, now);
                if let Some(st) = stats {
                    st.add_to_snapshot(into, prefix.as_str());
                }
                self.tracking = Some(buckets);
            }
            assert(into@ =~= old(into)@ + gauge_value_entries(
                old(self)@,
                records_at(old(self)@.tracking, now),
            ));
        } else {
            assert(old(into)@ + gauge_value_entries(old(self)@, records_at(old(self)@.tracking, now))
                =~= old(into)@);
        }
    }

    /// Writes the gauge into `into`, with the clock reading `now`.
    pub fn put_snapshot_at(&mut self, into: &mut Snapshot, descriptive: bool, now: Instant)
        ensures
            gauge_snapshot_taken(old(self)@, final(self)@, now),
            final(into)@ == gauge_snapshot(
                old(into)@,
                old(self)@,
                descriptive,
                records_at(old(self)@.tracking, now),
            ),
    {
        util::put_postfixed_descriptives(&*self, self.name.as_str(), into, descriptive);
        if self.group_values {
            let mut new_level = Snapshot::new();
            self.put_values_into_snapshot_at(&mut new_level, now);
            assert(new_level@ =~= gauge_value_entries(old(self)@, records_at(old(self)@.tracking, now)));
            into.push(self.name.clone(), ItemKind::Snapshot(new_level));
        } else {
            self.put_values_into_snapshot_at(into, now);
        }
    }
}

impl Instrument for Gauge {}

impl PutsSnapshot for Gauge {
    fn put_snapshot(&mut self, into: &mut Snapshot, descriptive: bool)
        ensures
            exists|t: Instant|
                {
                    &&& #[trigger] gauge_snapshot_taken(old(self)@, final(self)@, t)
                    &&& final(into)@ == gauge_snapshot(
                        old(into)@,
                        old(self)@,
                        descriptive,
                        records_at(old(self)@.tracking, t),
                    )
                },
    {
        self.put_snapshot_at(into, descriptive, now())
    }
}

impl Updates for Gauge {
    /// Applies the value of an `Update::ObservationWithValue`; other updates
    /// leave the gauge as it is. A value whose application would overflow is
    /// left out too; then the result is 0.
    fn update(&mut self, with: &Update) -> (n: usize)
        ensures
            gauge_updated(old(self)@, final(self)@, *with, n),
    {
        match *with {
            Update::ObservationWithValue(v, _) => {
                if self.can_set(v) {
                    self.set(v);
                    1
                } else {
                    0
                }
            },
            _ => 0,
        }
    }
}

impl Descriptive for Gauge {
    open spec fn title_spec(&self) -> Option<Seq<char>> {
        self@.title
    }

    open spec fn description_spec(&self) -> Option<Seq<char>> {
        self@.description
    }

    fn title(&self) -> (r: Option<&str>) {
        opt_as_str(&self.title)
    }

    fn description(&self) -> (r: Option<&str>) {
        opt_as_str(&self.description)
    }
}

impl Gauge {
    /// Creates a `GaugeAdapter` that passes on observations that `accept` accepts.
    pub fn accept<T: PartialEq + Send + 'static>(self, accept: LabelFilter<T>) -> (a: GaugeAdapter<T>)
        ensures
            a.strategy() == GaugeUpdateStrategy::Filter(accept),
            a.gauge_view() == self@,
            a.keeps_updates(),
    {
        GaugeAdapter::accept(accept, self)
    }

    /// Creates a `GaugeAdapter` that makes this instrument react on
    /// observations on the given label.
    pub fn for_label<T: PartialEq + Send + 'static>(self, label: T) -> (a: GaugeAdapter<T>)
        ensures
            a.strategy() matches GaugeUpdateStrategy::Filter(f) && f.labels() == seq![label]
                && !f.accepts_all() && !f.has_predicate(),
            a.gauge_view() == self@,
            a.keeps_updates(),
    {
        GaugeAdapter::for_label(label, self)
    }

    /// Creates a `GaugeAdapter` that makes this instrument react on
    /// observations with the given labels.
    ///
    /// If `labels` is empty the instrument will not react to any observations
    pub fn for_labels<T: PartialEq + Send + 'static>(self, labels: Vec<T>) -> (a: GaugeAdapter<T>)
        ensures
            a.strategy() matches GaugeUpdateStrategy::Filter(f) && f.labels() == labels@
                && !f.accepts_all() && !f.has_predicate(),
            a.gauge_view() == self@,
            a.keeps_updates(),
    {
        GaugeAdapter::for_labels(labels, self)
    }

    /// Creates a `GaugeAdapter` that makes this instrument react on all observations.
    pub fn for_all_labels<T: PartialEq + Send + 'static>(self) -> (a: GaugeAdapter<T>)
        ensures
            a.strategy() matches GaugeUpdateStrategy::Filter(f) && f.accepts_all(),
            a.gauge_view() == self@,
            a.keeps_updates(),
    {
        GaugeAdapter::new(self)
    }

    /// Creates a `GaugeAdapter` that makes this instrument react on
    /// observations with labels that `label_predicate` accepts.
    pub fn for_labels_by_predicate<T: PartialEq + Send + 'static, P: AcceptsLabel<T> + 'static>(
        self,
        label_predicate: P,
    ) -> (a: GaugeAdapter<T>)
        ensures
            a.strategy() matches GaugeUpdateStrategy::Filter(f) && f.labels() == Seq::<T>::empty()
                && !f.accepts_all() && f.has_predicate(),
            a.gauge_view() == self@,
            a.keeps_updates(),
    {
        GaugeAdapter::for_labels_by_predicate(label_predicate, self)
    }

    /// Creates a `GaugeAdapter` that makes this instrument react on no observations.
    pub fn adapter<T: PartialEq + Send + 'static>(self) -> (a: GaugeAdapter<T>)
        ensures
            a.strategy() matches GaugeUpdateStrategy::Filter(f) && f.labels() == Seq::<T>::empty()
                && !f.accepts_all() && !f.has_predicate(),
            a.gauge_view() == self@,
            a.keeps_updates(),
    {
        GaugeAdapter::deaf(self)
    }

    /// Creates a `GaugeAdapter` that passes on only the changes (increments
    /// and decrements) of observations that `accept` accepts.
    pub fn deltas_only<T: PartialEq + Send + 'static>(self, accept: LabelFilter<T>) -> (a: GaugeAdapter<T>)
        ensures
            a.strategy() == GaugeUpdateStrategy::DeltasOnly(accept),
            a.gauge_view() == self@,
            a.keeps_updates(),
    {
        GaugeAdapter::deltas_only(accept, self)
    }

    /// Creates a `GaugeAdapter` that passes on only the changes of
    /// observations with the given label.
    pub fn for_label_deltas_only<T: PartialEq + Send + 'static>(self, label: T) -> (a: GaugeAdapter<T>)
        ensures
            a.strategy() matches GaugeUpdateStrategy::DeltasOnly(f) && f.labels() == seq![label]
                && !f.accepts_all() && !f.has_predicate(),
            a.gauge_view() == self@,
            a.keeps_updates(),
    {
        GaugeAdapter::for_label_deltas_only(label, self)
    }

    /// Creates a `GaugeAdapter` that passes on only the changes of
    /// observations with one of the given labels; none where `labels` is empty.
    pub fn for_labels_deltas_only<T: PartialEq + Send + 'static>(self, labels: Vec<T>) -> (a: GaugeAdapter<T>)
        ensures
            a.strategy() matches GaugeUpdateStrategy::DeltasOnly(f) && f.labels() == labels@
                && !f.accepts_all() && !f.has_predicate(),
            a.gauge_view() == self@,
            a.keeps_updates(),
    {
        GaugeAdapter::for_labels_deltas_only(labels, self)
    }

    /// Creates a `GaugeAdapter` that passes on only the changes of
    /// observations with labels that `label_predicate` accepts.
    pub fn for_labels_deltas_only_by_predicate<T: PartialEq + Send + 'static, P: AcceptsLabel<T> + 'static>(
        self,
        label_predicate: P,
    ) -> (a: GaugeAdapter<T>)
        ensures
            a.strategy() matches GaugeUpdateStrategy::DeltasOnly(f) && f.labels() == Seq::<
                T,
            >::empty() && !f.accepts_all() && f.has_predicate(),
            a.gauge_view() == self@,
            a.keeps_updates(),
    {
        GaugeAdapter::for_labels_deltas_only_by_predicate(label_predicate, self)
    }

    /// Creates a `GaugeAdapter` that increments the gauge on observations
    /// that `accept_incr` accepts and decrements it on observations that
    /// `accept_decr` accepts; `accept_incr` is asked first.
    pub fn inc_dec_on<T: PartialEq + Send + 'static>(
        self,
        accept_incr: LabelFilter<T>,
        accept_decr: LabelFilter<T>,
    ) -> (a: GaugeAdapter<T>)
        ensures
            a.strategy() == GaugeUpdateStrategy::IncDecOnLabels(accept_incr, accept_decr),
            a.gauge_view() == self@,
            a.keeps_updates(),
    {
        GaugeAdapter::inc_dec_by_filters(accept_incr, accept_decr, self)
    }

    /// Creates a `GaugeAdapter` that increments the gauge on observations
    /// with a label in `increment_on` and decrements it on those with a
    /// label in `decrement_on`; `increment_on` is asked first.
    pub fn inc_dec_on_many<T: PartialEq + Send + 'static>(
        self,
        increment_on: Vec<T>,
        decrement_on: Vec<T>,
    ) -> (a: GaugeAdapter<T>)
        ensures
            a.strategy() matches GaugeUpdateStrategy::IncDecOnLabels(i, d) && i.labels()
                == increment_on@ && d.labels() == decrement_on@ && !i.accepts_all()
                && !i.has_predicate() && !d.accepts_all() && !d.has_predicate(),
            a.gauge_view() == self@,
            a.keeps_updates(),
    {
        GaugeAdapter::inc_dec_on_many(increment_on, decrement_on, self)
    }

    /// Creates a `GaugeAdapter` that increments the gauge on observations
    /// whose labels `predicate_incr` accepts and decrements it on those that
    /// `predicate_decr` accepts.
    pub fn inc_dec_by_predicates<T: PartialEq + Send + 'static, PINC: AcceptsLabel<T> + 'static, PDEC: AcceptsLabel<T> + 'static>(
        self,
        predicate_incr: PINC,
        predicate_decr: PDEC,
    ) -> (a: GaugeAdapter<T>)
        ensures
            a.strategy() matches GaugeUpdateStrategy::IncDecOnLabels(i, d) && i.has_predicate()
                && d.has_predicate() && !i.accepts_all() && !d.accepts_all(),
            a.gauge_view() == self@,
            a.keeps_updates(),
    {
        GaugeAdapter::inc_dec_by_predicates(predicate_incr, predicate_decr, self)
    }
}

/// Whether converting `time` in `from` to `to` stays within `u64`.
fn display_value_fits(time: u64, from: TimeUnit, to: TimeUnit) -> (r: bool)
    ensures
        r == (display_value_spec(time, from, to) <= u64::MAX),
{
    let factor: u64 = match (from, to) {
        (TimeUnit::Microseconds, TimeUnit::Nanoseconds) => 1_000,
        (TimeUnit::Milliseconds, TimeUnit::Nanoseconds) => 1_000_000,
        (TimeUnit::Milliseconds, TimeUnit::Microseconds) => 1_000,
        (TimeUnit::Seconds, TimeUnit::Nanoseconds) => 1_000_000_000,
        (TimeUnit::Seconds, TimeUnit::Microseconds) => 1_000_000,
        (TimeUnit::Seconds, TimeUnit::Milliseconds) => 1_000,
        _ => 1,
    };
    proof {
        crate::instruments::lemma_unit_ratios();
        let f = factor as int;
        assert((time <= (u64::MAX as int) / f) == (time * f <= u64::MAX)) by (nonlinear_arith)
            requires
                f > 0,
        ;
    }
    time <= u64::MAX / factor
}


/// What a tracking gauge writes after its value: under "peak" (with the
/// gauge's prefix) the largest value of its records, and under "bottom" the
/// smallest; "peak_min" and "bottom_max" lie between them, and each is the
/// value of some record that holds values.
pub proof fn law_a_tracking_gauge_writes_its_extrema(g: GaugeView, records: Seq<Bucket>, v: i64, k: int)
    requires
        g.value == Some(v),
        g.tracking is Some,
        0 <= k < records.len(),
        records[k].count != 0,
    ensures
        ({
            let e = gauge_value_entries(g, records);
            let prefix = if g.group_values {
                Seq::<char>::empty()
            } else {
                g.name + "_"@
            };
            &&& e.len() == 5
            &&& e[1].0 == prefix + "peak"@
            &&& e[2].0 == prefix + "peak_min"@
            &&& e[3].0 == prefix + "bottom"@
            &&& e[4].0 == prefix + "bottom_max"@
            &&& e[1].1 matches ItemValue::Int(peak) && e[2].1 matches ItemValue::Int(peak_min)
                && e[3].1 matches ItemValue::Int(bottom) && e[4].1 matches ItemValue::Int(bottom_max)
                && (forall|i: int|
                #![trigger records[i]]
                0 <= i < records.len() && records[i].count != 0 ==> bottom <= records[i].min_max.0
                    <= bottom_max && peak_min <= records[i].min_max.1 <= peak)
                && (exists|i: int| 0 <= i < records.len() && records[i].count != 0 && #[trigger] records[i].min_max.1 == peak)
                && (exists|i: int| 0 <= i < records.len() && records[i].count != 0 && #[trigger] records[i].min_max.0 == bottom)
        }),
{
    tracking::lemma_stats_extrema(records);
    assert(tracking::counted(records, k));
    let st = stats_of(records);
    let i1 = choose|i: int| tracking::counted(records, i) && #[trigger] records[i].min_max.1 == st.peak;
    let i3 = choose|i: int| tracking::counted(records, i) && #[trigger] records[i].min_max.0 == st.bottom;
    assert(records[i1].min_max.1 == st.peak);
    assert(records[i3].min_max.0 == st.bottom);
}

/// A gauge that is set to a signed integer holds that integer.
pub proof fn law_gauge_holds_what_was_set(old: GaugeView, new: GaugeView, v: i64, now: Instant)
    requires
        gauge_set(old, new, ObservedValue::SignedInteger(v), now),
    ensures
        new.value == Some(v),
{
}

/// Changing a gauge by `a` and then by `b` is changing it by `a + b`, where
/// nothing overflows.
pub proof fn law_gauge_changes_add_up(current: Option<i64>, a: i64, b: i64, unit: TimeUnit)
    requires
        can_set_spec(current, ObservedValue::ChangedBy(a), unit),
        can_set_spec(
            next_value_spec(current, ObservedValue::ChangedBy(a), unit),
            ObservedValue::ChangedBy(b),
            unit,
        ),
        i64::MIN <= a + b <= i64::MAX,
    ensures
        next_value_spec(
            next_value_spec(current, ObservedValue::ChangedBy(a), unit),
            ObservedValue::ChangedBy(b),
            unit,
        ) == next_value_spec(current, ObservedValue::ChangedBy((a + b) as i64), unit),
{
}

} // verus!
