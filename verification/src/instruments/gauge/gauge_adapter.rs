use vstd::prelude::*;

use super::{gauge_snapshot, gauge_snapshot_taken, gauge_updated, records_at, Gauge, GaugeView};
use crate::time::Instant;
use crate::instruments::{
    may_accept, must_accept, update_of, AcceptsLabel, BorrowedLabelAndUpdate, LabelFilter,
    modifier_applied, ModifiesUpdate, Update, UpdateModifier, Updates,
};
use crate::snapshot::Snapshot;
use crate::{HandlesObservations, Observation, ObservedValue, PutsSnapshot};

verus! {

/// Which observations reach a gauge, and how.
#[verifier::reject_recursive_types(T)]
pub enum GaugeUpdateStrategy<T> {
    /// Updates of observations whose labels pass the filter.
    Filter(LabelFilter<T>),
    /// Changes (increments and decrements) of observations whose labels pass the filter.
    DeltasOnly(LabelFilter<T>),
    /// An increment for each observation whose label passes the first
    /// filter, else a decrement for each whose label passes the second.
    IncDecOnLabels(LabelFilter<T>, LabelFilter<T>),
}

/// Passes observations on to a `Gauge`.
#[verifier::reject_recursive_types(T)]
///
/// The adapter keeps a record of the calls of its modifier.
pub struct GaugeAdapter<T> {
    strategy: GaugeUpdateStrategy<T>,
    gauge: Gauge,
    modify_update: UpdateModifier<T>,
    modifier_calls: Ghost<Seq<(T, Update, Update)>>,
}

impl<T> GaugeAdapter<T> {
    pub closed spec fn strategy(&self) -> GaugeUpdateStrategy<T> {
        self.strategy
    }

    pub closed spec fn gauge_view(&self) -> GaugeView {
        self.gauge@
    }

    /// Updates reach the gauge as they are.
    pub closed spec fn keeps_updates(&self) -> bool {
        self.modify_update is KeepAsIs
    }

    /// The calls of the modifier: the label and the update it was handed,
    /// and what it answered.
    pub closed spec fn modifier_calls(&self) -> Seq<(T, Update, Update)> {
        self.modifier_calls@
    }
}

impl<T: PartialEq + Send + 'static> GaugeAdapter<T> {
    /// An adapter that passes all observations on to the `Gauge`
    pub fn new(gauge: Gauge) -> (a: Self)
        ensures
            a.strategy() matches GaugeUpdateStrategy::Filter(f) && f.accepts_all(),
            a.gauge_view() == gauge@,
            a.keeps_updates(),
    {
        Self::accept(LabelFilter::accept_all(), gauge)
    }

    /// An adapter that passes on the observations that `accept` accepts.
    pub fn accept(accept: LabelFilter<T>, gauge: Gauge) -> (a: Self)
        ensures
            a.strategy() == GaugeUpdateStrategy::Filter(accept),
            a.gauge_view() == gauge@,
            a.keeps_updates(),
    {
        Self {
            gauge,
            strategy: GaugeUpdateStrategy::Filter(accept),
            modify_update: UpdateModifier::KeepAsIs,
            modifier_calls: Ghost(Seq::empty()),
        }
    }

    /// An adapter that passes on the observations with the label `label`.
    pub fn for_label(label: T, gauge: Gauge) -> (a: Self)
        ensures
            a.strategy() matches GaugeUpdateStrategy::Filter(f) && f.labels() == seq![label]
                && !f.accepts_all() && !f.has_predicate(),
            a.gauge_view() == gauge@,
            a.keeps_updates(),
    {
        Self::accept(LabelFilter::new(label), gauge)
    }

    /// An adapter that passes on the observations with one of `labels`; none
    /// where `labels` is empty.
    pub fn for_labels(labels: Vec<T>, gauge: Gauge) -> (a: Self)
        ensures
            a.strategy() matches GaugeUpdateStrategy::Filter(f) && f.labels() == labels@
                && !f.accepts_all() && !f.has_predicate(),
            a.gauge_view() == gauge@,
            a.keeps_updates(),
    {
        Self::accept(LabelFilter::many(labels), gauge)
    }

    /// An adapter that passes on the observations whose labels `label_predicate` accepts.
    pub fn for_labels_by_predicate<P: AcceptsLabel<T> + 'static>(label_predicate: P, gauge: Gauge) -> (a: Self)
        ensures
            a.strategy() matches GaugeUpdateStrategy::Filter(f) && f.labels() == Seq::<T>::empty()
                && !f.accepts_all() && f.has_predicate(),
            a.gauge_view() == gauge@,
            a.keeps_updates(),
    {
        Self::accept(LabelFilter::predicate(label_predicate), gauge)
    }

    /// An adapter that passes on only the changes (increments and
    /// decrements) of observations that `accept` accepts.
    pub fn deltas_only(accept: LabelFilter<T>, gauge: Gauge) -> (a: Self)
        ensures
            a.strategy() == GaugeUpdateStrategy::DeltasOnly(accept),
            a.gauge_view() == gauge@,
            a.keeps_updates(),
    {
        Self {
            gauge,
            strategy: GaugeUpdateStrategy::DeltasOnly(accept),
            modify_update: UpdateModifier::KeepAsIs,
            modifier_calls: Ghost(Seq::empty()),
        }
    }

    /// An adapter that passes on only the changes of observations with the label `label`.
    pub fn for_label_deltas_only(label: T, gauge: Gauge) -> (a: Self)
        ensures
            a.strategy() matches GaugeUpdateStrategy::DeltasOnly(f) && f.labels() == seq![label]
                && !f.accepts_all() && !f.has_predicate(),
            a.gauge_view() == gauge@,
            a.keeps_updates(),
    {
        Self::deltas_only(LabelFilter::new(label), gauge)
    }

    /// An adapter that passes on only the changes of observations with one
    /// of `labels`; none where `labels` is empty.
    pub fn for_labels_deltas_only(labels: Vec<T>, gauge: Gauge) -> (a: Self)
        ensures
            a.strategy() matches GaugeUpdateStrategy::DeltasOnly(f) && f.labels() == labels@
                && !f.accepts_all() && !f.has_predicate(),
            a.gauge_view() == gauge@,
            a.keeps_updates(),
    {
        Self::deltas_only(LabelFilter::many(labels), gauge)
    }

    /// An adapter that passes on only the changes of observations whose
    /// labels `label_predicate` accepts.
    pub fn for_labels_deltas_only_by_predicate<P: AcceptsLabel<T> + 'static>(
        label_predicate: P,
        gauge: Gauge,
    ) -> (a: Self)
        ensures
            a.strategy() matches GaugeUpdateStrategy::DeltasOnly(f) && f.labels() == Seq::<
                T,
            >::empty() && !f.accepts_all() && f.has_predicate(),
            a.gauge_view() == gauge@,
            a.keeps_updates(),
    {
        Self::deltas_only(LabelFilter::predicate(label_predicate), gauge)
    }

    /// An adapter that increments the gauge on observations that
    /// `increment_on` accepts and decrements it on observations that
    /// `decrement_on` accepts; `increment_on` is asked first.
    pub fn inc_dec_by_filters(increment_on: LabelFilter<T>, decrement_on: LabelFilter<T>, gauge: Gauge) -> (a: Self)
        ensures
            a.strategy() == GaugeUpdateStrategy::IncDecOnLabels(increment_on, decrement_on),
            a.gauge_view() == gauge@,
            a.keeps_updates(),
    {
        Self {
            gauge,
            strategy: GaugeUpdateStrategy::IncDecOnLabels(increment_on, decrement_on),
            modify_update: UpdateModifier::KeepAsIs,
            modifier_calls: Ghost(Seq::empty()),
        }
    }

    /// An adapter that increments the gauge on observations with the label
    /// `increment_on` and decrements it on those with `decrement_on`.
    ///
    /// `increment_on` is asked first, so the two should differ.
    pub fn inc_dec_on(increment_on: T, decrement_on: T, gauge: Gauge) -> (a: Self)
        ensures
            a.strategy() matches GaugeUpdateStrategy::IncDecOnLabels(i, d) && i.labels() == seq![
                increment_on,
            ] && d.labels() == seq![decrement_on] && !i.accepts_all() && !i.has_predicate()
                && !d.accepts_all() && !d.has_predicate(),
            a.gauge_view() == gauge@,
            a.keeps_updates(),
    {
        Self::inc_dec_by_filters(LabelFilter::new(increment_on), LabelFilter::new(decrement_on), gauge)
    }

    /// An adapter that increments the gauge on observations with a label in
    /// `increment_on` and decrements it on those with a label in
    /// `decrement_on`.
    ///
    /// `increment_on` is asked first, so the two should not share labels.
    pub fn inc_dec_on_many(increment_on: Vec<T>, decrement_on: Vec<T>, gauge: Gauge) -> (a: Self)
        ensures
            a.strategy() matches GaugeUpdateStrategy::IncDecOnLabels(i, d) && i.labels()
                == increment_on@ && d.labels() == decrement_on@ && !i.accepts_all()
                && !i.has_predicate() && !d.accepts_all() && !d.has_predicate(),
            a.gauge_view() == gauge@,
            a.keeps_updates(),
    {
        Self::inc_dec_by_filters(LabelFilter::many(increment_on), LabelFilter::many(decrement_on), gauge)
    }

    /// An adapter that increments the gauge on observations whose labels
    /// `predicate_inc` accepts and decrements it on those that
    /// `predicate_dec` accepts.
    pub fn inc_dec_by_predicates<PINC: AcceptsLabel<T> + 'static, PDEC: AcceptsLabel<T> + 'static>(
        predicate_inc: PINC,
        predicate_dec: PDEC,
        gauge: Gauge,
    ) -> (a: Self)
        ensures
            a.strategy() matches GaugeUpdateStrategy::IncDecOnLabels(i, d) && i.has_predicate()
                && d.has_predicate() && !i.accepts_all() && !d.accepts_all(),
            a.gauge_view() == gauge@,
            a.keeps_updates(),
    {
        Self::inc_dec_by_filters(
            LabelFilter::predicate(predicate_inc),
            LabelFilter::predicate(predicate_dec),
            gauge,
        )
    }

    /// An adapter that passes no observation on.
    pub fn deaf(gauge: Gauge) -> (a: Self)
        ensures
            a.strategy() matches GaugeUpdateStrategy::Filter(f) && f.labels() == Seq::<T>::empty()
                && !f.accepts_all() && !f.has_predicate(),
            a.gauge_view() == gauge@,
            a.keeps_updates(),
    {
        Self::accept(LabelFilter::accept_none(), gauge)
    }

    /// Updates pass through `f` before they reach the gauge.
    pub fn modify_with<F: ModifiesUpdate<T> + 'static>(self, f: F) -> (a: Self)
        ensures
            a.strategy() == self.strategy(),
            a.gauge_view() == self.gauge_view(),
            !a.keeps_updates(),
            a.modifier_calls() == self.modifier_calls(),
    {
        Self {
            strategy: self.strategy,
            gauge: self.gauge,
            modify_update: UpdateModifier::Modify(Box::new(f)),
            modifier_calls: self.modifier_calls,
        }
    }

    pub fn gauge(&self) -> (g: &Gauge)
        ensures
            g@ == self.gauge_view(),
    {
        &self.gauge
    }

    /// The gauge, to be changed in place.
    pub fn gauge_mut(&mut self) -> (g: &mut Gauge)
        ensures
            g@ == old(self).gauge_view(),
            final(self).gauge_view() == final(g)@,
            final(self).strategy() == old(self).strategy(),
            final(self).keeps_updates() == old(self).keeps_updates(),
            final(self).modifier_calls() == old(self).modifier_calls(),
    {
        &mut self.gauge
    }

    pub fn into_inner(self) -> (g: Gauge)
        ensures
            g@ == self.gauge_view(),
    {
        self.gauge
    }
}

/// A gauge `old` handed `u` in the way of `DeltasOnly`: a change goes on to
/// the gauge, anything else is dropped.
pub open spec fn delta_applied(old: GaugeView, new: GaugeView, u: Update, n: usize) -> bool {
    if u matches Update::ObservationWithValue(ObservedValue::ChangedBy(_), _) {
        gauge_updated(old, new, u, n)
    } else {
        n == 0 && new == old
    }
}

/// What an adapter with the strategy `s`, the gauge `old` and the record of
/// modifier calls `calls` does on an observation `obs`: `new` is the gauge
/// after it, `new_calls` the record, `n` the answer. Where `keeps` is false
/// the update passes through the modifier, handed the observation's label
/// and update, before the gauge gets it.
pub open spec fn gauge_adapted<T: PartialEq>(
    s: GaugeUpdateStrategy<T>,
    old: GaugeView,
    new: GaugeView,
    obs: Observation<T>,
    n: usize,
    keeps: bool,
    calls: Seq<(T, Update, Update)>,
    new_calls: Seq<(T, Update, Update)>,
) -> bool {
    let label = obs.label_spec();
    let u = update_of(obs);
    let passed = if keeps {
        u
    } else {
        new_calls.last().2
    };
    let untouched = n == 0 && new == old && new_calls == calls;
    match s {
        GaugeUpdateStrategy::Filter(f) => {
            let handed = modifier_applied(keeps, calls, new_calls, label, u, passed)
                && gauge_updated(old, new, passed, n);
            &&& must_accept(f, label) ==> handed
            &&& !may_accept(f, label) ==> untouched
            &&& untouched || handed
        },
        GaugeUpdateStrategy::DeltasOnly(f) => {
            let handed = modifier_applied(keeps, calls, new_calls, label, u, passed)
                && delta_applied(old, new, passed, n);
            &&& must_accept(f, label) ==> handed
            &&& !may_accept(f, label) ==> untouched
            &&& untouched || handed
        },
        GaugeUpdateStrategy::IncDecOnLabels(inc, dec) => {
            &&& new_calls == calls
            &&& must_accept(inc, label) ==> gauge_updated(
                old,
                new,
                Update::ObservationWithValue(ObservedValue::ChangedBy(1), obs.timestamp_spec()),
                n,
            )
            &&& !may_accept(inc, label) && must_accept(dec, label) ==> gauge_updated(
                old,
                new,
                Update::ObservationWithValue(ObservedValue::ChangedBy(-1i64), obs.timestamp_spec()),
                n,
            )
            &&& !may_accept(inc, label) && !may_accept(dec, label) ==> n == 0 && new == old
        },
    }
}

impl<T: PartialEq + Send + 'static> HandlesObservations for GaugeAdapter<T> {
    type Label = T;

    fn handle_observation(&mut self, observation: &Observation<T>) -> (n: usize)
        ensures
            final(self).strategy() == old(self).strategy(),
            final(self).keeps_updates() == old(self).keeps_updates(),
            gauge_adapted(
                old(self).strategy(),
                old(self).gauge_view(),
                final(self).gauge_view(),
                *observation,
                n,
                old(self).keeps_updates(),
                old(self).modifier_calls(),
                final(self).modifier_calls(),
            ),
    {
        let BorrowedLabelAndUpdate(label, update) = BorrowedLabelAndUpdate::from(observation);
        match &self.strategy {
            GaugeUpdateStrategy::Filter(filter) => {
                if !filter.accepts(label) {
                    return 0;
                }
                let passed = self.modify_update.modify(label, update);
                proof {
                    if !(self.modify_update is KeepAsIs) {
                        self.modifier_calls@ = self.modifier_calls@.push((*label, update, passed));
                    }
                }
                self.gauge.update(&passed)
            },
            GaugeUpdateStrategy::DeltasOnly(filter) => {
                if !filter.accepts(label) {
                    return 0;
                }
                let passed = self.modify_update.modify(label, update);
                proof {
                    if !(self.modify_update is KeepAsIs) {
                        self.modifier_calls@ = self.modifier_calls@.push((*label, update, passed));
                    }
                }
                match passed {
                    Update::ObservationWithValue(ObservedValue::ChangedBy(_), _) => {
                        self.gauge.update(&passed)
                    },
                    _ => 0,
                }
            },
            GaugeUpdateStrategy::IncDecOnLabels(inc, dec) => {
                let timestamp = observation.timestamp();
                if inc.accepts(label) {
                    self.gauge.update(
                        &Update::ObservationWithValue(ObservedValue::ChangedBy(1), timestamp),
                    )
                } else if dec.accepts(label) {
                    self.gauge.update(
                        &Update::ObservationWithValue(ObservedValue::ChangedBy(-1), timestamp),
                    )
                } else {
                    0
                }
            },
        }
    }
}

impl<T: Send + 'static> PutsSnapshot for GaugeAdapter<T> {
    /// Writes the values of the gauge, as its `put_snapshot` does.
    fn put_snapshot(&mut self, into: &mut Snapshot, descriptive: bool)
        ensures
            final(self).strategy() == old(self).strategy(),
            final(self).keeps_updates() == old(self).keeps_updates(),
            final(self).modifier_calls() == old(self).modifier_calls(),
            exists|t: Instant|
                {
                    &&& #[trigger] gauge_snapshot_taken(old(self).gauge_view(), final(self).gauge_view(), t)
                    &&& final(into)@ == gauge_snapshot(
                        old(into)@,
                        old(self).gauge_view(),
                        descriptive,
                        records_at(old(self).gauge_view().tracking, t),
                    )
                },
    {
        self.gauge.put_snapshot(into, descriptive)
    }
}

impl<T: PartialEq + Send + 'static> From<Gauge> for GaugeAdapter<T> {
    fn from(gauge: Gauge) -> (a: GaugeAdapter<T>)
        ensures
            a.strategy() matches GaugeUpdateStrategy::Filter(f) && f.accepts_all(),
            a.gauge_view() == gauge@,
            a.keeps_updates(),
    {
        GaugeAdapter::new(gauge)
    }
}

impl<T: PartialEq + Send + 'static> vstd::std_specs::convert::FromSpecImpl<Gauge> for GaugeAdapter<T> {
    open spec fn obeys_from_spec() -> bool {
        false
    }

    open spec fn from_spec(gauge: Gauge) -> Self {
        arbitrary()
    }
}

} // verus!
