//! Making an instrument react on observations with certain labels.
use vstd::prelude::*;

use crate::instruments::{
    may_accept, must_accept, update_of, BorrowedLabelAndUpdate, Instrument, LabelFilter, Update, Updates,
};
use crate::snapshot::Snapshot;
use crate::{HandlesObservations, Observation, PutsSnapshot};

verus! {

/// Changes updates before an instrument gets them.
pub trait ModifiesUpdate<T>: Send {
    fn modify(&self, label: &T, update: Update) -> Update;
}

/// Whether and how updates are changed before an instrument gets them.
#[verifier::reject_recursive_types(T)]
pub enum UpdateModifier<T> {
    KeepAsIs,
    Modify(Box<dyn ModifiesUpdate<T>>),
}

impl<T> UpdateModifier<T> {
    pub fn modify(&self, label: &T, update: Update) -> (r: Update)
        ensures
            self is KeepAsIs ==> r == update,
    {
        match self {
            UpdateModifier::KeepAsIs => update,
            UpdateModifier::Modify(f) => f.modify(label, update),
        }
    }
}

/// What an adapter passes on for an observation with the label `label` and
/// the update `u`: `passed` is `u` itself where the adapter keeps updates;
/// else its modifier was handed `label` and `u` and answered `passed`, so its
/// record of calls grew from `calls` to `new_calls` by that call.
pub open spec fn modifier_applied<T>(
    keeps: bool,
    calls: Seq<(T, Update, Update)>,
    new_calls: Seq<(T, Update, Update)>,
    label: T,
    u: Update,
    passed: Update,
) -> bool {
    if keeps {
        new_calls == calls && passed == u
    } else {
        new_calls == calls.push((label, u, passed))
    }
}

/// An adapter passed an observation with the label `label` and the update
/// `u` on: its instrument was handed one more update, the one that
/// `modifier_applied` gives, and answered `n`.
pub open spec fn passed_on<T>(
    keeps: bool,
    calls: Seq<(T, Update, Update)>,
    new_calls: Seq<(T, Update, Update)>,
    updates: Seq<Update>,
    new_updates: Seq<Update>,
    answers: Seq<usize>,
    new_answers: Seq<usize>,
    label: T,
    u: Update,
    n: usize,
) -> bool {
    &&& new_updates == updates.push(new_updates.last())
    &&& new_answers == answers.push(n)
    &&& modifier_applied(keeps, calls, new_calls, label, u, new_updates.last())
}

/// Passes observations whose labels pass a filter on to an instrument.
///
/// The adapter keeps a record of the updates it handed its instrument, of
/// the instrument's answers, and of the calls of its modifier.
#[verifier::reject_recursive_types(T)]
pub struct InstrumentAdapter<T, I> {
    label_filter: LabelFilter<T>,
    instrument: I,
    modify_update: UpdateModifier<T>,
    handed: Ghost<Seq<Update>>,
    answers: Ghost<Seq<usize>>,
    modifier_calls: Ghost<Seq<(T, Update, Update)>>,
}

impl<T, I> InstrumentAdapter<T, I> {
    pub closed spec fn filter(&self) -> LabelFilter<T> {
        self.label_filter
    }

    pub closed spec fn instrument_spec(&self) -> I {
        self.instrument
    }

    /// Updates reach the instrument as they are.
    pub closed spec fn keeps_updates(&self) -> bool {
        self.modify_update is KeepAsIs
    }

    /// The updates handed to the instrument, in order.
    pub closed spec fn instrument_updates(&self) -> Seq<Update> {
        self.handed@
    }

    /// The instrument's answers to them, in order.
    pub closed spec fn instrument_answers(&self) -> Seq<usize> {
        self.answers@
    }

    /// The calls of the modifier: the label and the update it was handed,
    /// and what it answered.
    pub closed spec fn modifier_calls(&self) -> Seq<(T, Update, Update)> {
        self.modifier_calls@
    }

    /// Nothing has been handed on yet.
    pub open spec fn fresh(&self) -> bool {
        &&& self.instrument_updates() == Seq::<Update>::empty()
        &&& self.instrument_answers() == Seq::<usize>::empty()
        &&& self.modifier_calls() == Seq::<(T, Update, Update)>::empty()
    }
}

impl<T: PartialEq + Send + 'static, I: Instrument> InstrumentAdapter<T, I> {
    /// An adapter that passes all observations on.
    pub fn new(instrument: I) -> (a: Self)
        ensures
            a.filter().accepts_all(),
            a.instrument_spec() == instrument,
            a.keeps_updates(),
            a.fresh(),
    {
        Self::accept(LabelFilter::accept_all(), instrument)
    }

    /// An adapter that passes on the observations that `accept` accepts.
    pub fn accept(accept: LabelFilter<T>, instrument: I) -> (a: Self)
        ensures
            a.filter() == accept,
            a.instrument_spec() == instrument,
            a.keeps_updates(),
            a.fresh(),
    {
        Self {
            instrument,
            label_filter: accept,
            modify_update: UpdateModifier::KeepAsIs,
            handed: Ghost(Seq::empty()),
            answers: Ghost(Seq::empty()),
            modifier_calls: Ghost(Seq::empty()),
        }
    }

    /// An adapter that passes on the observations with the label `label`.
    pub fn for_label(label: T, instrument: I) -> (a: Self)
        ensures
            a.filter().labels() == seq![label],
            !a.filter().accepts_all(),
            !a.filter().has_predicate(),
            a.instrument_spec() == instrument,
            a.keeps_updates(),
            a.fresh(),
    {
        Self::accept(LabelFilter::new(label), instrument)
    }

    /// An adapter that passes on the observations with one of `labels`; none
    /// where `labels` is empty.
    pub fn for_labels(labels: Vec<T>, instrument: I) -> (a: Self)
        ensures
            a.filter().labels() == labels@,
            !a.filter().accepts_all(),
            !a.filter().has_predicate(),
            a.instrument_spec() == instrument,
            a.keeps_updates(),
            a.fresh(),
    {
        Self::accept(LabelFilter::many(labels), instrument)
    }

    /// An adapter that passes on the observations whose labels `predicate` accepts.
    pub fn by_predicate<P: crate::instruments::AcceptsLabel<T> + 'static>(predicate: P, instrument: I) -> (a: Self)
        ensures
            a.filter().labels() == Seq::<T>::empty(),
            !a.filter().accepts_all(),
            a.filter().has_predicate(),
            a.instrument_spec() == instrument,
            a.keeps_updates(),
            a.fresh(),
    {
        Self::accept(LabelFilter::predicate(predicate), instrument)
    }

    /// An adapter that passes no observation on.
    pub fn deaf(instrument: I) -> (a: Self)
        ensures
            a.filter().labels() == Seq::<T>::empty(),
            !a.filter().accepts_all(),
            !a.filter().has_predicate(),
            a.instrument_spec() == instrument,
            a.keeps_updates(),
            a.fresh(),
    {
        Self::accept(LabelFilter::accept_none(), instrument)
    }

    pub fn accept_no_labels(self) -> (a: Self)
        ensures
            a.filter().labels() == Seq::<T>::empty(),
            !a.filter().accepts_all(),
            !a.filter().has_predicate(),
            a.instrument_spec() == self.instrument_spec(),
            a.keeps_updates() == self.keeps_updates(),
            a.instrument_updates() == self.instrument_updates(),
            a.instrument_answers() == self.instrument_answers(),
            a.modifier_calls() == self.modifier_calls(),
    {
        Self {
            label_filter: LabelFilter::accept_none(),
            instrument: self.instrument,
            modify_update: self.modify_update,
            handed: self.handed,
            answers: self.answers,
            modifier_calls: self.modifier_calls,
        }
    }

    pub fn accept_all_labels(self) -> (a: Self)
        ensures
            a.filter().accepts_all(),
            a.instrument_spec() == self.instrument_spec(),
            a.keeps_updates() == self.keeps_updates(),
            a.instrument_updates() == self.instrument_updates(),
            a.instrument_answers() == self.instrument_answers(),
            a.modifier_calls() == self.modifier_calls(),
    {
        Self {
            label_filter: LabelFilter::accept_all(),
            instrument: self.instrument,
            modify_update: self.modify_update,
            handed: self.handed,
            answers: self.answers,
            modifier_calls: self.modifier_calls,
        }
    }

    /// Updates pass through `f` before they reach the instrument.
    pub fn modify_with<F: ModifiesUpdate<T> + 'static>(self, f: F) -> (a: Self)
        ensures
            a.filter() == self.filter(),
            a.instrument_spec() == self.instrument_spec(),
            !a.keeps_updates(),
            a.instrument_updates() == self.instrument_updates(),
            a.instrument_answers() == self.instrument_answers(),
            a.modifier_calls() == self.modifier_calls(),
    {
        Self {
            label_filter: self.label_filter,
            instrument: self.instrument,
            modify_update: UpdateModifier::Modify(Box::new(f)),
            handed: self.handed,
            answers: self.answers,
            modifier_calls: self.modifier_calls,
        }
    }

    pub fn instrument(&self) -> (i: &I)
        ensures
            *i == self.instrument_spec(),
    {
        &self.instrument
    }
}

impl<T: PartialEq + Send + 'static, I: Instrument + Send + 'static> HandlesObservations for InstrumentAdapter<T, I> {
    type Label = T;

    /// Passes the observation's update on where the label passes the filter,
    /// through the modifier where one is set; returns the instrument's answer.
    fn handle_observation(&mut self, observation: &Observation<T>) -> (n: usize)
        ensures
            final(self).filter() == old(self).filter(),
            final(self).keeps_updates() == old(self).keeps_updates(),
            must_accept(old(self).filter(), observation.label_spec()) ==> passed_on(
                old(self).keeps_updates(),
                old(self).modifier_calls(),
                final(self).modifier_calls(),
                old(self).instrument_updates(),
                final(self).instrument_updates(),
                old(self).instrument_answers(),
                final(self).instrument_answers(),
                observation.label_spec(),
                update_of(*observation),
                n,
            ),
            !may_accept(old(self).filter(), observation.label_spec()) ==> n == 0
                && final(self).instrument_spec() == old(self).instrument_spec()
                && final(self).instrument_updates() == old(self).instrument_updates()
                && final(self).instrument_answers() == old(self).instrument_answers()
                && final(self).modifier_calls() == old(self).modifier_calls(),
            (n == 0 && final(self).instrument_spec() == old(self).instrument_spec()
                && final(self).instrument_updates() == old(self).instrument_updates()
                && final(self).instrument_answers() == old(self).instrument_answers()
                && final(self).modifier_calls() == old(self).modifier_calls()) || passed_on(
                old(self).keeps_updates(),
                old(self).modifier_calls(),
                final(self).modifier_calls(),
                old(self).instrument_updates(),
                final(self).instrument_updates(),
                old(self).instrument_answers(),
                final(self).instrument_answers(),
                observation.label_spec(),
                update_of(*observation),
                n,
            ),
    {
        if !self.label_filter.accepts(observation.label()) {
            return 0;
        }
        let BorrowedLabelAndUpdate(label, update) = BorrowedLabelAndUpdate::from(observation);
        let passed = self.modify_update.modify(label, update);
        proof {
            if !(self.modify_update is KeepAsIs) {
                self.modifier_calls@ = self.modifier_calls@.push((*label, update, passed));
            }
        }
        let n = self.instrument.update(&passed);
        proof {
            self.handed@ = self.handed@.push(passed);
            self.answers@ = self.answers@.push(n);
        }
        n
    }
}

impl<T: Send + 'static, I: Instrument + Send + 'static> PutsSnapshot for InstrumentAdapter<T, I> {
    fn put_snapshot(&mut self, into: &mut Snapshot, descriptive: bool)
        ensures
            final(self).filter() == old(self).filter(),
            final(self).keeps_updates() == old(self).keeps_updates(),
            final(self).instrument_updates() == old(self).instrument_updates(),
            final(self).instrument_answers() == old(self).instrument_answers(),
            final(self).modifier_calls() == old(self).modifier_calls(),
    {
        self.instrument.put_snapshot(into, descriptive)
    }
}

} // verus!
