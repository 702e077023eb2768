use vstd::prelude::*;

use super::{alternated_name, NameAlternation};
use crate::instruments::{AcceptsLabel, Instrument, InstrumentAdapter, Update, Updates};
use crate::snapshot::{ItemKind, ItemValue, Snapshot};
use crate::util::{self, instrument_descriptives};
use crate::time::Instant;
use crate::{opt_as_str, opt_string_view, to_bool_spec, Descriptive, ObservedValue, PutsSnapshot};

verus! {

/// What a `Flag` holds.
pub struct FlagView {
    pub name: Seq<char>,
    pub title: Option<Seq<char>>,
    pub description: Option<Seq<char>>,
    pub state: Option<bool>,
    pub show_inverted: Option<NameAlternation>,
}

/// A `Flag` which can have the states `true` or `false`
///
/// The `Flag` reacts on observations with values. A boolean sets the
/// state; an integer sets it to `false` if it is `0` and to `true`
/// otherwise.
pub struct Flag {
    name: String,
    title: Option<String>,
    description: Option<String>,
    state: Option<bool>,
    show_inverted: Option<NameAlternation>,
}

impl View for Flag {
    type V = FlagView;

    closed spec fn view(&self) -> FlagView {
        FlagView {
            name: self.name@,
            title: opt_string_view(self.title),
            description: opt_string_view(self.description),
            state: self.state,
            show_inverted: self.show_inverted,
        }
    }
}

/// The entries that a flag `f` writes for its state.
pub open spec fn flag_entries(f: FlagView) -> Seq<(Seq<char>, ItemValue)> {
    match f.state {
        None => seq![],
        Some(s) => match f.show_inverted {
            None => seq![(f.name, ItemValue::Boolean(s))],
            Some(a) => seq![
                (f.name, ItemValue::Boolean(s)),
                (alternated_name(a, f.name), ItemValue::Boolean(!s)),
            ],
        },
    }
}

impl Flag {
    pub fn new(name: &str) -> (f: Self)
        ensures
            f@ == (FlagView {
                name: name@,
                title: None,
                description: None,
                state: None,
                show_inverted: None,
            }),
    {
        Self {
            name: String::from_str(name),
            title: None,
            description: None,
            state: None,
            show_inverted: None,
        }
    }

    pub fn new_with_state(name: &str, initial_state: bool) -> (f: Self)
        ensures
            f@ == (FlagView {
                name: name@,
                title: None,
                description: None,
                state: Some(initial_state),
                show_inverted: None,
            }),
    {
        Self::new(name).state(initial_state)
    }

    pub fn get_name(&self) -> (n: &str)
        ensures
            n@ == self@.name,
    {
        self.name.as_str()
    }

    pub fn set_name(&mut self, name: &str)
        ensures
            final(self)@ == (FlagView { name: name@, ..old(self)@ }),
    {
        self.name = String::from_str(name);
    }

    pub fn name(self, name: &str) -> (f: Self)
        ensures
            f@ == (FlagView { name: name@, ..self@ }),
    {
        let mut f = self;
        f.set_name(name);
        f
    }

    pub fn set_title(&mut self, title: &str)
        ensures
            final(self)@ == (FlagView { title: Some(title@), ..old(self)@ }),
    {
        self.title = Some(String::from_str(title));
    }

    pub fn title(self, title: &str) -> (f: Self)
        ensures
            f@ == (FlagView { title: Some(title@), ..self@ }),
    {
        let mut f = self;
        f.set_title(title);
        f
    }

    pub fn set_description(&mut self, description: &str)
        ensures
            final(self)@ == (FlagView { description: Some(description@), ..old(self)@ }),
    {
        self.description = Some(String::from_str(description));
    }

    pub fn description(self, description: &str) -> (f: Self)
        ensures
            f@ == (FlagView { description: Some(description@), ..self@ }),
    {
        let mut f = self;
        f.set_description(description);
        f
    }

    /// Sets the initial state.
    pub fn state(self, initial_state: bool) -> (f: Self)
        ensures
            f@ == (FlagView { state: Some(initial_state), ..self@ }),
    {
        let mut f = self;
        f.state = Some(initial_state);
        f
    }

    /// Show the inverted value. Name will be adjusted with `name_alternation`.
    pub fn set_show_inverted(&mut self, name_alternation: NameAlternation)
        ensures
            final(self)@ == (FlagView { show_inverted: Some(name_alternation), ..old(self)@ }),
    {
        self.show_inverted = Some(name_alternation);
    }

    /// Show the inverted value. Name will be adjusted with `name_alternation`.
    pub fn show_inverted(self, name_alternation: NameAlternation) -> (f: Self)
        ensures
            f@ == (FlagView { show_inverted: Some(name_alternation), ..self@ }),
    {
        let mut f = self;
        f.set_show_inverted(name_alternation);
        f
    }

    /// Show the inverted value. Name will be prefixed with `prefix`.
    pub fn set_show_inverted_prefixed(&mut self, prefix: &str)
        ensures
            final(self)@ == (FlagView { show_inverted: final(self)@.show_inverted, ..old(self)@ }),
            (final(self)@.show_inverted matches Some(NameAlternation::Prefix(s)) && s@ == prefix@),
    {
        self.set_show_inverted(NameAlternation::Prefix(String::from_str(prefix)))
    }

    /// Show the inverted value. Name will be prefixed with `prefix`.
    pub fn show_inverted_prefixed(self, prefix: &str) -> (f: Self)
        ensures
            f@ == (FlagView { show_inverted: f@.show_inverted, ..self@ }),
            (f@.show_inverted matches Some(NameAlternation::Prefix(s)) && s@ == prefix@),
    {
        let mut f = self;
        f.set_show_inverted_prefixed(prefix);
        f
    }

    /// Show the inverted value. Name will be postfixed with `postfix`.
    pub fn set_show_inverted_postfixed(&mut self, postfix: &str)
        ensures
            final(self)@ == (FlagView { show_inverted: final(self)@.show_inverted, ..old(self)@ }),
            (final(self)@.show_inverted matches Some(NameAlternation::Postfix(s)) && s@ == postfix@),
    {
        self.set_show_inverted(NameAlternation::Postfix(String::from_str(postfix)))
    }

    /// Show the inverted value. Name will be postfixed with `postfix`.
    pub fn show_inverted_postfixed(self, postfix: &str) -> (f: Self)
        ensures
            f@ == (FlagView { show_inverted: f@.show_inverted, ..self@ }),
            (f@.show_inverted matches Some(NameAlternation::Postfix(s)) && s@ == postfix@),
    {
        let mut f = self;
        f.set_show_inverted_postfixed(postfix);
        f
    }

    /// Show the inverted value. Name will be replaced by `new_name`.
    pub fn set_show_inverted_renamed(&mut self, new_name: &str)
        ensures
            final(self)@ == (FlagView { show_inverted: final(self)@.show_inverted, ..old(self)@ }),
            (final(self)@.show_inverted matches Some(NameAlternation::Rename(s)) && s@ == new_name@),
    {
        self.set_show_inverted(NameAlternation::Rename(String::from_str(new_name)))
    }

    /// Show the inverted value. Name will be replaced by `new_name`.
    pub fn show_inverted_renamed(self, new_name: &str) -> (f: Self)
        ensures
            f@ == (FlagView { show_inverted: f@.show_inverted, ..self@ }),
            (f@.show_inverted matches Some(NameAlternation::Rename(s)) && s@ == new_name@),
    {
        let mut f = self;
        f.set_show_inverted_renamed(new_name);
        f
    }

    /// Returns the current state
    pub fn get_state(&self) -> (s: Option<bool>)
        ensures
            s == self@.state,
    {
        self.state
    }
}

impl Instrument for Flag {}

impl PutsSnapshot for Flag {
    fn put_snapshot(&mut self, into: &mut Snapshot, descriptive: bool)
        ensures
            final(self)@ == old(self)@,
            final(into)@ == instrument_descriptives(
                old(into)@,
                old(self)@.name,
                old(self)@.title,
                old(self)@.description,
                descriptive,
            ) + flag_entries(old(self)@),
    {
        util::put_postfixed_descriptives(&*self, self.name.as_str(), into, descriptive);
        let ghost mid = into@;
        if let Some(state) = self.state {
            into.push(self.name.clone(), ItemKind::Boolean(state));
            if let Some(alternation) = &self.show_inverted {
                let label = alternation.adjust_name(self.name.as_str());
                into.push(label, ItemKind::Boolean(!state));
            }
        }
        assert(into@ =~= mid + flag_entries(old(self)@));
    }
}

/// The state that a flag in state `state` takes on `with`.
pub open spec fn flag_updated(state: Option<bool>, with: Update) -> Option<bool> {
    match with {
        Update::ObservationWithValue(ObservedValue::Bool(v), _) => Some(v),
        Update::ObservationWithValue(ObservedValue::SignedInteger(v), _) => Some(v != 0),
        Update::ObservationWithValue(ObservedValue::UnsignedInteger(v), _) => Some(v != 0),
        _ => state,
    }
}

/// The update sets a flag's state.
pub open spec fn flag_reacts(with: Update) -> bool {
    match with {
        Update::ObservationWithValue(ObservedValue::Bool(_), _) => true,
        Update::ObservationWithValue(ObservedValue::SignedInteger(_), _) => true,
        Update::ObservationWithValue(ObservedValue::UnsignedInteger(_), _) => true,
        _ => false,
    }
}

impl Updates for Flag {
    fn update(&mut self, with: &Update) -> (n: usize)
        ensures
            final(self)@ == (FlagView { state: flag_updated(old(self)@.state, *with), ..old(self)@ }),
            n == if flag_reacts(*with) {
                1usize
            } else {
                0usize
            },
    {
        match *with {
            Update::ObservationWithValue(ObservedValue::Bool(v), _) => {
                self.state = Some(v);
                1
            },
            Update::ObservationWithValue(ObservedValue::SignedInteger(v), _) => {
                self.state = Some(v != 0);
                1
            },
            Update::ObservationWithValue(ObservedValue::UnsignedInteger(v), _) => {
                self.state = Some(v != 0);
                1
            },
            _ => 0,
        }
    }
}

impl Descriptive for Flag {
    open spec fn title_spec(&self) -> Option<Seq<char>> {
        self@.title
    }

    open spec fn description_spec(&self) -> Option<Seq<char>> {
        self@.description
    }

    fn title(&self) -> (r: Option<&str>) {
        opt_as_str(&self.title)
    }

    fn description(&self) -> (r: Option<&str>) {
        opt_as_str(&self.description)
    }
}

impl Flag {
    /// Creates an `InstrumentAdapter` that makes this instrument
    /// react on observations on the given label.
    pub fn for_label<T: PartialEq + Send + 'static>(self, label: T) -> (a: InstrumentAdapter<T, Self>)
        ensures
            a.filter().labels() == seq![label],
            !a.filter().accepts_all(),
            !a.filter().has_predicate(),
            a.instrument_spec() == self,
            a.keeps_updates(),
            a.fresh(),
    {
        InstrumentAdapter::for_label(label, self)
    }

    /// Creates an `InstrumentAdapter` that makes this instrument
    /// react on observations with the given labels.
    ///
    /// If `labels` is empty the instrument will not react to any observations
    pub fn for_labels<T: PartialEq + Send + 'static>(self, labels: Vec<T>) -> (a: InstrumentAdapter<T, Self>)
        ensures
            a.filter().labels() == labels@,
            !a.filter().accepts_all(),
            !a.filter().has_predicate(),
            a.instrument_spec() == self,
            a.keeps_updates(),
            a.fresh(),
    {
        InstrumentAdapter::for_labels(labels, self)
    }

    /// Creates an `InstrumentAdapter` that makes this instrument react on
    /// all observations.
    pub fn for_all_labels<T: PartialEq + Send + 'static>(self) -> (a: InstrumentAdapter<T, Self>)
        ensures
            a.filter().accepts_all(),
            a.instrument_spec() == self,
            a.keeps_updates(),
            a.fresh(),
    {
        InstrumentAdapter::new(self)
    }

    /// Creates an `InstrumentAdapter` that makes this instrument react on
    /// observations with labels that `label_predicate` accepts.
    pub fn for_labels_by_predicate<T: PartialEq + Send + 'static, P: AcceptsLabel<T> + 'static>(
        self,
        label_predicate: P,
    ) -> (a: InstrumentAdapter<T, Self>)
        ensures
            a.filter().labels() == Seq::<T>::empty(),
            !a.filter().accepts_all(),
            a.filter().has_predicate(),
            a.instrument_spec() == self,
            a.keeps_updates(),
            a.fresh(),
    {
        InstrumentAdapter::by_predicate(label_predicate, self)
    }

    /// Creates an `InstrumentAdapter` that makes this instrument react on no
    /// observations.
    pub fn adapter<T: PartialEq + Send + 'static>(self) -> (a: InstrumentAdapter<T, Self>)
        ensures
            a.filter().labels() == Seq::<T>::empty(),
            !a.filter().accepts_all(),
            !a.filter().has_predicate(),
            a.instrument_spec() == self,
            a.keeps_updates(),
            a.fresh(),
    {
        InstrumentAdapter::deaf(self)
    }
}


/// A value update sets a flag to the boolean the value stands for: a
/// non-zero integer turns it on, zero turns it off, a boolean sets it as it
/// is; other updates leave it as it was.
pub proof fn law_a_flag_takes_the_boolean_of_the_value(state: Option<bool>, x: ObservedValue, t: Instant, u: Update)
    ensures
        x matches ObservedValue::SignedInteger(v) && v != 0 ==> flag_updated(
            state,
            Update::ObservationWithValue(x, t),
        ) == Some(true),
        x matches ObservedValue::UnsignedInteger(v) && v != 0 ==> flag_updated(
            state,
            Update::ObservationWithValue(x, t),
        ) == Some(true),
        x == ObservedValue::SignedInteger(0) || x == ObservedValue::UnsignedInteger(0) ==> flag_updated(
            state,
            Update::ObservationWithValue(x, t),
        ) == Some(false),
        x matches ObservedValue::Bool(b) ==> flag_updated(state, Update::ObservationWithValue(x, t))
            == Some(b),
        to_bool_spec(x) is Some ==> flag_updated(state, Update::ObservationWithValue(x, t))
            == to_bool_spec(x),
        !(u is ObservationWithValue) ==> flag_updated(state, u) == state,
{
}

/// Applying the same update to a flag twice leaves it as applying it once.
pub proof fn law_flag_update_is_idempotent(state: Option<bool>, with: Update)
    ensures
        flag_updated(flag_updated(state, with), with) == flag_updated(state, with),
{
}

} // verus!
