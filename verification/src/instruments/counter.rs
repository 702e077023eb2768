use vstd::prelude::*;

use crate::instruments::{Instrument, InstrumentAdapter, Update, Updates};
use crate::snapshot::{ItemKind, ItemValue, Snapshot};
use crate::time::{saturating_add_spec, Instant};
use crate::util::{self, instrument_descriptives};
use crate::{opt_as_str, opt_string_view, Descriptive, PutsSnapshot};

verus! {

/// What a `Counter` holds.
pub struct CounterView {
    pub name: Seq<char>,
    pub title: Option<Seq<char>>,
    pub description: Option<Seq<char>>,
    pub count: u64,
}

/// A simple ever increasing counter
///
/// Reacts to all updates: an `Update::Observations` adds its count, the
/// other two add one.
pub struct Counter {
    name: String,
    title: Option<String>,
    description: Option<String>,
    count: u64,
}

impl View for Counter {
    type V = CounterView;

    closed spec fn view(&self) -> CounterView {
        CounterView {
            name: self.name@,
            title: opt_string_view(self.title),
            description: opt_string_view(self.description),
            count: self.count,
        }
    }
}

/// The count after `with` reached a counter that counted `count`.
pub open spec fn counted(count: u64, with: Update) -> u64 {
    match with {
        Update::Observations(n, _) => saturating_add_spec(count, n),
        _ => saturating_add_spec(count, 1),
    }
}

impl Counter {
    pub fn new(name: &str) -> (c: Counter)
        ensures
            c@ == (CounterView { name: name@, title: None, description: None, count: 0 }),
    {
        Counter { name: String::from_str(name), title: None, description: None, count: 0 }
    }

    pub fn new_with_defaults(name: &str) -> (c: Counter)
        ensures
            c@ == (CounterView { name: name@, title: None, description: None, count: 0 }),
    {
        Self::new(name)
    }

    pub fn get_name(&self) -> (n: &str)
        ensures
            n@ == self@.name,
    {
        self.name.as_str()
    }

    pub fn set_name(&mut self, name: &str)
        ensures
            final(self)@ == (CounterView { name: name@, ..old(self)@ }),
    {
        self.name = String::from_str(name);
    }

    pub fn name(self, name: &str) -> (c: Self)
        ensures
            c@ == (CounterView { name: name@, ..self@ }),
    {
        let mut c = self;
        c.set_name(name);
        c
    }

    pub fn set_title(&mut self, title: &str)
        ensures
            final(self)@ == (CounterView { title: Some(title@), ..old(self)@ }),
    {
        self.title = Some(String::from_str(title));
    }

    pub fn title(self, title: &str) -> (c: Self)
        ensures
            c@ == (CounterView { title: Some(title@), ..self@ }),
    {
        let mut c = self;
        c.set_title(title);
        c
    }

    pub fn set_description(&mut self, description: &str)
        ensures
            final(self)@ == (CounterView { description: Some(description@), ..old(self)@ }),
    {
        self.description = Some(String::from_str(description));
    }

    pub fn description(self, description: &str) -> (c: Self)
        ensures
            c@ == (CounterView { description: Some(description@), ..self@ }),
    {
        let mut c = self;
        c.set_description(description);
        c
    }

    /// Increase the stored value by one.
    pub fn inc(&mut self)
        requires
            old(self)@.count < u64::MAX,
        ensures
            final(self)@ == (CounterView { count: (old(self)@.count + 1) as u64, ..old(self)@ }),
    {
        self.count = self.count + 1;
    }

    /// Increase the stored value by `n`
    pub fn inc_by(&mut self, n: u64)
        requires
            old(self)@.count + n <= u64::MAX,
        ensures
            final(self)@ == (CounterView { count: (old(self)@.count + n) as u64, ..old(self)@ }),
    {
        self.count = self.count + n;
    }

    /// Get the current value
    pub fn get(&self) -> (c: u64)
        ensures
            c == self@.count,
    {
        self.count
    }
}

impl Instrument for Counter {}

impl PutsSnapshot for Counter {
    fn put_snapshot(&mut self, into: &mut Snapshot, descriptive: bool)
        ensures
            final(self)@ == old(self)@,
            final(into)@ == instrument_descriptives(
                old(into)@,
                old(self)@.name,
                old(self)@.title,
                old(self)@.description,
                descriptive,
            ).push((old(self)@.name, ItemValue::UInt(old(self)@.count))),
    {
        util::put_postfixed_descriptives(&*self, self.name.as_str(), into, descriptive);
        into.push(self.name.clone(), ItemKind::UInt(self.count));
    }
}

impl Updates for Counter {
    /// Counts the update; the count stays at `u64::MAX` once it got there.
    fn update(&mut self, with: &Update) -> (n: usize)
        ensures
            n == 1,
            final(self)@ == (CounterView { count: counted(old(self)@.count, *with), ..old(self)@ }),
    {
        match *with {
            Update::Observation(_) => {
                self.count = self.count.saturating_add(1);
                1
            },
            Update::Observations(n, _) => {
                self.count = self.count.saturating_add(n);
                1
            },
            Update::ObservationWithValue(_, _) => {
                self.count = self.count.saturating_add(1);
                1
            },
        }
    }
}

impl Descriptive for Counter {
    open spec fn title_spec(&self) -> Option<Seq<char>> {
        self@.title
    }

    open spec fn description_spec(&self) -> Option<Seq<char>> {
        self@.description
    }

    fn title(&self) -> (r: Option<&str>) {
        opt_as_str(&self.title)
    }

    fn description(&self) -> (r: Option<&str>) {
        opt_as_str(&self.description)
    }
}

impl Counter {
    /// Creates an `InstrumentAdapter` that makes this instrument
    /// react on observations on the given label.
    pub fn for_label<T: PartialEq + Send + 'static>(self, label: T) -> (a: InstrumentAdapter<T, Self>)
        ensures
            a.filter().labels() == seq![label],
            !a.filter().accepts_all(),
            !a.filter().has_predicate(),
            a.instrument_spec() == self,
            a.keeps_updates(),
            a.fresh(),
    {
        InstrumentAdapter::for_label(label, self)
    }

    /// Creates an `InstrumentAdapter` that makes this instrument
    /// react on observations with the given labels.
    ///
    /// If `labels` is empty the instrument will not react to any observations
    pub fn for_labels<T: PartialEq + Send + 'static>(self, labels: Vec<T>) -> (a: InstrumentAdapter<T, Self>)
        ensures
            a.filter().labels() == labels@,
            !a.filter().accepts_all(),
            !a.filter().has_predicate(),
            a.instrument_spec() == self,
            a.keeps_updates(),
            a.fresh(),
    {
        InstrumentAdapter::for_labels(labels, self)
    }

    /// Creates an `InstrumentAdapter` that makes this instrument react on
    /// all observations.
    pub fn for_all_labels<T: PartialEq + Send + 'static>(self) -> (a: InstrumentAdapter<T, Self>)
        ensures
            a.filter().accepts_all(),
            a.instrument_spec() == self,
            a.keeps_updates(),
            a.fresh(),
    {
        InstrumentAdapter::new(self)
    }

    /// Creates an `InstrumentAdapter` that makes this instrument react on no
    /// observations.
    pub fn adapter<T: PartialEq + Send + 'static>(self) -> (a: InstrumentAdapter<T, Self>)
        ensures
            a.filter().labels() == Seq::<T>::empty(),
            !a.filter().accepts_all(),
            !a.filter().has_predicate(),
            a.instrument_spec() == self,
            a.keeps_updates(),
            a.fresh(),
    {
        InstrumentAdapter::deaf(self)
    }
}


/// A counter never goes down.
pub proof fn law_counter_never_decreases(count: u64, with: Update)
    ensures
        counted(count, with) >= count,
{
}

/// Counting `a` and then `b` occurrences is counting `a + b` of them, cut
/// at `u64::MAX`.
pub proof fn law_counts_add_up(count: u64, a: u64, b: u64, t1: Instant, t2: Instant)
    ensures
        counted(counted(count, Update::Observations(a, t1)), Update::Observations(b, t2)) == if count
            + a + b <= u64::MAX {
            (count + a + b) as u64
        } else {
            u64::MAX
        },
{
}

} // verus!
