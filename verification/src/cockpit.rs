//! Cockpits are used to monitor different aspects of a component.
use crate::observation::Observation;
use crate::processor::{
    is_inactive, put_activity_state, with_activity_state, with_default_descriptives,
    HandlesObservationsOf, ObservingHandler,
};
use crate::snapshot::{ItemKind, ItemValue, Snapshot};
use crate::time::{now, Duration, Instant};
use crate::util::{
    lemma_push_len, lemma_remove_first, put_default_descriptives, saturating_total,
};
use crate::{opt_as_str, opt_str_view, opt_string_view, Descriptive, HandlesObservations, PutsSnapshot};
use vstd::prelude::*;

verus! {

/// What a `Cockpit` is; of its handlers and snapshooters, how many it has.
pub struct CockpitView {
    pub name: Option<Seq<char>>,
    pub title: Option<Seq<char>>,
    pub description: Option<Seq<char>>,
    pub inactivity_limit: Option<Duration>,
    pub last_activity: Instant,
    pub handler_count: nat,
    pub snapshooter_count: nat,
}

/// A cockpit groups what handles observations of the same kind of label.
///
/// A handler receives every observation that reaches the cockpit; a
/// snapshooter only writes values when a `Snapshot` is requested.
#[verifier::reject_recursive_types(L)]
pub struct Cockpit<L> {
    name: Option<String>,
    title: Option<String>,
    description: Option<String>,
    handlers: Vec<Box<dyn HandlesObservationsOf<L>>>,
    snapshooters: Vec<Box<dyn PutsSnapshot>>,
    last_activity_at: Instant,
    max_inactivity_duration: Option<Duration>,
    /// For each handler, the observations it recorded as handed to it,
    /// taken from the handler after each call.
    handed: Ghost<Seq<Seq<Observation<L>>>>,
    /// For each handler, the answers it recorded.
    answered: Ghost<Seq<Seq<usize>>>,
}

impl<L> Cockpit<L> {
    /// What each handler was handed, in the handlers' order, as each handler
    /// recorded it at its last call.
    pub closed spec fn handlers_observed(&self) -> Seq<Seq<Observation<L>>> {
        Seq::new(
            self.handlers@.len(),
            |i: int|
                if i < self.handed@.len() {
                    self.handed@[i]
                } else {
                    Seq::empty()
                },
        )
    }

    /// Each handler's answers, in the handlers' order, as each handler
    /// recorded them.
    pub closed spec fn handlers_answers(&self) -> Seq<Seq<usize>> {
        Seq::new(
            self.handlers@.len(),
            |i: int|
                if i < self.answered@.len() {
                    self.answered@[i]
                } else {
                    Seq::empty()
                },
        )
    }
}

impl<L> View for Cockpit<L> {
    type V = CockpitView;

    closed spec fn view(&self) -> CockpitView {
        CockpitView {
            name: opt_string_view(self.name),
            title: opt_string_view(self.title),
            description: opt_string_view(self.description),
            inactivity_limit: self.max_inactivity_duration,
            last_activity: self.last_activity_at,
            handler_count: self.handlers@.len(),
            snapshooter_count: self.snapshooters@.len(),
        }
    }
}

/// The entries a cockpit puts into `into` before those of its handlers
/// and snapshooters: a cockpit shows its activity state wherever a limit is
/// set.
pub open spec fn cockpit_head(
    c: CockpitView,
    into: Seq<(Seq<char>, ItemValue)>,
    descriptive: bool,
    now: Instant,
) -> Seq<(Seq<char>, ItemValue)> {
    with_activity_state(
        with_default_descriptives(into, c.title, c.description, descriptive),
        c.inactivity_limit,
        true,
        c.last_activity,
        now,
    )
}

/// The last answers of the handlers whose answers are `answers`, added up
/// in order, cut at `usize::MAX`.
pub open spec fn answers_total(answers: Seq<Seq<usize>>) -> usize {
    saturating_total(answers.map_values(|a: Seq<usize>| a.last()))
}

/// Every handler of a cockpit was handed `obs`: its record of observations
/// grew by it and its record of answers by one answer; `n` is those answers
/// added up in order, cut at `usize::MAX`.
pub open spec fn handed_to_all<L>(
    observed: Seq<Seq<Observation<L>>>,
    answers: Seq<Seq<usize>>,
    new_observed: Seq<Seq<Observation<L>>>,
    new_answers: Seq<Seq<usize>>,
    obs: Observation<L>,
    n: usize,
) -> bool {
    &&& new_observed == observed.map_values(|o: Seq<Observation<L>>| o.push(obs))
    &&& new_answers.len() == answers.len()
    &&& forall|i: int|
        0 <= i < answers.len() ==> #[trigger] new_answers[i] == answers[i].push(new_answers[i].last())
    &&& n == answers_total(new_answers)
}

/// The cockpit has neither handlers nor snapshooters: it puts its head only.
pub open spec fn puts_only_head(c: CockpitView) -> bool {
    c.handler_count == 0 && c.snapshooter_count == 0
}

/// What a cockpit `c` leaves in a snapshot that held `into` when it puts its
/// values at `now`: `result`.
pub open spec fn cockpit_snapshot(
    c: CockpitView,
    into: Seq<(Seq<char>, ItemValue)>,
    result: Seq<(Seq<char>, ItemValue)>,
    descriptive: bool,
    now: Instant,
) -> bool {
    let only_head = is_inactive(c.inactivity_limit, c.last_activity, now) || puts_only_head(c);
    match c.name {
        Some(n) => {
            &&& result.len() == into.len() + 1
            &&& result.take(into.len() as int) == into
            &&& result.last().0 == n
            &&& only_head ==> result.last().1 == ItemValue::Group(
                cockpit_head(c, Seq::empty(), descriptive, now),
            )
        },
        None => only_head ==> result == cockpit_head(c, into, descriptive, now),
    }
}

impl<L: Clone + Eq + Send + 'static> Cockpit<L> {
    /// A cockpit with the given name, created at `now`.
    pub fn new_at(name: &str, now: Instant) -> (c: Self)
        ensures
            c@ == (CockpitView {
                name: Some(name@),
                title: None,
                description: None,
                inactivity_limit: None,
                last_activity: now,
                handler_count: 0,
                snapshooter_count: 0,
            }),
    {
        let mut cockpit = Self::without_name_at(now);
        cockpit.set_name(name);
        cockpit
    }

    /// Creates a new cockpit.
    ///
    /// Even though the name is optional it is suggested to use a name for a
    /// cockpit since in most cases a `Cockpit` is a meaningful grouping.
    pub fn new(name: &str) -> (c: Self)
        ensures
            c@.name == Some(name@),
            c@.title is None,
            c@.description is None,
            c@.inactivity_limit is None,
            c@.handler_count == 0,
            c@.snapshooter_count == 0,
    {
        Self::new_at(name, now())
    }

    /// A cockpit without a name, created at `now`.
    pub fn without_name_at(now: Instant) -> (c: Self)
        ensures
            c@ == (CockpitView {
                name: None,
                title: None,
                description: None,
                inactivity_limit: None,
                last_activity: now,
                handler_count: 0,
                snapshooter_count: 0,
            }),
    {
        Cockpit {
            name: None,
            title: None,
            description: None,
            handlers: Vec::new(),
            snapshooters: Vec::new(),
            last_activity_at: now,
            max_inactivity_duration: None,
            handed: Ghost(Seq::empty()),
            answered: Ghost(Seq::empty()),
        }
    }

    /// Creates a new `Cockpit` without a name: there is no grouping in the
    /// snapshot around the contained components.
    pub fn without_name() -> (c: Self)
        ensures
            c@.name is None,
            c@.title is None,
            c@.description is None,
            c@.inactivity_limit is None,
            c@.handler_count == 0,
            c@.snapshooter_count == 0,
    {
        Self::without_name_at(now())
    }

    /// The name, which groups the values in the snapshot.
    pub fn name(&self) -> (r: Option<&str>)
        ensures
            opt_str_view(r) == self@.name,
    {
        opt_as_str(&self.name)
    }

    /// Whether the cockpit has the name `name`.
    pub(crate) fn has_name(&self, name: &str) -> (r: bool)
        ensures
            r == (self@.name == Some(name@)),
    {
        match &self.name {
            Some(n) => {
                let wanted = String::from_str(name);
                *n == wanted
            },
            None => false,
        }
    }

    /// Sets a name for this `Cockpit`. This will also enable grouping.
    pub fn set_name(&mut self, name: &str)
        ensures
            final(self)@ == (CockpitView { name: Some(name@), ..old(self)@ }),
    {
        self.name = Some(String::from_str(name));
    }

    /// Sets the title which will be displayed if a descriptive snapshot is
    /// requested.
    pub fn set_title(&mut self, title: &str)
        ensures
            final(self)@ == (CockpitView { title: Some(title@), ..old(self)@ }),
    {
        self.title = Some(String::from_str(title));
    }

    /// Sets the description which will be displayed if a descriptive
    /// snapshot is requested.
    pub fn set_description(&mut self, description: &str)
        ensures
            final(self)@ == (CockpitView { description: Some(description@), ..old(self)@ }),
    {
        self.description = Some(String::from_str(description));
    }

    /// Sets the maximum amount of time this cockpit may be inactive until
    /// it is shown as inactive and takes no more snapshots.
    pub fn set_inactivity_limit(&mut self, limit: Duration)
        ensures
            final(self)@ == (CockpitView { inactivity_limit: Some(limit), ..old(self)@ }),
    {
        self.max_inactivity_duration = Some(limit);
    }

    /// Adds a handler: custom logic that is passed all observations.
    pub fn add_handler<T: HandlesObservations<Label = L>>(&mut self, handler: T)
        ensures
            final(self)@ == (CockpitView { handler_count: old(self)@.handler_count + 1, ..old(self)@ }),
            final(self).handlers_observed() == old(self).handlers_observed().push(Seq::empty()),
            final(self).handlers_answers() == old(self).handlers_answers().push(Seq::empty()),
    {
        let boxed: Box<dyn HandlesObservationsOf<L>> = Box::new(ObservingHandler::new(handler));
        let ghost obs = self.handlers_observed();
        let ghost ans = self.handlers_answers();
        proof {
            lemma_push_len(self.handlers@, boxed);
        }
        self.handlers.push(boxed);
        proof {
            self.handed@ = obs.push(Seq::empty());
            self.answered@ = ans.push(Seq::empty());
        }
        assert(self.handlers_observed() =~= obs.push(Seq::empty()));
        assert(self.handlers_answers() =~= ans.push(Seq::empty()));
    }

    /// Adds a handler.
    pub fn handler<T: HandlesObservations<Label = L>>(self, handler: T) -> (c: Self)
        ensures
            c@ == (CockpitView { handler_count: self@.handler_count + 1, ..self@ }),
    {
        let mut c = self;
        c.add_handler(handler);
        c
    }

    /// Adds a snapshooter, which is only asked when a `Snapshot` is
    /// requested and never receives an observation.
    pub fn add_snapshooter<T: PutsSnapshot>(&mut self, snapshooter: T)
        ensures
            final(self)@ == (CockpitView {
                snapshooter_count: old(self)@.snapshooter_count + 1,
                ..old(self)@
            }),
    {
        let boxed: Box<dyn PutsSnapshot> = Box::new(snapshooter);
        proof {
            lemma_push_len(self.snapshooters@, boxed);
        }
        self.snapshooters.push(boxed);
    }

    /// Passes `observation` to every handler at `now`; returns the number
    /// of instruments updated: the handlers' answers added up in order, cut
    /// at `usize::MAX`.
    pub fn handle_observation_at(&mut self, observation: &Observation<L>, now: Instant) -> (n: usize)
        ensures
            final(self)@ == (CockpitView { last_activity: now, ..old(self)@ }),
            old(self)@.handler_count == 0 ==> n == 0,
            handed_to_all(
                old(self).handlers_observed(),
                old(self).handlers_answers(),
                final(self).handlers_observed(),
                final(self).handlers_answers(),
                *observation,
                n,
            ),
    {
        self.last_activity_at = now;
        let mut updated: usize = 0;
        let ghost obs0 = old(self).handlers_observed();
        let ghost ans0 = old(self).handlers_answers();
        let mut rest: Vec<Box<dyn HandlesObservationsOf<L>>> = Vec::new();
        std::mem::swap(&mut rest, &mut self.handlers);
        let n = rest.len();
        let ghost mut las: Seq<usize> = Seq::empty();
        let ghost mut new_obs: Seq<Seq<Observation<L>>> = Seq::empty();
        let ghost mut new_ans: Seq<Seq<usize>> = Seq::empty();
        let mut i: usize = 0;
        while i < n
            invariant
                obs0.len() == n,
                ans0.len() == n,
                i <= n,
                self.handlers@.len() == i,
                rest@.len() == n - i,
                self.name == old(self).name,
                self.title == old(self).title,
                self.description == old(self).description,
                self.snapshooters == old(self).snapshooters,
                self.max_inactivity_duration == old(self).max_inactivity_duration,
                self.last_activity_at == now,
                i == 0 ==> updated == 0,
                las.len() == i,
                new_obs.len() == i,
                new_ans.len() == i,
                updated == saturating_total(las),
                forall|m: int| 0 <= m < i ==> #[trigger] new_obs[m] == obs0[m].push(*observation),
                forall|m: int| 0 <= m < i ==> #[trigger] new_ans[m] == ans0[m].push(las[m]),
            decreases n - i,
        {
            proof {
                lemma_remove_first(rest@);
            }
            let mut h = rest.remove(0);
            let ghost seen = h.observed();
            let ghost said = h.answers();
            let u = h.handle_observation_of(observation);
            proof {
                lemma_push_len(self.handlers@, h);
                let nlas = las.push(u);
                assert(nlas.drop_last() =~= las);
                new_obs = new_obs.push(obs0[i as int].push(h.observed().last()));
                new_ans = new_ans.push(ans0[i as int].push(h.answers().last()));
                assert(h.observed().last() == *observation);
                assert(h.answers().last() == u);
                las = nlas;
            }
            self.handlers.push(h);
            updated = updated.saturating_add(u);
            i = i + 1;
        }
        proof {
            self.handed@ = new_obs;
            self.answered@ = new_ans;
        }
        assert(self.handlers_observed() =~= obs0.map_values(
            |o: Seq<Observation<L>>| o.push(*observation),
        ));
        assert(self.handlers_answers() =~= new_ans);
        assert(new_ans.map_values(|a: Seq<usize>| a.last()) =~= las);
        updated
    }

    fn put_values_into_snapshot(&mut self, into: &mut Snapshot, descriptive: bool, now: Instant)
        ensures
            final(self)@ == old(self)@,
            is_inactive(old(self)@.inactivity_limit, old(self)@.last_activity, now) || puts_only_head(
                old(self)@,
            ) ==> final(into)@ == cockpit_head(old(self)@, old(into)@, descriptive, now),
    {
        put_default_descriptives(self, into, descriptive);
        let inactive = put_activity_state(
            into,
            self.max_inactivity_duration,
            true,
            self.last_activity_at,
            now,
        );
        if inactive {
            return;
        }
        let ghost head = into@;
        let n = self.handlers.len();
        let mut i: usize = 0;
        while i < n
            invariant
                n == self.handlers@.len(),
                i <= n,
                self@ == old(self)@,
                n == 0 ==> into@ == head,
            decreases n - i,
        {
            self.handlers[i].put_snapshot(into, descriptive);
            i = i + 1;
        }
        let m = self.snapshooters.len();
        let mut j: usize = 0;
        while j < m
            invariant
                m == self.snapshooters@.len(),
                j <= m,
                self@ == old(self)@,
                n == 0 && m == 0 ==> into@ == head,
            decreases m - j,
        {
            self.snapshooters[j].put_snapshot(into, descriptive);
            j = j + 1;
        }
    }

    /// Writes the values of this cockpit into `into` at `now`: grouped under
    /// its name where it has one, with its title and description where
    /// `descriptive` is set, its activity state where an inactivity limit is
    /// set, and then, unless it is inactive, what its handlers and
    /// snapshooters put (nothing, where it has none).
    pub fn put_snapshot_at(&mut self, into: &mut Snapshot, descriptive: bool, now: Instant)
        ensures
            final(self)@ == old(self)@,
            cockpit_snapshot(old(self)@, old(into)@, final(into)@, descriptive, now),
    {
        let name: Option<String> = match &self.name {
            Some(n) => Some(n.clone()),
            None => None,
        };
        match name {
            Some(n) => {
                let mut new_level = Snapshot::new();
                self.put_values_into_snapshot(&mut new_level, descriptive, now);
                into.push(n, ItemKind::Snapshot(new_level));
                assert(final(into)@.take(old(into)@.len() as int) =~= old(into)@);
            },
            None => {
                self.put_values_into_snapshot(into, descriptive, now);
            },
        }
    }
}

impl<L: Clone + Eq + Send + 'static> Default for Cockpit<L> {
    fn default() -> (c: Self)
        ensures
            c@.name is None,
            c@.title is None,
            c@.description is None,
            c@.inactivity_limit is None,
            c@.handler_count == 0,
            c@.snapshooter_count == 0,
    {
        Self::without_name()
    }
}

impl<L: Clone + Eq + Send + 'static> PutsSnapshot for Cockpit<L> {
    /// Writes the values of this cockpit as `put_snapshot_at` does, at the
    /// current time.
    fn put_snapshot(&mut self, into: &mut Snapshot, descriptive: bool)
        ensures
            final(self)@ == old(self)@,
            exists|t: Instant|
                #[trigger] cockpit_snapshot(old(self)@, old(into)@, final(into)@, descriptive, t),
    {
        self.put_snapshot_at(into, descriptive, now());
    }
}

impl<L: Clone + Eq + Send + 'static> HandlesObservations for Cockpit<L> {
    type Label = L;

    /// Passes `observation` to every handler; the cockpit counts as active
    /// from now on. Without handlers nothing is updated.
    fn handle_observation(&mut self, observation: &Observation<L>) -> (n: usize)
        ensures
            final(self)@ == (CockpitView { last_activity: final(self)@.last_activity, ..old(self)@ }),
            old(self)@.handler_count == 0 ==> n == 0,
            handed_to_all(
                old(self).handlers_observed(),
                old(self).handlers_answers(),
                final(self).handlers_observed(),
                final(self).handlers_answers(),
                *observation,
                n,
            ),
    {
        self.handle_observation_at(observation, now())
    }
}

impl<L> Descriptive for Cockpit<L> {
    closed spec fn title_spec(&self) -> Option<Seq<char>> {
        opt_string_view(self.title)
    }

    closed spec fn description_spec(&self) -> Option<Seq<char>> {
        opt_string_view(self.description)
    }

    fn title(&self) -> (r: Option<&str>) {
        opt_as_str(&self.title)
    }

    fn description(&self) -> (r: Option<&str>) {
        opt_as_str(&self.description)
    }
}

} // verus!
