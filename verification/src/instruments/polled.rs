//! Instruments that poll their values when a snapshot is requested.
//!
//! This is useful when you need to query values like currently opened DB
//! connections etc.
use vstd::prelude::*;

use crate::snapshot::{ItemKind, ItemValue, Snapshot};
use crate::util::{self, instrument_descriptives};
use crate::{opt_as_str, opt_string_view, Descriptive, PutsSnapshot};

verus! {

/// An instrument that delivers metrics by querying values when a
/// `Snapshot` is requested.
///
/// The values come from anything that implements `PutsSnapshot`. The
/// instrument keeps a record of what the source was handed and left.
pub struct PollingInstrument<P> {
    /// If `create_group_with_name` is true, this name will create a new named
    /// group.
    pub name: String,
    pub title: Option<String>,
    pub description: Option<String>,
    pub poll: P,
    pub create_group_with_name: bool,
    /// The record of the source's calls (see `polls`).
    pub polls: Ghost<Seq<(Seq<(Seq<char>, ItemValue)>, bool, Seq<(Seq<char>, ItemValue)>)>>,
}

impl<P> PollingInstrument<P> {
    /// The calls of the polled source, in order: the entries of the snapshot
    /// it was handed, whether a descriptive snapshot was asked for, and the
    /// entries it left in the snapshot.
    pub open spec fn polls(&self) -> Seq<(Seq<(Seq<char>, ItemValue)>, bool, Seq<(Seq<char>, ItemValue)>)> {
        self.polls@
    }
}

impl<P: PutsSnapshot> PollingInstrument<P> {
    pub fn new_with_defaults(name: &str, poll: P) -> (p: PollingInstrument<P>)
        ensures
            p.name@ == name@,
            p.title is None,
            p.description is None,
            p.poll == poll,
            !p.create_group_with_name,
            p.polls() == Seq::<(Seq<(Seq<char>, ItemValue)>, bool, Seq<(Seq<char>, ItemValue)>)>::empty(),
    {
        PollingInstrument {
            name: String::from_str(name),
            title: None,
            description: None,
            poll,
            create_group_with_name: false,
            polls: Ghost(Seq::empty()),
        }
    }

    /// Gets the name of this `PollingInstrument`
    pub fn name(&self) -> (n: &str)
        ensures
            n@ == self.name@,
    {
        self.name.as_str()
    }

    /// Set the name of this `PollingInstrument`.
    ///
    /// The name is a path segment within a `Snapshot` if
    /// `self.create_group_with_name` is set to true.
    pub fn set_name(&mut self, name: &str)
        ensures
            final(self).name@ == name@,
            final(self).title == old(self).title,
            final(self).description == old(self).description,
            final(self).poll == old(self).poll,
            final(self).create_group_with_name == old(self).create_group_with_name,
    {
        self.name = String::from_str(name);
    }

    /// Returns whether a new group with the instrument's name
    /// shall be created in the snapshot.
    pub fn create_group_with_name(&self) -> (r: bool)
        ensures
            r == self.create_group_with_name,
    {
        self.create_group_with_name
    }

    /// Set to `true` to create a new group with the name of this
    /// instrument when a `Snapshot` is requested.
    pub fn set_create_group_with_name(&mut self, create_group: bool)
        ensures
            final(self).create_group_with_name == create_group,
            final(self).name == old(self).name,
            final(self).title == old(self).title,
            final(self).description == old(self).description,
            final(self).poll == old(self).poll,
    {
        self.create_group_with_name = create_group;
    }

    /// Sets the `title` of this `PollingInstrument`.
    pub fn set_title(&mut self, title: &str)
        ensures
            opt_string_view(final(self).title) == Some(title@),
            final(self).name == old(self).name,
            final(self).description == old(self).description,
            final(self).poll == old(self).poll,
            final(self).create_group_with_name == old(self).create_group_with_name,
    {
        self.title = Some(String::from_str(title));
    }

    /// Sets the `description` of this `PollingInstrument`.
    pub fn set_description(&mut self, description: &str)
        ensures
            opt_string_view(final(self).description) == Some(description@),
            final(self).name == old(self).name,
            final(self).title == old(self).title,
            final(self).poll == old(self).poll,
            final(self).create_group_with_name == old(self).create_group_with_name,
    {
        self.description = Some(String::from_str(description));
    }

    fn put_values_into_snapshot(&mut self, into: &mut Snapshot, descriptive: bool)
        ensures
            final(self).name == old(self).name,
            final(self).title == old(self).title,
            final(self).description == old(self).description,
            final(self).create_group_with_name == old(self).create_group_with_name,
            final(self).polls() == old(self).polls().push((old(into)@, descriptive, final(into)@)),
    {
        let ghost before = into@;
        self.poll.put_snapshot(into, descriptive);
        proof {
            self.polls@ = self.polls@.push((before, descriptive, into@));
        }
    }
}

impl<P> Descriptive for PollingInstrument<P> {
    open spec fn title_spec(&self) -> Option<Seq<char>> {
        opt_string_view(self.title)
    }

    open spec fn description_spec(&self) -> Option<Seq<char>> {
        opt_string_view(self.description)
    }

    fn title(&self) -> (r: Option<&str>) {
        opt_as_str(&self.title)
    }

    fn description(&self) -> (r: Option<&str>) {
        opt_as_str(&self.description)
    }
}

impl<P: PutsSnapshot> PutsSnapshot for PollingInstrument<P> {
    /// Writes the title and the description, then what the polled source
    /// writes: into a group under the instrument's name where
    /// `create_group_with_name` is set, else directly into `into`.
    fn put_snapshot(&mut self, into: &mut Snapshot, descriptive: bool)
        ensures
            final(self).name == old(self).name,
            final(self).title == old(self).title,
            final(self).description == old(self).description,
            final(self).create_group_with_name == old(self).create_group_with_name,
            ({
                let d = instrument_descriptives(
                    old(into)@,
                    old(self).name@,
                    opt_string_view(old(self).title),
                    opt_string_view(old(self).description),
                    descriptive,
                );
                let polled = final(self).polls().last().2;
                if old(self).create_group_with_name {
                    &&& final(self).polls() == old(self).polls().push(
                        (Seq::<(Seq<char>, ItemValue)>::empty(), descriptive, polled),
                    )
                    &&& final(into)@ == d.push((old(self).name@, ItemValue::Group(polled)))
                } else {
                    final(self).polls() == old(self).polls().push((d, descriptive, final(into)@))
                }
            }),
    {
        util::put_postfixed_descriptives(&*self, self.name.as_str(), into, descriptive);
        if self.create_group_with_name {
            let mut new_level = Snapshot::new();
            self.put_values_into_snapshot(&mut new_level, descriptive);
            into.push(self.name.clone(), ItemKind::Snapshot(new_level));
        } else {
            self.put_values_into_snapshot(into, descriptive);
        }
    }
}

} // verus!
