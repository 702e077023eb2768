//! Filters that decide which labels an instrument reacts on.
use vstd::prelude::*;
use vstd::std_specs::cmp::PartialEqSpec;

verus! {

/// A predicate on labels, for filters that accept labels by a rule.
pub trait AcceptsLabel<L>: Send {
    fn accepts_label(&self, label: &L) -> bool;
}

/// Marks that no label is accepted.
pub struct AcceptNoLabel;

/// Marks that all labels are accepted.
pub struct AcceptAllLabels;

/// Marks that one label is accepted.
pub struct AcceptOneLabel<L>(pub L);

/// A single label.
pub struct L<L>(pub L);

/// A predicate on labels.
pub struct LabelPredicate<P>(pub P);

/// A predicate on labels (short name).
pub struct LP<P>(pub P);

impl<P: AcceptsLabel<T>, T> AcceptsLabel<T> for LabelPredicate<P> {
    fn accepts_label(&self, label: &T) -> bool {
        self.0.accepts_label(label)
    }
}

impl<P: AcceptsLabel<T>, T> AcceptsLabel<T> for LP<P> {
    fn accepts_label(&self, label: &T) -> bool {
        self.0.accepts_label(label)
    }
}

/// `label` equals one of `labels`, as `==` on `L` decides.
pub open spec fn listed<T: PartialEq>(labels: Seq<T>, label: T) -> bool {
    exists|i: int| 0 <= i < labels.len() && label.eq_spec(&#[trigger] labels[i])
}

/// The filter `f` surely accepts `label`.
pub open spec fn must_accept<T: PartialEq>(f: LabelFilter<T>, label: T) -> bool {
    f.accepts_all() || (<T as PartialEqSpec>::obeys_eq_spec() && listed(f.labels(), label))
}

/// The filter `f` may accept `label` (it surely rejects labels that fail this).
pub open spec fn may_accept<T: PartialEq>(f: LabelFilter<T>, label: T) -> bool {
    f.accepts_all() || f.has_predicate() || !<T as PartialEqSpec>::obeys_eq_spec() || listed(
        f.labels(),
        label,
    )
}

/// How a `LabelFilter` decides.
///
/// Labels are kept in the order in which they were added.
#[verifier::reject_recursive_types(T)]
pub enum LabelFilterInternal<T> {
    AcceptNone,
    AcceptAll,
    One(T),
    Two(T, T),
    Three(T, T, T),
    Four(T, T, T, T),
    Five(T, T, T, T, T),
    Many(Vec<T>),
    /// A predicate and the labels that were added to it.
    Predicate(Box<dyn AcceptsLabel<T>>, Vec<T>),
}

impl<T> LabelFilterInternal<T> {
    /// The labels that are accepted by being listed, in the order in which they were added.
    pub open spec fn labels(&self) -> Seq<T> {
        match self {
            LabelFilterInternal::AcceptNone => seq![],
            LabelFilterInternal::AcceptAll => seq![],
            LabelFilterInternal::One(a) => seq![*a],
            LabelFilterInternal::Two(a, b) => seq![*a, *b],
            LabelFilterInternal::Three(a, b, c) => seq![*a, *b, *c],
            LabelFilterInternal::Four(a, b, c, d) => seq![*a, *b, *c, *d],
            LabelFilterInternal::Five(a, b, c, d, e) => seq![*a, *b, *c, *d, *e],
            LabelFilterInternal::Many(v) => v@,
            LabelFilterInternal::Predicate(_, extra) => extra@,
        }
    }

    pub open spec fn accepts_all(&self) -> bool {
        self is AcceptAll
    }

    pub open spec fn has_predicate(&self) -> bool {
        self is Predicate
    }
}

impl<T: PartialEq + Send + 'static> LabelFilterInternal<T> {
    pub fn accept_none() -> (f: Self)
        ensures
            f.labels() == Seq::<T>::empty(),
            !f.accepts_all(),
            !f.has_predicate(),
    {
        LabelFilterInternal::AcceptNone
    }

    pub fn predicate<P: AcceptsLabel<T> + 'static>(p: P) -> (f: Self)
        ensures
            f.labels() == Seq::<T>::empty(),
            !f.accepts_all(),
            f.has_predicate(),
    {
        LabelFilterInternal::Predicate(Box::new(p), Vec::new())
    }

    /// A filter that accepts exactly the given labels; none where `labels` is empty.
    pub fn many(labels: Vec<T>) -> (f: Self)
        ensures
            f.labels() == labels@,
            !f.accepts_all(),
            !f.has_predicate(),
    {
        let mut labels = labels;
        let ghost all = labels@;
        let n = labels.len();
        if n == 0 {
            return LabelFilterInternal::AcceptNone;
        }
        if n > 5 {
            return LabelFilterInternal::Many(labels);
        }
        let a = labels.pop().unwrap();
        if n == 1 {
            assert(seq![a] =~= all);
            return LabelFilterInternal::One(a);
        }
        let b = labels.pop().unwrap();
        if n == 2 {
            assert(seq![b, a] =~= all);
            return LabelFilterInternal::Two(b, a);
        }
        let c = labels.pop().unwrap();
        if n == 3 {
            assert(seq![c, b, a] =~= all);
            return LabelFilterInternal::Three(c, b, a);
        }
        let d = labels.pop().unwrap();
        if n == 4 {
            assert(seq![d, c, b, a] =~= all);
            return LabelFilterInternal::Four(d, c, b, a);
        }
        let ee = labels.pop().unwrap();
        assert(seq![ee, d, c, b, a] =~= all);
        LabelFilterInternal::Five(ee, d, c, b, a)
    }

    /// Also accept `label`. A filter that accepts all labels stays so.
    pub fn add_label(&mut self, label: T)
        ensures
            old(self).accepts_all() ==> final(self).accepts_all(),
            !old(self).accepts_all() ==> final(self).labels() == old(self).labels().push(label),
            !old(self).accepts_all() ==> !final(self).accepts_all(),
            final(self).has_predicate() == old(self).has_predicate(),
    {
        let mut old = LabelFilterInternal::AcceptNone;
        std::mem::swap(self, &mut old);
        let ghost prev = old;
        *self = match old {
            LabelFilterInternal::AcceptNone => LabelFilterInternal::One(label),
            LabelFilterInternal::AcceptAll => LabelFilterInternal::AcceptAll,
            LabelFilterInternal::One(a) => LabelFilterInternal::Two(a, label),
            LabelFilterInternal::Two(a, b) => LabelFilterInternal::Three(a, b, label),
            LabelFilterInternal::Three(a, b, c) => LabelFilterInternal::Four(a, b, c, label),
            LabelFilterInternal::Four(a, b, c, d) => LabelFilterInternal::Five(a, b, c, d, label),
            LabelFilterInternal::Five(a, b, c, d, ee) => {
                LabelFilterInternal::Many(vec![a, b, c, d, ee, label])
            },
            LabelFilterInternal::Many(mut many) => {
                many.push(label);
                LabelFilterInternal::Many(many)
            },
            LabelFilterInternal::Predicate(pred, mut extra) => {
                extra.push(label);
                LabelFilterInternal::Predicate(pred, extra)
            },
        };
        assert(self.labels() =~= prev.labels().push(label) || prev.accepts_all());
    }

    /// Whether `label` passes the filter.
    ///
    /// A filter with a predicate accepts the labels added to it and those
    /// that its predicate accepts.
    pub fn accepts(&self, label: &T) -> (r: bool)
        ensures
            self.accepts_all() ==> r,
            !self.accepts_all() && !self.has_predicate() && <T as PartialEqSpec>::obeys_eq_spec()
                ==> (r == listed(self.labels(), *label)),
            self.has_predicate() && <T as PartialEqSpec>::obeys_eq_spec() && listed(
                self.labels(),
                *label,
            ) ==> r,
            !self.accepts_all() && !self.has_predicate() && self.labels().len() == 0 ==> !r,
    {
        match self {
            LabelFilterInternal::AcceptNone => {
                assert(self.labels().len() == 0);
                assert(!listed(self.labels(), *label));
                false
            },
            LabelFilterInternal::AcceptAll => true,
            LabelFilterInternal::One(a) => {
                let r = label.eq(a);
                assert(self.labels()[0] == *a);
                assert(listed(self.labels(), *label) ==> label.eq_spec(&self.labels()[0]));
                assert(<T as PartialEqSpec>::obeys_eq_spec() ==> r ==> listed(self.labels(), *label));
                r
            },
            LabelFilterInternal::Two(a, b) => {
                let r = label.eq(a) || label.eq(b);
                assert(self.labels()[0] == *a && self.labels()[1] == *b);
                r
            },
            LabelFilterInternal::Three(a, b, c) => {
                let r = label.eq(a) || label.eq(b) || label.eq(c);
                assert(self.labels()[0] == *a && self.labels()[1] == *b && self.labels()[2] == *c);
                r
            },
            LabelFilterInternal::Four(a, b, c, d) => {
                let r = label.eq(a) || label.eq(b) || label.eq(c) || label.eq(d);
                assert(self.labels()[0] == *a && self.labels()[1] == *b && self.labels()[2] == *c
                    && self.labels()[3] == *d);
                r
            },
            LabelFilterInternal::Five(a, b, c, d, ee) => {
                let r = label.eq(a) || label.eq(b) || label.eq(c) || label.eq(d) || label.eq(ee);
                assert(self.labels()[0] == *a && self.labels()[1] == *b && self.labels()[2] == *c
                    && self.labels()[3] == *d && self.labels()[4] == *ee);
                r
            },
            LabelFilterInternal::Many(many) => contains_label(many, label),
            LabelFilterInternal::Predicate(pred, extra) => {
                if contains_label(extra, label) {
                    true
                } else {
                    pred.accepts_label(label)
                }
            },
        }
    }
}

/// Whether `label` equals one of `labels`.
fn contains_label<T: PartialEq>(labels: &Vec<T>, label: &T) -> (r: bool)
    ensures
        <T as PartialEqSpec>::obeys_eq_spec() ==> (r == listed(labels@, *label)),
        labels@.len() == 0 ==> !r,
{
    let mut i: usize = 0;
    while i < labels.len()
        invariant
            i <= labels@.len(),
            <T as PartialEqSpec>::obeys_eq_spec() ==> forall|j: int|
                0 <= j < i ==> !label.eq_spec(&#[trigger] labels@[j]),
        decreases labels@.len() - i,
    {
        if label.eq(&labels[i]) {
            return true;
        }
        i = i + 1;
    }
    false
}

impl<T> Default for LabelFilterInternal<T> {
    fn default() -> (f: Self)
        ensures
            f.accepts_all(),
    {
        LabelFilterInternal::AcceptAll
    }
}

/// Decides which labels an instrument reacts on.
#[verifier::reject_recursive_types(T)]
pub struct LabelFilter<T> {
    internal: LabelFilterInternal<T>,
}

impl<T> LabelFilter<T> {
    /// The labels that are accepted by being listed, in the order in which they were added.
    pub closed spec fn labels(&self) -> Seq<T> {
        self.internal.labels()
    }

    /// The filter accepts every label.
    pub closed spec fn accepts_all(&self) -> bool {
        self.internal.accepts_all()
    }

    /// The filter asks a predicate about labels that are not listed.
    pub closed spec fn has_predicate(&self) -> bool {
        self.internal.has_predicate()
    }
}

impl<T: PartialEq + Send + 'static> LabelFilter<T> {
    /// A filter that accepts `label` only.
    pub fn new(label: T) -> (f: Self)
        ensures
            f.labels() == seq![label],
            !f.accepts_all(),
            !f.has_predicate(),
    {
        let mut f = Self::accept_none();
        f.accept_another(label);
        assert(f.labels() =~= seq![label]);
        f
    }

    /// A filter that accepts the labels that `p` accepts.
    pub fn predicate<P: AcceptsLabel<T> + 'static>(p: P) -> (f: Self)
        ensures
            f.labels() == Seq::<T>::empty(),
            !f.accepts_all(),
            f.has_predicate(),
    {
        Self { internal: LabelFilterInternal::predicate(p) }
    }

    pub fn accept_all() -> (f: Self)
        ensures
            f.accepts_all(),
    {
        Self { internal: LabelFilterInternal::AcceptAll }
    }

    pub fn accept_none() -> (f: Self)
        ensures
            f.labels() == Seq::<T>::empty(),
            !f.accepts_all(),
            !f.has_predicate(),
    {
        Self { internal: LabelFilterInternal::AcceptNone }
    }

    /// A filter that accepts exactly the given labels; none where `labels` is empty.
    pub fn many(labels: Vec<T>) -> (f: Self)
        ensures
            f.labels() == labels@,
            !f.accepts_all(),
            !f.has_predicate(),
    {
        Self { internal: LabelFilterInternal::many(labels) }
    }

    /// Also accept `label`. A filter that accepts all labels stays so.
    pub fn accept_another(&mut self, label: T)
        ensures
            old(self).accepts_all() ==> final(self).accepts_all(),
            !old(self).accepts_all() ==> final(self).labels() == old(self).labels().push(label),
            !old(self).accepts_all() ==> !final(self).accepts_all(),
            final(self).has_predicate() == old(self).has_predicate(),
    {
        self.internal.add_label(label)
    }

    /// Whether `label` passes the filter.
    pub fn accepts(&self, label: &T) -> (r: bool)
        ensures
            must_accept(*self, *label) ==> r,
            r ==> may_accept(*self, *label),
            self.accepts_all() ==> r,
            !self.accepts_all() && !self.has_predicate() && <T as PartialEqSpec>::obeys_eq_spec()
                ==> (r == listed(self.labels(), *label)),
            self.has_predicate() && <T as PartialEqSpec>::obeys_eq_spec() && listed(
                self.labels(),
                *label,
            ) ==> r,
            !self.accepts_all() && !self.has_predicate() && self.labels().len() == 0 ==> !r,
    {
        self.internal.accepts(label)
    }

    fn create(internal: LabelFilterInternal<T>) -> (f: Self)
        ensures
            f.labels() == internal.labels(),
            f.accepts_all() == internal.accepts_all(),
            f.has_predicate() == internal.has_predicate(),
    {
        Self { internal }
    }
}

impl<T: PartialEq + Send + 'static> Default for LabelFilter<T> {
    fn default() -> (f: Self)
        ensures
            f.accepts_all(),
    {
        Self::create(LabelFilterInternal::default())
    }
}

impl<T: PartialEq + Send + 'static> From<T> for LabelFilter<T> {
    fn from(v: T) -> (f: Self)
        ensures
            f.labels() == seq![v],
            !f.accepts_all(),
            !f.has_predicate(),
    {
        Self::new(v)
    }
}

impl<T: PartialEq + Send + 'static> vstd::std_specs::convert::FromSpecImpl<T> for LabelFilter<T> {
    open spec fn obeys_from_spec() -> bool {
        false
    }

    open spec fn from_spec(v: T) -> Self {
        arbitrary()
    }
}

impl<T: PartialEq + Send + 'static> From<Vec<T>> for LabelFilter<T> {
    fn from(v: Vec<T>) -> (f: Self)
        ensures
            f.labels() == v@,
            !f.accepts_all(),
            !f.has_predicate(),
    {
        Self::many(v)
    }
}

impl<T: PartialEq + Send + 'static> vstd::std_specs::convert::FromSpecImpl<Vec<T>> for LabelFilter<T> {
    open spec fn obeys_from_spec() -> bool {
        false
    }

    open spec fn from_spec(v: Vec<T>) -> Self {
        arbitrary()
    }
}

impl<T: PartialEq + Send + 'static> From<(T, T)> for LabelFilter<T> {
    fn from(v: (T, T)) -> (f: Self)
        ensures
            f.labels() == seq![v.0, v.1],
            !f.accepts_all(),
            !f.has_predicate(),
    {
        let mut f = Self::new(v.0);
        f.accept_another(v.1);
        assert(f.labels() =~= seq![v.0, v.1]);
        f
    }
}

impl<T: PartialEq + Send + 'static> vstd::std_specs::convert::FromSpecImpl<(T, T)> for LabelFilter<T> {
    open spec fn obeys_from_spec() -> bool {
        false
    }

    open spec fn from_spec(v: (T, T)) -> Self {
        arbitrary()
    }
}

impl<T: PartialEq + Send + 'static> From<(T, T, T)> for LabelFilter<T> {
    fn from(v: (T, T, T)) -> (f: Self)
        ensures
            f.labels() == seq![v.0, v.1, v.2],
            !f.accepts_all(),
            !f.has_predicate(),
    {
        let mut f = Self::new(v.0);
        f.accept_another(v.1);
        f.accept_another(v.2);
        assert(f.labels() =~= seq![v.0, v.1, v.2]);
        f
    }
}

impl<T: PartialEq + Send + 'static> vstd::std_specs::convert::FromSpecImpl<(T, T, T)> for LabelFilter<T> {
    open spec fn obeys_from_spec() -> bool {
        false
    }

    open spec fn from_spec(v: (T, T, T)) -> Self {
        arbitrary()
    }
}

impl<T: PartialEq + Send + 'static> From<(T, T, T, T)> for LabelFilter<T> {
    fn from(v: (T, T, T, T)) -> (f: Self)
        ensures
            f.labels() == seq![v.0, v.1, v.2, v.3],
            !f.accepts_all(),
            !f.has_predicate(),
    {
        let mut f = Self::new(v.0);
        f.accept_another(v.1);
        f.accept_another(v.2);
        f.accept_another(v.3);
        assert(f.labels() =~= seq![v.0, v.1, v.2, v.3]);
        f
    }
}

impl<T: PartialEq + Send + 'static> vstd::std_specs::convert::FromSpecImpl<(T, T, T, T)> for LabelFilter<T> {
    open spec fn obeys_from_spec() -> bool {
        false
    }

    open spec fn from_spec(v: (T, T, T, T)) -> Self {
        arbitrary()
    }
}

impl<T: PartialEq + Send + 'static> From<(T, T, T, T, T)> for LabelFilter<T> {
    fn from(v: (T, T, T, T, T)) -> (f: Self)
        ensures
            f.labels() == seq![v.0, v.1, v.2, v.3, v.4],
            !f.accepts_all(),
            !f.has_predicate(),
    {
        let mut f = Self::new(v.0);
        f.accept_another(v.1);
        f.accept_another(v.2);
        f.accept_another(v.3);
        f.accept_another(v.4);
        assert(f.labels() =~= seq![v.0, v.1, v.2, v.3, v.4]);
        f
    }
}

impl<T: PartialEq + Send + 'static> vstd::std_specs::convert::FromSpecImpl<(T, T, T, T, T)> for LabelFilter<T> {
    open spec fn obeys_from_spec() -> bool {
        false
    }

    open spec fn from_spec(v: (T, T, T, T, T)) -> Self {
        arbitrary()
    }
}


/// A filter made from a list of labels accepts exactly the labels in that
/// list, where `==` on the labels is equality.
pub proof fn law_many_accepts_exactly_the_labels<T: PartialEq>(f: LabelFilter<T>, labels: Seq<T>, x: T)
    requires
        vstd::laws_eq::obeys_concrete_eq::<T>(),
        f.labels() == labels,
        !f.accepts_all(),
        !f.has_predicate(),
    ensures
        must_accept(f, x) == labels.contains(x),
        may_accept(f, x) == labels.contains(x),
{
    reveal(vstd::laws_eq::obeys_concrete_eq);
    if labels.contains(x) {
        let i = choose|i: int| 0 <= i < labels.len() && labels[i] == x;
        assert(x.eq_spec(&labels[i]));
    }
}

/// A filter that accepts all labels accepts every label.
pub proof fn law_accept_all_accepts_every_label<T: PartialEq>(f: LabelFilter<T>, x: T)
    requires
        f.accepts_all(),
    ensures
        must_accept(f, x),
{
}

/// A filter that accepts no label rejects every label.
pub proof fn law_accept_none_rejects_every_label<T: PartialEq>(f: LabelFilter<T>, x: T)
    requires
        <T as PartialEqSpec>::obeys_eq_spec(),
        f.labels() == Seq::<T>::empty(),
        !f.accepts_all(),
        !f.has_predicate(),
    ensures
        !may_accept(f, x),
{
}

/// Accepting another label makes the filter accept that label and keeps
/// every label it accepted before.
pub proof fn law_accept_another_only_adds<T: PartialEq>(f: LabelFilter<T>, g: LabelFilter<T>, label: T, x: T)
    requires
        vstd::laws_eq::obeys_concrete_eq::<T>(),
        f.accepts_all() ==> g.accepts_all(),
        !f.accepts_all() ==> g.labels() == f.labels().push(label),
    ensures
        must_accept(g, label),
        must_accept(f, x) ==> must_accept(g, x),
{
    reveal(vstd::laws_eq::obeys_concrete_eq);
    if !f.accepts_all() {
        assert(label.eq_spec(&g.labels()[f.labels().len() as int]));
        if listed(f.labels(), x) {
            let i = choose|i: int| 0 <= i < f.labels().len() && x.eq_spec(&f.labels()[i]);
            assert(x.eq_spec(&g.labels()[i]));
        }
    }
}

/// A filter that accepts all labels keeps doing so whatever labels are
/// accepted in addition: along filters `fs` where each comes from the one
/// before by `accept_another`, every one accepts every label.
pub proof fn law_accept_all_survives_more_labels<T: PartialEq>(fs: Seq<LabelFilter<T>>, labels: Seq<T>, x: T)
    requires
        fs.len() == labels.len() + 1,
        fs[0].accepts_all(),
        forall|i: int|
            0 <= i < labels.len() ==> (fs[i].accepts_all() ==> (#[trigger] fs[i + 1]).accepts_all()),
    ensures
        forall|i: int| 0 <= i < fs.len() ==> (#[trigger] fs[i]).accepts_all() && must_accept(fs[i], x),
    decreases labels.len(),
{
    if labels.len() > 0 {
        let fs1 = fs.drop_last();
        let ls1 = labels.drop_last();
        assert forall|i: int| 0 <= i < ls1.len() implies (fs1[i].accepts_all() ==> (#[trigger] fs1[i + 1]).accepts_all()) by {
            assert(fs1[i] == fs[i] && fs1[i + 1] == fs[i + 1]);
        }
        law_accept_all_survives_more_labels(fs1, ls1, x);
        assert forall|i: int| 0 <= i < fs.len() implies (#[trigger] fs[i]).accepts_all() && must_accept(fs[i], x) by {
            if i < fs1.len() {
                assert(fs1[i] == fs[i]);
            } else {
                assert(fs1[i - 1].accepts_all());
                assert(fs[i - 1] == fs1[i - 1]);
            }
        }
    }
}

} // verus!
