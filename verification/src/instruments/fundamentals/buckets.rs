//! A ring of buckets, one per second.
use vstd::prelude::*;

use super::{Clock, WallClock};
use crate::time::{saturating_sub_spec, Instant, NANOS_PER_SEC};

verus! {

/// The slot of a ring of `len` slots that lies `k` steps back from slot `idx`.
pub open spec fn slot(idx: int, k: int, len: int) -> int {
    if k <= idx {
        idx - k
    } else {
        idx + len - k
    }
}

/// The whole seconds from `from` to `to`; zero where `to` is not after `from`.
pub open spec fn whole_seconds_between(from: Instant, to: Instant) -> nat {
    (saturating_sub_spec(to.nanos, from.nanos) / NANOS_PER_SEC) as nat
}

/// The buckets (newest first) after `d` more seconds have begun: `d` fresh
/// buckets come in front and as many of the oldest fall off the end.
pub open spec fn shifted<T>(v: Seq<T>, d: nat, empty: T) -> Seq<T> {
    if d == 0 {
        v
    } else if d < v.len() {
        Seq::new(d, |_i: int| empty) + v.take(v.len() - d)
    } else {
        Seq::new(v.len(), |_i: int| empty)
    }
}

/// The slots of the ring `b`, read backwards from slot `idx`.
pub open spec fn ring_view<T>(b: Seq<T>, idx: int) -> Seq<T> {
    Seq::new(b.len(), |k: int| b[slot(idx, k, b.len() as int)])
}

/// Writing the slot `k` steps back from `idx` writes element `k` of the view read from `idx`.
proof fn lemma_ring_view_update<T>(b: Seq<T>, idx: int, k: int)
    requires
        0 <= idx < b.len(),
        0 <= k < b.len(),
    ensures
        forall|x: T|
            #[trigger] ring_view(b.update(slot(idx, k, b.len() as int), x), idx) == ring_view(
                b,
                idx,
            ).update(k, x),
{
    let len = b.len() as int;
    assert forall|x: T|
        #[trigger] ring_view(b.update(slot(idx, k, len), x), idx) == ring_view(b, idx).update(
            k,
            x,
        ) by {
        assert forall|j: int| 0 <= j < len && j != k implies slot(idx, j, len) != slot(
            idx,
            k,
            len,
        ) by {}
        assert(ring_view(b.update(slot(idx, k, len), x), idx) =~= ring_view(b, idx).update(k, x));
    }
}

/// A fixed number of buckets, one for each of the last seconds.
///
/// The newest bucket is the one of the current second. When a second has
/// passed, a fresh bucket (holding `T::default()`) becomes the newest and the
/// oldest one is dropped.
pub struct SecondsBuckets<T, C = WallClock> {
    buckets: Vec<T>,
    clock: C,
    current_time: Instant,
    current_idx: usize,
    empty: T,
}

impl<T, C> View for SecondsBuckets<T, C> {
    /// The buckets, the newest (the current second's) first.
    type V = Seq<T>;

    closed spec fn view(&self) -> Seq<T> {
        ring_view(self.buckets@, self.current_idx as int)
    }
}

impl<T, C> SecondsBuckets<T, C> {
    /// There is at least one bucket and the current one is among them.
    pub closed spec fn wf(&self) -> bool {
        &&& 0 < self.buckets@.len() <= usize::MAX
        &&& self.current_idx < self.buckets@.len()
    }

    /// The time at which the current bucket's second began.
    pub closed spec fn current_time_spec(&self) -> Instant {
        self.current_time
    }

    /// The value of a fresh bucket: what `T::default()` gave when the
    /// buckets were made (the constructors state it).
    pub closed spec fn empty_spec(&self) -> T {
        self.empty
    }

    pub closed spec fn clock_spec(&self) -> C {
        self.clock
    }

    /// The buckets, newest first, once the clock reads `now`.
    pub open spec fn view_at(&self, now: Instant) -> Seq<T> {
        shifted(self@, whole_seconds_between(self.current_time_spec(), now), self.empty_spec())
    }

    /// The start of the current bucket's second once the clock reads `now`.
    pub open spec fn time_at(&self, now: Instant) -> Instant {
        Instant {
            nanos: (self.current_time_spec().nanos + whole_seconds_between(
                self.current_time_spec(),
                now,
            ) * NANOS_PER_SEC) as u64,
        }
    }

    /// `other` is `self` at time `now`, with the newest-first buckets `v`.
    pub open spec fn moved_to(&self, other: Self, now: Instant, v: Seq<T>) -> bool {
        &&& other.wf()
        &&& other@ == v
        &&& other.current_time_spec() == self.time_at(now)
        &&& other.empty_spec() == self.empty_spec()
        &&& other.clock_spec() == self.clock_spec()
    }

    /// The number of buckets (seconds) kept.
    pub fn len(&self) -> (n: usize)
        requires
            self.wf(),
        ensures
            n == self@.len(),
    {
        self.buckets.len()
    }

    proof fn lemma_step(&self, other: Self, next: usize)
        requires
            self.wf(),
            other.buckets@.len() == self.buckets@.len(),
            next == (if self.current_idx + 1 == self.buckets@.len() {
                0
            } else {
                self.current_idx + 1
            }),
            other.current_idx == next,
            other.buckets@ == self.buckets@.update(next as int, other.empty),
        ensures
            other@ == seq![other.empty] + self@.take(self@.len() - 1),
    {
        let len = self.buckets@.len() as int;
        let rhs = seq![other.empty] + self@.take(self@.len() - 1);
        assert forall|k: int| 0 <= k < len implies other@[k] == rhs[k] by {
            if k > 0 {
                assert(slot(next as int, k, len) == slot(self.current_idx as int, k - 1, len));
            }
        }
        assert(other@ =~= rhs);
    }
}

impl<T: Copy, C> SecondsBuckets<T, C> {
    /// Moves the buckets forward to the second in which `now` lies.
    fn tick_at(&mut self, now: Instant)
        requires
            old(self).wf(),
        ensures
            old(self).moved_to(*final(self), now, old(self).view_at(now)),
    {
        let elapsed = now.saturating_duration_since(self.current_time);
        let d = elapsed.as_secs();
        if d == 0 {
            assert(self.view_at(now) == self@);
            return ;
        }
        proof {
            vstd::arithmetic::div_mod::lemma_fundamental_div_mod(
                elapsed.nanos as int,
                NANOS_PER_SEC as int,
            );
        }
        let ghost start = *self;
        self.current_time = Instant { nanos: self.current_time.nanos + d * NANOS_PER_SEC };
        let len = self.buckets.len();
        let ghost v0 = self@;
        let ghost t1 = self.current_time;
        if d < len as u64 {
            let steps = d as usize;
            let mut i: usize = 0;
            while i < steps
                invariant
                    0 <= i <= steps < len,
                    len == self.buckets@.len(),
                    self.wf(),
                    v0.len() == len,
                    self@ == shifted(v0, i as nat, self.empty),
                    self.current_time == t1,
                    self.empty == start.empty,
                    self.clock == start.clock,
                decreases steps - i,
            {
                let ghost before = *self;
                let next = if self.current_idx + 1 == len {
                    0
                } else {
                    self.current_idx + 1
                };
                self.current_idx = next;
                self.buckets.set(next, self.empty);
                proof {
                    before.lemma_step(*self, next);
                    assert(self@ =~= shifted(v0, (i + 1) as nat, self.empty));
                }
                i = i + 1;
            }
        } else {
            self.current_idx = 0;
            let mut i: usize = 0;
            while i < len
                invariant
                    0 <= i <= len,
                    len == self.buckets@.len(),
                    self.current_idx == 0,
                    forall|j: int| 0 <= j < i ==> self.buckets@[j] == self.empty,
                    self.current_time == t1,
                    self.empty == start.empty,
                    self.clock == start.clock,
                decreases len - i,
            {
                self.buckets.set(i, self.empty);
                i = i + 1;
            }
            assert(self@ =~= shifted(v0, d as nat, self.empty));
        }
    }
}

impl<T: Copy + Default> SecondsBuckets<T, WallClock> {
    /// Buckets for the last `for_seconds` seconds, on the system clock.
    pub fn new(for_seconds: usize) -> (b: Self)
        requires
            for_seconds > 0,
        ensures
            b.wf(),
            b@.len() == for_seconds,
            forall|k: int| 0 <= k < for_seconds ==> b@[k] == b.empty_spec(),
            call_ensures(T::default, (), b.empty_spec()),
    {
        Self::with_clock(for_seconds, WallClock)
    }
}

impl<T: Copy + Default, C: Clock> SecondsBuckets<T, C> {
    /// Buckets for the last `for_seconds` seconds, each holding
    /// `T::default()`, whose current second begins at `now`.
    pub fn with_clock_at(for_seconds: usize, clock: C, now: Instant) -> (b: Self)
        requires
            for_seconds > 0,
        ensures
            b.wf(),
            b@.len() == for_seconds,
            forall|k: int| 0 <= k < for_seconds ==> b@[k] == b.empty_spec(),
            b.clock_spec() == clock,
            call_ensures(T::default, (), b.empty_spec()),
            b.current_time_spec() == now,
    {
        let make_empty = T::default;
        let empty = make_empty();
        let mut buckets: Vec<T> = Vec::new();
        let mut i: usize = 0;
        while i < for_seconds
            invariant
                i <= for_seconds,
                buckets@.len() == i,
                forall|j: int| 0 <= j < i ==> buckets@[j] == empty,
            decreases for_seconds - i,
        {
            buckets.push(empty);
            i = i + 1;
        }
        let b = Self::initialized_with_clock_and_empty_at(buckets, clock, empty, now);
        assert forall|k: int| 0 <= k < for_seconds implies b@[k] == b.empty_spec() by {
            assert(0 <= slot((for_seconds - 1) as int, k, for_seconds as int) < for_seconds);
        }
        b
    }

    /// Buckets for the last `for_seconds` seconds, each holding `T::default()`,
    /// starting at the time `clock` reads.
    pub fn with_clock(for_seconds: usize, clock: C) -> (b: Self)
        requires
            for_seconds > 0,
        ensures
            b.wf(),
            b@.len() == for_seconds,
            forall|k: int| 0 <= k < for_seconds ==> b@[k] == b.empty_spec(),
            b.clock_spec() == clock,
            call_ensures(T::default, (), b.empty_spec()),
    {
        let now = clock.now();
        Self::with_clock_at(for_seconds, clock, now)
    }

    /// Buckets that hold `buckets`; the last of them is the current one.
    pub fn initialized_with_clock(buckets: Vec<T>, clock: C) -> (b: Self)
        requires
            buckets@.len() > 0,
        ensures
            b.wf(),
            b@ == buckets@.reverse(),
            b.clock_spec() == clock,
            call_ensures(T::default, (), b.empty_spec()),
    {
        let make_empty = T::default;
        let empty = make_empty();
        let now = clock.now();
        Self::initialized_with_clock_and_empty_at(buckets, clock, empty, now)
    }

    fn initialized_with_clock_and_empty_at(buckets: Vec<T>, clock: C, empty: T, now: Instant) -> (b:
        Self)
        requires
            buckets@.len() > 0,
        ensures
            b.wf(),
            b@ == buckets@.reverse(),
            b.clock_spec() == clock,
            b.empty_spec() == empty,
            b.current_time_spec() == now,
    {
        let current_idx = buckets.len() - 1;
        let current_time = now;
        let b = Self { buckets, clock, current_time, current_idx, empty };
        assert(b@ =~= buckets@.reverse());
        b
    }

    /// The current second's bucket, once the clock reads `now`.
    pub fn current_mut_at(&mut self, now: Instant) -> (r: &mut T)
        requires
            old(self).wf(),
        ensures
            *r == old(self).view_at(now)[0],
            old(self).moved_to(*final(self), now, old(self).view_at(now).update(0, *final(r))),
    {
        self.tick_at(now);
        let idx = self.current_idx;
        proof {
            lemma_ring_view_update(self.buckets@, idx as int, 0);
            assert(idx == slot(idx as int, 0, self.buckets@.len() as int));
        }
        &mut self.buckets[idx]
    }

    /// The bucket of the second in which `for_when` lies, once the clock
    /// reads `now`; `None` where `for_when` is later than the current
    /// second's start or older than the oldest bucket.
    pub fn get_at_mut_at(&mut self, now: Instant, for_when: Instant) -> (r: Option<&mut T>)
        requires
            old(self).wf(),
        ensures
            ({
                let t = old(self).time_at(now);
                let v = old(self).view_at(now);
                let age = whole_seconds_between(for_when, t);
                if for_when.nanos > t.nanos || age >= v.len() {
                    &&& r is None
                    &&& old(self).moved_to(*final(self), now, v)
                } else {
                    &&& r is Some
                    &&& *r->0 == v[age as int]
                    &&& old(self).moved_to(*final(self), now, v.update(age as int, *final(r->0)))
                }
            }),
    {
        self.tick_at(now);
        if for_when.nanos > self.current_time.nanos {
            return None;
        }
        let d = self.current_time.saturating_duration_since(for_when).as_secs();
        let len = self.buckets.len();
        if d >= len as u64 {
            return None;
        }
        let d = d as usize;
        let idx = if d <= self.current_idx {
            self.current_idx - d
        } else {
            self.current_idx + (len - d)
        };
        proof {
            lemma_ring_view_update(self.buckets@, self.current_idx as int, d as int);
            assert(idx == slot(self.current_idx as int, d as int, len as int));
        }
        Some(&mut self.buckets[idx])
    }

    /// The bucket of the second in which `for_when` lies; `None` where
    /// `for_when` lies in the future or before the oldest bucket's second.
    pub fn get_at_mut(&mut self, for_when: Instant) -> (r: Option<&mut T>)
        requires
            old(self).wf(),
        ensures
            exists|now: Instant|
                #![trigger old(self).view_at(now)]
                {
                    let t = old(self).time_at(now);
                    let v = old(self).view_at(now);
                    let age = whole_seconds_between(for_when, t);
                    if for_when.nanos > t.nanos || age >= v.len() {
                        &&& r is None
                        &&& old(self).moved_to(*final(self), now, v)
                    } else {
                        &&& r is Some
                        &&& *r->0 == v[age as int]
                        &&& old(self).moved_to(
                            *final(self),
                            now,
                            v.update(age as int, *final(r->0)),
                        )
                    }
                },
    {
        let now = self.clock.now();
        self.get_at_mut_at(now, for_when)
    }

    /// The buckets, newest first, once the clock reads `now`.
    pub fn iter_at(&mut self, now: Instant) -> (r: Vec<T>)
        requires
            old(self).wf(),
        ensures
            r@ == old(self).view_at(now),
            old(self).moved_to(*final(self), now, old(self).view_at(now)),
    {
        self.tick_at(now);
        let len = self.buckets.len();
        let mut out: Vec<T> = Vec::new();
        let mut k: usize = 0;
        let mut idx = self.current_idx;
        while k < len
            invariant
                self.wf(),
                len == self.buckets@.len(),
                k <= len,
                out@ == self@.take(k as int),
                k < len ==> idx == slot(self.current_idx as int, k as int, len as int),
            decreases len - k,
        {
            out.push(self.buckets[idx]);
            idx = if idx == 0 {
                len - 1
            } else {
                idx - 1
            };
            k = k + 1;
            assert(out@ =~= self@.take(k as int));
        }
        assert(out@ =~= self@);
        out
    }

    /// The buckets, newest first: the iterator goes back in time.
    pub fn iter(&mut self) -> (r: Vec<T>)
        requires
            old(self).wf(),
        ensures
            exists|now: Instant|
                {
                    &&& r@ == old(self).view_at(now)
                    &&& old(self).moved_to(*final(self), now, old(self).view_at(now))
                },
    {
        let now = self.clock.now();
        self.iter_at(now)
    }

    /// The current second's bucket.
    pub fn current_mut(&mut self) -> (r: &mut T)
        requires
            old(self).wf(),
        ensures
            exists|now: Instant|
                {
                    &&& *r == old(self).view_at(now)[0]
                    &&& old(self).moved_to(
                        *final(self),
                        now,
                        old(self).view_at(now).update(0, *final(r)),
                    )
                },
    {
        let now = self.clock.now();
        self.current_mut_at(now)
    }
}


/// Letting `a` and then `b` more seconds begin is letting `a + b` begin.
pub proof fn lemma_shifted_compose<T>(v: Seq<T>, a: nat, b: nat, empty: T)
    ensures
        shifted(shifted(v, a, empty), b, empty) == shifted(v, a + b, empty),
{
    let len = v.len();
    let lhs = shifted(shifted(v, a, empty), b, empty);
    let rhs = shifted(v, a + b, empty);
    assert(shifted(v, a, empty).len() == len);
    assert(lhs.len() == len);
    assert(rhs.len() == len);
    assert forall|i: int| 0 <= i < len implies lhs[i] == rhs[i] by {
        if a == 0 {
        } else if b == 0 {
        } else if a < len && b < len {
            let w = shifted(v, a, empty);
            if i >= b {
                assert(lhs[i] == w[i - b]);
                if i - b >= a {
                    assert(w[i - b] == v[i - b - a]);
                }
            }
        }
    }
    assert(lhs =~= rhs);
}

impl<T, C> SecondsBuckets<T, C> {
    /// Looking at the buckets at one time and then at a later one gives the
    /// same buckets, and the same current second, as looking only at the
    /// later time: a look in between changes nothing but when the ring is
    /// moved forward.
    pub proof fn law_looking_in_between_changes_nothing(self, moved: Self, t1: Instant, t2: Instant)
        requires
            self.wf(),
            self.moved_to(moved, t1, self.view_at(t1)),
            t1.nanos <= t2.nanos,
        ensures
            moved.view_at(t2) == self.view_at(t2),
            moved.time_at(t2) == self.time_at(t2),
    {
        let c = self.current_time_spec().nanos as int;
        let k1 = whole_seconds_between(self.current_time_spec(), t1) as int;
        let k2 = whole_seconds_between(self.current_time_spec(), t2) as int;
        let c1 = moved.current_time_spec().nanos as int;
        if t1.nanos >= c {
            let x1 = t1.nanos - c;
            let x2 = t2.nanos - c;
            vstd::arithmetic::div_mod::lemma_fundamental_div_mod(x1, NANOS_PER_SEC as int);
            vstd::arithmetic::div_mod::lemma_fundamental_div_mod(x2, NANOS_PER_SEC as int);
            assert(k1 == x1 / NANOS_PER_SEC as int);
            assert(k2 == x2 / NANOS_PER_SEC as int);
            assert(c1 == c + k1 * NANOS_PER_SEC);
            let r2 = x2 % NANOS_PER_SEC as int;
            assert(t2.nanos - c1 == (k2 - k1) * NANOS_PER_SEC + r2);
            vstd::arithmetic::div_mod::lemma_fundamental_div_mod_converse(
                t2.nanos - c1,
                NANOS_PER_SEC as int,
                k2 - k1,
                r2,
            );
            assert(whole_seconds_between(moved.current_time_spec(), t2) == k2 - k1);
            lemma_shifted_compose(self@, k1 as nat, (k2 - k1) as nat, self.empty_spec());
        } else {
            assert(k1 == 0);
            assert(c1 == c);
        }
    }

    /// A value written into a bucket is read back from that bucket at the
    /// same time: after `get_at_mut_at(now, for_when)` handed out the bucket
    /// for `for_when` and `x` was written into it, the buckets at `now`
    /// hold `x` at that bucket's place and nothing else changed.
    pub proof fn law_read_gives_back_write(self, written: Self, now: Instant, for_when: Instant, x: T)
        requires
            self.wf(),
            ({
                let t = self.time_at(now);
                let v = self.view_at(now);
                let age = whole_seconds_between(for_when, t);
                &&& for_when.nanos <= t.nanos
                &&& age < v.len()
                &&& self.moved_to(written, now, v.update(age as int, x))
            }),
        ensures
            written.view_at(now) == self.view_at(now).update(
                whole_seconds_between(for_when, self.time_at(now)) as int,
                x,
            ),
            written.view_at(now)[whole_seconds_between(for_when, self.time_at(now)) as int] == x,
            written.time_at(now) == self.time_at(now),
    {
        let c = self.current_time_spec().nanos as int;
        let c1 = written.current_time_spec().nanos as int;
        if now.nanos >= c {
            vstd::arithmetic::div_mod::lemma_fundamental_div_mod(now.nanos - c, NANOS_PER_SEC as int);
        }
        assert(now.nanos < c1 + NANOS_PER_SEC);
        assert(whole_seconds_between(written.current_time_spec(), now) == 0) by {
            if now.nanos >= c1 {
                vstd::arithmetic::div_mod::lemma_fundamental_div_mod_converse(
                    now.nanos - c1,
                    NANOS_PER_SEC as int,
                    0,
                    now.nanos - c1,
                );
            }
        }
    }

    /// `next` is `self` after one call at the time `now` (`current_mut`,
    /// `get_at_mut` or `iter` and their variants that take the time), which
    /// may have written into one of the buckets it handed out.
    pub open spec fn called_at(&self, next: Self, now: Instant) -> bool {
        ||| self.moved_to(next, now, self.view_at(now))
        ||| exists|k: int, x: T|
            0 <= k < self@.len() && #[trigger] self.moved_to(
                next,
                now,
                self.view_at(now).update(k, x),
            )
    }

    /// `states` is a run of calls made at the times `times`: each state is
    /// the one before it after a call at the time `times[i]`.
    pub open spec fn is_run(states: Seq<Self>, times: Seq<Instant>) -> bool {
        &&& states.len() == times.len() + 1
        &&& states[0].wf()
        &&& forall|i: int|
            0 <= i < times.len() ==> #[trigger] states[i].called_at(states[i + 1], times[i])
    }

    /// `states` is a run of calls that wrote nothing (reads of the buckets,
    /// or calls that found no bucket), made at the times `times`, which do
    /// not go back.
    pub open spec fn is_run_of_looks(states: Seq<Self>, times: Seq<Instant>) -> bool {
        &&& states.len() == times.len() + 1
        &&& states[0].wf()
        &&& forall|i: int|
            0 <= i < times.len() ==> #[trigger] states[i].moved_to(
                states[i + 1],
                times[i],
                states[i].view_at(times[i]),
            )
        &&& forall|i: int, j: int| 0 <= i <= j < times.len() ==> times[i].nanos <= times[j].nanos
    }

    /// State `i` of a run holds as many buckets as the first.
    proof fn lemma_run_keeps_the_number(states: Seq<Self>, times: Seq<Instant>, i: int)
        requires
            Self::is_run(states, times),
            0 <= i < states.len(),
        ensures
            states[i].wf(),
            states[i]@.len() == states[0]@.len(),
        decreases i,
    {
        if i > 0 {
            Self::lemma_run_keeps_the_number(states, times, i - 1);
            let j = i - 1;
            let prev = states[j];
            let t = times[j];
            assert(states[j].called_at(states[j + 1], times[j]));
            assert(states[j + 1] == states[i]);
            if !prev.moved_to(states[i], t, prev.view_at(t)) {
                let (k, x) = choose|k: int, x: T|
                    0 <= k < prev@.len() && #[trigger] prev.moved_to(
                        states[i],
                        t,
                        prev.view_at(t).update(k, x),
                    );
                assert(states[i]@ == prev.view_at(t).update(k, x));
            }
        }
    }

    /// The number of buckets stays what it was made with, whatever calls are
    /// made and however the clock moves.
    pub proof fn law_the_number_of_buckets_stays_over_a_run(states: Seq<Self>, times: Seq<Instant>)
        requires
            Self::is_run(states, times),
        ensures
            forall|i: int|
                #![trigger states[i]]
                0 <= i < states.len() ==> (states[i].wf() && states[i]@.len() == states[0]@.len()),
    {
        assert forall|i: int|
            #![trigger states[i]]
            0 <= i < states.len() implies (states[i].wf() && states[i]@.len() == states[0]@.len()) by {
            Self::lemma_run_keeps_the_number(states, times, i);
        }
    }

    /// State `i` of a run of looks gives, for a time from its last call on,
    /// the buckets and the current second that the first state gives.
    proof fn lemma_looks_change_nothing(states: Seq<Self>, times: Seq<Instant>, i: int, now: Instant)
        requires
            Self::is_run_of_looks(states, times),
            0 <= i < states.len(),
            i > 0 ==> times[i - 1].nanos <= now.nanos,
        ensures
            states[i].wf(),
            states[i].view_at(now) == states[0].view_at(now),
            states[i].time_at(now) == states[0].time_at(now),
        decreases i,
    {
        if i > 0 {
            let j = i - 1;
            if j > 0 {
                assert(times[j - 1].nanos <= times[j].nanos);
            }
            Self::lemma_looks_change_nothing(states, times, j, now);
            assert(states[j].moved_to(states[j + 1], times[j], states[j].view_at(times[j])));
            assert(states[j + 1] == states[i]);
            states[j].law_looking_in_between_changes_nothing(states[i], times[j], now);
        }
    }

    /// Calls that write nothing change nothing but when the ring moves
    /// forward: after a run of them, at any time from the last call on, the
    /// buckets and the current second are those the first state gives for
    /// that time, shifted by the whole seconds that began since.
    pub proof fn law_buckets_shift_by_the_seconds_begun(
        states: Seq<Self>,
        times: Seq<Instant>,
        now: Instant,
    )
        requires
            Self::is_run_of_looks(states, times),
            times.len() > 0 ==> times.last().nanos <= now.nanos,
        ensures
            states.last().wf(),
            states.last().view_at(now) == states[0].view_at(now),
            states.last().time_at(now) == states[0].time_at(now),
            times.len() > 0 ==> states.last()@ == states[0].view_at(times.last()),
    {
        let n = times.len() as int;
        Self::lemma_looks_change_nothing(states, times, n, now);
        if n > 0 {
            let j = n - 1;
            if j > 0 {
                assert(times[j - 1].nanos <= times[j].nanos);
            }
            Self::lemma_looks_change_nothing(states, times, j, times[j]);
            assert(states[j].moved_to(states[j + 1], times[j], states[j].view_at(times[j])));
            assert(states[j + 1] == states.last());
        }
    }

    /// A value written into the current bucket at the start of its second,
    /// followed by calls that write nothing, sits as many places back as
    /// whole seconds have begun since, while there are that many buckets; the
    /// newest bucket is fresh once a second has begun.
    pub proof fn law_a_written_value_moves_back_over_a_run(
        self,
        start: Instant,
        x: T,
        states: Seq<Self>,
        times: Seq<Instant>,
    )
        requires
            self.wf(),
            self.current_time_spec() == start,
            self.moved_to(states[0], start, self.view_at(start).update(0, x)),
            Self::is_run_of_looks(states, times),
            times.len() > 0,
            start.nanos <= times[0].nanos,
        ensures
            ({
                let c = whole_seconds_between(start, times.last());
                &&& states.last()@.len() == self@.len()
                &&& c == 0 ==> states.last()@[0] == x
                &&& c > 0 ==> states.last()@[0] == self.empty_spec()
                &&& c < self@.len() ==> states.last()@[c as int] == x
            }),
    {
        let now = times.last();
        assert(times[0].nanos <= now.nanos);
        Self::law_buckets_shift_by_the_seconds_begun(states, times, now);
        self.law_a_written_value_moves_back(states[0], start, x, now);
    }

    /// The number of buckets never changes: at any time there are as many
    /// buckets as now.
    pub proof fn law_the_number_of_buckets_stays(self, now: Instant)
        ensures
            self.view_at(now).len() == self@.len(),
    {
    }

    /// A value written into the current bucket at the start of its second
    /// moves one place back with every second that begins: after `c` whole
    /// seconds the newest bucket is fresh (where `c > 0`) and the value sits
    /// `c` places back, while there are that many buckets.
    pub proof fn law_a_written_value_moves_back(
        self,
        written: Self,
        start: Instant,
        x: T,
        now: Instant,
    )
        requires
            self.wf(),
            self.current_time_spec() == start,
            self.moved_to(written, start, self.view_at(start).update(0, x)),
            start.nanos <= now.nanos,
        ensures
            ({
                let c = whole_seconds_between(start, now);
                &&& written.view_at(now).len() == self@.len()
                &&& c == 0 ==> written.view_at(now)[0] == x
                &&& c > 0 ==> written.view_at(now)[0] == self.empty_spec()
                &&& c < self@.len() ==> written.view_at(now)[c as int] == x
            }),
    {
        assert(whole_seconds_between(start, start) == 0);
        assert(self.time_at(start) == start);
        assert(written.current_time_spec() == start);
    }
}

} // verus!
