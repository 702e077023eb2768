//! Per-second records of a gauge's values.
use vstd::prelude::*;

use crate::instruments::fundamentals::buckets::SecondsBuckets;
use crate::instruments::fundamentals::Clock;
use crate::snapshot::{ItemKind, ItemValue, Snapshot};
use crate::time::Instant;

verus! {

/// The record of one second: the sum and the number of values, and the
/// smallest and the largest of them.
#[derive(Debug, Clone, Copy)]
pub struct Bucket {
    pub sum: i64,
    pub count: u64,
    pub min_max: (i64, i64),
}

impl Default for Bucket {
    fn default() -> (b: Self)
        ensures
            b == (Bucket { sum: 0, count: 0, min_max: (0, 0) }),
    {
        Bucket { sum: 0, count: 0, min_max: (0, 0) }
    }
}

pub open spec fn min_spec(a: i64, b: i64) -> i64 {
    if a <= b {
        a
    } else {
        b
    }
}

pub open spec fn max_spec(a: i64, b: i64) -> i64 {
    if a >= b {
        a
    } else {
        b
    }
}

/// `a + b` kept within the range of `i64`.
pub open spec fn saturating_add_i64(a: i64, b: i64) -> i64 {
    if a + b > i64::MAX {
        i64::MAX
    } else if a + b < i64::MIN {
        i64::MIN
    } else {
        (a + b) as i64
    }
}

/// The record `b` after the value `v` was recorded.
pub open spec fn recorded(b: Bucket, v: i64) -> Bucket {
    Bucket {
        sum: saturating_add_i64(b.sum, v),
        count: if b.count < u64::MAX {
            (b.count + 1) as u64
        } else {
            u64::MAX
        },
        min_max: if b.count != 0 {
            (min_spec(b.min_max.0, v), max_spec(b.min_max.1, v))
        } else {
            (v, v)
        },
    }
}

impl Bucket {
    /// Records the value `v`. The sum and the count stay at their limits
    /// once they got there.
    pub fn update(&mut self, v: i64)
        ensures
            *final(self) == recorded(*old(self), v),
    {
        self.min_max = if self.count != 0 {
            let (min, max) = self.min_max;
            (if min <= v {
                min
            } else {
                v
            }, if max >= v {
                max
            } else {
                v
            })
        } else {
            (v, v)
        };
        self.sum = if v > 0 && self.sum > i64::MAX - v {
            i64::MAX
        } else if v < 0 && self.sum < i64::MIN - v {
            i64::MIN
        } else {
            self.sum + v
        };
        self.count = self.count.saturating_add(1);
    }
}

/// What the records in `s` make together: the peaks and bottoms of the
/// records that hold values, and the sums from which averages follow.
pub struct StatsSpec {
    pub peak: i64,
    pub peak_min: i64,
    pub bottom: i64,
    pub bottom_max: i64,
    pub sum_peak: int,
    pub sum_bottom: int,
    pub total_sum: int,
    pub total_count: int,
}

/// The statistics of the records `s`.
pub open spec fn stats_of(s: Seq<Bucket>) -> StatsSpec
    decreases s.len(),
{
    if s.len() == 0 {
        StatsSpec {
            peak: i64::MIN,
            peak_min: i64::MAX,
            bottom: i64::MAX,
            bottom_max: i64::MIN,
            sum_peak: 0,
            sum_bottom: 0,
            total_sum: 0,
            total_count: 0,
        }
    } else {
        let p = stats_of(s.drop_last());
        let b = s.last();
        if b.count != 0 {
            StatsSpec {
                peak: max_spec(p.peak, b.min_max.1),
                peak_min: min_spec(p.peak_min, b.min_max.1),
                bottom: min_spec(p.bottom, b.min_max.0),
                bottom_max: max_spec(p.bottom_max, b.min_max.0),
                sum_peak: p.sum_peak + b.min_max.1,
                sum_bottom: p.sum_bottom + b.min_max.0,
                total_sum: p.total_sum + b.sum,
                total_count: p.total_count + b.count,
            }
        } else {
            p
        }
    }
}

/// Statistics over all records of a gauge's tracking.
///
/// `peak` is the largest value recorded, `peak_min` the smallest of the
/// records' largest values, `bottom` the smallest value recorded and
/// `bottom_max` the largest of the records' smallest values. The averages
/// are `sum_peak / buckets` (peak average), `sum_bottom / buckets` (bottom
/// average) and `total_sum / total_count` (average of all values).
#[derive(Debug, PartialEq, Eq)]
pub struct BucketsStats {
    pub peak: i64,
    pub peak_min: i64,
    pub bottom: i64,
    pub bottom_max: i64,
    pub sum_peak: i128,
    pub sum_bottom: i128,
    pub total_sum: i128,
    pub total_count: u128,
    pub buckets: usize,
}

/// The statistics hold for the records `s`, of which there are `n`.
pub open spec fn stats_match(st: BucketsStats, s: Seq<Bucket>) -> bool {
    let e = stats_of(s);
    &&& st.peak == e.peak
    &&& st.peak_min == e.peak_min
    &&& st.bottom == e.bottom
    &&& st.bottom_max == e.bottom_max
    &&& st.sum_peak == e.sum_peak
    &&& st.sum_bottom == e.sum_bottom
    &&& st.total_sum == e.total_sum
    &&& st.total_count == e.total_count
    &&& st.buckets == s.len()
}

proof fn lemma_stats_bounds(s: Seq<Bucket>)
    ensures
        s.len() * i64::MIN <= stats_of(s).sum_peak <= s.len() * i64::MAX,
        s.len() * i64::MIN <= stats_of(s).sum_bottom <= s.len() * i64::MAX,
        s.len() * i64::MIN <= stats_of(s).total_sum <= s.len() * i64::MAX,
        0 <= stats_of(s).total_count <= s.len() * u64::MAX,
    decreases s.len(),
{
    if s.len() > 0 {
        lemma_stats_bounds(s.drop_last());
    }
}

impl BucketsStats {
    /// The statistics over the records `v`; `None` where none of them holds a value.
    pub fn from_records(v: &Vec<Bucket>) -> (r: Option<Self>)
        ensures
            stats_of(v@).total_count == 0 ==> r is None,
            stats_of(v@).total_count != 0 ==> (r matches Some(st) && stats_match(st, v@)),
    {
        let mut peak = i64::MIN;
        let mut peak_min = i64::MAX;
        let mut bottom = i64::MAX;
        let mut bottom_max = i64::MIN;
        let mut sum_bottom: i128 = 0;
        let mut sum_peak: i128 = 0;
        let mut total_sum: i128 = 0;
        let mut total_count: u128 = 0;
        let n = v.len();
        assert(n <= u64::MAX);
        let mut i: usize = 0;
        while i < v.len()
            invariant
                i <= v@.len() <= u64::MAX,
                ({
                    let e = stats_of(v@.take(i as int));
                    &&& peak == e.peak
                    &&& peak_min == e.peak_min
                    &&& bottom == e.bottom
                    &&& bottom_max == e.bottom_max
                    &&& sum_peak == e.sum_peak
                    &&& sum_bottom == e.sum_bottom
                    &&& total_sum == e.total_sum
                    &&& total_count == e.total_count
                }),
            decreases v@.len() - i,
        {
            let b = v[i];
            proof {
                assert(v@.take(i + 1).drop_last() =~= v@.take(i as int));
                lemma_stats_bounds(v@.take(i as int));
                assert(i * i64::MIN >= -170141183460469231722463931679029329920int) by (nonlinear_arith)
                    requires i <= u64::MAX;
                assert(i * i64::MAX <= 170141183460469231713240559642174554113int) by (nonlinear_arith)
                    requires i <= u64::MAX;
                assert(i * u64::MAX <= 340282366920938463426481119284349108225int) by (nonlinear_arith)
                    requires i <= u64::MAX;
            }
            if b.count != 0 {
                let (min, max) = b.min_max;
                total_sum = total_sum + b.sum as i128;
                total_count = total_count + b.count as u128;
                peak = if peak >= max {
                    peak
                } else {
                    max
                };
                peak_min = if peak_min <= max {
                    peak_min
                } else {
                    max
                };
                bottom = if bottom <= min {
                    bottom
                } else {
                    min
                };
                bottom_max = if bottom_max >= min {
                    bottom_max
                } else {
                    min
                };
                sum_bottom = sum_bottom + min as i128;
                sum_peak = sum_peak + max as i128;
            }
            i = i + 1;
        }
        assert(v@.take(v@.len() as int) =~= v@);
        if total_count != 0 {
            Some(
                BucketsStats {
                    peak,
                    peak_min,
                    bottom,
                    bottom_max,
                    sum_peak,
                    sum_bottom,
                    total_sum,
                    total_count,
                    buckets: v.len(),
                },
            )
        } else {
            None
        }
    }

    /// The statistics over the records of `buckets`, once the clock reads `now`.
    pub fn from_buckets_at<C: Clock>(buckets: &mut SecondsBuckets<Bucket, C>, now: Instant) -> (r: Option<Self>)
        requires
            old(buckets).wf(),
        ensures
            old(buckets).moved_to(*final(buckets), now, old(buckets).view_at(now)),
            stats_of(old(buckets).view_at(now)).total_count == 0 ==> r is None,
            stats_of(old(buckets).view_at(now)).total_count != 0 ==> (r matches Some(st)
                && stats_match(st, old(buckets).view_at(now))),
    {
        let records = buckets.iter_at(now);
        Self::from_records(&records)
    }

    /// The statistics over the records of `buckets`.
    pub fn from_buckets<C: Clock>(buckets: &mut SecondsBuckets<Bucket, C>) -> (r: Option<Self>)
        requires
            old(buckets).wf(),
        ensures
            exists|now: Instant|
                {
                    &&& old(buckets).moved_to(*final(buckets), now, #[trigger] old(buckets).view_at(now))
                    &&& stats_of(old(buckets).view_at(now)).total_count == 0 ==> r is None
                    &&& stats_of(old(buckets).view_at(now)).total_count != 0 ==> (r matches Some(st)
                        && stats_match(st, old(buckets).view_at(now)))
                },
    {
        let records = buckets.iter();
        Self::from_records(&records)
    }
}

/// The four entries of tracking statistics, with keys prefixed by `prefix`.
pub open spec fn stats_entries(
    prefix: Seq<char>,
    peak: i64,
    peak_min: i64,
    bottom: i64,
    bottom_max: i64,
) -> Seq<(Seq<char>, ItemValue)> {
    seq![
        (prefix + "peak"@, ItemValue::Int(peak)),
        (prefix + "peak_min"@, ItemValue::Int(peak_min)),
        (prefix + "bottom"@, ItemValue::Int(bottom)),
        (prefix + "bottom_max"@, ItemValue::Int(bottom_max)),
    ]
}

/// The record `i` of `s` holds at least one value.
pub open spec fn counted(s: Seq<Bucket>, i: int) -> bool {
    0 <= i < s.len() && s[i].count != 0
}

/// What `stats_of` makes of the records: the extrema enclose every record
/// that holds a value and each is reached by one of them, and the counts
/// add up to nothing exactly when no record holds a value.
pub(crate) proof fn lemma_stats_extrema(s: Seq<Bucket>)
    ensures
        stats_of(s).total_count >= 0,
        stats_of(s).total_count == 0 <==> (forall|i: int| !counted(s, i)),
        forall|i: int|
            #![trigger s[i]]
            counted(s, i) ==> stats_of(s).bottom <= s[i].min_max.0 <= stats_of(s).bottom_max
                && stats_of(s).peak_min <= s[i].min_max.1 <= stats_of(s).peak,
        stats_of(s).total_count != 0 ==> (exists|i: int| counted(s, i) && #[trigger] s[i].min_max.1 == stats_of(s).peak),
        stats_of(s).total_count != 0 ==> (exists|i: int| counted(s, i) && #[trigger] s[i].min_max.1 == stats_of(s).peak_min),
        stats_of(s).total_count != 0 ==> (exists|i: int| counted(s, i) && #[trigger] s[i].min_max.0 == stats_of(s).bottom),
        stats_of(s).total_count != 0 ==> (exists|i: int| counted(s, i) && #[trigger] s[i].min_max.0 == stats_of(s).bottom_max),
        stats_of(s).total_count == 0 ==> stats_of(s).peak == i64::MIN && stats_of(s).peak_min == i64::MAX
            && stats_of(s).bottom == i64::MAX && stats_of(s).bottom_max == i64::MIN,
    decreases s.len(),
{
    if s.len() > 0 {
        let q = s.drop_last();
        let n = s.len() - 1;
        lemma_stats_extrema(q);
        assert forall|i: int| 0 <= i < n implies #[trigger] s[i] == q[i] by {}
        assert forall|i: int| 0 <= i < n implies (counted(s, i) <==> counted(q, i)) by {
            assert(s[i] == q[i]);
        }
        let p = stats_of(q);
        let e = stats_of(s);
        if s[n].count != 0 {
            if p.total_count == 0 {
                assert(counted(s, n) && s[n].min_max.1 == e.peak);
                assert(counted(s, n) && s[n].min_max.1 == e.peak_min);
                assert(counted(s, n) && s[n].min_max.0 == e.bottom);
                assert(counted(s, n) && s[n].min_max.0 == e.bottom_max);
                assert forall|i: int| #![trigger s[i]] counted(s, i) implies e.bottom <= s[i].min_max.0 <= e.bottom_max
                    && e.peak_min <= s[i].min_max.1 <= e.peak by {
                    if i < n {
                        assert(counted(q, i));
                        assert(!counted(q, i));
                    }
                }
            } else {
                let i1 = choose|i: int| counted(q, i) && #[trigger] q[i].min_max.1 == p.peak;
                let i2 = choose|i: int| counted(q, i) && #[trigger] q[i].min_max.1 == p.peak_min;
                let i3 = choose|i: int| counted(q, i) && #[trigger] q[i].min_max.0 == p.bottom;
                let i4 = choose|i: int| counted(q, i) && #[trigger] q[i].min_max.0 == p.bottom_max;
                assert(s[i1] == q[i1] && s[i2] == q[i2] && s[i3] == q[i3] && s[i4] == q[i4]);
                if s[n].min_max.1 >= p.peak {
                    assert(counted(s, n) && s[n].min_max.1 == e.peak);
                } else {
                    assert(counted(s, i1) && s[i1].min_max.1 == e.peak);
                }
                if s[n].min_max.1 <= p.peak_min {
                    assert(counted(s, n) && s[n].min_max.1 == e.peak_min);
                } else {
                    assert(counted(s, i2) && s[i2].min_max.1 == e.peak_min);
                }
                if s[n].min_max.0 <= p.bottom {
                    assert(counted(s, n) && s[n].min_max.0 == e.bottom);
                } else {
                    assert(counted(s, i3) && s[i3].min_max.0 == e.bottom);
                }
                if s[n].min_max.0 >= p.bottom_max {
                    assert(counted(s, n) && s[n].min_max.0 == e.bottom_max);
                } else {
                    assert(counted(s, i4) && s[i4].min_max.0 == e.bottom_max);
                }
                assert forall|i: int| #![trigger s[i]] counted(s, i) implies e.bottom <= s[i].min_max.0 <= e.bottom_max
                    && e.peak_min <= s[i].min_max.1 <= e.peak by {
                    if i < n {
                        assert(counted(q, i));
                        assert(q[i] == s[i]);
                    }
                }
            }
            assert(e.total_count != 0);
        } else {
            assert(e == p);
            assert forall|i: int| #![trigger s[i]] counted(s, i) implies e.bottom <= s[i].min_max.0 <= e.bottom_max
                && e.peak_min <= s[i].min_max.1 <= e.peak by {
                assert(i < n);
                assert(counted(q, i));
                assert(q[i] == s[i]);
            }
            if p.total_count != 0 {
                let i1 = choose|i: int| counted(q, i) && #[trigger] q[i].min_max.1 == p.peak;
                let i2 = choose|i: int| counted(q, i) && #[trigger] q[i].min_max.1 == p.peak_min;
                let i3 = choose|i: int| counted(q, i) && #[trigger] q[i].min_max.0 == p.bottom;
                let i4 = choose|i: int| counted(q, i) && #[trigger] q[i].min_max.0 == p.bottom_max;
                assert(s[i1] == q[i1] && s[i2] == q[i2] && s[i3] == q[i3] && s[i4] == q[i4]);
                assert(counted(s, i1) && counted(s, i2) && counted(s, i3) && counted(s, i4));
            } else {
                assert forall|i: int| !counted(s, i) by {
                    if counted(s, i) && i < n {
                        assert(counted(q, i));
                    }
                }
            }
        }
        if e.total_count == 0 {
            assert forall|i: int| !counted(s, i) by {
                if counted(s, i) {
                    if i < n {
                        assert(counted(q, i));
                    }
                }
            }
        }
    }
}

/// A record keeps the values recorded into it between its smallest and its
/// largest: after `v` is recorded, `v` lies between them, and so does every
/// value that lay between them before.
pub proof fn law_a_record_encloses_its_values(b: Bucket, v: i64, w: i64)
    ensures
        recorded(b, v).count != 0,
        recorded(b, v).min_max.0 <= v <= recorded(b, v).min_max.1,
        b.count != 0 && b.min_max.0 <= w <= b.min_max.1 ==> recorded(b, v).min_max.0 <= w
            <= recorded(b, v).min_max.1,
{
}

/// The tracking statistics that a gauge writes into its snapshot (see
/// `add_to_snapshot`) are those of its records: the entry under
/// `prefix` + "peak" holds the largest value recorded, the one under
/// `prefix` + "bottom" the smallest; "peak_min" holds the smallest of the
/// records' largest values and "bottom_max" the largest of their smallest.
/// Each is reached by some record that holds values.
pub proof fn law_the_peak_is_the_largest_and_the_bottom_the_smallest(
    s: Seq<Bucket>,
    st: BucketsStats,
    prefix: Seq<char>,
)
    requires
        stats_match(st, s),
        exists|i: int| counted(s, i),
    ensures
        ({
            let e = stats_entries(prefix, st.peak, st.peak_min, st.bottom, st.bottom_max);
            &&& e.len() == 4
            &&& e[0] == (prefix + "peak"@, ItemValue::Int(st.peak))
            &&& e[1] == (prefix + "peak_min"@, ItemValue::Int(st.peak_min))
            &&& e[2] == (prefix + "bottom"@, ItemValue::Int(st.bottom))
            &&& e[3] == (prefix + "bottom_max"@, ItemValue::Int(st.bottom_max))
        }),
        forall|i: int|
            #![trigger s[i]]
            counted(s, i) ==> st.bottom <= s[i].min_max.0 <= st.bottom_max && st.peak_min
                <= s[i].min_max.1 <= st.peak,
        exists|i: int| counted(s, i) && #[trigger] s[i].min_max.1 == st.peak,
        exists|i: int| counted(s, i) && #[trigger] s[i].min_max.1 == st.peak_min,
        exists|i: int| counted(s, i) && #[trigger] s[i].min_max.0 == st.bottom,
        exists|i: int| counted(s, i) && #[trigger] s[i].min_max.0 == st.bottom_max,
{
    lemma_stats_extrema(s);
}

impl BucketsStats {
    /// Writes the peak and bottom statistics into `snapshot`, their keys
    /// prefixed by `prefix`. The averages are left to the reader, who holds
    /// their sums and counts.
    pub fn add_to_snapshot(self, snapshot: &mut Snapshot, prefix: &str)
        ensures
            final(snapshot)@ == old(snapshot)@ + stats_entries(
                prefix@,
                self.peak,
                self.peak_min,
                self.bottom,
                self.bottom_max,
            ),
    {
        let p = String::from_str(prefix);
        snapshot.push(p.clone().concat("peak"), ItemKind::Int(self.peak));
        snapshot.push(p.clone().concat("peak_min"), ItemKind::Int(self.peak_min));
        snapshot.push(p.clone().concat("bottom"), ItemKind::Int(self.bottom));
        snapshot.push(p.concat("bottom_max"), ItemKind::Int(self.bottom_max));
        assert(snapshot@ =~= old(snapshot)@ + stats_entries(
            prefix@,
            self.peak,
            self.peak_min,
            self.bottom,
            self.bottom_max,
        ));
    }
}

} // verus!
