//! Latency snapshots: the bucket reader and the ratio calculator.

use vstd::prelude::*;
use crate::ratio::LoadRatio;

verus! {

/// The bucket boundaries that the histogram is declared with, in nanoseconds:
/// 0.05 s, 0.5 s, 1.0 s and 1.3 s.
pub const BOUND_50_MILLIS: u64 = 50_000_000;
pub const BOUND_500_MILLIS: u64 = 500_000_000;
pub const BOUND_1_SEC: u64 = 1_000_000_000;
pub const BOUND_1300_MILLIS: u64 = 1_300_000_000;

/// Whether `bound` is one of the declared boundaries.
///
/// Bounds are whole nanoseconds, so two bounds that differ by less than one
/// nanosecond are the same number: a bound is a declared boundary only where
/// it equals one.
pub open spec fn is_declared(bound: u64) -> bool {
    ||| bound == BOUND_50_MILLIS
    ||| bound == BOUND_500_MILLIS
    ||| bound == BOUND_1_SEC
    ||| bound == BOUND_1300_MILLIS
}

/// Whether `bound` is one of the declared boundaries.
pub fn is_supported_bound(bound: u64) -> (r: bool)
    ensures
        r == is_declared(bound),
{
    bound == BOUND_50_MILLIS || bound == BOUND_500_MILLIS || bound == BOUND_1_SEC || bound
        == BOUND_1300_MILLIS
}

/// The upper bound of a bucket: a duration in nanoseconds, or no bound at all
/// for the last bucket, which holds every sample.
#[derive(Clone, Copy, Debug, PartialEq, Eq, Structural)]
pub enum UpperBound {
    Nanos(u64),
    Unbounded,
}

impl UpperBound {
    /// Strictly smaller; the missing bound is greater than every duration.
    pub open spec fn lt(self, other: UpperBound) -> bool {
        match (self, other) {
            (UpperBound::Nanos(a), UpperBound::Nanos(b)) => a < b,
            (UpperBound::Nanos(_), UpperBound::Unbounded) => true,
            (UpperBound::Unbounded, _) => false,
        }
    }

    /// The bound is exactly `bound` nanoseconds.
    pub open spec fn matches_bound(self, bound: u64) -> bool {
        self == UpperBound::Nanos(bound)
    }

    /// Whether this bound is strictly smaller than `other`.
    pub fn is_lt(&self, other: &UpperBound) -> (r: bool)
        ensures
            r == self.lt(*other),
    {
        match (*self, *other) {
            (UpperBound::Nanos(a), UpperBound::Nanos(b)) => a < b,
            (UpperBound::Nanos(_), UpperBound::Unbounded) => true,
            (UpperBound::Unbounded, _) => false,
        }
    }

    /// Whether this bound is exactly `bound` nanoseconds.
    pub fn is_bound(&self, bound: u64) -> (r: bool)
        ensures
            r == self.matches_bound(bound),
    {
        match *self {
            UpperBound::Nanos(n) => n == bound,
            UpperBound::Unbounded => false,
        }
    }
}

/// One bucket of a cumulative histogram: how many samples were at or below
/// the upper bound.
#[derive(Clone, Copy, Debug, PartialEq, Eq, Structural)]
pub struct Bucket {
    pub upper_bound: UpperBound,
    pub cumulative_count: u64,
}

/// Why a snapshot could not be read. Either way the histogram's declaration
/// and the controller disagree: neither is a fault of the data.
#[derive(Clone, Copy, Debug, PartialEq, Eq, Structural)]
pub enum SnapshotError {
    /// The requested bound is none of the declared boundaries.
    UnsupportedThreshold,
    /// The bound is declared, but the snapshot holds no bucket for it.
    MissingBucket,
}

/// The first bucket at or after `start` whose upper bound is `bound`.
pub open spec fn find_bucket_from(buckets: Seq<Bucket>, bound: u64, start: int) -> Option<Bucket>
    decreases buckets.len() - start,
{
    if start < 0 || start >= buckets.len() {
        None
    } else if buckets[start].upper_bound.matches_bound(bound) {
        Some(buckets[start])
    } else {
        find_bucket_from(buckets, bound, start + 1)
    }
}

/// What reading the bucket for `wanted` gives: an error for a bound that is
/// not declared, an error where no bucket has the bound, else the bucket
/// with exactly that bound.
pub open spec fn read_bucket(buckets: Seq<Bucket>, wanted: u64) -> Result<Bucket, SnapshotError> {
    if !is_declared(wanted) {
        Err(SnapshotError::UnsupportedThreshold)
    } else {
        match find_bucket_from(buckets, wanted, 0) {
            None => Err(SnapshotError::MissingBucket),
            Some(b) => Ok(b),
        }
    }
}

/// What the ratio for `wanted` is: the error of reading the bucket; else
/// nothing without samples; else the bucket's count out of the total.
pub open spec fn read_ratio(buckets: Seq<Bucket>, total: u64, wanted: u64) -> Result<
    Option<LoadRatio>,
    SnapshotError,
> {
    match read_bucket(buckets, wanted) {
        Err(e) => Err(e),
        Ok(b) => if total == 0 {
            Ok(None)
        } else {
            Ok(Some(LoadRatio { count: b.cumulative_count, total }))
        },
    }
}

/// Bounds rise strictly and counts never fall along the list, and no count
/// exceeds the total.
pub open spec fn consistent(buckets: Seq<Bucket>, total: u64) -> bool {
    &&& forall|i: int| 0 <= i < buckets.len() ==> (#[trigger] buckets[i]).cumulative_count <= total
    &&& forall|i: int, j: int|
        0 <= i < j < buckets.len() ==> {
            &&& (#[trigger] buckets[i]).upper_bound.lt((#[trigger] buckets[j]).upper_bound)
            &&& buckets[i].cumulative_count <= buckets[j].cumulative_count
        }
}

/// The histogram of one shard as it stood at one moment: the buckets in the
/// order of their bounds, and the number of all samples.
#[derive(Debug)]
pub struct LatencySnapshot {
    buckets: Vec<Bucket>,
    total_sample_count: u64,
}

impl LatencySnapshot {
    /// The buckets, in order.
    pub closed spec fn buckets(&self) -> Seq<Bucket> {
        self.buckets@
    }

    /// The number of all samples.
    pub closed spec fn total(&self) -> u64 {
        self.total_sample_count
    }

    /// Every snapshot is consistent.
    #[verifier::type_invariant]
    pub closed spec fn wf(&self) -> bool {
        consistent(self.buckets@, self.total_sample_count)
    }

    /// Takes the buckets and the total of a histogram, if they are consistent.
    pub fn new(buckets: Vec<Bucket>, total_sample_count: u64) -> (r: Option<LatencySnapshot>)
        ensures
            r.is_some() == consistent(buckets@, total_sample_count),
            r matches Some(s) ==> s.buckets() == buckets@ && s.total() == total_sample_count,
    {
        let n = buckets.len();
        let mut k: usize = 0;
        while k < n
            invariant
                n == buckets.len(),
                k <= n,
                consistent(buckets@.take(k as int), total_sample_count),
            decreases n - k,
        {
            let b = buckets[k];
            if b.cumulative_count > total_sample_count {
                return None;
            }
            if k > 0 {
                let p = buckets[k - 1];
                if !p.upper_bound.is_lt(&b.upper_bound) || p.cumulative_count > b.cumulative_count {
                    return None;
                }
            }
            proof {
                let before = buckets@.take(k as int);
                let after = buckets@.take(k + 1);
                assert forall|i: int, j: int| 0 <= i < j < after.len() implies {
                    &&& (#[trigger] after[i]).upper_bound.lt((#[trigger] after[j]).upper_bound)
                    &&& after[i].cumulative_count <= after[j].cumulative_count
                } by {
                    if j < k {
                        assert(before[i] == after[i] && before[j] == after[j]);
                    } else if i < k - 1 {
                        assert(before[i] == after[i] && before[k - 1] == after[k - 1]);
                    }
                }
            }
            k = k + 1;
        }
        proof {
            assert(buckets@.take(n as int) =~= buckets@);
        }
        Some(LatencySnapshot { buckets, total_sample_count })
    }

    /// The number of all samples.
    pub fn total_sample_count(&self) -> (r: u64)
        ensures
            r == self.total(),
    {
        self.total_sample_count
    }

    /// The bucket whose upper bound is exactly `upper_bound_nanos`.
    ///
    /// A bound that is none of the declared boundaries is
    /// `UnsupportedThreshold`, whatever the snapshot holds. A declared
    /// boundary for which the snapshot holds no bucket is `MissingBucket`.
    pub fn get_bucket(&self, upper_bound_nanos: u64) -> (r: Result<Bucket, SnapshotError>)
        ensures
            r == read_bucket(self.buckets(), upper_bound_nanos),
            !is_declared(upper_bound_nanos) ==> r == Err::<Bucket, SnapshotError>(
                SnapshotError::UnsupportedThreshold,
            ),
            r matches Ok(b) ==> b.upper_bound == UpperBound::Nanos(upper_bound_nanos)
                && self.buckets().contains(b),
            r == Err::<Bucket, SnapshotError>(SnapshotError::MissingBucket) <==> is_declared(
                upper_bound_nanos,
            ) && forall|i: int|
                0 <= i < self.buckets().len() ==> (#[trigger] self.buckets()[i]).upper_bound
                    != UpperBound::Nanos(upper_bound_nanos),
    {
        proof {
            lemma_find_bucket_is_first(self.buckets@, upper_bound_nanos, 0);
        }
        if !is_supported_bound(upper_bound_nanos) {
            return Err(SnapshotError::UnsupportedThreshold);
        }
        let n = self.buckets.len();
        let mut k: usize = 0;
        while k < n
            invariant
                n == self.buckets.len(),
                k <= n,
                is_declared(upper_bound_nanos),
                find_bucket_from(self.buckets@, upper_bound_nanos, 0) == find_bucket_from(
                    self.buckets@,
                    upper_bound_nanos,
                    k as int,
                ),
            decreases n - k,
        {
            let b = self.buckets[k];
            if b.upper_bound.is_bound(upper_bound_nanos) {
                return Ok(b);
            }
            k = k + 1;
        }
        Err(SnapshotError::MissingBucket)
    }

    /// The share of samples at or below `upper_bound_nanos`.
    ///
    /// The bucket is read first, so its errors come whatever the total is;
    /// a snapshot without samples then has no ratio.
    pub fn ratio(&self, upper_bound_nanos: u64) -> (r: Result<Option<LoadRatio>, SnapshotError>)
        ensures
            r == read_ratio(self.buckets(), self.total(), upper_bound_nanos),
            r matches Ok(Some(q)) ==> q.wf(),
            r matches Ok(None) ==> self.total() == 0,
    {
        let b = match self.get_bucket(upper_bound_nanos) {
            Err(e) => {
                return Err(e);
            },
            Ok(b) => b,
        };
        if self.total_sample_count == 0 {
            return Ok(None);
        }
        proof {
            use_type_invariant(self);
        }
        Ok(Some(LoadRatio { count: b.cumulative_count, total: self.total_sample_count }))
    }
}

/// Reading finds the first bucket with the bound, and fails only where no
/// bucket has it.
pub proof fn lemma_find_bucket_is_first(buckets: Seq<Bucket>, bound: u64, start: int)
    requires
        0 <= start <= buckets.len(),
    ensures
        match find_bucket_from(buckets, bound, start) {
            Some(b) => exists|i: int|
                {
                    &&& start <= i < buckets.len()
                    &&& #[trigger] buckets[i] == b
                    &&& b.upper_bound.matches_bound(bound)
                    &&& forall|j: int|
                        start <= j < i ==> !(#[trigger] buckets[j]).upper_bound.matches_bound(bound)
                },
            None => forall|i: int|
                start <= i < buckets.len() ==> !(#[trigger] buckets[i]).upper_bound.matches_bound(
                    bound,
                ),
        },
    decreases buckets.len() - start,
{
    if start < buckets.len() {
        if buckets[start].upper_bound.matches_bound(bound) {
            assert(buckets[start] == buckets[start]);
        } else {
            lemma_find_bucket_is_first(buckets, bound, start + 1);
            if let Some(b) = find_bucket_from(buckets, bound, start + 1) {
                let i = choose|i: int|
                    {
                        &&& start + 1 <= i < buckets.len()
                        &&& #[trigger] buckets[i] == b
                        &&& b.upper_bound.matches_bound(bound)
                        &&& forall|j: int|
                            start + 1 <= j < i ==> !(#[trigger] buckets[j]).upper_bound.matches_bound(
                                bound,
                            )
                    };
                assert(buckets[i] == b);
            }
        }
    }
}

/// Where bounds rise strictly, the bucket with a declared bound is the one
/// that a read returns: no other bucket of the list can take its place.
pub proof fn lemma_bucket_with_bound_is_read(
    buckets: Seq<Bucket>,
    total: u64,
    wanted: u64,
    i: int,
)
    requires
        consistent(buckets, total),
        is_declared(wanted),
        0 <= i < buckets.len(),
        buckets[i].upper_bound == UpperBound::Nanos(wanted),
    ensures
        read_bucket(buckets, wanted) == Ok::<Bucket, SnapshotError>(buckets[i]),
{
    lemma_find_bucket_is_first(buckets, wanted, 0);
    match find_bucket_from(buckets, wanted, 0) {
        Some(b) => {
            let j = choose|j: int|
                {
                    &&& 0 <= j < buckets.len()
                    &&& #[trigger] buckets[j] == b
                    &&& b.upper_bound.matches_bound(wanted)
                    &&& forall|k: int|
                        0 <= k < j ==> !(#[trigger] buckets[k]).upper_bound.matches_bound(wanted)
                };
            if j < i {
                assert(buckets[j].upper_bound.lt(buckets[i].upper_bound));
            } else if i < j {
                assert(buckets[i].upper_bound.matches_bound(wanted));
            }
        },
        None => {
            assert(buckets[i].upper_bound.matches_bound(wanted));
        },
    }
}

} // verus!
