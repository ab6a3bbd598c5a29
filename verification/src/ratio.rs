//! Load ratios and the thresholds they are held against.

use vstd::prelude::*;

verus! {

/// A non-negative rational number `numerator / denominator`.
///
/// It is meaningful as a threshold only while the denominator is positive.
#[derive(Clone, Copy, Debug, PartialEq, Eq, Structural)]
pub struct Fraction {
    pub numerator: u64,
    pub denominator: u64,
}

impl Fraction {
    /// The denominator is positive.
    pub open spec fn wf(&self) -> bool {
        self.denominator > 0
    }

    /// The fraction `numerator / denominator`.
    pub fn new(numerator: u64, denominator: u64) -> (r: Fraction)
        requires
            denominator > 0,
        ensures
            r.wf(),
            r.numerator == numerator,
            r.denominator == denominator,
    {
        Fraction { numerator, denominator }
    }
}

/// The share of samples at or below some latency bound: `count` out of `total`.
///
/// A ratio exists only where there is evidence, that is where `total > 0`,
/// and it lies between zero and one.
#[derive(Clone, Copy, Debug, PartialEq, Eq, Structural)]
pub struct LoadRatio {
    pub count: u64,
    pub total: u64,
}

impl LoadRatio {
    /// There is at least one sample behind the ratio, and no more samples
    /// are counted than there are.
    pub open spec fn wf(&self) -> bool {
        0 < self.total && self.count <= self.total
    }

    /// `count / total < numerator / denominator`, cross-multiplied. It is
    /// the order of the two quotients where the total and the denominator are
    /// positive.
    pub open spec fn below(&self, t: Fraction) -> bool {
        self.count * t.denominator < t.numerator * self.total
    }

    /// `count / total > numerator / denominator`, cross-multiplied.
    pub open spec fn above(&self, t: Fraction) -> bool {
        self.count * t.denominator > t.numerator * self.total
    }

    /// `count / total >= numerator / denominator`.
    pub open spec fn at_least(&self, t: Fraction) -> bool {
        !self.below(t)
    }

    /// Whether the ratio is strictly smaller than `t`.
    pub fn is_below(&self, t: &Fraction) -> (r: bool)
        requires
            self.wf(),
            t.wf(),
        ensures
            r == self.below(*t),
    {
        proof {
            lemma_product_fits(self.count, t.denominator);
            lemma_product_fits(t.numerator, self.total);
        }
        (self.count as u128) * (t.denominator as u128) < (t.numerator as u128) * (self.total as u128)
    }

    /// Whether the ratio is strictly greater than `t`.
    pub fn is_above(&self, t: &Fraction) -> (r: bool)
        requires
            self.wf(),
            t.wf(),
        ensures
            r == self.above(*t),
    {
        proof {
            lemma_product_fits(self.count, t.denominator);
            lemma_product_fits(t.numerator, self.total);
        }
        (self.count as u128) * (t.denominator as u128) > (t.numerator as u128) * (self.total as u128)
    }

    /// Whether the ratio is `t` or greater.
    pub fn is_at_least(&self, t: &Fraction) -> (r: bool)
        requires
            self.wf(),
            t.wf(),
        ensures
            r == self.at_least(*t),
    {
        !self.is_below(t)
    }
}

/// The product of two 64-bit numbers fits in 128 bits.
pub proof fn lemma_product_fits(a: u64, b: u64)
    ensures
        a * b <= u128::MAX,
{
    assert(a * b <= 0xFFFF_FFFF_FFFF_FFFF * 0xFFFF_FFFF_FFFF_FFFF) by (nonlinear_arith)
        requires
            0 <= a <= 0xFFFF_FFFF_FFFF_FFFF,
            0 <= b <= 0xFFFF_FFFF_FFFF_FFFF,
    ;
}

/// A ratio is held against a threshold through its value alone: counting
/// every sample `k` times over changes no comparison.
pub proof fn lemma_comparisons_scale(q: LoadRatio, k: u64, t: Fraction)
    requires
        k > 0,
        q.count * k <= u64::MAX,
        q.total * k <= u64::MAX,
    ensures
        ({
            let scaled = LoadRatio { count: (q.count * k) as u64, total: (q.total * k) as u64 };
            &&& scaled.below(t) == q.below(t)
            &&& scaled.above(t) == q.above(t)
            &&& scaled.at_least(t) == q.at_least(t)
            &&& scaled.wf() == q.wf()
        }),
{
    let c = q.count as int;
    let n = q.total as int;
    let d = t.denominator as int;
    let m = t.numerator as int;
    let k = k as int;
    assert((c * k) * d == (c * d) * k && m * (n * k) == (m * n) * k) by (nonlinear_arith);
    assert((c * d < m * n) == ((c * d) * k < (m * n) * k)) by (nonlinear_arith)
        requires
            k > 0,
    ;
    assert((c * d > m * n) == ((c * d) * k > (m * n) * k)) by (nonlinear_arith)
        requires
            k > 0,
    ;
    assert((0 < n) == (0 < n * k) && (c <= n) == (c * k <= n * k)) by (nonlinear_arith)
        requires
            k > 0,
    ;
}

/// One set of thresholds for the decision rules.
#[derive(Clone, Copy, Debug, PartialEq, Eq, Structural)]
pub struct Thresholds {
    /// Below this share of quick chunks the node counts as loaded.
    pub noop: Fraction,
    /// At or above this share of chunks within the target there is spare capacity.
    pub increase: Fraction,
    /// Below this share of chunks within the target the node is overloaded.
    pub decrease: Fraction,
}

impl Thresholds {
    /// Every threshold is a fraction with a positive denominator.
    pub open spec fn wf(&self) -> bool {
        self.noop.wf() && self.increase.wf() && self.decrease.wf()
    }

    /// Whether every threshold has a positive denominator.
    pub fn is_well_formed(&self) -> (r: bool)
        ensures
            r == self.wf(),
    {
        self.noop.denominator > 0 && self.increase.denominator > 0 && self.decrease.denominator > 0
    }

    /// The thresholds in force: 0.5 for load, 0.99 to increase, 0.99 to decrease.
    pub open spec fn latest_spec() -> Thresholds {
        Thresholds {
            noop: Fraction { numerator: 1, denominator: 2 },
            increase: Fraction { numerator: 99, denominator: 100 },
            decrease: Fraction { numerator: 99, denominator: 100 },
        }
    }

    /// The thresholds that were in force before: 0.5 for load, 0.97 to
    /// increase, 0.94 to decrease. Between the last two nothing happens.
    pub open spec fn earlier_spec() -> Thresholds {
        Thresholds {
            noop: Fraction { numerator: 1, denominator: 2 },
            increase: Fraction { numerator: 97, denominator: 100 },
            decrease: Fraction { numerator: 94, denominator: 100 },
        }
    }

    /// The thresholds in force.
    pub fn latest() -> (r: Thresholds)
        ensures
            r == Thresholds::latest_spec(),
            r.wf(),
    {
        Thresholds {
            noop: Fraction { numerator: 1, denominator: 2 },
            increase: Fraction { numerator: 99, denominator: 100 },
            decrease: Fraction { numerator: 99, denominator: 100 },
        }
    }

    /// The thresholds that were in force before.
    pub fn earlier() -> (r: Thresholds)
        ensures
            r == Thresholds::earlier_spec(),
            r.wf(),
    {
        Thresholds {
            noop: Fraction { numerator: 1, denominator: 2 },
            increase: Fraction { numerator: 97, denominator: 100 },
            decrease: Fraction { numerator: 94, denominator: 100 },
        }
    }
}

} // verus!
