//! The decision rules and the bounded step they apply to the gas limit.

use vstd::prelude::*;
use vstd::arithmetic::div_mod::{lemma_div_decreases, lemma_div_nonincreasing};
use crate::ratio::{LoadRatio, Thresholds, lemma_comparisons_scale};
use crate::snapshot::{
    LatencySnapshot,
    SnapshotError,
    UpperBound,
    consistent,
    lemma_bucket_with_bound_is_read,
    read_bucket,
    read_ratio,
};

verus! {

/// The gas limit may change only at heights that are multiples of this.
pub const ADJUSTMENT_INTERVAL: u64 = 10;

/// Chunks applied within this time, 0.5 s, say nothing of the node's capacity.
pub const NOOP_CHUNK_APPLY_NANOS: u64 = 500_000_000;

/// The longest time, 1 s, that applying a chunk should take.
pub const TARGET_CHUNK_APPLY_NANOS: u64 = 1_000_000_000;

/// How far below the target, 0.05 s, an apply time must stay for an increase.
pub const TARGET_BACKOFF_NANOS: u64 = 50_000_000;

/// Above this apply time, 0.5 s, the node counts as loaded.
pub const LOAD_INDICATION_APPLY_NANOS: u64 = 500_000_000;

/// What one decision does to the gas limit.
#[derive(Clone, Copy, Debug, PartialEq, Eq, Structural)]
pub enum Adjustment {
    Decrease,
    Increase,
    Noop,
}

/// The rule that decides.
#[derive(Clone, Copy, Debug, PartialEq, Eq, Structural)]
pub enum Strategy {
    /// From the histogram, at every tenth height.
    PeriodicHysteresis,
    /// From the histogram and the waiting work.
    BacklogAware,
    /// From the last apply time and the waiting work.
    Instantaneous,
}

/// What a strategy may look at besides the histogram.
#[derive(Clone, Copy, Debug, PartialEq, Eq, Structural)]
pub struct Signals {
    /// The height of the block being produced.
    pub height: u64,
    /// Gas of the work that was admitted and not applied yet.
    pub backlog_gas: u128,
    /// How long applying the last chunk took, in nanoseconds.
    pub last_apply_nanos: u128,
}

/// The size of one step: the limit divided by the factor, rounded down.
pub open spec fn step(gas_limit: u64, adjustment_factor: u64) -> int {
    gas_limit as int / adjustment_factor as int
}

/// The limit after one adjustment.
pub open spec fn adjusted(gas_limit: u64, adjustment_factor: u64, adjustment: Adjustment) -> int {
    match adjustment {
        Adjustment::Decrease => gas_limit - step(gas_limit, adjustment_factor),
        Adjustment::Increase => gas_limit + step(gas_limit, adjustment_factor),
        Adjustment::Noop => gas_limit as int,
    }
}

/// The limit plus one step is still a 64-bit number.
pub open spec fn increase_fits(gas_limit: u64, adjustment_factor: u64) -> bool {
    gas_limit + step(gas_limit, adjustment_factor) <= u64::MAX
}

/// Whether the periodic rule looks at the histogram at this height.
pub open spec fn at_adjustment_height(height: u64) -> bool {
    height % ADJUSTMENT_INTERVAL == 0
}

/// The periodic rule on its two ratios: decrease while too few chunks stay
/// within the target; else increase where the node is loaded and enough chunks
/// stay within the target; else nothing. Without evidence, nothing.
pub open spec fn periodic_decision(
    thresholds: Thresholds,
    ratio_noop: Option<LoadRatio>,
    ratio_target: Option<LoadRatio>,
) -> Adjustment {
    match (ratio_noop, ratio_target) {
        (Some(noop), Some(target)) => {
            if target.below(thresholds.decrease) {
                Adjustment::Decrease
            } else if noop.below(thresholds.noop) && target.at_least(thresholds.increase) {
                Adjustment::Increase
            } else {
                Adjustment::Noop
            }
        },
        _ => Adjustment::Noop,
    }
}

/// The backlog-aware rule: decrease while too few chunks stay within the
/// target; else increase where more than enough do and work is waiting; else
/// nothing. Without evidence, nothing.
pub open spec fn backlog_decision(
    thresholds: Thresholds,
    ratio_target: Option<LoadRatio>,
    backlog_gas: u128,
) -> Adjustment {
    match ratio_target {
        Some(target) => {
            if target.below(thresholds.decrease) {
                Adjustment::Decrease
            } else if target.above(thresholds.increase) && backlog_gas > 0 {
                Adjustment::Increase
            } else {
                Adjustment::Noop
            }
        },
        None => Adjustment::Noop,
    }
}

/// The instantaneous rule: decrease after a chunk that took longer than the
/// target; increase after one that showed load, kept the backoff margin below
/// the target, and left work waiting; else nothing.
pub open spec fn instantaneous_decision(last_apply_nanos: u128, backlog_gas: u128) -> Adjustment {
    if last_apply_nanos > TARGET_CHUNK_APPLY_NANOS {
        Adjustment::Decrease
    } else if LOAD_INDICATION_APPLY_NANOS < last_apply_nanos <= TARGET_CHUNK_APPLY_NANOS
        - TARGET_BACKOFF_NANOS && backlog_gas > 0 {
        Adjustment::Increase
    } else {
        Adjustment::Noop
    }
}

/// What the periodic rule decides on a snapshot: off the interval nothing,
/// whatever the histogram holds; on it, the decision on the two ratios, or the
/// error of the first read that failed.
pub open spec fn periodic_verdict(
    thresholds: Thresholds,
    buckets: Seq<crate::snapshot::Bucket>,
    total: u64,
    height: u64,
) -> Result<Adjustment, SnapshotError> {
    if !at_adjustment_height(height) {
        Ok(Adjustment::Noop)
    } else {
        match read_ratio(buckets, total, NOOP_CHUNK_APPLY_NANOS) {
            Err(e) => Err(e),
            Ok(ratio_noop) => match read_ratio(buckets, total, TARGET_CHUNK_APPLY_NANOS) {
                Err(e) => Err(e),
                Ok(ratio_target) => Ok(periodic_decision(thresholds, ratio_noop, ratio_target)),
            },
        }
    }
}

/// What the backlog-aware rule decides on a snapshot.
pub open spec fn backlog_verdict(
    thresholds: Thresholds,
    buckets: Seq<crate::snapshot::Bucket>,
    total: u64,
    backlog_gas: u128,
) -> Result<Adjustment, SnapshotError> {
    match read_ratio(buckets, total, TARGET_CHUNK_APPLY_NANOS) {
        Err(e) => Err(e),
        Ok(ratio_target) => Ok(backlog_decision(thresholds, ratio_target, backlog_gas)),
    }
}

/// What the chosen rule decides.
pub open spec fn verdict(
    strategy: Strategy,
    thresholds: Thresholds,
    buckets: Seq<crate::snapshot::Bucket>,
    total: u64,
    signals: Signals,
) -> Result<Adjustment, SnapshotError> {
    match strategy {
        Strategy::PeriodicHysteresis => periodic_verdict(thresholds, buckets, total, signals.height),
        Strategy::BacklogAware => backlog_verdict(thresholds, buckets, total, signals.backlog_gas),
        Strategy::Instantaneous => Ok(
            instantaneous_decision(signals.last_apply_nanos, signals.backlog_gas),
        ),
    }
}

/// Whether the verdict is to increase the limit.
pub open spec fn asks_increase(verdict: Result<Adjustment, SnapshotError>) -> bool {
    verdict == Ok::<Adjustment, SnapshotError>(Adjustment::Increase)
}

/// A verdict carried out on a limit: the adjusted limit, or the verdict's error.
pub open spec fn carried_out(
    verdict: Result<Adjustment, SnapshotError>,
    gas_limit: u64,
    adjustment_factor: u64,
    r: Result<u64, SnapshotError>,
) -> bool {
    match verdict {
        Ok(adjustment) => r matches Ok(n) && n == adjusted(gas_limit, adjustment_factor, adjustment),
        Err(e) => r == Err::<u64, SnapshotError>(e),
    }
}

/// The new limit differs from the old one by nothing or by exactly one step.
pub open spec fn one_step_apart(gas_limit: u64, adjustment_factor: u64, new_limit: int) -> bool {
    ||| new_limit == gas_limit
    ||| new_limit - gas_limit == step(gas_limit, adjustment_factor)
    ||| gas_limit - new_limit == step(gas_limit, adjustment_factor)
}

/// Whether the periodic rule may change the limit at `height`.
pub fn is_adjustment_height(height: u64) -> (r: bool)
    ensures
        r == at_adjustment_height(height),
{
    height % ADJUSTMENT_INTERVAL == 0
}

/// Whether the limit can take one more step up.
pub fn can_increase(gas_limit: u64, adjustment_factor: u64) -> (r: bool)
    requires
        adjustment_factor > 0,
    ensures
        r == increase_fits(gas_limit, adjustment_factor),
{
    gas_limit / adjustment_factor <= u64::MAX - gas_limit
}

/// Changes the limit by one step of `gas_limit / adjustment_factor`, or not
/// at all. The factor is not zero, and an increased limit is a 64-bit number.
pub fn apply_adjustment(gas_limit: u64, adjustment_factor: u64, adjustment: Adjustment) -> (r: u64)
    requires
        adjustment_factor > 0,
        adjustment == Adjustment::Increase ==> increase_fits(gas_limit, adjustment_factor),
    ensures
        r == adjusted(gas_limit, adjustment_factor, adjustment),
        one_step_apart(gas_limit, adjustment_factor, r as int),
        gas_limit > 0 && adjustment_factor >= 2 ==> r > 0,
{
    let step: u64 = gas_limit / adjustment_factor;
    proof {
        lemma_div_nonincreasing(gas_limit as int, adjustment_factor as int);
        if gas_limit > 0 && adjustment_factor >= 2 {
            lemma_limit_stays_positive(gas_limit, adjustment_factor, adjustment);
        }
    }
    match adjustment {
        Adjustment::Decrease => gas_limit - step,
        Adjustment::Increase => gas_limit + step,
        Adjustment::Noop => gas_limit,
    }
}

/// The periodic rule on the share of quick chunks and the share of chunks
/// within the target.
pub fn decide_periodic(
    thresholds: &Thresholds,
    ratio_noop: Option<LoadRatio>,
    ratio_target: Option<LoadRatio>,
) -> (r: Adjustment)
    requires
        thresholds.wf(),
        ratio_noop matches Some(q) ==> q.wf(),
        ratio_target matches Some(q) ==> q.wf(),
    ensures
        r == periodic_decision(*thresholds, ratio_noop, ratio_target),
{
    match (ratio_noop, ratio_target) {
        (Some(noop), Some(target)) => {
            if target.is_below(&thresholds.decrease) {
                Adjustment::Decrease
            } else if noop.is_below(&thresholds.noop) && target.is_at_least(&thresholds.increase) {
                Adjustment::Increase
            } else {
                Adjustment::Noop
            }
        },
        _ => Adjustment::Noop,
    }
}

/// The backlog-aware rule on the share of chunks within the target and the
/// gas of the waiting work.
pub fn decide_backlog_aware(
    thresholds: &Thresholds,
    ratio_target: Option<LoadRatio>,
    backlog_gas: u128,
) -> (r: Adjustment)
    requires
        thresholds.wf(),
        ratio_target matches Some(q) ==> q.wf(),
    ensures
        r == backlog_decision(*thresholds, ratio_target, backlog_gas),
{
    match ratio_target {
        Some(target) => {
            if target.is_below(&thresholds.decrease) {
                Adjustment::Decrease
            } else if target.is_above(&thresholds.increase) && backlog_gas > 0 {
                Adjustment::Increase
            } else {
                Adjustment::Noop
            }
        },
        None => Adjustment::Noop,
    }
}

/// The instantaneous rule on the last apply time and the gas of the waiting
/// work.
pub fn decide_instantaneous(last_apply_nanos: u128, backlog_gas: u128) -> (r: Adjustment)
    ensures
        r == instantaneous_decision(last_apply_nanos, backlog_gas),
{
    if last_apply_nanos > TARGET_CHUNK_APPLY_NANOS as u128 {
        Adjustment::Decrease
    } else if last_apply_nanos > LOAD_INDICATION_APPLY_NANOS as u128 && last_apply_nanos <= (
    TARGET_CHUNK_APPLY_NANOS - TARGET_BACKOFF_NANOS) as u128 && backlog_gas > 0 {
        Adjustment::Increase
    } else {
        Adjustment::Noop
    }
}

/// The periodic rule on a snapshot, without a limit to apply it to.
pub fn periodic_adjustment(thresholds: &Thresholds, snapshot: &LatencySnapshot, height: u64) -> (r:
    Result<Adjustment, SnapshotError>)
    requires
        thresholds.wf(),
    ensures
        r == periodic_verdict(*thresholds, snapshot.buckets(), snapshot.total(), height),
{
    if !is_adjustment_height(height) {
        return Ok(Adjustment::Noop);
    }
    let ratio_noop = match snapshot.ratio(NOOP_CHUNK_APPLY_NANOS) {
        Err(e) => {
            return Err(e);
        },
        Ok(ratio) => ratio,
    };
    let ratio_target = match snapshot.ratio(TARGET_CHUNK_APPLY_NANOS) {
        Err(e) => {
            return Err(e);
        },
        Ok(ratio) => ratio,
    };
    Ok(decide_periodic(thresholds, ratio_noop, ratio_target))
}

/// The backlog-aware rule on a snapshot, without a limit to apply it to.
pub fn backlog_adjustment(thresholds: &Thresholds, snapshot: &LatencySnapshot, backlog_gas: u128) -> (r:
    Result<Adjustment, SnapshotError>)
    requires
        thresholds.wf(),
    ensures
        r == backlog_verdict(*thresholds, snapshot.buckets(), snapshot.total(), backlog_gas),
{
    match snapshot.ratio(TARGET_CHUNK_APPLY_NANOS) {
        Err(e) => Err(e),
        Ok(ratio_target) => Ok(decide_backlog_aware(thresholds, ratio_target, backlog_gas)),
    }
}

/// The gas limit for the next chunk by the periodic rule.
///
/// Off the interval the limit passes through and the snapshot is not read.
/// On it both buckets are read first, and a snapshot without one of them is
/// an error. Then a snapshot without samples leaves the limit as it is; else
/// the limit moves by one step as the two ratios decide.
pub fn determine_new_gas_limit(
    gas_limit: u64,
    adjustment_factor: u64,
    thresholds: &Thresholds,
    snapshot: &LatencySnapshot,
    height: u64,
) -> (r: Result<u64, SnapshotError>)
    requires
        thresholds.wf(),
        adjustment_factor > 0,
        asks_increase(periodic_verdict(*thresholds, snapshot.buckets(), snapshot.total(), height))
            ==> increase_fits(gas_limit, adjustment_factor),
    ensures
        carried_out(
            periodic_verdict(*thresholds, snapshot.buckets(), snapshot.total(), height),
            gas_limit,
            adjustment_factor,
            r,
        ),
        r matches Ok(n) ==> one_step_apart(gas_limit, adjustment_factor, n as int),
        r matches Ok(n) ==> (gas_limit > 0 && adjustment_factor >= 2 ==> n > 0),
        !at_adjustment_height(height) ==> r == Ok::<u64, SnapshotError>(gas_limit),
        snapshot.total() == 0 ==> (r matches Ok(n) ==> n == gas_limit),
{
    match periodic_adjustment(thresholds, snapshot, height) {
        Err(e) => Err(e),
        Ok(adjustment) => Ok(apply_adjustment(gas_limit, adjustment_factor, adjustment)),
    }
}

/// The gas limit for the next chunk by the backlog-aware rule.
///
/// The target's bucket is read first, and a snapshot without it is an error.
/// Then a snapshot without samples leaves the limit as it is; else the limit
/// moves by one step as the ratio within the target and the waiting work
/// decide.
pub fn determine_new_gas_limit_2(
    gas_limit: u64,
    adjustment_factor: u64,
    thresholds: &Thresholds,
    snapshot: &LatencySnapshot,
    delayed_receipt_gas: u128,
) -> (r: Result<u64, SnapshotError>)
    requires
        thresholds.wf(),
        adjustment_factor > 0,
        asks_increase(
            backlog_verdict(*thresholds, snapshot.buckets(), snapshot.total(), delayed_receipt_gas),
        ) ==> increase_fits(gas_limit, adjustment_factor),
    ensures
        carried_out(
            backlog_verdict(*thresholds, snapshot.buckets(), snapshot.total(), delayed_receipt_gas),
            gas_limit,
            adjustment_factor,
            r,
        ),
        r matches Ok(n) ==> one_step_apart(gas_limit, adjustment_factor, n as int),
        r matches Ok(n) ==> (gas_limit > 0 && adjustment_factor >= 2 ==> n > 0),
        snapshot.total() == 0 ==> (r matches Ok(n) ==> n == gas_limit),
{
    match backlog_adjustment(thresholds, snapshot, delayed_receipt_gas) {
        Err(e) => Err(e),
        Ok(adjustment) => Ok(apply_adjustment(gas_limit, adjustment_factor, adjustment)),
    }
}

/// The gas limit for the next chunk by the instantaneous rule.
pub fn determine_new_gas_limit_3(
    gas_limit: u64,
    adjustment_factor: u64,
    delayed_receipt_gas: u128,
    last_apply_nanos: u128,
) -> (r: u64)
    requires
        adjustment_factor > 0,
        instantaneous_decision(last_apply_nanos, delayed_receipt_gas) == Adjustment::Increase
            ==> increase_fits(gas_limit, adjustment_factor),
    ensures
        r == adjusted(
            gas_limit,
            adjustment_factor,
            instantaneous_decision(last_apply_nanos, delayed_receipt_gas),
        ),
        one_step_apart(gas_limit, adjustment_factor, r as int),
        gas_limit > 0 && adjustment_factor >= 2 ==> r > 0,
{
    apply_adjustment(
        gas_limit,
        adjustment_factor,
        decide_instantaneous(last_apply_nanos, delayed_receipt_gas),
    )
}

/// The gas limit for the next chunk by the rule that `strategy` names.
pub fn decide(
    strategy: Strategy,
    gas_limit: u64,
    adjustment_factor: u64,
    thresholds: &Thresholds,
    snapshot: &LatencySnapshot,
    signals: Signals,
) -> (r: Result<u64, SnapshotError>)
    requires
        thresholds.wf(),
        adjustment_factor > 0,
        asks_increase(
            verdict(strategy, *thresholds, snapshot.buckets(), snapshot.total(), signals),
        ) ==> increase_fits(gas_limit, adjustment_factor),
    ensures
        carried_out(
            verdict(strategy, *thresholds, snapshot.buckets(), snapshot.total(), signals),
            gas_limit,
            adjustment_factor,
            r,
        ),
        r matches Ok(n) ==> one_step_apart(gas_limit, adjustment_factor, n as int),
        r matches Ok(n) ==> (gas_limit > 0 && adjustment_factor >= 2 ==> n > 0),
{
    match strategy {
        Strategy::PeriodicHysteresis => determine_new_gas_limit(
            gas_limit,
            adjustment_factor,
            thresholds,
            snapshot,
            signals.height,
        ),
        Strategy::BacklogAware => determine_new_gas_limit_2(
            gas_limit,
            adjustment_factor,
            thresholds,
            snapshot,
            signals.backlog_gas,
        ),
        Strategy::Instantaneous => Ok(
            determine_new_gas_limit_3(
                gas_limit,
                adjustment_factor,
                signals.backlog_gas,
                signals.last_apply_nanos,
            ),
        ),
    }
}

/// A positive limit stays positive through any one adjustment, as long as a
/// step is smaller than the limit, that is for a factor of at least two.
pub proof fn lemma_limit_stays_positive(
    gas_limit: u64,
    adjustment_factor: u64,
    adjustment: Adjustment,
)
    requires
        gas_limit > 0,
        adjustment_factor >= 2,
    ensures
        adjusted(gas_limit, adjustment_factor, adjustment) > 0,
{
    lemma_div_decreases(gas_limit as int, adjustment_factor as int);
    lemma_div_nonincreasing(gas_limit as int, adjustment_factor as int);
}

/// One adjustment moves the limit by nothing or by exactly one step.
pub proof fn lemma_adjustment_is_one_step(
    gas_limit: u64,
    adjustment_factor: u64,
    adjustment: Adjustment,
)
    ensures
        one_step_apart(
            gas_limit,
            adjustment_factor,
            adjusted(gas_limit, adjustment_factor, adjustment),
        ),
{
}

/// Off the interval the periodic rule decides nothing, whatever the
/// histogram holds.
pub proof fn lemma_off_interval_is_noop(
    thresholds: Thresholds,
    buckets: Seq<crate::snapshot::Bucket>,
    total: u64,
    height: u64,
)
    requires
        height % ADJUSTMENT_INTERVAL != 0,
    ensures
        periodic_verdict(thresholds, buckets, total, height) == Ok::<Adjustment, SnapshotError>(
            Adjustment::Noop,
        ),
{
}

/// On a histogram without samples both histogram rules decide nothing,
/// provided the buckets they read are there; where one is not, the verdict is
/// the error of that read.
pub proof fn lemma_no_samples_is_noop(
    thresholds: Thresholds,
    buckets: Seq<crate::snapshot::Bucket>,
    height: u64,
    backlog_gas: u128,
)
    ensures
        read_bucket(buckets, NOOP_CHUNK_APPLY_NANOS).is_ok() && read_bucket(
            buckets,
            TARGET_CHUNK_APPLY_NANOS,
        ).is_ok() ==> periodic_verdict(thresholds, buckets, 0, height) == Ok::<
            Adjustment,
            SnapshotError,
        >(Adjustment::Noop),
        read_bucket(buckets, TARGET_CHUNK_APPLY_NANOS).is_ok() ==> backlog_verdict(
            thresholds,
            buckets,
            0,
            backlog_gas,
        ) == Ok::<Adjustment, SnapshotError>(Adjustment::Noop),
        periodic_verdict(thresholds, buckets, 0, height) matches Ok(a) ==> a == Adjustment::Noop,
        backlog_verdict(thresholds, buckets, 0, backlog_gas) matches Ok(a) ==> a
            == Adjustment::Noop,
{
}

/// A snapshot without a bucket that a rule reads gives no limit: on the
/// interval the periodic rule fails where either of its two buckets is
/// missing, and the backlog-aware rule where the target's bucket is.
pub proof fn lemma_missing_bucket_is_an_error(
    thresholds: Thresholds,
    buckets: Seq<crate::snapshot::Bucket>,
    total: u64,
    height: u64,
    backlog_gas: u128,
)
    ensures
        at_adjustment_height(height) && (read_bucket(buckets, NOOP_CHUNK_APPLY_NANOS).is_err()
            || read_bucket(buckets, TARGET_CHUNK_APPLY_NANOS).is_err()) ==> periodic_verdict(
            thresholds,
            buckets,
            total,
            height,
        ) == Err::<Adjustment, SnapshotError>(SnapshotError::MissingBucket),
        read_bucket(buckets, TARGET_CHUNK_APPLY_NANOS).is_err() ==> backlog_verdict(
            thresholds,
            buckets,
            total,
            backlog_gas,
        ) == Err::<Adjustment, SnapshotError>(SnapshotError::MissingBucket),
{
}

/// The backlog-aware rule looks at nothing but the total, the target's
/// bucket and the waiting work: on two consistent histograms that agree on
/// those it decides the same.
pub proof fn lemma_backlog_rule_reads_the_target_only(
    thresholds: Thresholds,
    first: Seq<crate::snapshot::Bucket>,
    second: Seq<crate::snapshot::Bucket>,
    total: u64,
    backlog_gas: u128,
    i: int,
    j: int,
)
    requires
        consistent(first, total),
        consistent(second, total),
        0 <= i < first.len(),
        0 <= j < second.len(),
        first[i].upper_bound == UpperBound::Nanos(TARGET_CHUNK_APPLY_NANOS),
        second[j] == first[i],
    ensures
        backlog_verdict(thresholds, first, total, backlog_gas) == backlog_verdict(
            thresholds,
            second,
            total,
            backlog_gas,
        ),
{
    lemma_bucket_with_bound_is_read(first, total, TARGET_CHUNK_APPLY_NANOS, i);
    lemma_bucket_with_bound_is_read(second, total, TARGET_CHUNK_APPLY_NANOS, j);
}

/// The rules look at counts only through their ratios: counting every
/// sample `k` times over changes no decision.
pub proof fn lemma_decisions_scale(
    thresholds: Thresholds,
    noop: LoadRatio,
    target: LoadRatio,
    k: u64,
    backlog_gas: u128,
)
    requires
        k > 0,
        noop.count * k <= u64::MAX,
        noop.total * k <= u64::MAX,
        target.count * k <= u64::MAX,
        target.total * k <= u64::MAX,
    ensures
        ({
            let noop_k = LoadRatio {
                count: (noop.count * k) as u64,
                total: (noop.total * k) as u64,
            };
            let target_k = LoadRatio {
                count: (target.count * k) as u64,
                total: (target.total * k) as u64,
            };
            &&& periodic_decision(thresholds, Some(noop_k), Some(target_k)) == periodic_decision(
                thresholds,
                Some(noop),
                Some(target),
            )
            &&& backlog_decision(thresholds, Some(target_k), backlog_gas) == backlog_decision(
                thresholds,
                Some(target),
                backlog_gas,
            )
        }),
{
    lemma_comparisons_scale(noop, k, thresholds.noop);
    lemma_comparisons_scale(target, k, thresholds.decrease);
    lemma_comparisons_scale(target, k, thresholds.increase);
}

} // verus!
