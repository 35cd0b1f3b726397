use vstd::prelude::*;

use crate::types::Status;
use crate::types::Tally;
use vstd::arithmetic::div_mod::lemma_div_is_ordered;
use vstd::arithmetic::div_mod::lemma_basic_div;

verus! {

/// An exact fraction, used where the policy speaks of a percentage. A value
/// is valid when it lies in (0, 1]: a zero or an improper percentage makes
/// the policy either trivial or unsatisfiable and is rejected at creation.
#[derive(Clone, Copy, Debug, PartialEq, Eq, Structural)]
pub struct Ratio {
    pub num: u64,
    pub den: u64,
}

impl Ratio {
    /// In (0, 1].
    pub open spec fn valid(self) -> bool {
        0 < self.num <= self.den
    }
}

/// The threshold policy of the engine: the rule that turns accumulated vote
/// weights into a Passed / Rejected / still-Open outcome.
#[derive(Clone, Copy, Debug, PartialEq, Eq, Structural)]
pub enum ThresholdSpec {
    /// Passes once yes-weight reaches the fixed weight.
    AbsoluteCount { weight: u64 },
    /// Passes once yes-weight reaches `ceil(percentage * total_weight)`.
    AbsolutePercentage { percentage: Ratio },
    /// Passes once the cast weight reaches `ceil(quorum * total_weight)` and
    /// the yes-weight reaches `ceil(threshold * total_weight)`.
    ThresholdQuorum { threshold: Ratio, quorum: Ratio },
}

/// `ceil(total * r)` for a fraction `r`.
pub open spec fn ceil_mul(total: int, r: Ratio) -> int {
    (total * r.num + r.den - 1) / (r.den as int)
}

/// The ceiling of a valid fraction of `total` never exceeds `total`.
pub proof fn lemma_ceil_mul_le(total: int, r: Ratio)
    requires
        r.valid(),
        0 <= total,
    ensures
        0 <= ceil_mul(total, r) <= total,
{
    let n = r.num as int;
    let d = r.den as int;
    assert(total * n <= total * d) by (nonlinear_arith)
        requires
            0 <= total && n <= d,
    ;
    assert(0 <= total * n) by (nonlinear_arith)
        requires
            0 <= total && 0 < n,
    ;
    lemma_div_is_ordered(total * n + d - 1, total * d + d - 1, d);
    assert(total * d + d - 1 == d * total + (d - 1));
    lemma_div_plus_multiple(total, d - 1, d);
    lemma_basic_div(d - 1, d);
    assert((total * d + d - 1) / d == total);
    lemma_div_is_ordered(0, total * n + d - 1, d);
}

/// `(d * a + b) / d == a + b / d` for a positive divisor.
proof fn lemma_div_plus_multiple(a: int, b: int, d: int)
    requires
        0 < d,
        0 <= b,
    ensures
        (d * a + b) / d == a + b / d,
{
    vstd::arithmetic::div_mod::lemma_hoist_over_denominator(b, a, d as nat);
}

impl ThresholdSpec {
    /// Satisfiable against a registry of the given total weight: an absolute
    /// count must be positive and within reach, a fraction must lie in
    /// (0, 1].
    pub open spec fn spec_valid(self, total: u64) -> bool {
        match self {
            ThresholdSpec::AbsoluteCount { weight } => 1 <= weight <= total,
            ThresholdSpec::AbsolutePercentage { percentage } => percentage.valid(),
            ThresholdSpec::ThresholdQuorum { threshold, quorum } => threshold.valid()
                && quorum.valid(),
        }
    }

    /// Checks that the policy is satisfiable against `total`.
    pub fn validate(&self, total: u64) -> (r: bool)
        ensures
            r == self.spec_valid(total),
    {
        match self {
            ThresholdSpec::AbsoluteCount { weight } => 1 <= *weight && *weight <= total,
            ThresholdSpec::AbsolutePercentage { percentage } => 0 < percentage.num
                && percentage.num <= percentage.den,
            ThresholdSpec::ThresholdQuorum { threshold, quorum } => 0 < threshold.num
                && threshold.num <= threshold.den && 0 < quorum.num && quorum.num <= quorum.den,
        }
    }

    /// The yes-weight needed to pass, against the frozen total weight.
    pub open spec fn spec_needed_yes(self, total: u64) -> int {
        match self {
            ThresholdSpec::AbsoluteCount { weight } => weight as int,
            ThresholdSpec::AbsolutePercentage { percentage } => ceil_mul(total as int, percentage),
            ThresholdSpec::ThresholdQuorum { threshold, .. } => ceil_mul(total as int, threshold),
        }
    }

    /// The cast weight needed before the proposal can pass; zero unless the
    /// policy asks for a quorum.
    pub open spec fn spec_needed_quorum(self, total: u64) -> int {
        match self {
            ThresholdSpec::ThresholdQuorum { quorum, .. } => ceil_mul(total as int, quorum),
            _ => 0,
        }
    }
}

/// The outcome of the threshold policy on accumulated weights, with the
/// weights taken as unbounded integers.
///
/// Passed asks for the quorum (where the policy has one) and the needed
/// yes-weight. Rejected is the early rejection: even if every voter who has
/// not yet voted were to vote yes, the needed yes-weight could no longer be
/// reached. Otherwise the proposal is still Open. Finalization at the
/// deadline is the engine's business, not this function's.
pub open spec fn spec_evaluate(
    ts: ThresholdSpec,
    yes: int,
    no: int,
    abstain: int,
    veto: int,
    total: u64,
) -> Status {
    let cast = yes + no + abstain + veto;
    let uncast: int = if cast >= total { 0 } else { total - cast };
    let needed = ts.spec_needed_yes(total);
    if cast >= ts.spec_needed_quorum(total) && yes >= needed {
        Status::Passed
    } else if yes + uncast < needed {
        Status::Rejected
    } else {
        Status::Open
    }
}

/// `ceil(total * r)`, computed without overflow.
fn ceil_mul_exec(total: u64, r: &Ratio) -> (n: u64)
    requires
        r.valid(),
    ensures
        n == ceil_mul(total as int, *r),
        n <= total,
{
    proof {
        lemma_ceil_mul_le(total as int, *r);
        assert((total as int) * (r.num as int) <= (u64::MAX as int) * (u64::MAX as int))
            by (nonlinear_arith)
            requires
                total <= u64::MAX && r.num <= u64::MAX,
        ;
    }
    let prod: u128 = (total as u128) * (r.num as u128);
    let den: u128 = r.den as u128;
    let res: u128 = (prod + den - 1) / den;
    res as u64
}

/// Evaluates the threshold policy on a tally.
pub fn evaluate(ts: &ThresholdSpec, t: &Tally, total: u64) -> (s: Status)
    requires
        ts.spec_valid(total),
    ensures
        s == spec_evaluate(*ts, t.yes as int, t.no as int, t.abstain as int, t.veto as int, total),
        s != Status::Executed,
{
    let cast: u128 = (t.yes as u128) + (t.no as u128) + (t.abstain as u128) + (t.veto as u128);
    let uncast: u128 = if cast >= (total as u128) {
        0
    } else {
        (total as u128) - cast
    };
    let needed: u64 = match ts {
        ThresholdSpec::AbsoluteCount { weight } => *weight,
        ThresholdSpec::AbsolutePercentage { percentage } => ceil_mul_exec(total, percentage),
        ThresholdSpec::ThresholdQuorum { threshold, .. } => ceil_mul_exec(total, threshold),
    };
    let quorum_needed: u64 = match ts {
        ThresholdSpec::ThresholdQuorum { quorum, .. } => ceil_mul_exec(total, quorum),
        _ => 0,
    };
    if cast >= (quorum_needed as u128) && t.yes >= needed {
        Status::Passed
    } else if (t.yes as u128) + uncast < (needed as u128) {
        Status::Rejected
    } else {
        Status::Open
    }
}

/// Law: under a satisfiable policy, a tally whose whole weight is
/// yes-weight within the total is never rejected early — in particular, a
/// proposal opened with only the proposer's own yes ballot is born Open or
/// Passed, never Rejected.
pub proof fn lemma_fresh_tally_not_rejected(ts: ThresholdSpec, yes: int, total: u64)
    requires
        ts.spec_valid(total),
        0 <= yes <= total,
    ensures
        spec_evaluate(ts, yes, 0, 0, 0, total) != Status::Rejected,
{
    match ts {
        ThresholdSpec::AbsoluteCount { .. } => {},
        ThresholdSpec::AbsolutePercentage { percentage } => {
            lemma_ceil_mul_le(total as int, percentage);
        },
        ThresholdSpec::ThresholdQuorum { threshold, .. } => {
            lemma_ceil_mul_le(total as int, threshold);
        },
    }
}

/// Law: threshold evaluation is monotonic in the accumulated weights. Once a
/// tally passes, any tally that is at least as large in every category still
/// passes — later votes never flip a passed outcome back to Open or
/// Rejected.
pub proof fn lemma_evaluate_monotone(
    ts: ThresholdSpec,
    yes1: int,
    no1: int,
    abstain1: int,
    veto1: int,
    yes2: int,
    no2: int,
    abstain2: int,
    veto2: int,
    total: u64,
)
    requires
        yes1 <= yes2,
        no1 <= no2,
        abstain1 <= abstain2,
        veto1 <= veto2,
        spec_evaluate(ts, yes1, no1, abstain1, veto1, total) == Status::Passed,
    ensures
        spec_evaluate(ts, yes2, no2, abstain2, veto2, total) == Status::Passed,
{
}

} // verus!

