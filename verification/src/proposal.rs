//! The proposal record and the pure rules over it: vote tallying, threshold
//! evaluation, expiration, and the status transition function. Everything in
//! this module is a function of plain values; the store around it lives in
//! `state`.

use vstd::prelude::*;
use crate::error::ContractError;

verus! {

/// Fixed-point scale of a percentage: `DECIMAL_FRACTIONAL` atomics are 100%.
pub const DECIMAL_FRACTIONAL: u128 = 1_000_000_000_000_000_000;

/// Intermediate rounding scale used by the votes-needed calculation.
pub const PRECISION_FACTOR: u128 = 1_000_000_000;

/// A percentage as a fixed-point number with 18 fractional decimal digits,
/// held as its raw atomics: `atomics == DECIMAL_FRACTIONAL` means 100%.
#[derive(Clone, Copy, Debug, PartialEq, Eq, Structural)]
pub struct Decimal {
    pub atomics: u128,
}

impl Decimal {
    /// The value `x%`.
    pub fn percent(x: u64) -> (r: Decimal)
        ensures
            r.atomics == x * 10_000_000_000_000_000u128,
    {
        proof {
            vstd::arithmetic::mul::lemma_mul_inequality(
                x as int, u64::MAX as int, 10_000_000_000_000_000);
        }
        Decimal { atomics: (x as u128) * 10_000_000_000_000_000u128 }
    }

    /// The value `x` per mille.
    pub fn permille(x: u64) -> (r: Decimal)
        ensures
            r.atomics == x * 1_000_000_000_000_000u128,
    {
        proof {
            vstd::arithmetic::mul::lemma_mul_inequality(
                x as int, u64::MAX as int, 1_000_000_000_000_000);
        }
        Decimal { atomics: (x as u128) * 1_000_000_000_000_000u128 }
    }

    /// The value 1 (that is, 100%).
    pub fn one() -> (r: Decimal)
        ensures
            r.atomics == DECIMAL_FRACTIONAL,
    {
        Decimal { atomics: DECIMAL_FRACTIONAL }
    }
}

/// One voter's choice on one proposal.
#[derive(Clone, Copy, Debug, PartialEq, Eq, Structural)]
pub enum Vote {
    Yes,
    No,
    Abstain,
    Veto,
}

/// The stored portion of a proposal's status. Expiration is evaluated
/// dynamically against the clock each time the status is read, layered on
/// top of this value; there is no stored "expired" state.
#[derive(Clone, Copy, Debug, PartialEq, Eq, Structural)]
pub enum Status {
    Open,
    Rejected,
    Passed,
    Executed,
}

/// The rule that decides what yes-weight passes a proposal, frozen into the
/// proposal at creation time.
#[derive(Clone, Copy, Debug, PartialEq, Eq, Structural)]
pub enum Threshold {
    /// A fixed weight of yes-votes is needed.
    AbsoluteCount { weight: u64 },
    /// A percentage of the total weight (minus abstentions) must vote yes.
    AbsolutePercentage { percentage: Decimal },
    /// A `quorum` of the total weight must participate, and of the opinions
    /// cast a `threshold` fraction must be yes.
    ThresholdQuorum { threshold: Decimal, quorum: Decimal },
}

/// The deadline after which voting and execution (but not closing) are
/// disallowed.
#[derive(Clone, Copy, Debug, PartialEq, Eq, Structural)]
pub enum Expiration {
    /// Expired once the block height reaches this value.
    AtHeight(u64),
    /// Expired once the block time, in nanoseconds, reaches this value.
    AtTime(u64),
    /// Never expires.
    Never,
}

/// A length of time, used to derive a proposal's default expiration.
#[derive(Clone, Copy, Debug, PartialEq, Eq, Structural)]
pub enum Duration {
    /// A number of blocks.
    Height(u64),
    /// A number of seconds.
    Time(u64),
}

pub const NANOS_PER_SECOND: u64 = 1_000_000_000;

/// The clock and height oracle's reading for the current invocation.
#[derive(Clone, Copy, Debug, PartialEq, Eq, Structural)]
pub struct BlockInfo {
    pub height: u64,
    /// Block time in nanoseconds.
    pub time_nanos: u64,
}

/// Weight cast so far for each choice.
#[derive(Clone, Copy, Debug, PartialEq, Eq, Structural)]
pub struct Votes {
    pub yes: u64,
    pub no: u64,
    pub abstain: u64,
    pub veto: u64,
}

/// Deposit metadata carried on a proposal; stored and returned, never read by
/// the engine's rules.
#[derive(Clone, Debug, PartialEq, Eq)]
pub struct DepositInfo {
    pub denom: String,
    pub amount: u128,
    pub refund_failed_proposals: bool,
}

pub open spec fn spec_votes_total(v: Votes) -> int {
    v.yes + v.no + v.abstain + v.veto
}

impl Votes {
    /// Sum of all buckets.
    pub fn total(&self) -> (r: u64)
        requires
            spec_votes_total(*self) <= u64::MAX,
        ensures
            r == spec_votes_total(*self),
    {
        self.yes + self.no + self.abstain + self.veto
    }

    /// A fresh tally holding one yes ballot of the given weight.
    pub fn yes(init_weight: u64) -> (r: Votes)
        ensures
            r == (Votes { yes: init_weight, no: 0, abstain: 0, veto: 0 }),
    {
        Votes { yes: init_weight, no: 0, abstain: 0, veto: 0 }
    }

    /// Add `weight` to the bucket matching `vote`.
    pub fn add_vote(&mut self, vote: Vote, weight: u64)
        requires
            spec_votes_total(*old(self)) + weight <= u64::MAX,
        ensures
            *final(self) == spec_add_vote(*old(self), vote, weight),
    {
        match vote {
            Vote::Yes => { self.yes = self.yes + weight; }
            Vote::No => { self.no = self.no + weight; }
            Vote::Abstain => { self.abstain = self.abstain + weight; }
            Vote::Veto => { self.veto = self.veto + weight; }
        }
    }
}

pub open spec fn spec_add_vote(v: Votes, vote: Vote, weight: u64) -> Votes {
    match vote {
        Vote::Yes => Votes { yes: (v.yes + weight) as u64, ..v },
        Vote::No => Votes { no: (v.no + weight) as u64, ..v },
        Vote::Abstain => Votes { abstain: (v.abstain + weight) as u64, ..v },
        Vote::Veto => Votes { veto: (v.veto + weight) as u64, ..v },
    }
}

pub open spec fn spec_is_expired(e: Expiration, b: BlockInfo) -> bool {
    match e {
        Expiration::AtHeight(height) => b.height >= height,
        Expiration::AtTime(time) => b.time_nanos >= time,
        Expiration::Never => false,
    }
}

impl Expiration {
    /// True once the block has reached the deadline.
    pub fn is_expired(&self, block: &BlockInfo) -> (r: bool)
        ensures
            r == spec_is_expired(*self, *block),
    {
        match self {
            Expiration::AtHeight(height) => block.height >= *height,
            Expiration::AtTime(time) => block.time_nanos >= *time,
            Expiration::Never => false,
        }
    }
}

/// Whether the deadline `duration` steps after `b` fits the machine integers.
pub open spec fn spec_after_fits(d: Duration, b: BlockInfo) -> bool {
    match d {
        Duration::Height(h) => b.height + h <= u64::MAX,
        Duration::Time(t) => t * NANOS_PER_SECOND <= u64::MAX
            && b.time_nanos + t * NANOS_PER_SECOND <= u64::MAX,
    }
}

pub open spec fn spec_after(d: Duration, b: BlockInfo) -> Expiration {
    match d {
        Duration::Height(h) => Expiration::AtHeight((b.height + h) as u64),
        Duration::Time(t) => Expiration::AtTime(
            (b.time_nanos + t * NANOS_PER_SECOND) as u64,
        ),
    }
}

impl Duration {
    /// The expiration instant this duration after the given block.
    pub fn after(&self, block: &BlockInfo) -> (r: Expiration)
        requires
            spec_after_fits(*self, *block),
        ensures
            r == spec_after(*self, *block),
    {
        match self {
            Duration::Height(h) => Expiration::AtHeight(block.height + *h),
            Duration::Time(t) => Expiration::AtTime(
                block.time_nanos + *t * NANOS_PER_SECOND,
            ),
        }
    }
}

/// The weight of yes-votes needed out of `weight`, as the percentage demands:
/// the scaled product is taken at `PRECISION_FACTOR` granularity, then rounded
/// up to the nearest whole weight unit.
pub open spec fn spec_votes_needed(weight: int, atomics: int) -> int {
    ((weight * atomics) / (PRECISION_FACTOR as int) + (PRECISION_FACTOR as int) - 1)
        / (PRECISION_FACTOR as int)
}

/// Whether a percentage may stand as a passing threshold: between 50% and 100%.
pub open spec fn spec_valid_threshold(p: Decimal) -> bool {
    50 * 10_000_000_000_000_000 <= p.atomics <= DECIMAL_FRACTIONAL
}

/// Whether a percentage may stand as a quorum: positive and at most 100%.
pub open spec fn spec_valid_quorum(p: Decimal) -> bool {
    0 < p.atomics <= DECIMAL_FRACTIONAL
}

/// Whether a threshold policy is well-formed against a total weight.
pub open spec fn spec_threshold_valid(t: Threshold, total_weight: int) -> bool {
    match t {
        Threshold::AbsoluteCount { weight } => 0 < weight <= total_weight,
        Threshold::AbsolutePercentage { percentage } => spec_valid_threshold(percentage),
        Threshold::ThresholdQuorum { threshold, quorum } =>
            spec_valid_threshold(threshold) && spec_valid_quorum(quorum),
    }
}

impl Threshold {
    /// Checks that the policy is reachable and its percentages sensible,
    /// given the total weight of the group.
    pub fn validate(&self, total_weight: u64) -> (r: Result<(), ContractError>)
        ensures
            r is Ok <==> spec_threshold_valid(*self, total_weight as int),
            r is Err ==> r == Result::<(), ContractError>::Err(ContractError::InvalidConfig),
    {
        match self {
            Threshold::AbsoluteCount { weight } => {
                if *weight == 0 || *weight > total_weight {
                    Err(ContractError::InvalidConfig)
                } else {
                    Ok(())
                }
            }
            Threshold::AbsolutePercentage { percentage } => {
                if percentage.atomics < 500_000_000_000_000_000u128
                    || percentage.atomics > DECIMAL_FRACTIONAL {
                    Err(ContractError::InvalidConfig)
                } else {
                    Ok(())
                }
            }
            Threshold::ThresholdQuorum { threshold, quorum } => {
                if threshold.atomics < 500_000_000_000_000_000u128
                    || threshold.atomics > DECIMAL_FRACTIONAL {
                    Err(ContractError::InvalidConfig)
                } else if quorum.atomics == 0 || quorum.atomics > DECIMAL_FRACTIONAL {
                    Err(ContractError::InvalidConfig)
                } else {
                    Ok(())
                }
            }
        }
    }
}

/// The weight of yes-votes needed out of `weight` under `percentage`,
/// rounded up.
pub fn votes_needed(weight: u64, percentage: Decimal) -> (r: u64)
    requires
        percentage.atomics <= DECIMAL_FRACTIONAL,
    ensures
        r == spec_votes_needed(weight as int, percentage.atomics as int),
{
    proof {
        lemma_votes_needed_bounds(weight as int, percentage.atomics as int);
        assert((u64::MAX as int) * (DECIMAL_FRACTIONAL as int) < u128::MAX as int)
            by (nonlinear_arith);
    }
    let applied: u128 = (weight as u128) * percentage.atomics / PRECISION_FACTOR;
    ((applied + PRECISION_FACTOR - 1) / PRECISION_FACTOR) as u64
}

/// The votes needed never exceed the weight voted over, as long as the
/// percentage is at most 100%.
pub proof fn lemma_votes_needed_bounds(w: int, a: int)
    requires
        0 <= w <= u64::MAX,
        0 <= a <= DECIMAL_FRACTIONAL,
    ensures
        0 <= spec_votes_needed(w, a) <= w,
        w * a <= (u64::MAX as int) * (DECIMAL_FRACTIONAL as int),
{
    let p = PRECISION_FACTOR as int;
    let f = DECIMAL_FRACTIONAL as int;
    let wa = w * a;
    vstd::arithmetic::mul::lemma_mul_nonnegative(w, a);
    vstd::arithmetic::mul::lemma_mul_inequality(a, f, w);
    vstd::arithmetic::mul::lemma_mul_is_commutative(a, w);
    vstd::arithmetic::mul::lemma_mul_is_commutative(f, w);
    assert(wa <= w * f);
    vstd::arithmetic::mul::lemma_mul_inequality(w, u64::MAX as int, f);
    assert(w * f == (w * p) * p) by (nonlinear_arith)
        requires f == p * p;
    vstd::arithmetic::div_mod::lemma_div_is_ordered(wa, (w * p) * p, p);
    vstd::arithmetic::mul::lemma_mul_is_commutative(w * p, p);
    vstd::arithmetic::div_mod::lemma_div_multiples_vanish(w * p, p);
    assert(wa / p <= w * p);
    vstd::arithmetic::div_mod::lemma_div_is_ordered(wa / p + p - 1, w * p + p - 1, p);
    vstd::arithmetic::div_mod::lemma_fundamental_div_mod_converse_div(
        w * p + p - 1, p, w, p - 1);
    assert((w * p + p - 1) / p == w);
    vstd::arithmetic::div_mod::lemma_div_pos_is_pos(wa, p);
    vstd::arithmetic::div_mod::lemma_div_pos_is_pos(wa / p + p - 1, p);
}

/// A request for weighted approval to later execute a list of opaque
/// downstream actions.
///
/// `total_weight` and `threshold` are frozen copies taken from the
/// configuration when the proposal was created: later governance changes never
/// retroactively affect a proposal in flight.
#[derive(Debug, PartialEq, Eq)]
pub struct Proposal {
    pub title: String,
    pub description: String,
    pub start_height: u64,
    pub expires: Expiration,
    /// Opaque downstream actions, forwarded verbatim on execution.
    pub msgs: Vec<String>,
    pub status: Status,
    pub threshold: Threshold,
    pub total_weight: u64,
    pub votes: Votes,
    pub proposer: String,
    pub deposit: Option<DepositInfo>,
}

impl Proposal {
    /// Internal consistency of one proposal record: its frozen threshold is
    /// reachable against its frozen total weight, and the tally never exceeds
    /// that total.
    pub open spec fn wf(self) -> bool {
        &&& spec_threshold_valid(self.threshold, self.total_weight as int)
        &&& spec_votes_total(self.votes) <= self.total_weight
    }
}

/// Whether the tally is already sure to pass: the yes-weight meets the frozen
/// threshold, whatever the still-uncommitted weight does.
pub open spec fn spec_is_passed(p: Proposal, b: BlockInfo) -> bool {
    match p.threshold {
        Threshold::AbsoluteCount { weight } => p.votes.yes >= weight,
        Threshold::AbsolutePercentage { percentage } =>
            p.votes.yes as int >= spec_votes_needed(
                p.total_weight - p.votes.abstain, percentage.atomics as int),
        Threshold::ThresholdQuorum { threshold, quorum } => {
            &&& spec_votes_total(p.votes) >= spec_votes_needed(
                p.total_weight as int, quorum.atomics as int)
            &&& if spec_is_expired(p.expires, b) {
                p.votes.yes as int >= spec_votes_needed(
                    spec_votes_total(p.votes) - p.votes.abstain, threshold.atomics as int)
            } else {
                p.votes.yes as int >= spec_votes_needed(
                    p.total_weight - p.votes.abstain, threshold.atomics as int)
            }
        }
    }
}

/// Whether the tally is already sure to fail: the no-weight is so large that
/// no sequence of further votes could reach the threshold.
pub open spec fn spec_is_rejected(p: Proposal, b: BlockInfo) -> bool {
    match p.threshold {
        Threshold::AbsoluteCount { weight } => p.votes.no > p.total_weight - weight,
        Threshold::AbsolutePercentage { percentage } =>
            p.votes.no as int > spec_votes_needed(
                p.total_weight - p.votes.abstain,
                DECIMAL_FRACTIONAL - percentage.atomics),
        Threshold::ThresholdQuorum { threshold, quorum: _ } => {
            if spec_is_expired(p.expires, b) {
                p.votes.no as int > spec_votes_needed(
                    spec_votes_total(p.votes) - p.votes.abstain,
                    DECIMAL_FRACTIONAL - threshold.atomics)
            } else {
                p.votes.no as int > spec_votes_needed(
                    p.total_weight - p.votes.abstain,
                    DECIMAL_FRACTIONAL - threshold.atomics)
            }
        }
    }
}

/// The status a reader should see now: the stored value, with the Open state
/// re-evaluated against the tally and the clock. Terminal stored statuses are
/// never revisited.
pub open spec fn spec_current_status(p: Proposal, b: BlockInfo) -> Status {
    if p.status == Status::Open && spec_is_passed(p, b) {
        Status::Passed
    } else if p.status == Status::Open
        && (spec_is_rejected(p, b) || spec_is_expired(p.expires, b)) {
        Status::Rejected
    } else {
        p.status
    }
}

impl Proposal {
    /// See `spec_is_passed`.
    pub fn is_passed(&self, block: &BlockInfo) -> (r: bool)
        requires
            self.wf(),
        ensures
            r == spec_is_passed(*self, *block),
    {
        match &self.threshold {
            Threshold::AbsoluteCount { weight } => self.votes.yes >= *weight,
            Threshold::AbsolutePercentage { percentage } => {
                self.votes.yes >= votes_needed(
                    self.total_weight - self.votes.abstain, *percentage)
            }
            Threshold::ThresholdQuorum { threshold, quorum } => {
                if self.votes.total() < votes_needed(self.total_weight, *quorum) {
                    false
                } else if self.expires.is_expired(block) {
                    let opinions = self.votes.total() - self.votes.abstain;
                    self.votes.yes >= votes_needed(opinions, *threshold)
                } else {
                    let possible_opinions = self.total_weight - self.votes.abstain;
                    self.votes.yes >= votes_needed(possible_opinions, *threshold)
                }
            }
        }
    }

    /// See `spec_is_rejected`.
    pub fn is_rejected(&self, block: &BlockInfo) -> (r: bool)
        requires
            self.wf(),
        ensures
            r == spec_is_rejected(*self, *block),
    {
        match &self.threshold {
            Threshold::AbsoluteCount { weight } => {
                self.votes.no > self.total_weight - *weight
            }
            Threshold::AbsolutePercentage { percentage } => {
                let against = Decimal {
                    atomics: DECIMAL_FRACTIONAL - percentage.atomics,
                };
                self.votes.no > votes_needed(
                    self.total_weight - self.votes.abstain, against)
            }
            Threshold::ThresholdQuorum { threshold, quorum: _ } => {
                let against = Decimal {
                    atomics: DECIMAL_FRACTIONAL - threshold.atomics,
                };
                if self.expires.is_expired(block) {
                    let opinions = self.votes.total() - self.votes.abstain;
                    self.votes.no > votes_needed(opinions, against)
                } else {
                    let possible_opinions = self.total_weight - self.votes.abstain;
                    self.votes.no > votes_needed(possible_opinions, against)
                }
            }
        }
    }

    /// See `spec_current_status`. Non-mutating; meant for reads.
    pub fn current_status(&self, block: &BlockInfo) -> (r: Status)
        requires
            self.wf(),
        ensures
            r == spec_current_status(*self, *block),
    {
        let mut status = self.status;
        if status == Status::Open && self.is_passed(block) {
            status = Status::Passed;
        }
        if status == Status::Open
            && (self.is_rejected(block) || self.expires.is_expired(block)) {
            status = Status::Rejected;
        }
        status
    }

    /// Store the evaluated status back into the record.
    pub fn update_status(&mut self, block: &BlockInfo)
        requires
            old(self).wf(),
        ensures
            *final(self) == (Proposal {
                status: spec_current_status(*old(self), *block),
                ..*old(self)
            }),
    {
        let status = self.current_status(block);
        self.status = status;
    }
}

} // verus!
