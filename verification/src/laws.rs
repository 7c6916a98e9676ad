//! The engine's governing laws, stated and proved over the specs that the
//! operations' own contracts use: the tally bound, ballot uniqueness, id
//! monotonicity, the terminality of Executed and Rejected, and the
//! monotonicity of the threshold check under added yes-weight.

use vstd::prelude::*;
use crate::contract::{create_post, spec_vote_err};
use crate::error::ContractError;
use crate::msg::Env;
use crate::proposal::{
    BlockInfo, DECIMAL_FRACTIONAL, PRECISION_FACTOR, Proposal, Status, Threshold, Votes,
    spec_current_status, spec_is_expired, spec_is_passed,
    spec_votes_needed, spec_votes_total,
};
use crate::state::{
    MultisigStore, lemma_sum_unvoted_nonneg,
};

verus! {

/// In a well-formed store, no proposal's tally — yes, no, abstain and veto
/// together — ever exceeds the total-weight snapshot frozen into it.
pub proof fn lemma_tally_within_total(s: MultisigStore, i: int)
    requires
        s.wf(),
        0 <= i < s.proposals@.len(),
    ensures
        spec_votes_total(s.proposals@[i].votes) <= s.proposals@[i].total_weight,
{
    lemma_sum_unvoted_nonneg(s.voters@, s.ballots@, (i + 1) as u64);
    assert(s.proposal_ok(i));
}

/// In a well-formed store, a (proposal id, voter identity) pair never holds
/// two ballots. Every operation returns a well-formed store, so this holds
/// after any sequence of operations.
pub proof fn lemma_one_ballot_per_pair(s: MultisigStore, i: int, j: int)
    requires
        s.wf(),
        0 <= i < s.ballots@.len(),
        0 <= j < s.ballots@.len(),
        i != j,
    ensures
        !(s.ballots@[i].proposal_id == s.ballots@[j].proposal_id
            && s.ballots@[i].voter@ == s.ballots@[j].voter@),
{
}

/// A successful creation allocates an id strictly greater than every id the
/// store has ever handed out, and leaves every earlier proposal in place at
/// its id. Since only creation allocates ids and nothing ever lowers the
/// counter, ids are strictly increasing and never reused across the store's
/// lifetime.
pub proof fn lemma_ids_strictly_increasing(
    old_s: MultisigStore,
    new_s: MultisigStore,
    env: Env,
    sender: String,
    title: String,
    description: String,
    deposit_info: Option<crate::proposal::DepositInfo>,
    expires: Option<crate::proposal::Expiration>,
    msgs: Vec<String>,
    r: Result<u64, ContractError>,
)
    requires
        old_s.wf(),
        old_s.proposal_count < u64::MAX,
        create_post(old_s, new_s, env, sender, title, description, deposit_info,
            expires, msgs, r),
        r is Ok,
    ensures
        r->Ok_0 == old_s.proposal_count + 1,
        new_s.proposal_count == old_s.proposal_count + 1,
        new_s.proposals@.len() == old_s.proposals@.len() + 1,
        forall|i: int| 0 <= i < old_s.proposals@.len()
            ==> new_s.proposals@[i] == old_s.proposals@[i],
{
}

/// Once a proposal's stored status is Executed or Rejected, no vote on it is
/// ever accepted again, whoever asks and whatever the clock says: the vote
/// guards turn every such request away, and a turned-away request leaves the
/// store untouched.
pub proof fn lemma_terminal_accepts_no_vote(
    s: MultisigStore, env: Env, sender: Seq<char>, pid: u64,
)
    requires
        s.wf(),
        1 <= pid <= s.proposal_count,
        s.proposals@[pid - 1].status == Status::Executed
            || s.proposals@[pid - 1].status == Status::Rejected,
    ensures
        spec_vote_err(s, env, sender, pid) is Some,
{
}

/// The nested rounding in the votes-needed rule collapses to a single
/// rounded-up division at the combined scale.
pub proof fn lemma_votes_needed_closed_form(w: int, a: int)
    requires
        0 <= w,
        0 <= a,
    ensures
        spec_votes_needed(w, a)
            == (w * a + (DECIMAL_FRACTIONAL as int) - (PRECISION_FACTOR as int))
                / (DECIMAL_FRACTIONAL as int),
{
    let p = PRECISION_FACTOR as int;
    let f = DECIMAL_FRACTIONAL as int;
    let n = w * a;
    vstd::arithmetic::mul::lemma_mul_nonnegative(w, a);
    vstd::arithmetic::div_mod::lemma_fundamental_div_mod(n, p);
    vstd::arithmetic::div_mod::lemma_mod_bound(n, p);
    let q = n / p;
    let r1 = n % p;
    vstd::arithmetic::div_mod::lemma_div_pos_is_pos(n, p);
    vstd::arithmetic::div_mod::lemma_fundamental_div_mod(q + p - 1, p);
    vstd::arithmetic::div_mod::lemma_mod_bound(q + p - 1, p);
    let s = (q + p - 1) / p;
    let t = (q + p - 1) % p;
    vstd::arithmetic::div_mod::lemma_div_pos_is_pos(q + p - 1, p);
    assert(n + f - p == s * f + (t * p + r1)) by (nonlinear_arith)
        requires
            f == p * p,
            n == p * q + r1,
            q + p - 1 == p * s + t,
    ;
    assert(t * p <= (p - 1) * p) by {
        vstd::arithmetic::mul::lemma_mul_inequality(t, p - 1, p);
    }
    assert((p - 1) * p == f - p) by (nonlinear_arith)
        requires f == p * p,
    ;
    assert(0 <= t * p) by {
        vstd::arithmetic::mul::lemma_mul_nonnegative(t, p);
    }
    assert(0 <= t * p + r1 < f);
    vstd::arithmetic::div_mod::lemma_fundamental_div_mod_converse_div(
        n + f - p, f, s, t * p + r1);
}

/// Raising the weight voted over by `d` raises the votes needed by at most
/// `d`, as long as the percentage is at most 100%.
pub proof fn lemma_votes_needed_monotonic(w: int, d: int, a: int)
    requires
        0 <= w,
        0 <= d,
        0 <= a <= DECIMAL_FRACTIONAL,
    ensures
        spec_votes_needed(w + d, a) <= spec_votes_needed(w, a) + d,
{
    let p = PRECISION_FACTOR as int;
    let f = DECIMAL_FRACTIONAL as int;
    lemma_votes_needed_closed_form(w, a);
    lemma_votes_needed_closed_form(w + d, a);
    assert((w + d) * a == w * a + d * a) by (nonlinear_arith);
    assert(d * a <= d * f) by {
        vstd::arithmetic::mul::lemma_mul_inequality(a, f, d);
        vstd::arithmetic::mul::lemma_mul_is_commutative(a, d);
        vstd::arithmetic::mul::lemma_mul_is_commutative(f, d);
    }
    vstd::arithmetic::div_mod::lemma_div_is_ordered(
        w * a + d * a + f - p, w * a + d * f + f - p, f);
    vstd::arithmetic::div_mod::lemma_hoist_over_denominator(
        w * a + f - p, d, DECIMAL_FRACTIONAL as nat);
}

/// The same proposal with `d` more yes-weight in its tally.
pub open spec fn spec_with_added_yes(p: Proposal, d: u64) -> Proposal {
    Proposal { votes: Votes { yes: (p.votes.yes + d) as u64, ..p.votes }, ..p }
}

/// Adding yes-weight never un-passes a tally: whatever the threshold policy,
/// a tally that is sure to pass still is after more yes-weight lands, as
/// long as the tally stays within the frozen total.
pub proof fn lemma_passed_stays_passed(p: Proposal, b: BlockInfo, d: u64)
    requires
        p.wf(),
        spec_votes_total(p.votes) + d <= p.total_weight,
        spec_is_passed(p, b),
    ensures
        spec_is_passed(spec_with_added_yes(p, d), b),
{
    let p2 = spec_with_added_yes(p, d);
    assert(p2.votes.yes == p.votes.yes + d);
    match p.threshold {
        Threshold::AbsoluteCount { weight } => {}
        Threshold::AbsolutePercentage { percentage } => {}
        Threshold::ThresholdQuorum { threshold, quorum } => {
            if spec_is_expired(p.expires, b) {
                let opinions = spec_votes_total(p.votes) - p.votes.abstain;
                lemma_votes_needed_monotonic(opinions, d as int, threshold.atomics as int);
            }
        }
    }
}

/// The status seen by readers is monotone under added yes-weight: a proposal
/// whose evaluated status is Passed never falls back to Open or Rejected
/// because more yes-weight arrives.
pub proof fn lemma_status_passed_monotonic(p: Proposal, b: BlockInfo, d: u64)
    requires
        p.wf(),
        spec_votes_total(p.votes) + d <= p.total_weight,
        spec_current_status(p, b) == Status::Passed,
    ensures
        spec_current_status(spec_with_added_yes(p, d), b) == Status::Passed,
{
    if p.status == Status::Open {
        lemma_passed_stays_passed(p, b, d);
    }
}

} // verus!
