//! The proposal lifecycle engine: initialization, the four lifecycle
//! operations, the administrative voter removal, and the dispatch and query
//! entry points. Every operation is a single read-modify-write transaction
//! over the store: it either commits all its writes or, on failure, leaves
//! the store exactly as it was.

use vstd::prelude::*;
use crate::error::ContractError;
use crate::msg::{Env, ExecuteMsg, InstantiateMsg, QueryMsg, QueryResponse, Response};
use crate::proposal::{
    DepositInfo, Expiration, Proposal, Status, Vote, Votes,
    spec_add_vote, spec_after, spec_after_fits, spec_current_status, spec_is_expired,
    spec_threshold_valid, spec_votes_total,
};
use crate::state::{
    Ballot, BallotRecord, Config, MultisigStore, Voter, find_index, next_id,
    lemma_has_ballot_push, lemma_lookup_none_no_match, lemma_lookup_push,
    lemma_lookup_some_index, lemma_lookup_update, lemma_sum_unvoted_congruence,
    lemma_sum_unvoted_no_ballots, lemma_sum_unvoted_nonneg,
    lemma_sum_unvoted_push_ballot, lemma_sum_unvoted_remove, lemma_sum_weights_nonneg,
    lemma_sum_weights_push, lemma_sum_weights_remove, lemma_sum_weights_split,
    lemma_sum_weights_update, lemma_weight_le_sum_unvoted, spec_has_ballot,
    spec_is_voter, spec_last_weight, spec_lookup_weight, sum_unvoted, sum_weights,
    voters_unique,
};

verus! {

/// An exact copy of a string value.
pub fn clone_string(s: &String) -> (r: String)
    ensures
        r == *s,
{
    s.clone()
}

/// An exact copy of a list of opaque action payloads.
pub fn clone_strings(v: &Vec<String>) -> (r: Vec<String>)
    ensures
        r@ == v@,
{
    let n = v.len();
    let mut r: Vec<String> = Vec::new();
    assert(r@ =~= v@.take(0));
    for i in 0..n
        invariant
            n == v@.len(),
            r@ == v@.take(i as int),
    {
        r.push(clone_string(&v[i]));
        assert(r@ =~= v@.take(i + 1));
    }
    assert(v@.take(n as int) =~= v@);
    r
}

/// An exact copy of the deposit metadata.
pub fn clone_deposit(d: &Option<DepositInfo>) -> (r: Option<DepositInfo>)
    ensures
        r == *d,
{
    match d {
        None => None,
        Some(di) => Some(DepositInfo {
            denom: clone_string(&di.denom),
            amount: di.amount,
            refund_failed_proposals: di.refund_failed_proposals,
        }),
    }
}

/// Field-for-field agreement of two proposal records, with the action list
/// compared by contents.
pub open spec fn proposal_equiv(a: Proposal, b: Proposal) -> bool {
    &&& a.title == b.title
    &&& a.description == b.description
    &&& a.start_height == b.start_height
    &&& a.expires == b.expires
    &&& a.msgs@ == b.msgs@
    &&& a.status == b.status
    &&& a.threshold == b.threshold
    &&& a.total_weight == b.total_weight
    &&& a.votes == b.votes
    &&& a.proposer == b.proposer
    &&& a.deposit == b.deposit
}

/// A copy of a proposal record, equal in every field.
pub fn clone_proposal(p: &Proposal) -> (r: Proposal)
    ensures
        proposal_equiv(r, *p),
{
    Proposal {
        title: clone_string(&p.title),
        description: clone_string(&p.description),
        start_height: p.start_height,
        expires: p.expires,
        msgs: clone_strings(&p.msgs),
        status: p.status,
        threshold: p.threshold,
        total_weight: p.total_weight,
        votes: p.votes,
        proposer: clone_string(&p.proposer),
        deposit: clone_deposit(&p.deposit),
    }
}

/// Sets up a fresh store from the caller-supplied voter list: freezes the
/// total weight as the sum of all listed weights, validates the threshold
/// against it, and registers each identity's weight, a later entry for the
/// same identity overwriting an earlier one.
pub fn instantiate(msg: InstantiateMsg) -> (r: Result<MultisigStore, ContractError>)
    requires
        sum_weights(msg.voters@) <= u64::MAX,
    ensures
        r is Ok <==> spec_threshold_valid(msg.threshold, sum_weights(msg.voters@)),
        r is Err ==> r == Result::<MultisigStore, ContractError>::Err(
            ContractError::InvalidConfig),
        r is Ok ==> ({
            let s = r->Ok_0;
            &&& s.wf()
            &&& s.config == (Config {
                threshold: msg.threshold,
                total_weight: sum_weights(msg.voters@) as u64,
                max_voting_period: msg.max_voting_period,
            })
            &&& s.proposals@.len() == 0
            &&& s.ballots@.len() == 0
            &&& s.proposal_count == 0
            &&& forall|a: Seq<char>| spec_lookup_weight(s.voters@, a)
                == spec_last_weight(msg.voters@, a)
        }),
{
    let n = msg.voters.len();
    let mut total: u64 = 0;
    assert(msg.voters@.take(0) =~= Seq::<Voter>::empty());
    for i in 0..n
        invariant
            n == msg.voters@.len(),
            sum_weights(msg.voters@) <= u64::MAX,
            total == sum_weights(msg.voters@.take(i as int)),
    {
        proof {
            assert(msg.voters@.take(i + 1)
                =~= msg.voters@.take(i as int).push(msg.voters@[i as int]));
            lemma_sum_weights_push(msg.voters@.take(i as int), msg.voters@[i as int]);
            lemma_sum_weights_split(msg.voters@, i + 1);
            lemma_sum_weights_nonneg(msg.voters@.skip(i + 1));
        }
        total = total + msg.voters[i].weight;
    }
    assert(msg.voters@.take(n as int) =~= msg.voters@);

    if let Err(e) = msg.threshold.validate(total) {
        return Err(e);
    }

    let mut voters: Vec<Voter> = Vec::new();
    for i in 0..n
        invariant
            n == msg.voters@.len(),
            sum_weights(msg.voters@) <= u64::MAX,
            voters_unique(voters@),
            sum_weights(voters@) <= sum_weights(msg.voters@.take(i as int)),
            forall|a: Seq<char>| spec_lookup_weight(voters@, a)
                == spec_last_weight(msg.voters@.take(i as int), a),
    {
        let v = &msg.voters[i];
        let nv = Voter { addr: clone_string(&v.addr), weight: v.weight };
        let ghost pre = voters@;
        let ghost orig = msg.voters@[i as int];
        proof {
            assert(msg.voters@.take(i + 1)
                =~= msg.voters@.take(i as int).push(orig));
            assert(msg.voters@.take(i + 1).drop_last() =~= msg.voters@.take(i as int));
            lemma_sum_weights_push(msg.voters@.take(i as int), orig);
        }
        match find_index(&voters, &v.addr) {
            Some(k) => {
                proof {
                    lemma_sum_weights_update(pre, k as int, nv);
                    assert forall|a: Seq<char>|
                        spec_lookup_weight(pre.update(k as int, nv), a)
                            == spec_last_weight(msg.voters@.take(i + 1), a) by {
                        lemma_lookup_update(pre, k as int, nv, a);
                    }
                    assert forall|x: int, y: int|
                        0 <= x < y < pre.update(k as int, nv).len()
                        implies (#[trigger] pre.update(k as int, nv)[x]).addr@
                            != (#[trigger] pre.update(k as int, nv)[y]).addr@ by {
                        if x != k && y != k {
                            assert(pre.update(k as int, nv)[x] == pre[x]);
                            assert(pre.update(k as int, nv)[y] == pre[y]);
                        }
                    }
                }
                voters.set(k, nv);
            }
            None => {
                proof {
                    lemma_sum_weights_push(pre, nv);
                    lemma_lookup_none_no_match(pre, nv.addr@);
                    assert forall|a: Seq<char>|
                        spec_lookup_weight(pre.push(nv), a)
                            == spec_last_weight(msg.voters@.take(i + 1), a) by {
                        lemma_lookup_push(pre, nv, a);
                    }
                    assert forall|x: int, y: int| 0 <= x < y < pre.push(nv).len()
                        implies (#[trigger] pre.push(nv)[x]).addr@
                            != (#[trigger] pre.push(nv)[y]).addr@ by {
                        if y < pre.len() {
                            assert(pre.push(nv)[x] == pre[x]);
                            assert(pre.push(nv)[y] == pre[y]);
                        } else {
                            assert(pre.push(nv)[x] == pre[x]);
                            assert(pre.push(nv)[y] == nv);
                        }
                    }
                }
                voters.push(nv);
            }
        }
    }
    assert(msg.voters@.take(n as int) =~= msg.voters@);

    let store = MultisigStore {
        config: Config {
            threshold: msg.threshold,
            total_weight: total,
            max_voting_period: msg.max_voting_period,
        },
        voters,
        proposals: Vec::new(),
        ballots: Vec::new(),
        proposal_count: 0,
    };
    Ok(store)
}

/// No store field observably changed.
pub open spec fn store_unchanged(a: MultisigStore, b: MultisigStore) -> bool {
    &&& b.config == a.config
    &&& b.voters@ == a.voters@
    &&& b.proposals@ == a.proposals@
    &&& b.ballots@ == a.ballots@
    &&& b.proposal_count == a.proposal_count
}

/// Why a creation fails, if it does: only an unqualified caller.
pub open spec fn spec_create_err(s: MultisigStore, sender: Seq<char>) -> Option<ContractError> {
    if !spec_is_voter(s.voters@, sender) {
        Some(ContractError::Unauthorized)
    } else {
        None
    }
}

/// The record a successful creation appends: snapshots of the frozen
/// configuration, the caller-supplied payload, and the proposer's implicit
/// yes ballot already tallied.
pub open spec fn spec_new_proposal(
    s: MultisigStore,
    env: Env,
    sender: String,
    title: String,
    description: String,
    deposit_info: Option<DepositInfo>,
    expires: Option<Expiration>,
    msgs: Vec<String>,
) -> Proposal {
    Proposal {
        title: title,
        description: description,
        start_height: env.block.height,
        expires: match expires {
            Some(e) => e,
            None => spec_after(s.config.max_voting_period, env.block),
        },
        msgs: msgs,
        status: Status::Open,
        threshold: s.config.threshold,
        total_weight: s.config.total_weight,
        votes: Votes {
            yes: spec_lookup_weight(s.voters@, sender@)->Some_0,
            no: 0,
            abstain: 0,
            veto: 0,
        },
        proposer: sender,
        deposit: deposit_info,
    }
}

/// Everything a creation does, success or failure.
pub open spec fn create_post(
    old_s: MultisigStore,
    new_s: MultisigStore,
    env: Env,
    sender: String,
    title: String,
    description: String,
    deposit_info: Option<DepositInfo>,
    expires: Option<Expiration>,
    msgs: Vec<String>,
    r: Result<u64, ContractError>,
) -> bool {
    match spec_create_err(old_s, sender@) {
        Some(e) => r == Result::<u64, ContractError>::Err(e) && store_unchanged(old_s, new_s),
        None => {
            let w = spec_lookup_weight(old_s.voters@, sender@)->Some_0;
            let id = (old_s.proposal_count + 1) as u64;
            let prop = spec_new_proposal(
                old_s, env, sender, title, description, deposit_info, expires, msgs);
            &&& r == Result::<u64, ContractError>::Ok(id)
            &&& new_s.proposal_count == id
            &&& new_s.proposals@ =~= old_s.proposals@.push(prop)
            &&& new_s.ballots@ =~= old_s.ballots@.push(BallotRecord {
                proposal_id: id,
                voter: sender,
                ballot: Ballot { weight: w, vote: Vote::Yes },
            })
            &&& new_s.voters@ == old_s.voters@
            &&& new_s.config == old_s.config
        }
    }
}

/// Creates a proposal: allocates the next id, freezes the configuration's
/// threshold and total weight into the record, sets its expiration to the
/// caller's choice or one default period from now, and records the
/// proposer's implicit yes ballot at the proposer's current weight.
pub fn create_proposal(
    store: &mut MultisigStore,
    env: &Env,
    sender: String,
    title: String,
    description: String,
    deposit_info: Option<DepositInfo>,
    expires: Option<Expiration>,
    msgs: Vec<String>,
) -> (r: Result<u64, ContractError>)
    requires
        old(store).wf(),
        old(store).proposal_count < u64::MAX,
        spec_after_fits(old(store).config.max_voting_period, env.block),
    ensures
        final(store).wf(),
        create_post(*old(store), *final(store), *env, sender, title, description,
            deposit_info, expires, msgs, r),
{
    if !crate::helpers::qualified_to_propose(store, &sender) {
        return Err(ContractError::Unauthorized);
    }
    let voter_weight = match store.voter_weight(&sender) {
        Some(w) => w,
        None => {
            assert(false);
            return Err(ContractError::Unauthorized);
        }
    };
    let expires_val = match expires {
        Some(e) => e,
        None => store.config.max_voting_period.after(&env.block),
    };
    let ghost os = *store;
    let id = next_id(store);
    let ghost sender_view = sender@;
    let prop = Proposal {
        title,
        description,
        start_height: env.block.height,
        expires: expires_val,
        msgs,
        status: Status::Open,
        threshold: store.config.threshold,
        total_weight: store.config.total_weight,
        votes: Votes::yes(voter_weight),
        proposer: clone_string(&sender),
        deposit: deposit_info,
    };
    store.proposals.push(prop);
    let rec = BallotRecord {
        proposal_id: id,
        voter: sender,
        ballot: Ballot { weight: voter_weight, vote: Vote::Yes },
    };
    store.ballots.push(rec);

    proof {
        let vs = os.voters@;
        let bs = os.ballots@;
        let bs2 = store.ballots@;
        let grec = BallotRecord {
            proposal_id: id,
            voter: store.ballots@.last().voter,
            ballot: Ballot { weight: voter_weight, vote: Vote::Yes },
        };
        // The new proposal's tally plus the still-uncommitted weight is the
        // whole registered weight, which is within the frozen total.
        assert(!spec_has_ballot(bs, id, sender_view));
        let k = lemma_lookup_some_index(vs, sender_view);
        lemma_sum_unvoted_no_ballots(vs, bs, id);
        lemma_sum_unvoted_push_ballot(vs, bs, id, k, bs2.last());
        assert(sum_unvoted(vs, bs2, id) == sum_weights(vs) - voter_weight);
        // Older proposals keep their uncommitted weight: the new ballot
        // carries a fresh id.
        assert forall|i: int| 0 <= i < os.proposals@.len()
            implies store.proposal_ok(i) by {
            let pid = (i + 1) as u64;
            assert forall|v: int| 0 <= v < vs.len()
                implies spec_has_ballot(bs2, pid, (#[trigger] vs[v]).addr@)
                    == spec_has_ballot(bs, pid, vs[v].addr@) by {
                lemma_has_ballot_push(bs, bs2.last(), pid, vs[v].addr@);
            }
            lemma_sum_unvoted_congruence(vs, bs2, pid, bs, pid);
            assert(os.proposal_ok(i));
            assert(store.proposals@[i] == os.proposals@[i]);
        }
        assert(store.proposal_ok(os.proposals@.len() as int));
        assert(store.wf());
    }
    Ok(id)
}

/// Why a vote fails, if it does, in the order the guards run: the proposal
/// must exist; the caller must not have voted already and must be qualified;
/// the proposal must be neither expired nor past its Open state (a vote on a
/// terminal proposal is turned away by the expiration guard).
pub open spec fn spec_vote_err(
    s: MultisigStore, env: Env, sender: Seq<char>, pid: u64,
) -> Option<ContractError> {
    if !(1 <= pid <= s.proposal_count) {
        Some(ContractError::NotFound)
    } else if spec_has_ballot(s.ballots@, pid, sender) {
        Some(ContractError::VotedVoter)
    } else if !spec_is_voter(s.voters@, sender) {
        Some(ContractError::Unauthorized)
    } else if spec_is_expired(s.proposals@[pid - 1].expires, env.block) {
        Some(ContractError::Expired)
    } else if s.proposals@[pid - 1].status != Status::Open {
        Some(ContractError::Expired)
    } else {
        None
    }
}

/// Everything a vote does, success or failure: on success the caller's
/// current weight lands in the bucket matching the choice, a ballot is
/// recorded, and the status is re-evaluated against the frozen threshold.
pub open spec fn vote_post(
    old_s: MultisigStore,
    new_s: MultisigStore,
    env: Env,
    sender: String,
    pid: u64,
    vote: Vote,
    r: Result<(), ContractError>,
) -> bool {
    match spec_vote_err(old_s, env, sender@, pid) {
        Some(e) => r == Result::<(), ContractError>::Err(e)
            && store_unchanged(old_s, new_s),
        None => {
            let w = spec_lookup_weight(old_s.voters@, sender@)->Some_0;
            let p0 = old_s.proposals@[pid - 1];
            let p1 = Proposal { votes: spec_add_vote(p0.votes, vote, w), ..p0 };
            let p2 = Proposal { status: spec_current_status(p1, env.block), ..p1 };
            &&& r == Result::<(), ContractError>::Ok(())
            &&& new_s.proposals@ =~= old_s.proposals@.update(pid - 1, p2)
            &&& new_s.ballots@ =~= old_s.ballots@.push(BallotRecord {
                proposal_id: pid,
                voter: sender,
                ballot: Ballot { weight: w, vote: vote },
            })
            &&& new_s.voters@ == old_s.voters@
            &&& new_s.config == old_s.config
            &&& new_s.proposal_count == old_s.proposal_count
        }
    }
}

/// Casts a vote: checks existence, authorization, double voting and
/// expiration in that order, then tallies the caller's weight and
/// re-evaluates the proposal's status.
pub fn execute_vote(
    store: &mut MultisigStore,
    env: &Env,
    sender: String,
    proposal_id: u64,
    vote: Vote,
) -> (r: Result<(), ContractError>)
    requires
        old(store).wf(),
    ensures
        final(store).wf(),
        vote_post(*old(store), *final(store), *env, sender, proposal_id, vote, r),
{
    if proposal_id < 1 || proposal_id > store.proposal_count {
        return Err(ContractError::NotFound);
    }
    if let Err(e) = crate::helpers::qualified_to_vote(store, &sender, proposal_id) {
        return Err(e);
    }
    let voter_weight = match store.voter_weight(&sender) {
        Some(w) => w,
        None => {
            assert(false);
            return Err(ContractError::Unauthorized);
        }
    };
    let len = store.proposals.len();
    assert(store.proposal_count == len);
    let idx = (proposal_id - 1) as usize;
    if store.proposals[idx].expires.is_expired(&env.block) {
        return Err(ContractError::Expired);
    }
    if !matches!(store.proposals[idx].status, Status::Open) {
        return Err(ContractError::Expired);
    }

    let ghost os = *store;
    let ghost sender_view = sender@;
    let ghost vs = os.voters@;
    let ghost bs = os.ballots@;
    proof {
        // The voter's weight still fits under the frozen total: it is part
        // of the uncommitted weight of this proposal.
        let k = lemma_lookup_some_index(vs, sender_view);
        lemma_weight_le_sum_unvoted(vs, bs, proposal_id, k);
        assert(os.proposal_ok(idx as int));
    }
    let mut prop = store.proposals.remove(idx);
    prop.votes.add_vote(vote, voter_weight);
    prop.update_status(&env.block);
    store.proposals.insert(idx, prop);
    store.ballots.push(BallotRecord {
        proposal_id,
        voter: sender,
        ballot: Ballot { weight: voter_weight, vote },
    });

    proof {
        let bs2 = store.ballots@;
        let p0 = os.proposals@[idx as int];
        let p1 = Proposal { votes: spec_add_vote(p0.votes, vote, voter_weight), ..p0 };
        let p2 = Proposal { status: spec_current_status(p1, env.block), ..p1 };
        assert(store.proposals@ =~= os.proposals@.update(idx as int, p2));
        let k = lemma_lookup_some_index(vs, sender_view);
        lemma_sum_unvoted_push_ballot(vs, bs, proposal_id, k, bs2.last());
        assert(sum_unvoted(vs, bs2, proposal_id)
            == sum_unvoted(vs, bs, proposal_id) - voter_weight);
        assert forall|i: int| 0 <= i < store.proposals@.len()
            implies store.proposal_ok(i) by {
            let pid = (i + 1) as u64;
            assert(os.proposal_ok(i));
            if i != idx as int {
                assert forall|v: int| 0 <= v < vs.len()
                    implies spec_has_ballot(bs2, pid, (#[trigger] vs[v]).addr@)
                        == spec_has_ballot(bs, pid, vs[v].addr@) by {
                    lemma_has_ballot_push(bs, bs2.last(), pid, vs[v].addr@);
                }
                lemma_sum_unvoted_congruence(vs, bs2, pid, bs, pid);
                assert(store.proposals@[i] == os.proposals@[i]);
            }
        }
        assert(store.wf());
    }
    Ok(())
}

/// Why an execution fails, if it does: the proposal must exist, its
/// evaluated status must be Passed, and it must not be expired — a
/// passed-but-expired proposal can only be closed.
pub open spec fn spec_execute_err(s: MultisigStore, env: Env, pid: u64) -> Option<ContractError> {
    if !(1 <= pid <= s.proposal_count) {
        Some(ContractError::NotFound)
    } else if spec_current_status(s.proposals@[pid - 1], env.block) != Status::Passed {
        Some(ContractError::OpenProposal)
    } else if spec_is_expired(s.proposals@[pid - 1].expires, env.block) {
        Some(ContractError::ExpiredProposal)
    } else {
        None
    }
}

/// Everything an execution does: on success the status becomes Executed
/// (terminal) and the proposal's downstream actions come back verbatim for
/// the dispatch layer to forward.
pub open spec fn execute_post(
    old_s: MultisigStore,
    new_s: MultisigStore,
    env: Env,
    pid: u64,
    r: Result<Vec<String>, ContractError>,
) -> bool {
    match spec_execute_err(old_s, env, pid) {
        Some(e) => r == Result::<Vec<String>, ContractError>::Err(e)
            && store_unchanged(old_s, new_s),
        None => {
            let p = old_s.proposals@[pid - 1];
            &&& r is Ok
            &&& r->Ok_0@ == p.msgs@
            &&& new_s.proposals@ =~= old_s.proposals@.update(
                pid - 1, (Proposal { status: Status::Executed, ..p }))
            &&& new_s.ballots@ == old_s.ballots@
            &&& new_s.voters@ == old_s.voters@
            &&& new_s.config == old_s.config
            &&& new_s.proposal_count == old_s.proposal_count
        }
    }
}

/// Executes a passed proposal: marks it Executed and returns its downstream
/// actions for forwarding. No re-authorization happens here — the voting
/// threshold itself authorized the execution.
pub fn execute_proposal(
    store: &mut MultisigStore,
    env: &Env,
    proposal_id: u64,
) -> (r: Result<Vec<String>, ContractError>)
    requires
        old(store).wf(),
    ensures
        final(store).wf(),
        execute_post(*old(store), *final(store), *env, proposal_id, r),
{
    if proposal_id < 1 || proposal_id > store.proposal_count {
        return Err(ContractError::NotFound);
    }
    let len = store.proposals.len();
    assert(store.proposal_count == len);
    let idx = (proposal_id - 1) as usize;
    proof {
        lemma_sum_unvoted_nonneg(store.voters@, store.ballots@, proposal_id);
        assert(store.proposal_ok(idx as int));
        assert(store.proposals@[idx as int].wf());
    }
    let status = store.proposals[idx].current_status(&env.block);
    if !matches!(status, Status::Passed) {
        return Err(ContractError::OpenProposal);
    }
    if store.proposals[idx].expires.is_expired(&env.block) {
        return Err(ContractError::ExpiredProposal);
    }

    let ghost os = *store;
    let mut prop = store.proposals.remove(idx);
    let msgs_out = clone_strings(&prop.msgs);
    prop.status = Status::Executed;
    store.proposals.insert(idx, prop);

    proof {
        let p = os.proposals@[idx as int];
        assert(store.proposals@ =~= os.proposals@.update(
            idx as int, (Proposal { status: Status::Executed, ..p })));
        assert forall|i: int| 0 <= i < store.proposals@.len()
            implies store.proposal_ok(i) by {
            assert(os.proposal_ok(i));
            if i != idx as int {
                assert(store.proposals@[i] == os.proposals@[i]);
            }
        }
        assert(store.wf());
    }
    Ok(msgs_out)
}

/// Why a closure fails, if it does: the proposal must exist, the caller must
/// be its proposer, its evaluated status must be Passed, and it must already
/// be expired.
pub open spec fn spec_close_err(
    s: MultisigStore, env: Env, sender: Seq<char>, pid: u64,
) -> Option<ContractError> {
    if !(1 <= pid <= s.proposal_count) {
        Some(ContractError::NotFound)
    } else if s.proposals@[pid - 1].proposer@ != sender {
        Some(ContractError::Unauthorized)
    } else if spec_current_status(s.proposals@[pid - 1], env.block) != Status::Passed {
        Some(ContractError::PassedProposal)
    } else if !spec_is_expired(s.proposals@[pid - 1].expires, env.block) {
        Some(ContractError::UnexpiredProposal)
    } else {
        None
    }
}

/// Everything a closure does: on success the status becomes Rejected
/// (terminal), retiring a passed proposal that expired unexecuted.
pub open spec fn close_post(
    old_s: MultisigStore,
    new_s: MultisigStore,
    env: Env,
    sender: Seq<char>,
    pid: u64,
    r: Result<(), ContractError>,
) -> bool {
    match spec_close_err(old_s, env, sender, pid) {
        Some(e) => r == Result::<(), ContractError>::Err(e)
            && store_unchanged(old_s, new_s),
        None => {
            let p = old_s.proposals@[pid - 1];
            &&& r == Result::<(), ContractError>::Ok(())
            &&& new_s.proposals@ =~= old_s.proposals@.update(
                pid - 1, (Proposal { status: Status::Rejected, ..p }))
            &&& new_s.ballots@ == old_s.ballots@
            &&& new_s.voters@ == old_s.voters@
            &&& new_s.config == old_s.config
            &&& new_s.proposal_count == old_s.proposal_count
        }
    }
}

/// Closes a passed proposal that expired before anyone executed it. Only the
/// original proposer may close; the proposal is then Rejected for good and
/// can no longer be executed.
pub fn close_proposal(
    store: &mut MultisigStore,
    env: &Env,
    sender: &String,
    proposal_id: u64,
) -> (r: Result<(), ContractError>)
    requires
        old(store).wf(),
    ensures
        final(store).wf(),
        close_post(*old(store), *final(store), *env, sender@, proposal_id, r),
{
    if proposal_id < 1 || proposal_id > store.proposal_count {
        return Err(ContractError::NotFound);
    }
    let len = store.proposals.len();
    assert(store.proposal_count == len);
    let idx = (proposal_id - 1) as usize;
    if !(store.proposals[idx].proposer == *sender) {
        return Err(ContractError::Unauthorized);
    }
    proof {
        lemma_sum_unvoted_nonneg(store.voters@, store.ballots@, proposal_id);
        assert(store.proposal_ok(idx as int));
        assert(store.proposals@[idx as int].wf());
    }
    let status = store.proposals[idx].current_status(&env.block);
    if !matches!(status, Status::Passed) {
        return Err(ContractError::PassedProposal);
    }
    if !store.proposals[idx].expires.is_expired(&env.block) {
        return Err(ContractError::UnexpiredProposal);
    }

    let ghost os = *store;
    let mut prop = store.proposals.remove(idx);
    prop.status = Status::Rejected;
    store.proposals.insert(idx, prop);

    proof {
        let p = os.proposals@[idx as int];
        assert(store.proposals@ =~= os.proposals@.update(
            idx as int, (Proposal { status: Status::Rejected, ..p })));
        assert forall|i: int| 0 <= i < store.proposals@.len()
            implies store.proposal_ok(i) by {
            assert(os.proposal_ok(i));
            if i != idx as int {
                assert(store.proposals@[i] == os.proposals@[i]);
            }
        }
        assert(store.wf());
    }
    Ok(())
}

/// Why a voter removal fails, if it does: only the engine itself — through a
/// passed proposal's own downstream action — may remove a voter.
pub open spec fn spec_remove_err(env: Env, sender: Seq<char>) -> Option<ContractError> {
    if sender != env.contract_address@ {
        Some(ContractError::Unauthorized)
    } else {
        None
    }
}

/// Everything a voter removal does: on success the identity's weight entry,
/// if one exists, is gone; the frozen configuration total and every open
/// proposal's snapshot stay as they were, by design.
pub open spec fn remove_post(
    old_s: MultisigStore,
    new_s: MultisigStore,
    env: Env,
    sender: Seq<char>,
    voter: String,
    r: Result<(), ContractError>,
) -> bool {
    match spec_remove_err(env, sender) {
        Some(e) => r == Result::<(), ContractError>::Err(e)
            && store_unchanged(old_s, new_s),
        None => {
            &&& r == Result::<(), ContractError>::Ok(())
            &&& if spec_lookup_weight(old_s.voters@, voter@) is None {
                new_s.voters@ == old_s.voters@
            } else {
                exists|k: int| 0 <= k < old_s.voters@.len()
                    && (#[trigger] old_s.voters@[k]).addr@ == voter@
                    && new_s.voters@ == old_s.voters@.remove(k)
            }
            &&& spec_lookup_weight(new_s.voters@, voter@) is None
            &&& new_s.proposals@ == old_s.proposals@
            &&& new_s.ballots@ == old_s.ballots@
            &&& new_s.config == old_s.config
            &&& new_s.proposal_count == old_s.proposal_count
        }
    }
}

/// Deletes a voter's weight entry. A privileged self-call: the sender must
/// be the engine's own address. The configuration's total weight and the
/// snapshots frozen into proposals are deliberately left untouched.
pub fn remove_voter(
    store: &mut MultisigStore,
    env: &Env,
    sender: &String,
    voter: &String,
) -> (r: Result<(), ContractError>)
    requires
        old(store).wf(),
    ensures
        final(store).wf(),
        remove_post(*old(store), *final(store), *env, sender@, *voter, r),
{
    if !(*sender == env.contract_address) {
        return Err(ContractError::Unauthorized);
    }
    let ghost os = *store;
    match store.find_voter_index(voter) {
        None => {
            proof {
                assert(store.wf());
            }
            Ok(())
        }
        Some(k) => {
            store.voters.remove(k);
            proof {
                let vs = os.voters@;
                let vs2 = store.voters@;
                assert(vs2 == vs.remove(k as int));
                lemma_sum_weights_remove(vs, k as int);
                assert forall|x: int, y: int| 0 <= x < y < vs2.len()
                    implies (#[trigger] vs2[x]).addr@ != (#[trigger] vs2[y]).addr@ by {
                    if x < k {
                        assert(vs2[x] == vs[x]);
                    } else {
                        assert(vs2[x] == vs[x + 1]);
                    }
                    if y < k {
                        assert(vs2[y] == vs[y]);
                    } else {
                        assert(vs2[y] == vs[y + 1]);
                    }
                }
                assert forall|i: int| 0 <= i < store.proposals@.len()
                    implies store.proposal_ok(i) by {
                    let pid = (i + 1) as u64;
                    assert(os.proposal_ok(i));
                    lemma_sum_unvoted_remove(vs, os.ballots@, pid, k as int);
                }
                assert(store.wf());
                if spec_lookup_weight(vs2, voter@) is Some {
                    let k2 = lemma_lookup_some_index(vs2, voter@);
                    if k2 < k {
                        assert(vs2[k2] == vs[k2]);
                    } else {
                        assert(vs2[k2] == vs[k2 + 1]);
                    }
                    assert(false);
                }
            }
            Ok(())
        }
    }
}

/// Routes an incoming action to the matching lifecycle operation and shapes
/// its payload into a `Response`: the new id for a creation, the downstream
/// actions to forward for an execution.
pub fn execute(
    store: &mut MultisigStore,
    env: &Env,
    sender: String,
    msg: ExecuteMsg,
) -> (r: Result<Response, ContractError>)
    requires
        old(store).wf(),
        match msg {
            ExecuteMsg::CreateProposal { .. } =>
                old(store).proposal_count < u64::MAX
                && spec_after_fits(old(store).config.max_voting_period, env.block),
            _ => true,
        },
    ensures
        final(store).wf(),
        match msg {
            ExecuteMsg::CreateProposal { title, description, msgs, deposit_info, expires } => {
                &&& (r is Ok ==> r->Ok_0.data is Some && r->Ok_0.messages@.len() == 0
                    && create_post(*old(store), *final(store), *env, sender, title,
                        description, deposit_info, expires, msgs,
                        Result::<u64, ContractError>::Ok(r->Ok_0.data->Some_0)))
                &&& (r is Err ==> create_post(*old(store), *final(store), *env, sender,
                        title, description, deposit_info, expires, msgs,
                        Result::<u64, ContractError>::Err(r->Err_0)))
            }
            ExecuteMsg::Vote { proposal_id, vote } => {
                &&& (r is Ok ==> r->Ok_0.data is None && r->Ok_0.messages@.len() == 0
                    && vote_post(*old(store), *final(store), *env, sender, proposal_id,
                        vote, Result::<(), ContractError>::Ok(())))
                &&& (r is Err ==> vote_post(*old(store), *final(store), *env, sender,
                        proposal_id, vote, Result::<(), ContractError>::Err(r->Err_0)))
            }
            ExecuteMsg::ExecuteProposal { proposal_id } => {
                &&& (r is Ok ==> r->Ok_0.data is None
                    && execute_post(*old(store), *final(store), *env, proposal_id,
                        Result::<Vec<String>, ContractError>::Ok(r->Ok_0.messages)))
                &&& (r is Err ==> execute_post(*old(store), *final(store), *env,
                        proposal_id,
                        Result::<Vec<String>, ContractError>::Err(r->Err_0)))
            }
            ExecuteMsg::CloseProposal { proposal_id } => {
                &&& (r is Ok ==> r->Ok_0.data is None && r->Ok_0.messages@.len() == 0
                    && close_post(*old(store), *final(store), *env, sender@, proposal_id,
                        Result::<(), ContractError>::Ok(())))
                &&& (r is Err ==> close_post(*old(store), *final(store), *env, sender@,
                        proposal_id, Result::<(), ContractError>::Err(r->Err_0)))
            }
            ExecuteMsg::RemoveVoter { voter } => {
                &&& (r is Ok ==> r->Ok_0.data is None && r->Ok_0.messages@.len() == 0
                    && remove_post(*old(store), *final(store), *env, sender@, voter,
                        Result::<(), ContractError>::Ok(())))
                &&& (r is Err ==> remove_post(*old(store), *final(store), *env, sender@,
                        voter, Result::<(), ContractError>::Err(r->Err_0)))
            }
        },
{
    match msg {
        ExecuteMsg::CreateProposal { title, description, msgs, deposit_info, expires } => {
            match create_proposal(
                store, env, sender, title, description, deposit_info, expires, msgs) {
                Ok(id) => Ok(Response { data: Some(id), messages: Vec::new() }),
                Err(e) => Err(e),
            }
        }
        ExecuteMsg::Vote { proposal_id, vote } => {
            match execute_vote(store, env, sender, proposal_id, vote) {
                Ok(()) => Ok(Response { data: None, messages: Vec::new() }),
                Err(e) => Err(e),
            }
        }
        ExecuteMsg::ExecuteProposal { proposal_id } => {
            match execute_proposal(store, env, proposal_id) {
                Ok(msgs_out) => Ok(Response { data: None, messages: msgs_out }),
                Err(e) => Err(e),
            }
        }
        ExecuteMsg::CloseProposal { proposal_id } => {
            match close_proposal(store, env, &sender, proposal_id) {
                Ok(()) => Ok(Response { data: None, messages: Vec::new() }),
                Err(e) => Err(e),
            }
        }
        ExecuteMsg::RemoveVoter { voter } => {
            match remove_voter(store, env, &sender, &voter) {
                Ok(()) => Ok(Response { data: None, messages: Vec::new() }),
                Err(e) => Err(e),
            }
        }
    }
}

/// Answers a read-only request. Reading never mutates the store; the
/// expiration overlay is left to the caller, who holds the clock.
pub fn query(store: &MultisigStore, msg: QueryMsg) -> (r: Result<QueryResponse, ContractError>)
    requires
        store.wf(),
    ensures
        match msg {
            QueryMsg::GetProposal { proposal_id } => {
                if 1 <= proposal_id <= store.proposal_count {
                    &&& r is Ok
                    &&& r->Ok_0 matches QueryResponse::Proposal(p)
                        && proposal_equiv(p, store.proposals@[proposal_id - 1])
                } else {
                    r == Result::<QueryResponse, ContractError>::Err(ContractError::NotFound)
                }
            }
            QueryMsg::GetCurrentId {} => {
                r == Result::<QueryResponse, ContractError>::Ok(
                    QueryResponse::CurrentId(store.proposal_count))
            }
        },
{
    match msg {
        QueryMsg::GetProposal { proposal_id } => {
            if proposal_id >= 1 && proposal_id <= store.proposal_count {
                let len = store.proposals.len();
                assert(store.proposal_count == len);
                let idx = (proposal_id - 1) as usize;
                Ok(QueryResponse::Proposal(clone_proposal(&store.proposals[idx])))
            } else {
                Err(ContractError::NotFound)
            }
        }
        QueryMsg::GetCurrentId {} => Ok(QueryResponse::CurrentId(store.proposal_count)),
    }
}

} // verus!
