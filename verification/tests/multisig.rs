use cw_multisig::contract::{
    close_proposal, execute, execute_proposal, execute_vote, instantiate, query,
};
use cw_multisig::error::ContractError;
use cw_multisig::helpers::{qualified_to_propose, qualified_to_vote, MultisigContract};
use cw_multisig::msg::{Env, ExecuteMsg, InstantiateMsg, QueryMsg, QueryResponse};
use cw_multisig::proposal::{
    votes_needed, BlockInfo, Decimal, Duration, Expiration, Status, Threshold, Vote, Votes,
};
use cw_multisig::state::{next_id, MultisigStore, Voter};

const START_HEIGHT: u64 = 12_345;
const START_TIME: u64 = 1_571_797_419_879_305_533;
const NANOS: u64 = 1_000_000_000;

fn mock_env() -> Env {
    Env {
        block: BlockInfo {
            height: START_HEIGHT,
            time_nanos: START_TIME,
        },
        contract_address: "contract0".to_string(),
    }
}

fn six_voters() -> Vec<Voter> {
    vec![
        Voter { addr: "voter1".to_string(), weight: 1 },
        Voter { addr: "voter2".to_string(), weight: 2 },
        Voter { addr: "voter3".to_string(), weight: 3 },
        Voter { addr: "voter4".to_string(), weight: 4 },
        Voter { addr: "voter5".to_string(), weight: 5 },
        Voter { addr: "voter6".to_string(), weight: 6 },
    ]
}

fn proper_instantiate() -> (MultisigStore, MultisigContract) {
    let msg = InstantiateMsg {
        voters: six_voters(),
        threshold: Threshold::AbsolutePercentage { percentage: Decimal::percent(51) },
        max_voting_period: Duration::Time(60 * 60 * 24), // 1 day
    };
    let store = instantiate(msg).unwrap();
    let contract = MultisigContract("contract0".to_string());
    (store, contract)
}

fn propose(
    store: &mut MultisigStore,
    env: &Env,
    proposer: &str,
    title: &str,
    description: &str,
    msgs: Vec<String>,
) -> u64 {
    let msg = ExecuteMsg::CreateProposal {
        title: title.to_string(),
        description: description.to_string(),
        msgs,
        deposit_info: None,
        expires: None,
    };
    execute(store, env, proposer.to_string(), msg).unwrap();
    match query(store, QueryMsg::GetCurrentId {}).unwrap() {
        QueryResponse::CurrentId(id) => id,
        _ => panic!("unexpected query response"),
    }
}

fn vote(
    store: &mut MultisigStore,
    env: &Env,
    sender: &str,
    proposal_id: u64,
    vote: Vote,
) -> Result<(), ContractError> {
    let msg = ExecuteMsg::Vote { proposal_id, vote };
    execute(store, env, sender.to_string(), msg).map(|_| ())
}

fn query_proposal(
    store: &MultisigStore,
    proposal_id: u64,
) -> cw_multisig::proposal::Proposal {
    match query(store, QueryMsg::GetProposal { proposal_id }).unwrap() {
        QueryResponse::Proposal(p) => p,
        _ => panic!("unexpected query response"),
    }
}

#[test]
fn proposal() {
    let (mut store, multisig_contract) = proper_instantiate();
    let env = mock_env();
    let msg = format!("execute:{}:remove-voter:voter2", multisig_contract.addr());

    // create proposal
    let proposal_id = propose(&mut store, &env, "voter1", "test", "test", vec![msg]);

    // execute vote
    vote(&mut store, &env, "voter2", proposal_id, Vote::Yes).unwrap();
    vote(&mut store, &env, "voter3", proposal_id, Vote::No).unwrap();
    vote(&mut store, &env, "voter6", proposal_id, Vote::Yes).unwrap();
    vote(&mut store, &env, "voter5", proposal_id, Vote::Yes).unwrap();

    let proposal = query_proposal(&store, proposal_id);
    println!(" -- proposal: {:?}", proposal);

    execute(
        &mut store,
        &env,
        "ADMIN".to_string(),
        ExecuteMsg::ExecuteProposal { proposal_id },
    )
    .unwrap();
}

#[test]
fn scenario_a_weighted_majority_passes_and_executes() {
    // 6 voters with weights 1..6, total 21, threshold 51% absolute.
    // Implicit yes = 1 from the proposer, then no-votes of 2 and 3, then
    // yes-votes of 6 and 5: yes = 12 >= ceil(21 * 0.51) = 11, so Passed.
    let (mut store, _) = proper_instantiate();
    let env = mock_env();
    let action = "downstream-action".to_string();
    let pid = propose(&mut store, &env, "voter1", "test", "test", vec![action.clone()]);
    assert_eq!(pid, 1);

    vote(&mut store, &env, "voter2", pid, Vote::No).unwrap();
    vote(&mut store, &env, "voter3", pid, Vote::No).unwrap();
    let open = query_proposal(&store, pid);
    assert_eq!(open.status, Status::Open);
    vote(&mut store, &env, "voter6", pid, Vote::Yes).unwrap();
    vote(&mut store, &env, "voter5", pid, Vote::Yes).unwrap();

    let passed = query_proposal(&store, pid);
    assert_eq!(passed.votes.yes, 12);
    assert_eq!(passed.votes.no, 5);
    assert_eq!(passed.status, Status::Passed);

    let resp = execute(
        &mut store,
        &env,
        "anyone".to_string(),
        ExecuteMsg::ExecuteProposal { proposal_id: pid },
    )
    .unwrap();
    assert_eq!(resp.messages, vec![action]);
    assert_eq!(query_proposal(&store, pid).status, Status::Executed);
}

#[test]
fn scenario_b_non_voter_cannot_vote() {
    let (mut store, _) = proper_instantiate();
    let env = mock_env();
    let pid = propose(&mut store, &env, "voter1", "test", "test", vec![]);
    let err = execute_vote(&mut store, &env, "voter7".to_string(), pid, Vote::Yes)
        .unwrap_err();
    assert_eq!(err, ContractError::Unauthorized);
    let err = qualified_to_vote(&store, &"voter7".to_string(), pid).unwrap_err();
    assert_eq!(err, ContractError::Unauthorized);
}

#[test]
fn scenario_c_double_vote_rejected() {
    let (mut store, _) = proper_instantiate();
    let env = mock_env();
    let pid = propose(&mut store, &env, "voter1", "test", "test", vec![]);
    vote(&mut store, &env, "voter2", pid, Vote::Yes).unwrap();
    let err = vote(&mut store, &env, "voter2", pid, Vote::Yes).unwrap_err();
    assert_eq!(err, ContractError::VotedVoter);
    // the proposer's implicit ballot counts as a vote too
    let err = vote(&mut store, &env, "voter1", pid, Vote::No).unwrap_err();
    assert_eq!(err, ContractError::VotedVoter);
}

#[test]
fn scenario_d_vote_after_expiration_rejected() {
    let (mut store, _) = proper_instantiate();
    let env = mock_env();
    let msg = ExecuteMsg::CreateProposal {
        title: "t".to_string(),
        description: "d".to_string(),
        msgs: vec![],
        deposit_info: None,
        expires: Some(Expiration::AtTime(START_TIME + NANOS)), // 1 second
    };
    execute(&mut store, &env, "voter1".to_string(), msg).unwrap();
    let pid: u64 = 1;

    let mut late = mock_env();
    late.block.time_nanos = START_TIME + 2 * NANOS;
    // the tally would pass with voter6 and voter5, but the clock has moved on
    let err = vote(&mut store, &late, "voter6", pid, Vote::Yes).unwrap_err();
    assert_eq!(err, ContractError::Expired);
    let err = vote(&mut store, &late, "voter5", pid, Vote::Yes).unwrap_err();
    assert_eq!(err, ContractError::Expired);
    assert_eq!(query_proposal(&store, pid).votes.yes, 1);
}

#[test]
fn scenario_e_close_only_after_expiration() {
    let (mut store, _) = proper_instantiate();
    let env = mock_env();
    let pid = propose(&mut store, &env, "voter1", "test", "test", vec![]);
    vote(&mut store, &env, "voter6", pid, Vote::Yes).unwrap();
    vote(&mut store, &env, "voter5", pid, Vote::Yes).unwrap();
    assert_eq!(query_proposal(&store, pid).status, Status::Passed);

    // before expiration the proposer may not close
    let err = close_proposal(&mut store, &env, &"voter1".to_string(), pid).unwrap_err();
    assert_eq!(err, ContractError::UnexpiredProposal);

    // after expiration the close succeeds and retires the proposal
    let mut late = mock_env();
    late.block.time_nanos = START_TIME + 60 * 60 * 24 * NANOS;
    close_proposal(&mut store, &late, &"voter1".to_string(), pid).unwrap();
    assert_eq!(query_proposal(&store, pid).status, Status::Rejected);

    // a retired proposal cannot be executed
    let err = execute_proposal(&mut store, &late, pid).unwrap_err();
    assert_eq!(err, ContractError::OpenProposal);
    let err = execute_proposal(&mut store, &env, pid).unwrap_err();
    assert_eq!(err, ContractError::OpenProposal);
}

#[test]
fn close_requires_proposer() {
    let (mut store, _) = proper_instantiate();
    let env = mock_env();
    let pid = propose(&mut store, &env, "voter1", "test", "test", vec![]);
    let err = close_proposal(&mut store, &env, &"voter2".to_string(), pid).unwrap_err();
    assert_eq!(err, ContractError::Unauthorized);
}

#[test]
fn close_requires_passed_status() {
    let (mut store, _) = proper_instantiate();
    let env = mock_env();
    let pid = propose(&mut store, &env, "voter1", "test", "test", vec![]);
    let mut late = mock_env();
    late.block.time_nanos = START_TIME + 60 * 60 * 24 * NANOS;
    // expired but only 1 yes-weight: evaluated status is Rejected, not Passed
    let err = close_proposal(&mut store, &late, &"voter1".to_string(), pid).unwrap_err();
    assert_eq!(err, ContractError::PassedProposal);
}

#[test]
fn vote_on_missing_proposal_not_found() {
    let (mut store, _) = proper_instantiate();
    let env = mock_env();
    let err = vote(&mut store, &env, "voter2", 99, Vote::Yes).unwrap_err();
    assert_eq!(err, ContractError::NotFound);
    let err = execute_proposal(&mut store, &env, 99).unwrap_err();
    assert_eq!(err, ContractError::NotFound);
    let err = close_proposal(&mut store, &env, &"voter1".to_string(), 99).unwrap_err();
    assert_eq!(err, ContractError::NotFound);
    let err = query(&store, QueryMsg::GetProposal { proposal_id: 99 }).unwrap_err();
    assert_eq!(err, ContractError::NotFound);
}

#[test]
fn vote_on_executed_proposal_rejected() {
    // Terminality: once Executed, a voter who never voted is still turned
    // away, and the tally no longer moves.
    let (mut store, _) = proper_instantiate();
    let env = mock_env();
    let pid = propose(&mut store, &env, "voter1", "test", "test", vec![]);
    vote(&mut store, &env, "voter6", pid, Vote::Yes).unwrap();
    vote(&mut store, &env, "voter5", pid, Vote::Yes).unwrap();
    execute_proposal(&mut store, &env, pid).unwrap();
    let err = vote(&mut store, &env, "voter4", pid, Vote::Yes).unwrap_err();
    assert_eq!(err, ContractError::Expired);
    let after = query_proposal(&store, pid);
    assert_eq!(after.votes.yes, 12);
    assert_eq!(after.status, Status::Executed);
}

#[test]
fn open_proposal_cannot_execute() {
    let (mut store, _) = proper_instantiate();
    let env = mock_env();
    let pid = propose(&mut store, &env, "voter1", "test", "test", vec![]);
    let err = execute_proposal(&mut store, &env, pid).unwrap_err();
    assert_eq!(err, ContractError::OpenProposal);
}

#[test]
fn passed_but_expired_cannot_execute() {
    let (mut store, _) = proper_instantiate();
    let env = mock_env();
    let pid = propose(&mut store, &env, "voter1", "test", "test", vec![]);
    vote(&mut store, &env, "voter6", pid, Vote::Yes).unwrap();
    vote(&mut store, &env, "voter5", pid, Vote::Yes).unwrap();
    let mut late = mock_env();
    late.block.time_nanos = START_TIME + 60 * 60 * 24 * NANOS;
    let err = execute_proposal(&mut store, &late, pid).unwrap_err();
    assert_eq!(err, ContractError::ExpiredProposal);
}

#[test]
fn remove_voter_requires_self_call() {
    let (mut store, _) = proper_instantiate();
    let env = mock_env();
    let err = execute(
        &mut store,
        &env,
        "voter1".to_string(),
        ExecuteMsg::RemoveVoter { voter: "voter2".to_string() },
    )
    .unwrap_err();
    assert_eq!(err, ContractError::Unauthorized);

    // the contract's own address may remove; the voter then loses its rights
    execute(
        &mut store,
        &env,
        "contract0".to_string(),
        ExecuteMsg::RemoveVoter { voter: "voter2".to_string() },
    )
    .unwrap();
    assert!(!qualified_to_propose(&store, &"voter2".to_string()));
    let pid = propose(&mut store, &env, "voter1", "test", "test", vec![]);
    let err = vote(&mut store, &env, "voter2", pid, Vote::Yes).unwrap_err();
    assert_eq!(err, ContractError::Unauthorized);
}

#[test]
fn removed_voter_keeps_frozen_totals() {
    // Removing a voter does not rebalance the frozen total-weight snapshot
    // of the configuration or of proposals already created.
    let (mut store, _) = proper_instantiate();
    let env = mock_env();
    let pid = propose(&mut store, &env, "voter1", "test", "test", vec![]);
    execute(
        &mut store,
        &env,
        "contract0".to_string(),
        ExecuteMsg::RemoveVoter { voter: "voter6".to_string() },
    )
    .unwrap();
    assert_eq!(query_proposal(&store, pid).total_weight, 21);
    let pid2 = propose(&mut store, &env, "voter2", "test2", "test2", vec![]);
    assert_eq!(query_proposal(&store, pid2).total_weight, 21);
}

#[test]
fn instantiate_rejects_malformed_threshold() {
    let too_low = InstantiateMsg {
        voters: six_voters(),
        threshold: Threshold::AbsolutePercentage { percentage: Decimal::percent(10) },
        max_voting_period: Duration::Time(60),
    };
    assert_eq!(instantiate(too_low).unwrap_err(), ContractError::InvalidConfig);

    let too_high = InstantiateMsg {
        voters: six_voters(),
        threshold: Threshold::AbsolutePercentage { percentage: Decimal::percent(101) },
        max_voting_period: Duration::Time(60),
    };
    assert_eq!(instantiate(too_high).unwrap_err(), ContractError::InvalidConfig);

    let unreachable_count = InstantiateMsg {
        voters: six_voters(),
        threshold: Threshold::AbsoluteCount { weight: 22 },
        max_voting_period: Duration::Time(60),
    };
    assert_eq!(instantiate(unreachable_count).unwrap_err(), ContractError::InvalidConfig);

    let zero_count = InstantiateMsg {
        voters: six_voters(),
        threshold: Threshold::AbsoluteCount { weight: 0 },
        max_voting_period: Duration::Time(60),
    };
    assert_eq!(instantiate(zero_count).unwrap_err(), ContractError::InvalidConfig);
}

#[test]
fn instantiate_last_duplicate_wins() {
    // A later entry for the same identity overwrites the earlier one, while
    // the frozen total still counts every listed weight.
    let msg = InstantiateMsg {
        voters: vec![
            Voter { addr: "voter1".to_string(), weight: 1 },
            Voter { addr: "voter1".to_string(), weight: 5 },
        ],
        threshold: Threshold::AbsoluteCount { weight: 5 },
        max_voting_period: Duration::Time(60),
    };
    let store = instantiate(msg).unwrap();
    assert_eq!(store.config.total_weight, 6);
    let w = qualified_to_vote(&store, &"voter1".to_string(), 1).unwrap();
    assert!(w);
    assert_eq!(store.voters.len(), 1);
    assert_eq!(store.voters[0].weight, 5);
}

#[test]
fn votes_needed_rounds_up() {
    // round up right below and right above a whole vote
    assert_eq!(votes_needed(3, Decimal::permille(333)), 1);
    assert_eq!(votes_needed(3, Decimal::permille(334)), 2);
    // the scenario threshold: ceil(21 * 0.51) = 11
    assert_eq!(votes_needed(21, Decimal::percent(51)), 11);
    assert_eq!(votes_needed(0, Decimal::percent(51)), 0);
    assert_eq!(votes_needed(21, Decimal::percent(100)), 21);
}

#[test]
fn tally_counts_by_choice() {
    let mut votes = Votes::yes(5);
    votes.add_vote(Vote::No, 10);
    votes.add_vote(Vote::Veto, 20);
    votes.add_vote(Vote::Yes, 30);
    votes.add_vote(Vote::Abstain, 40);
    assert_eq!(votes.total(), 105);
    assert_eq!(votes.yes, 35);
    assert_eq!(votes.no, 10);
    assert_eq!(votes.veto, 20);
    assert_eq!(votes.abstain, 40);
}

#[test]
fn absolute_count_threshold_passes_at_count() {
    let msg = InstantiateMsg {
        voters: six_voters(),
        threshold: Threshold::AbsoluteCount { weight: 11 },
        max_voting_period: Duration::Height(100),
    };
    let mut store = instantiate(msg).unwrap();
    let env = mock_env();
    let pid = propose(&mut store, &env, "voter5", "t", "d", vec![]);
    assert_eq!(query_proposal(&store, pid).status, Status::Open);
    vote(&mut store, &env, "voter6", pid, Vote::Yes).unwrap();
    assert_eq!(query_proposal(&store, pid).votes.yes, 11);
    assert_eq!(query_proposal(&store, pid).status, Status::Passed);
}

#[test]
fn absolute_count_threshold_rejects_when_unreachable() {
    let msg = InstantiateMsg {
        voters: six_voters(),
        threshold: Threshold::AbsoluteCount { weight: 11 },
        max_voting_period: Duration::Height(100),
    };
    let mut store = instantiate(msg).unwrap();
    let env = mock_env();
    let pid = propose(&mut store, &env, "voter1", "t", "d", vec![]);
    // no-weight beyond total - needed = 21 - 11 = 10 makes passing impossible
    vote(&mut store, &env, "voter6", pid, Vote::No).unwrap();
    vote(&mut store, &env, "voter5", pid, Vote::No).unwrap();
    assert_eq!(query_proposal(&store, pid).status, Status::Rejected);
}

#[test]
fn height_based_expiration() {
    let msg = InstantiateMsg {
        voters: six_voters(),
        threshold: Threshold::AbsolutePercentage { percentage: Decimal::percent(51) },
        max_voting_period: Duration::Height(10),
    };
    let mut store = instantiate(msg).unwrap();
    let env = mock_env();
    let pid = propose(&mut store, &env, "voter1", "t", "d", vec![]);
    assert_eq!(query_proposal(&store, pid).expires, Expiration::AtHeight(START_HEIGHT + 10));
    let mut later = mock_env();
    later.block.height = START_HEIGHT + 10;
    let err = vote(&mut store, &later, "voter2", pid, Vote::Yes).unwrap_err();
    assert_eq!(err, ContractError::Expired);
}

#[test]
fn current_id_tracks_allocation() {
    let (mut store, _) = proper_instantiate();
    let env = mock_env();
    match query(&store, QueryMsg::GetCurrentId {}).unwrap() {
        QueryResponse::CurrentId(id) => assert_eq!(id, 0),
        _ => panic!("unexpected query response"),
    }
    let first = propose(&mut store, &env, "voter1", "a", "a", vec![]);
    let second = propose(&mut store, &env, "voter2", "b", "b", vec![]);
    assert_eq!(first, 1);
    assert_eq!(second, 2);
    assert_eq!(next_id(&mut store), 3);
}

#[test]
fn proposer_implicit_ballot_recorded() {
    let (mut store, _) = proper_instantiate();
    let env = mock_env();
    let pid = propose(&mut store, &env, "voter3", "t", "d", vec![]);
    let p = query_proposal(&store, pid);
    assert_eq!(p.votes.yes, 3);
    assert_eq!(p.proposer, "voter3".to_string());
    assert_eq!(p.threshold, Threshold::AbsolutePercentage { percentage: Decimal::percent(51) });
    assert_eq!(p.total_weight, 21);
    assert_eq!(p.start_height, START_HEIGHT);
    assert_eq!(p.expires, Expiration::AtTime(START_TIME + 60 * 60 * 24 * NANOS));
}

#[test]
fn threshold_quorum_requires_participation() {
    // threshold 60% of opinions, quorum 50% of the total weight of 21
    let msg = InstantiateMsg {
        voters: six_voters(),
        threshold: Threshold::ThresholdQuorum {
            threshold: Decimal::percent(60),
            quorum: Decimal::percent(50),
        },
        max_voting_period: Duration::Time(60 * 60 * 24),
    };
    let mut store = instantiate(msg).unwrap();
    let env = mock_env();
    let pid = propose(&mut store, &env, "voter6", "t", "d", vec![]);
    // yes = 6: under quorum of ceil(21 * 0.5) = 11 participants
    assert_eq!(query_proposal(&store, pid).status, Status::Open);
    vote(&mut store, &env, "voter5", pid, Vote::Yes).unwrap();
    // total = 11 meets quorum; yes = 11 >= ceil(0.6 * 21) = 13? no — before
    // expiration the threshold counts all non-abstaining weight: 11 < 13
    assert_eq!(query_proposal(&store, pid).status, Status::Open);
    vote(&mut store, &env, "voter4", pid, Vote::Yes).unwrap();
    // yes = 15 >= ceil(0.6 * 21) = 13: passed
    assert_eq!(query_proposal(&store, pid).status, Status::Passed);
}

#[test]
fn multisig_contract_addr_roundtrip() {
    let c = MultisigContract("contract0".to_string());
    assert_eq!(c.addr(), "contract0".to_string());
}

#[test]
fn error_messages() {
    assert_eq!(ContractError::NotFound.message(), "Not found");
    assert_eq!(ContractError::Unauthorized.message(), "Unauthorized");
    assert_eq!(ContractError::VotedVoter.message(), "Voter has already voted");
    assert_eq!(ContractError::Expired.message(), "Expired");
    assert_eq!(ContractError::UnexpiredProposal.message(), "Proposal is not expired");
}
