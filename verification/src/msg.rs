//! The request and response shapes the dispatch layer exchanges with the
//! engine. These are plain values; the wire format around them is the host's
//! business.

use vstd::prelude::*;
use crate::proposal::{BlockInfo, DepositInfo, Duration, Expiration, Proposal, Threshold, Vote};
use crate::state::Voter;

verus! {

/// The initialization request: the voter list, the threshold policy, and the
/// default voting period.
#[derive(Debug)]
pub struct InstantiateMsg {
    pub voters: Vec<Voter>,
    pub threshold: Threshold,
    pub max_voting_period: Duration,
}

/// One incoming action for the engine.
#[derive(Debug)]
pub enum ExecuteMsg {
    /// Creates a new proposal.
    CreateProposal {
        title: String,
        description: String,
        msgs: Vec<String>,
        deposit_info: Option<DepositInfo>,
        expires: Option<Expiration>,
    },
    /// Casts a vote on a proposal.
    Vote { proposal_id: u64, vote: Vote },
    /// Executes a passed proposal.
    ExecuteProposal { proposal_id: u64 },
    /// Closes a passed-but-expired proposal.
    CloseProposal { proposal_id: u64 },
    /// Deletes a voter's weight entry; only the contract itself may call.
    RemoveVoter { voter: String },
}

/// A read-only request.
#[derive(Debug)]
pub enum QueryMsg {
    /// Returns the full stored proposal record.
    GetProposal { proposal_id: u64 },
    /// Returns the latest allocated proposal id.
    GetCurrentId {},
}

/// The payload a successful query returns.
#[derive(Debug)]
pub enum QueryResponse {
    Proposal(Proposal),
    CurrentId(u64),
}

/// What a successful `execute` hands back to the dispatch layer: the new
/// proposal id for a creation, and the downstream actions to forward for an
/// execution.
#[derive(Debug)]
pub struct Response {
    pub data: Option<u64>,
    pub messages: Vec<String>,
}

/// The host-supplied facts about the current invocation: the block reading
/// and the engine's own address (the privileged identity for self-calls).
#[derive(Debug)]
pub struct Env {
    pub block: BlockInfo,
    pub contract_address: String,
}

} // verus!
