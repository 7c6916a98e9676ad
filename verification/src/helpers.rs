//! Authorization checks and a small handle for callers that address the
//! engine from outside.

use vstd::prelude::*;
use crate::error::ContractError;
use crate::state::{MultisigStore, spec_has_ballot, spec_is_voter, spec_lookup_weight};

verus! {

/// Whether `voter` may cast a ballot on `proposal_id`: fails with
/// `VotedVoter` when a ballot for the pair already exists, and with
/// `Unauthorized` when the identity holds no weight entry of at least 1.
/// Read-only; does not check that the proposal exists.
pub fn qualified_to_vote(
    store: &MultisigStore,
    voter: &String,
    proposal_id: u64,
) -> (r: Result<bool, ContractError>)
    ensures
        r == (if spec_has_ballot(store.ballots@, proposal_id, voter@) {
            Err::<bool, ContractError>(ContractError::VotedVoter)
        } else if spec_is_voter(store.voters@, voter@) {
            Ok::<bool, ContractError>(true)
        } else {
            Err::<bool, ContractError>(ContractError::Unauthorized)
        }),
{
    if store.has_ballot(proposal_id, voter) {
        return Err(ContractError::VotedVoter);
    }
    match store.voter_weight(voter) {
        Some(weight) => {
            if weight >= 1 {
                Ok(true)
            } else {
                Err(ContractError::Unauthorized)
            }
        }
        None => Err(ContractError::Unauthorized),
    }
}

/// Whether `voter` may create a proposal: registered with weight at least 1.
pub fn qualified_to_propose(store: &MultisigStore, voter: &String) -> (r: bool)
    ensures
        r == spec_is_voter(store.voters@, voter@),
{
    match store.voter_weight(voter) {
        Some(weight) => weight > 0,
        None => false,
    }
}

/// A handle on a deployed engine, for callers that build requests to it.
pub struct MultisigContract(pub String);

impl MultisigContract {
    /// The engine's address.
    pub fn addr(&self) -> (r: String)
        ensures
            r == self.0,
    {
        self.0.clone()
    }
}

} // verus!
