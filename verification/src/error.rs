use vstd::prelude::*;

verus! {

/// Every way an invocation of the engine can fail. A failed invocation leaves
/// the store untouched: the callers' contracts state that explicitly.
#[derive(Clone, Copy, Debug, PartialEq, Eq, Structural)]
pub enum ContractError {
    /// The referenced proposal does not exist.
    NotFound,
    /// The voter list or threshold handed to `instantiate` is malformed.
    InvalidConfig,
    /// The caller lacks the required role or weight, or a self-call was required.
    Unauthorized,
    /// The proposal's expiration instant has passed (or its status is terminal),
    /// so no further vote may be recorded.
    Expired,
    /// Closing requires the proposal's evaluated status to be `Passed`.
    PassedProposal,
    /// Executing requires the proposal's evaluated status to be `Passed`.
    OpenProposal,
    /// Closing requires the proposal to be expired.
    UnexpiredProposal,
    /// Executing requires the proposal not to be expired.
    ExpiredProposal,
    /// The caller has already cast a ballot on this proposal.
    VotedVoter,
}

impl ContractError {
    /// A short description, in place of a `Display` impl.
    pub fn message(&self) -> (r: &'static str) {
        match self {
            ContractError::NotFound => "Not found",
            ContractError::InvalidConfig => "Invalid config",
            ContractError::Unauthorized => "Unauthorized",
            ContractError::Expired => "Expired",
            ContractError::PassedProposal => "Passed proposal",
            ContractError::OpenProposal => "Proposal is not Passed",
            ContractError::UnexpiredProposal => "Proposal is not expired",
            ContractError::ExpiredProposal => "Proposal is expired",
            ContractError::VotedVoter => "Voter has already voted",
        }
    }
}

} // verus!
