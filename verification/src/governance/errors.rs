use vstd::prelude::*;

verus! {

/// Errors returned by the governance contract. Each variant has the contract
/// error code given by [`GovernanceError::code`].
#[derive(Clone, Copy, Debug, PartialEq, Eq, Structural)]
pub enum GovernanceError {
    AlreadyInitialized,
    NotInitialized,
    Unauthorized,
    ProposalNotFound,
    VotingNotActive,
    AlreadyVoted,
    NotAMember,
    QuorumNotReached,
    ProposalNotApproved,
    ProposalAlreadyExecuted,
    InvalidAmount,
    VotingPeriodExpired,
    ProposalStillActive,
    NoPendingUpgrade,
    TimelockNotExpired,
}

impl GovernanceError {
    /// The numeric contract error code of this error.
    pub open spec fn spec_code(self) -> u32 {
        match self {
            GovernanceError::AlreadyInitialized => 1,
            GovernanceError::NotInitialized => 2,
            GovernanceError::Unauthorized => 3,
            GovernanceError::ProposalNotFound => 4,
            GovernanceError::VotingNotActive => 5,
            GovernanceError::AlreadyVoted => 6,
            GovernanceError::NotAMember => 7,
            GovernanceError::QuorumNotReached => 8,
            GovernanceError::ProposalNotApproved => 9,
            GovernanceError::ProposalAlreadyExecuted => 10,
            GovernanceError::InvalidAmount => 11,
            GovernanceError::VotingPeriodExpired => 12,
            GovernanceError::ProposalStillActive => 13,
            GovernanceError::NoPendingUpgrade => 14,
            GovernanceError::TimelockNotExpired => 15,
        }
    }

    /// Returns the numeric contract error code of this error.
    pub fn code(&self) -> (r: u32)
        ensures
            r == self.spec_code(),
    {
        match self {
            GovernanceError::AlreadyInitialized => 1,
            GovernanceError::NotInitialized => 2,
            GovernanceError::Unauthorized => 3,
            GovernanceError::ProposalNotFound => 4,
            GovernanceError::VotingNotActive => 5,
            GovernanceError::AlreadyVoted => 6,
            GovernanceError::NotAMember => 7,
            GovernanceError::QuorumNotReached => 8,
            GovernanceError::ProposalNotApproved => 9,
            GovernanceError::ProposalAlreadyExecuted => 10,
            GovernanceError::InvalidAmount => 11,
            GovernanceError::VotingPeriodExpired => 12,
            GovernanceError::ProposalStillActive => 13,
            GovernanceError::NoPendingUpgrade => 14,
            GovernanceError::TimelockNotExpired => 15,
        }
    }
}

} // verus!
