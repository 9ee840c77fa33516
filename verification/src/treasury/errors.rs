use vstd::prelude::*;

verus! {

/// Errors returned by the treasury contract. Each variant has the contract
/// error code given by [`TreasuryError::code`].
#[derive(Clone, Copy, Debug, PartialEq, Eq, Structural)]
pub enum TreasuryError {
    AlreadyInitialized,
    NotInitialized,
    Unauthorized,
    InvalidThreshold,
    NotASigner,
    InvalidAmount,
    ProposalNotFound,
    ProposalNotPending,
    ProposalNotApproved,
    AlreadyApproved,
    AlreadyASigner,
    InsufficientBalance,
    ProposalExpired,
    DuplicateSigner,
    Paused,
    UpgradeProposalNotFound,
    UpgradeProposalNotPending,
    UpgradeAlreadyExecuted,
    TimelockNotExpired,
    InvalidTimelock,
    NoPendingAdminChange,
    UpgradeProposalExecuted,
}

impl TreasuryError {
    /// The numeric contract error code of this error.
    pub open spec fn spec_code(self) -> u32 {
        match self {
            TreasuryError::AlreadyInitialized => 1,
            TreasuryError::NotInitialized => 2,
            TreasuryError::Unauthorized => 3,
            TreasuryError::InvalidThreshold => 4,
            TreasuryError::NotASigner => 5,
            TreasuryError::InvalidAmount => 6,
            TreasuryError::ProposalNotFound => 7,
            TreasuryError::ProposalNotPending => 8,
            TreasuryError::ProposalNotApproved => 9,
            TreasuryError::AlreadyApproved => 10,
            TreasuryError::AlreadyASigner => 11,
            TreasuryError::InsufficientBalance => 12,
            TreasuryError::ProposalExpired => 13,
            TreasuryError::DuplicateSigner => 14,
            TreasuryError::Paused => 15,
            TreasuryError::UpgradeProposalNotFound => 16,
            TreasuryError::UpgradeProposalNotPending => 17,
            TreasuryError::UpgradeAlreadyExecuted => 18,
            TreasuryError::TimelockNotExpired => 19,
            TreasuryError::InvalidTimelock => 20,
            TreasuryError::NoPendingAdminChange => 21,
            TreasuryError::UpgradeProposalExecuted => 22,
        }
    }

    /// Returns the numeric contract error code of this error.
    pub fn code(&self) -> (r: u32)
        ensures
            r == self.spec_code(),
    {
        match self {
            TreasuryError::AlreadyInitialized => 1,
            TreasuryError::NotInitialized => 2,
            TreasuryError::Unauthorized => 3,
            TreasuryError::InvalidThreshold => 4,
            TreasuryError::NotASigner => 5,
            TreasuryError::InvalidAmount => 6,
            TreasuryError::ProposalNotFound => 7,
            TreasuryError::ProposalNotPending => 8,
            TreasuryError::ProposalNotApproved => 9,
            TreasuryError::AlreadyApproved => 10,
            TreasuryError::AlreadyASigner => 11,
            TreasuryError::InsufficientBalance => 12,
            TreasuryError::ProposalExpired => 13,
            TreasuryError::DuplicateSigner => 14,
            TreasuryError::Paused => 15,
            TreasuryError::UpgradeProposalNotFound => 16,
            TreasuryError::UpgradeProposalNotPending => 17,
            TreasuryError::UpgradeAlreadyExecuted => 18,
            TreasuryError::TimelockNotExpired => 19,
            TreasuryError::InvalidTimelock => 20,
            TreasuryError::NoPendingAdminChange => 21,
            TreasuryError::UpgradeProposalExecuted => 22,
        }
    }
}

} // verus!
