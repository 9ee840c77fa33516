//! Which address each governance entry point asks to authorize the call,
//! and at which point of its checks it asks.

use vstd::prelude::*;

use crate::governance::errors::GovernanceError;

verus! {

/// The governance entry points that ask for an authorization. The doc of
/// each variant names the argument whose authorization the call asks for.
#[derive(Clone, Copy, Debug, PartialEq, Eq, Structural)]
pub enum GovernanceEntry {
    /// `initialize`: the `admin` being set.
    Initialize,
    /// `create_proposal`: the `proposer`.
    CreateProposal,
    /// `vote`: the `voter`.
    Vote,
    /// `finalize`: the `caller`.
    Finalize,
    /// `execute`: the `admin`.
    Execute,
    /// `cancel_proposal`: the `proposer`.
    CancelProposal,
    /// `add_member`: the `admin`.
    AddMember,
    /// `remove_member`: the `admin`.
    RemoveMember,
    /// `set_voting_weight`: the `admin`.
    SetVotingWeight,
    /// `propose_upgrade`: the `admin`.
    ProposeUpgrade,
    /// `execute_upgrade`: the `executor`.
    ExecuteUpgrade,
}

/// Whether `entry` reports error `e` before it asks for the authorization:
/// `initialize` asks only once the contract is known to be uninitialized;
/// the admin-only entry points ask once the caller is known to be the admin;
/// `execute_upgrade` asks before any check; the others ask once the
/// contract is known to be initialized.
pub open spec fn refused_before_auth(entry: GovernanceEntry, e: GovernanceError) -> bool {
    match entry {
        GovernanceEntry::Initialize => true,
        GovernanceEntry::Execute
        | GovernanceEntry::AddMember
        | GovernanceEntry::RemoveMember
        | GovernanceEntry::SetVotingWeight
        | GovernanceEntry::ProposeUpgrade => e == GovernanceError::NotInitialized || e
            == GovernanceError::Unauthorized,
        GovernanceEntry::ExecuteUpgrade => false,
        _ => e == GovernanceError::NotInitialized,
    }
}

/// Whether a call of `entry` that ended with `outcome` (`None` for success)
/// asks for the authorization of the address its variant names: every
/// successful call does, and so does every call refused by a check that
/// comes after the authorization point.
pub fn asks_authorization(entry: GovernanceEntry, outcome: Option<GovernanceError>) -> (r: bool)
    ensures
        r == match outcome {
            None => true,
            Some(e) => !refused_before_auth(entry, e),
        },
{
    match outcome {
        None => true,
        Some(e) => match entry {
            GovernanceEntry::Initialize => false,
            GovernanceEntry::Execute
            | GovernanceEntry::AddMember
            | GovernanceEntry::RemoveMember
            | GovernanceEntry::SetVotingWeight
            | GovernanceEntry::ProposeUpgrade => !(e == GovernanceError::NotInitialized || e
                == GovernanceError::Unauthorized),
            GovernanceEntry::ExecuteUpgrade => true,
            _ => !(e == GovernanceError::NotInitialized),
        },
    }
}

} // verus!
