//! Which address each treasury entry point asks to authorize the call, and
//! at which point of its checks it asks.

use vstd::prelude::*;

use crate::treasury::errors::TreasuryError;

verus! {

/// The treasury entry points that ask for an authorization. The doc of each
/// variant names the argument whose authorization the call asks for.
/// `execute_admin_change` asks for none.
#[derive(Clone, Copy, Debug, PartialEq, Eq, Structural)]
pub enum TreasuryEntry {
    /// `initialize`: the `admin` being set.
    Initialize,
    /// `deposit`: the depositor `from`.
    Deposit,
    /// `create_withdrawal`: the `proposer`.
    CreateWithdrawal,
    /// `approve_withdrawal`: the approving `signer`.
    ApproveWithdrawal,
    /// `execute_withdrawal`: the `executor`.
    ExecuteWithdrawal,
    /// `add_signer`: the `admin`.
    AddSigner,
    /// `remove_signer`: the `admin`.
    RemoveSigner,
    /// `update_threshold`: the `admin`.
    UpdateThreshold,
    /// `propose_pause`: the `proposer`.
    ProposePause,
    /// `approve_pause`: the approving `signer`.
    ApprovePause,
    /// `propose_unpause`: the `proposer`.
    ProposeUnpause,
    /// `approve_unpause`: the approving `signer`.
    ApproveUnpause,
    /// `propose_upgrade`: the `proposer`.
    ProposeUpgrade,
    /// `approve_upgrade`: the approving `signer`.
    ApproveUpgrade,
    /// `execute_upgrade`: the `executor`.
    ExecuteUpgrade,
    /// `propose_admin_change`: the `admin`.
    ProposeAdminChange,
    /// `cancel_admin_change`: the `admin`.
    CancelAdminChange,
    /// `propose_signer_add`: the `admin`.
    ProposeSignerAdd,
    /// `schedule_signer_remove`: the `admin`.
    ScheduleSignerRemove,
    /// `execute_signer_change`: the `executor`.
    ExecuteSignerChange,
    /// `propose_emergency_admin_change`: the `proposer`.
    ProposeEmergencyAdminChange,
    /// `execute_emergency_admin_change`: the `executor`.
    ExecuteEmergencyAdminChange,
    /// `update_signer_change_delay`: the `admin`.
    UpdateSignerChangeDelay,
}

/// Whether `entry` reports error `e` before it asks for the authorization:
/// `initialize` and `deposit` ask only once every check has passed; the
/// withdrawal steps ask once the treasury is known to be initialized and
/// unpaused; the admin-only entry points ask once the caller is known to be
/// the admin of an initialized treasury; the others ask once the treasury is
/// known to be initialized.
pub open spec fn refused_before_auth(entry: TreasuryEntry, e: TreasuryError) -> bool {
    match entry {
        TreasuryEntry::Initialize | TreasuryEntry::Deposit => true,
        TreasuryEntry::CreateWithdrawal
        | TreasuryEntry::ApproveWithdrawal
        | TreasuryEntry::ExecuteWithdrawal => e == TreasuryError::NotInitialized || e
            == TreasuryError::Paused,
        TreasuryEntry::AddSigner
        | TreasuryEntry::RemoveSigner
        | TreasuryEntry::UpdateThreshold
        | TreasuryEntry::ProposeAdminChange
        | TreasuryEntry::CancelAdminChange
        | TreasuryEntry::ProposeSignerAdd
        | TreasuryEntry::ScheduleSignerRemove
        | TreasuryEntry::UpdateSignerChangeDelay => e == TreasuryError::NotInitialized || e
            == TreasuryError::Unauthorized,
        _ => e == TreasuryError::NotInitialized,
    }
}

/// Whether a call of `entry` that ended with `outcome` (`None` for success)
/// asks for the authorization of the address its variant names: every
/// successful call does, and so does every call refused by a check that
/// comes after the authorization point.
pub fn asks_authorization(entry: TreasuryEntry, outcome: Option<TreasuryError>) -> (r: bool)
    ensures
        r == match outcome {
            None => true,
            Some(e) => !refused_before_auth(entry, e),
        },
{
    match outcome {
        None => true,
        Some(e) => match entry {
            TreasuryEntry::Initialize | TreasuryEntry::Deposit => false,
            TreasuryEntry::CreateWithdrawal
            | TreasuryEntry::ApproveWithdrawal
            | TreasuryEntry::ExecuteWithdrawal => !(e == TreasuryError::NotInitialized || e
                == TreasuryError::Paused),
            TreasuryEntry::AddSigner
            | TreasuryEntry::RemoveSigner
            | TreasuryEntry::UpdateThreshold
            | TreasuryEntry::ProposeAdminChange
            | TreasuryEntry::CancelAdminChange
            | TreasuryEntry::ProposeSignerAdd
            | TreasuryEntry::ScheduleSignerRemove
            | TreasuryEntry::UpdateSignerChangeDelay => !(e == TreasuryError::NotInitialized || e
                == TreasuryError::Unauthorized),
            _ => !(e == TreasuryError::NotInitialized),
        },
    }
}

} // verus!
