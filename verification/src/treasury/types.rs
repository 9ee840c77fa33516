use vstd::prelude::*;

use crate::address::Address;

verus! {

/// Represents the status of a withdrawal request in the multi-sig flow.
#[derive(Clone, Copy, Debug, PartialEq, Eq, Structural)]
pub enum WithdrawalStatus {
    /// Waiting for signers to approve.
    Pending,
    /// Threshold met — ready for execution.
    Approved,
    /// Funds have been transferred to the recipient.
    Executed,
    /// The request was cancelled by the proposer or admin.
    Cancelled,
}

/// Status of the treasury pause state.
#[derive(Clone, Copy, Debug, PartialEq, Eq, Structural)]
pub enum PauseState {
    /// Normal operation - withdrawals and deposits allowed.
    Unpaused,
    /// Emergency pause - all token transfers blocked.
    Paused,
}

/// Status of an upgrade proposal.
#[derive(Clone, Copy, Debug, PartialEq, Eq, Structural)]
pub enum UpgradeStatus {
    /// Pending approval.
    Pending,
    /// Threshold met — ready for execution.
    Approved,
    /// Upgrade has been executed.
    Executed,
    /// Pending signer change with timelock.
    PendingSignerChange,
    /// Scheduled admin change with timelock.
    PendingAdminChange,
}

/// A withdrawal request that tracks the multi-sig approval process.
#[derive(Clone, Debug, PartialEq, Eq)]
pub struct WithdrawalRequest {
    /// Unique identifier for this withdrawal request.
    pub id: u32,
    /// The signer who created this withdrawal request.
    pub proposer: Address,
    /// The token address to withdraw.
    pub token: Address,
    /// The recipient address for the funds.
    pub recipient: Address,
    /// The amount of tokens to withdraw.
    pub amount: i128,
    /// A short description or reference for this withdrawal.
    pub memo: String,
    /// List of signers who have approved this request.
    pub approvals: Vec<Address>,
    /// Current status of the withdrawal request.
    pub status: WithdrawalStatus,
    /// Ledger timestamp when the request was created.
    pub created_at: u64,
    /// The signer set version at the time of creation.
    pub signer_set_version: u32,
}

/// The mathematical value of a [`WithdrawalRequest`].
pub struct WithdrawalModel {
    pub id: u32,
    pub proposer: Seq<char>,
    pub token: Seq<char>,
    pub recipient: Seq<char>,
    pub amount: i128,
    pub memo: Seq<char>,
    pub approvals: Seq<Seq<char>>,
    pub status: WithdrawalStatus,
    pub created_at: u64,
    pub signer_set_version: u32,
}

impl View for WithdrawalRequest {
    type V = WithdrawalModel;

    open spec fn view(&self) -> WithdrawalModel {
        WithdrawalModel {
            id: self.id,
            proposer: self.proposer@,
            token: self.token@,
            recipient: self.recipient@,
            amount: self.amount,
            memo: self.memo@,
            approvals: self.approvals.deep_view(),
            status: self.status,
            created_at: self.created_at,
            signer_set_version: self.signer_set_version,
        }
    }
}

impl WithdrawalRequest {
    /// Returns a copy of this request.
    pub fn duplicate(&self) -> (r: Self)
        ensures
            r@ == self@,
    {
        let r = WithdrawalRequest {
            id: self.id,
            proposer: self.proposer.clone(),
            token: self.token.clone(),
            recipient: self.recipient.clone(),
            amount: self.amount,
            memo: self.memo.clone(),
            approvals: self.approvals.clone(),
            status: self.status,
            created_at: self.created_at,
            signer_set_version: self.signer_set_version,
        };
        assert(r.approvals.deep_view() =~= self.approvals.deep_view());
        r
    }
}

/// An upgrade proposal requiring multi-sig approval. Pause, unpause,
/// signer-change and emergency admin-change proposals share this record.
#[derive(Clone, Debug, PartialEq, Eq)]
pub struct UpgradeProposal {
    /// Unique proposal identifier.
    pub id: u32,
    /// The account that made the proposal.
    pub proposer: Address,
    /// Hash of the new WASM bytecode (all zeros for non-upgrade proposals).
    pub wasm_hash: [u8; 32],
    /// Short description of the proposal.
    pub description: String,
    /// List of signers who have approved.
    pub approvals: Vec<Address>,
    /// Status of the proposal.
    pub status: UpgradeStatus,
    /// Signer set version at time of proposal.
    pub signer_set_version: u32,
    /// Timestamp when proposal was created.
    pub created_at: u64,
}

/// The mathematical value of an [`UpgradeProposal`].
pub struct UpgradeModel {
    pub id: u32,
    pub proposer: Seq<char>,
    pub wasm_hash: Seq<u8>,
    pub description: Seq<char>,
    pub approvals: Seq<Seq<char>>,
    pub status: UpgradeStatus,
    pub signer_set_version: u32,
    pub created_at: u64,
}

impl View for UpgradeProposal {
    type V = UpgradeModel;

    open spec fn view(&self) -> UpgradeModel {
        UpgradeModel {
            id: self.id,
            proposer: self.proposer@,
            wasm_hash: self.wasm_hash@,
            description: self.description@,
            approvals: self.approvals.deep_view(),
            status: self.status,
            signer_set_version: self.signer_set_version,
            created_at: self.created_at,
        }
    }
}

impl UpgradeProposal {
    /// Returns a copy of this proposal.
    pub fn duplicate(&self) -> (r: Self)
        ensures
            r@ == self@,
    {
        let r = UpgradeProposal {
            id: self.id,
            proposer: self.proposer.clone(),
            wasm_hash: self.wasm_hash,
            description: self.description.clone(),
            approvals: self.approvals.clone(),
            status: self.status,
            signer_set_version: self.signer_set_version,
            created_at: self.created_at,
        };
        assert(r.approvals.deep_view() =~= self.approvals.deep_view());
        r
    }
}

/// Pending admin change with timelock.
#[derive(Clone, Debug, PartialEq, Eq)]
pub struct PendingAdminChange {
    /// The new admin address.
    pub new_admin: Address,
    /// The signer set version when change was scheduled.
    pub signer_set_version: u32,
    /// When the change becomes effective (ledger timestamp).
    pub effective_at: u64,
}

/// The mathematical value of a [`PendingAdminChange`].
pub struct PendingAdminChangeModel {
    pub new_admin: Seq<char>,
    pub signer_set_version: u32,
    pub effective_at: u64,
}

impl View for PendingAdminChange {
    type V = PendingAdminChangeModel;

    open spec fn view(&self) -> PendingAdminChangeModel {
        PendingAdminChangeModel {
            new_admin: self.new_admin@,
            signer_set_version: self.signer_set_version,
            effective_at: self.effective_at,
        }
    }
}

impl PendingAdminChange {
    /// Returns a copy of this pending change.
    pub fn duplicate(&self) -> (r: Self)
        ensures
            r@ == self@,
    {
        PendingAdminChange {
            new_admin: self.new_admin.clone(),
            signer_set_version: self.signer_set_version,
            effective_at: self.effective_at,
        }
    }
}

/// Treasury configuration snapshot — used for read-only queries.
#[derive(Clone, Debug, PartialEq, Eq)]
pub struct TreasuryConfig {
    /// The admin address.
    pub admin: Address,
    /// Current list of authorized signers.
    pub signers: Vec<Address>,
    /// Number of approvals required for a withdrawal.
    pub threshold: u32,
    /// Total number of proposals created.
    pub proposal_count: u32,
    /// Current pause state.
    pub paused: bool,
}

/// Migration parameters for transferring state between Treasury versions.
#[derive(Clone, Debug, PartialEq, Eq)]
pub struct MigrationParams {
    /// The current admin address.
    pub admin: Address,
    /// Current list of authorized signers.
    pub signers: Vec<Address>,
    /// Number of approvals required for a withdrawal.
    pub threshold: u32,
    /// Current signer set version.
    pub signer_set_version: u32,
}

/// A token transfer into the treasury that the host must carry out: `amount`
/// of `token` from `from` to the treasury.
#[derive(Clone, Debug, PartialEq, Eq)]
pub struct TokenDeposit {
    pub token: Address,
    pub from: Address,
    pub amount: i128,
}

/// A token transfer out of the treasury that the host must carry out.
#[derive(Clone, Debug, PartialEq, Eq)]
pub struct TokenTransfer {
    /// The token contract address.
    pub token: Address,
    /// The receiving address.
    pub to: Address,
    /// The amount to transfer.
    pub amount: i128,
}

} // verus!
