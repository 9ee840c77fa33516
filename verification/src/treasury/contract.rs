//! The treasury contract's entry points, as transitions of [`TreasuryStorage`].
//!
//! Each entry point takes the storage and the plain values that the host
//! supplies (the ledger timestamp, a token balance), runs the call's checks
//! in the order its `*_check` spec function gives, returning the first error
//! found, and on success updates the storage. A call that returns an error
//! leaves the storage unchanged.

use vstd::prelude::*;

use crate::address::{
    contains_address, copy_addresses, has_duplicate_address, lemma_filter_out_unique, lemma_push_unique, remove_all,
    without_address, Address,
};
use crate::treasury::errors::TreasuryError;
use crate::treasury::storage::{
    clear_pending_admin_change, get_admin, get_pending_admin_change, get_proposal_count,
    get_pause_state, get_signer_change_delay, get_signer_set_version, get_signers, get_threshold,
    get_upgrade_count, get_upgrade_proposal, get_withdrawal, has_admin,
    increment_signer_set_version, is_paused, get_signer_set, start_signer_sets, set_admin, set_pause_state, set_pending_admin_change,
    set_proposal_count, set_signer_change_delay, set_signer_set_version, set_signers,
    set_threshold, set_upgrade_count, set_upgrade_proposal, set_withdrawal, TreasuryModel,
    TreasuryStorage, DEFAULT_SIGNER_CHANGE_DELAY, MIN_SIGNER_CHANGE_DELAY,
};
use crate::treasury::types::{
    PauseState, PendingAdminChange, PendingAdminChangeModel, TokenDeposit, TokenTransfer, TreasuryConfig,
    UpgradeModel, UpgradeProposal, UpgradeStatus, WithdrawalModel, WithdrawalRequest,
    WithdrawalStatus,
};

verus! {

/// The treasury contract.
pub struct TreasuryContract;

// ── Model of each entry point ────────────────────────────────────────

/// The error that `initialize` returns, if any.
pub open spec fn initialize_check(s: TreasuryModel, signers: Seq<Seq<char>>, threshold: u32) -> Option<
    TreasuryError,
> {
    if s.initialized() {
        Some(TreasuryError::AlreadyInitialized)
    } else if threshold == 0 || threshold > signers.len() {
        Some(TreasuryError::InvalidThreshold)
    } else if !signers.no_duplicates() {
        Some(TreasuryError::DuplicateSigner)
    } else {
        None
    }
}

/// The storage after a successful `initialize`.
pub open spec fn initialized_state(
    s: TreasuryModel,
    admin: Seq<char>,
    signers: Seq<Seq<char>>,
    threshold: u32,
) -> TreasuryModel {
    TreasuryModel {
        admin: Some(admin),
        signers: Some(signers),
        threshold: Some(threshold),
        proposal_count: Some(0),
        signer_set_version: Some(0),
        pause_state: Some(PauseState::Unpaused),
        signer_change_delay: Some(DEFAULT_SIGNER_CHANGE_DELAY),
        signer_sets: seq![signers],
        ..s
    }
}

/// The error that `deposit` returns, if any.
pub open spec fn deposit_check(s: TreasuryModel, amount: i128) -> Option<TreasuryError> {
    if !s.initialized() {
        Some(TreasuryError::NotInitialized)
    } else if s.paused() {
        Some(TreasuryError::Paused)
    } else if amount <= 0 {
        Some(TreasuryError::InvalidAmount)
    } else {
        None
    }
}

/// The error that `create_withdrawal` returns, if any.
pub open spec fn create_withdrawal_check(s: TreasuryModel, proposer: Seq<char>, amount: i128) -> Option<
    TreasuryError,
> {
    if !s.initialized() {
        Some(TreasuryError::NotInitialized)
    } else if s.paused() {
        Some(TreasuryError::Paused)
    } else if !s.is_signer(proposer) {
        Some(TreasuryError::NotASigner)
    } else if amount <= 0 {
        Some(TreasuryError::InvalidAmount)
    } else {
        None
    }
}

/// The request that `create_withdrawal` records.
pub open spec fn new_withdrawal(
    s: TreasuryModel,
    proposer: Seq<char>,
    token: Seq<char>,
    recipient: Seq<char>,
    amount: i128,
    memo: Seq<char>,
    now: u64,
) -> WithdrawalModel {
    WithdrawalModel {
        id: s.proposal_count->0,
        proposer,
        token,
        recipient,
        amount,
        memo,
        approvals: seq![proposer],
        status: if s.threshold->0 == 1 {
            WithdrawalStatus::Approved
        } else {
            WithdrawalStatus::Pending
        },
        created_at: now,
        signer_set_version: s.signer_set_version->0,
    }
}

/// The storage with `w` recorded as the next withdrawal request.
pub open spec fn with_new_withdrawal(s: TreasuryModel, w: WithdrawalModel) -> TreasuryModel {
    TreasuryModel {
        withdrawals: s.withdrawals.push(w),
        proposal_count: Some((s.proposal_count->0 + 1) as u32),
        ..s
    }
}

/// The storage with withdrawal request `id` replaced by `w`.
pub open spec fn with_withdrawal(s: TreasuryModel, id: u32, w: WithdrawalModel) -> TreasuryModel {
    TreasuryModel { withdrawals: s.withdrawals.update(id as int, w), ..s }
}

/// Whether `signer` belongs to the signer set that withdrawal request `id`
/// was created under.
pub open spec fn may_approve_withdrawal(s: TreasuryModel, signer: Seq<char>, id: u32) -> bool {
    s.signer_sets[s.withdrawals[id as int].signer_set_version as int].contains(signer)
}

/// The error that `approve_withdrawal` returns, if any. Eligibility for an
/// existing request is judged against the signer set recorded for the
/// request's signer set version, so a signer removed after the request was
/// created may still approve it, and a signer added later may not. For a
/// request that does not exist, a caller outside the current signer set is
/// refused with `NotASigner` and a current signer with `ProposalNotFound`.
pub open spec fn approve_withdrawal_check(s: TreasuryModel, signer: Seq<char>, id: u32) -> Option<
    TreasuryError,
> {
    if !s.initialized() {
        Some(TreasuryError::NotInitialized)
    } else if s.paused() {
        Some(TreasuryError::Paused)
    } else if id >= s.withdrawals.len() {
        if !s.is_signer(signer) {
            Some(TreasuryError::NotASigner)
        } else {
            Some(TreasuryError::ProposalNotFound)
        }
    } else if !may_approve_withdrawal(s, signer, id) {
        Some(TreasuryError::NotASigner)
    } else if s.withdrawals[id as int].status != WithdrawalStatus::Pending {
        Some(TreasuryError::ProposalNotPending)
    } else if s.withdrawals[id as int].approvals.contains(signer) {
        Some(TreasuryError::AlreadyApproved)
    } else {
        None
    }
}

/// The request after `signer` approves request `w` under threshold `threshold`.
pub open spec fn approved_withdrawal(w: WithdrawalModel, signer: Seq<char>, threshold: u32) -> WithdrawalModel {
    let approvals = w.approvals.push(signer);
    WithdrawalModel {
        approvals,
        status: if approvals.len() >= threshold {
            WithdrawalStatus::Approved
        } else {
            w.status
        },
        ..w
    }
}

/// The error that `execute_withdrawal` returns, if any, when the treasury
/// holds `balance` of the request's token.
pub open spec fn execute_withdrawal_check(s: TreasuryModel, id: u32, balance: i128) -> Option<
    TreasuryError,
> {
    if !s.initialized() {
        Some(TreasuryError::NotInitialized)
    } else if s.paused() {
        Some(TreasuryError::Paused)
    } else if id >= s.withdrawals.len() {
        Some(TreasuryError::ProposalNotFound)
    } else if s.withdrawals[id as int].status != WithdrawalStatus::Approved {
        Some(TreasuryError::ProposalNotApproved)
    } else if balance < s.withdrawals[id as int].amount {
        Some(TreasuryError::InsufficientBalance)
    } else {
        None
    }
}

/// How far along its lifecycle a withdrawal status is.
pub open spec fn withdrawal_rank(st: WithdrawalStatus) -> int {
    match st {
        WithdrawalStatus::Pending => 0,
        WithdrawalStatus::Approved => 1,
        WithdrawalStatus::Executed => 2,
        WithdrawalStatus::Cancelled => 3,
    }
}

/// `w2` is a later state of withdrawal request `w1`: the terms of the request
/// are unchanged, approvals are only added, and the status only moves forward.
pub open spec fn withdrawal_advances(w1: WithdrawalModel, w2: WithdrawalModel) -> bool {
    &&& w2.id == w1.id
    &&& w2.proposer == w1.proposer
    &&& w2.token == w1.token
    &&& w2.recipient == w1.recipient
    &&& w2.amount == w1.amount
    &&& w2.memo == w1.memo
    &&& w2.created_at == w1.created_at
    &&& w2.signer_set_version == w1.signer_set_version
    &&& w1.approvals.is_prefix_of(w2.approvals)
    &&& withdrawal_rank(w1.status) <= withdrawal_rank(w2.status)
}

/// Every withdrawal request of `s1` is still in `s2`, in a later state.
pub open spec fn withdrawals_advance(s1: TreasuryModel, s2: TreasuryModel) -> bool {
    &&& s1.withdrawals.len() <= s2.withdrawals.len()
    &&& forall|i: int|
        0 <= i < s1.withdrawals.len() ==> withdrawal_advances(
            #[trigger] s1.withdrawals[i],
            s2.withdrawals[i],
        )
}

/// A storage that does not change keeps every withdrawal request as it was.
pub proof fn lemma_withdrawals_advance_refl(s: TreasuryModel)
    ensures
        withdrawals_advance(s, s),
{
    assert forall|i: int| 0 <= i < s.withdrawals.len() implies withdrawal_advances(
        #[trigger] s.withdrawals[i],
        s.withdrawals[i],
    ) by {
        assert(s.withdrawals[i].approvals.is_prefix_of(s.withdrawals[i].approvals));
    }
}

/// `p2` is a later state of upgrade proposal `p1`: its terms are unchanged,
/// approvals are only added, and the status changes only from pending to
/// approved.
pub open spec fn proposal_advances(p1: UpgradeModel, p2: UpgradeModel) -> bool {
    &&& p2.id == p1.id
    &&& p2.proposer == p1.proposer
    &&& p2.wasm_hash == p1.wasm_hash
    &&& p2.description == p1.description
    &&& p2.signer_set_version == p1.signer_set_version
    &&& p2.created_at == p1.created_at
    &&& p1.approvals.is_prefix_of(p2.approvals)
    &&& (p2.status == p1.status || (p1.status == UpgradeStatus::Pending && p2.status
        == UpgradeStatus::Approved))
}

/// Every upgrade proposal of `s1` is still in `s2`, in a later state.
pub open spec fn proposals_advance(s1: TreasuryModel, s2: TreasuryModel) -> bool {
    &&& s1.upgrades.len() <= s2.upgrades.len()
    &&& forall|i: int|
        0 <= i < s1.upgrades.len() ==> proposal_advances(#[trigger] s1.upgrades[i], s2.upgrades[i])
}

/// A storage that does not change keeps every upgrade proposal as it was.
pub proof fn lemma_proposals_advance_refl(s: TreasuryModel)
    ensures
        proposals_advance(s, s),
{
    assert forall|i: int| 0 <= i < s.upgrades.len() implies proposal_advances(
        #[trigger] s.upgrades[i],
        s.upgrades[i],
    ) by {
        assert(s.upgrades[i].approvals.is_prefix_of(s.upgrades[i].approvals));
    }
}

/// The error that an admin-only entry point returns before its own checks,
/// if any: the contract must be initialized and `admin` must be its admin.
pub open spec fn admin_check(s: TreasuryModel, admin: Seq<char>) -> Option<TreasuryError> {
    if !s.initialized() {
        Some(TreasuryError::NotInitialized)
    } else if !s.is_admin(admin) {
        Some(TreasuryError::Unauthorized)
    } else {
        None
    }
}

/// The error that `add_signer` returns, if any.
pub open spec fn add_signer_check(s: TreasuryModel, admin: Seq<char>, new_signer: Seq<char>) -> Option<
    TreasuryError,
> {
    if admin_check(s, admin) is Some {
        admin_check(s, admin)
    } else if s.is_signer(new_signer) {
        Some(TreasuryError::AlreadyASigner)
    } else {
        None
    }
}

/// The storage with signer list `signers` and the signer set version advanced.
pub open spec fn with_signer_set(s: TreasuryModel, signers: Seq<Seq<char>>) -> TreasuryModel {
    TreasuryModel {
        signers: Some(signers),
        signer_set_version: Some((s.signer_set_version->0 + 1) as u32),
        signer_sets: s.signer_sets.push(signers),
        ..s
    }
}

/// The error that `remove_signer` returns, if any.
pub open spec fn remove_signer_check(s: TreasuryModel, admin: Seq<char>, signer: Seq<char>) -> Option<
    TreasuryError,
> {
    if admin_check(s, admin) is Some {
        admin_check(s, admin)
    } else if s.signer_list().len() <= s.threshold->0 {
        Some(TreasuryError::InvalidThreshold)
    } else if !s.is_signer(signer) {
        Some(TreasuryError::NotASigner)
    } else {
        None
    }
}

/// The error that `update_threshold` returns, if any.
pub open spec fn update_threshold_check(s: TreasuryModel, admin: Seq<char>, new_threshold: u32) -> Option<
    TreasuryError,
> {
    if admin_check(s, admin) is Some {
        admin_check(s, admin)
    } else if new_threshold == 0 || new_threshold > s.signer_list().len() {
        Some(TreasuryError::InvalidThreshold)
    } else {
        None
    }
}

/// The WASM hash recorded in proposals that carry no code: 32 zero bytes.
pub open spec fn zero_hash() -> Seq<u8> {
    Seq::new(32, |i: int| 0u8)
}

/// The error that a signer-made proposal (pause, unpause, upgrade, emergency
/// admin change) returns, if any.
pub open spec fn signer_proposal_check(s: TreasuryModel, proposer: Seq<char>) -> Option<TreasuryError> {
    if !s.initialized() {
        Some(TreasuryError::NotInitialized)
    } else if !s.is_signer(proposer) {
        Some(TreasuryError::NotASigner)
    } else {
        None
    }
}

/// The status of a new signer-made proposal: approved at once when the
/// threshold is one.
pub open spec fn initial_status(s: TreasuryModel) -> UpgradeStatus {
    if s.threshold->0 == 1 {
        UpgradeStatus::Approved
    } else {
        UpgradeStatus::Pending
    }
}

/// The storage after signer `proposer` proposes, at `now`, to move the
/// treasury to pause state `p` for `reason`: the proposal is recorded, and
/// when the proposer's own approval already meets the threshold the pause
/// state takes effect at once.
pub open spec fn after_pause_proposal(
    s: TreasuryModel,
    proposer: Seq<char>,
    reason: Seq<char>,
    now: u64,
    p: PauseState,
) -> TreasuryModel {
    let s1 = with_new_proposal(s, new_proposal(s, proposer, zero_hash(), reason, initial_status(s), now));
    if s.threshold->0 == 1 {
        TreasuryModel { pause_state: Some(p), ..s1 }
    } else {
        s1
    }
}

/// The proposal recorded as the next one, approved by its proposer.
pub open spec fn new_proposal(
    s: TreasuryModel,
    proposer: Seq<char>,
    wasm_hash: Seq<u8>,
    description: Seq<char>,
    status: UpgradeStatus,
    now: u64,
) -> UpgradeModel {
    UpgradeModel {
        id: s.upgrade_total(),
        proposer,
        wasm_hash,
        description,
        approvals: seq![proposer],
        status,
        signer_set_version: s.signer_set_version->0,
        created_at: now,
    }
}

/// The storage with `p` recorded as the next proposal.
pub open spec fn with_new_proposal(s: TreasuryModel, p: UpgradeModel) -> TreasuryModel {
    TreasuryModel {
        upgrades: s.upgrades.push(p),
        upgrade_count: Some((s.upgrade_total() + 1) as u32),
        ..s
    }
}

/// The storage with proposal `id` replaced by `p`.
pub open spec fn with_proposal(s: TreasuryModel, id: u32, p: UpgradeModel) -> TreasuryModel {
    TreasuryModel { upgrades: s.upgrades.update(id as int, p), ..s }
}

/// The error that approving proposal `id` (a pause, an unpause or an upgrade)
/// returns, if any.
pub open spec fn approve_proposal_check(s: TreasuryModel, signer: Seq<char>, id: u32) -> Option<
    TreasuryError,
> {
    if !s.initialized() {
        Some(TreasuryError::NotInitialized)
    } else if id >= s.upgrades.len() {
        Some(TreasuryError::UpgradeProposalNotFound)
    } else if s.upgrades[id as int].status != UpgradeStatus::Pending {
        Some(TreasuryError::UpgradeProposalNotPending)
    } else if !s.is_signer(signer) {
        Some(TreasuryError::NotASigner)
    } else if s.upgrades[id as int].approvals.contains(signer) {
        Some(TreasuryError::AlreadyApproved)
    } else {
        None
    }
}

/// The proposal after `signer` approves `p` under threshold `threshold`.
pub open spec fn approved_proposal(p: UpgradeModel, signer: Seq<char>, threshold: u32) -> UpgradeModel {
    let approvals = p.approvals.push(signer);
    UpgradeModel {
        approvals,
        status: if approvals.len() >= threshold {
            UpgradeStatus::Approved
        } else {
            p.status
        },
        ..p
    }
}

/// Whether `signer`'s approval of proposal `id` reaches the threshold.
pub open spec fn approval_completes(s: TreasuryModel, signer: Seq<char>, id: u32) -> bool {
    s.upgrades[id as int].approvals.len() + 1 >= s.threshold->0
}

/// The storage after `signer` approves proposal `id`; when the approval
/// completes the proposal, the pause state becomes `on_complete`, if given.
pub open spec fn after_approval(
    s: TreasuryModel,
    signer: Seq<char>,
    id: u32,
    on_complete: Option<PauseState>,
) -> TreasuryModel {
    let s1 = with_proposal(s, id, approved_proposal(s.upgrades[id as int], signer, s.threshold->0));
    match on_complete {
        Some(p) => if approval_completes(s, signer, id) {
            TreasuryModel { pause_state: Some(p), ..s1 }
        } else {
            s1
        },
        None => s1,
    }
}

/// The error that executing proposal `id` with required status `status`
/// returns before any further check, if any.
pub open spec fn proposal_status_check(s: TreasuryModel, id: u32, status: UpgradeStatus) -> Option<
    TreasuryError,
> {
    if !s.initialized() {
        Some(TreasuryError::NotInitialized)
    } else if id >= s.upgrades.len() {
        Some(TreasuryError::UpgradeProposalNotFound)
    } else if s.upgrades[id as int].status != status {
        Some(TreasuryError::UpgradeProposalNotPending)
    } else {
        None
    }
}

/// The storage after the admin schedules a change to `new_admin` at `now`.
pub open spec fn with_pending_admin_change(s: TreasuryModel, new_admin: Seq<char>, now: u64) -> TreasuryModel {
    TreasuryModel {
        pending_admin_change: Some(
            PendingAdminChangeModel {
                new_admin,
                signer_set_version: s.signer_set_version->0,
                effective_at: (now + s.delay()) as u64,
            },
        ),
        ..s
    }
}

/// The error that `execute_admin_change` returns, if any.
pub open spec fn execute_admin_change_check(s: TreasuryModel, now: u64) -> Option<TreasuryError> {
    if !s.initialized() {
        Some(TreasuryError::NotInitialized)
    } else if s.pending_admin_change is None {
        Some(TreasuryError::NoPendingAdminChange)
    } else if now < s.pending_admin_change->0.effective_at {
        Some(TreasuryError::TimelockNotExpired)
    } else {
        None
    }
}

/// The error that `propose_signer_add` returns, if any.
pub open spec fn propose_signer_add_check(s: TreasuryModel, admin: Seq<char>, new_signer: Seq<char>) -> Option<
    TreasuryError,
> {
    add_signer_check(s, admin, new_signer)
}

/// The error that `schedule_signer_remove` returns, if any.
pub open spec fn schedule_signer_remove_check(s: TreasuryModel, admin: Seq<char>, signer: Seq<char>) -> Option<
    TreasuryError,
> {
    if admin_check(s, admin) is Some {
        admin_check(s, admin)
    } else if !s.is_signer(signer) {
        Some(TreasuryError::NotASigner)
    } else if s.signer_list().len() <= s.threshold->0 {
        Some(TreasuryError::InvalidThreshold)
    } else {
        None
    }
}

/// The error that `execute_signer_change` returns, if any.
pub open spec fn execute_signer_change_check(s: TreasuryModel, id: u32, now: u64) -> Option<TreasuryError> {
    if proposal_status_check(s, id, UpgradeStatus::PendingSignerChange) is Some {
        proposal_status_check(s, id, UpgradeStatus::PendingSignerChange)
    } else if now < s.upgrades[id as int].created_at + s.delay() {
        Some(TreasuryError::TimelockNotExpired)
    } else {
        None
    }
}

/// The error that `execute_emergency_admin_change` returns, if any.
pub open spec fn execute_emergency_admin_change_check(s: TreasuryModel, id: u32) -> Option<TreasuryError> {
    if proposal_status_check(s, id, UpgradeStatus::Approved) is Some {
        proposal_status_check(s, id, UpgradeStatus::Approved)
    } else if !s.is_signer(s.upgrades[id as int].proposer) {
        Some(TreasuryError::Unauthorized)
    } else {
        None
    }
}

/// The error that `update_signer_change_delay` returns, if any.
pub open spec fn update_delay_check(s: TreasuryModel, admin: Seq<char>, new_delay: u64) -> Option<
    TreasuryError,
> {
    if admin_check(s, admin) is Some {
        admin_check(s, admin)
    } else if new_delay < MIN_SIGNER_CHANGE_DELAY {
        Some(TreasuryError::InvalidTimelock)
    } else {
        None
    }
}

/// Returns the WASM hash of 32 zero bytes.
fn zero_wasm_hash() -> (r: [u8; 32])
    ensures
        r@ == zero_hash(),
{
    let r = [0u8; 32];
    assert(r@ =~= zero_hash());
    r
}

impl TreasuryContract {
    fn require_initialized(env: &TreasuryStorage) -> (r: Result<(), TreasuryError>)
        ensures
            r == if env@.initialized() {
                Ok::<(), TreasuryError>(())
            } else {
                Err(TreasuryError::NotInitialized)
            },
    {
        if !has_admin(env) {
            return Err(TreasuryError::NotInitialized);
        }
        Ok(())
    }

    /// Initializes the treasury with its admin, its signers and the number of
    /// approvals a withdrawal needs.
    pub fn initialize(
        env: &mut TreasuryStorage,
        admin: Address,
        signers: Vec<Address>,
        threshold: u32,
    ) -> (r: Result<(), TreasuryError>)
        requires
            old(env)@.wf(),
        ensures
            final(env)@.wf(),
            match initialize_check(old(env)@, signers.deep_view(), threshold) {
                Some(e) => r == Err::<(), TreasuryError>(e) && final(env)@ == old(env)@,
                None => r is Ok && final(env)@ == initialized_state(
                    old(env)@,
                    admin@,
                    signers.deep_view(),
                    threshold,
                ),
            },
    {
        if has_admin(env) {
            return Err(TreasuryError::AlreadyInitialized);
        }
        if threshold == 0 || threshold as usize > signers.len() {
            return Err(TreasuryError::InvalidThreshold);
        }
        if has_duplicate_address(&signers) {
            return Err(TreasuryError::DuplicateSigner);
        }
        set_admin(env, &admin);
        set_signers(env, &signers);
        set_threshold(env, threshold);
        set_proposal_count(env, 0);
        set_signer_set_version(env, 0);
        set_pause_state(env, &PauseState::Unpaused);
        set_signer_change_delay(env, DEFAULT_SIGNER_CHANGE_DELAY);
        start_signer_sets(env, &signers);
        assert(env@ =~= initialized_state(old(env)@, admin@, signers.deep_view(), threshold));
        Ok(())
    }

    /// Checks a deposit of `amount` of `token` from `from` and returns the
    /// transfer into the treasury that the host carries out.
    pub fn deposit(env: &TreasuryStorage, from: Address, token: Address, amount: i128) -> (r: Result<
        TokenDeposit,
        TreasuryError,
    >)
        ensures
            match deposit_check(env@, amount) {
                Some(e) => r == Err::<TokenDeposit, TreasuryError>(e),
                None => r matches Ok(d) && d.token@ == token@ && d.from@ == from@ && d.amount == amount,
            },
    {
        Self::require_initialized(env)?;
        if is_paused(env) {
            return Err(TreasuryError::Paused);
        }
        if amount <= 0 {
            return Err(TreasuryError::InvalidAmount);
        }
        Ok(TokenDeposit { token, from, amount })
    }

    /// Records a withdrawal request from signer `proposer`, approved by its
    /// proposer, and returns its identifier.
    pub fn create_withdrawal(
        env: &mut TreasuryStorage,
        proposer: Address,
        token: Address,
        recipient: Address,
        amount: i128,
        memo: String,
        now: u64,
    ) -> (r: Result<u32, TreasuryError>)
        requires
            old(env)@.wf(),
            create_withdrawal_check(old(env)@, proposer@, amount) is None
                ==> old(env)@.proposal_count->0 < u32::MAX,
        ensures
            final(env)@.wf(),
            withdrawals_advance(old(env)@, final(env)@),
            proposals_advance(old(env)@, final(env)@),
            match create_withdrawal_check(old(env)@, proposer@, amount) {
                Some(e) => r == Err::<u32, TreasuryError>(e) && final(env)@ == old(env)@,
                None => r == Ok::<u32, TreasuryError>(old(env)@.proposal_count->0)
                    && final(env)@ == with_new_withdrawal(
                    old(env)@,
                    new_withdrawal(old(env)@, proposer@, token@, recipient@, amount, memo@, now),
                ),
            },
    {
        proof {
            lemma_withdrawals_advance_refl(env@);
            lemma_proposals_advance_refl(env@);
        }
        Self::require_initialized(env)?;
        if is_paused(env) {
            return Err(TreasuryError::Paused);
        }
        let signers = get_signers(env);
        if !contains_address(&signers, &proposer) {
            return Err(TreasuryError::NotASigner);
        }
        if amount <= 0 {
            return Err(TreasuryError::InvalidAmount);
        }
        let proposal_id = get_proposal_count(env);
        let signer_set_version = get_signer_set_version(env);
        let threshold = get_threshold(env);
        let mut approvals: Vec<Address> = Vec::new();
        approvals.push(proposer.clone());
        let status = if threshold == 1 {
            WithdrawalStatus::Approved
        } else {
            WithdrawalStatus::Pending
        };
        let request = WithdrawalRequest {
            id: proposal_id,
            proposer,
            token,
            recipient,
            amount,
            memo,
            approvals,
            status,
            created_at: now,
            signer_set_version,
        };
        let ghost w = new_withdrawal(old(env)@, request.proposer@, request.token@, request.recipient@, amount, request.memo@, now);
        assert(request.approvals.deep_view() =~= seq![request.proposer@]);
        assert(request@ == w);
        set_withdrawal(env, proposal_id, &request);
        set_proposal_count(env, proposal_id + 1);
        assert(env@ =~= with_new_withdrawal(old(env)@, w));
        proof {
            let s1 = old(env)@;
            let s2 = env@;
            assert forall|i: int| 0 <= i < s1.withdrawals.len() implies withdrawal_advances(
                #[trigger] s1.withdrawals[i],
                s2.withdrawals[i],
            ) by {
                assert(s2.withdrawals[i] == s1.withdrawals[i]);
                assert(s1.withdrawals[i].approvals.is_prefix_of(s1.withdrawals[i].approvals));
            }
        }
        Ok(proposal_id)
    }

    /// Records signer `signer`'s approval of pending withdrawal request
    /// `proposal_id`; the request becomes approved once it has as many
    /// approvals as the threshold.
    pub fn approve_withdrawal(env: &mut TreasuryStorage, signer: Address, proposal_id: u32) -> (r: Result<
        (),
        TreasuryError,
    >)
        requires
            old(env)@.wf(),
        ensures
            final(env)@.wf(),
            withdrawals_advance(old(env)@, final(env)@),
            proposals_advance(old(env)@, final(env)@),
            match approve_withdrawal_check(old(env)@, signer@, proposal_id) {
                Some(e) => r == Err::<(), TreasuryError>(e) && final(env)@ == old(env)@,
                None => r is Ok && final(env)@ == with_withdrawal(
                    old(env)@,
                    proposal_id,
                    approved_withdrawal(
                        old(env)@.withdrawals[proposal_id as int],
                        signer@,
                        old(env)@.threshold->0,
                    ),
                ),
            },
    {
        proof {
            lemma_withdrawals_advance_refl(env@);
            lemma_proposals_advance_refl(env@);
        }
        Self::require_initialized(env)?;
        if is_paused(env) {
            return Err(TreasuryError::Paused);
        }
        let mut request = match get_withdrawal(env, proposal_id) {
            Some(w) => w,
            None => {
                let signers = get_signers(env);
                if !contains_address(&signers, &signer) {
                    return Err(TreasuryError::NotASigner);
                }
                return Err(TreasuryError::ProposalNotFound);
            },
        };
        let eligible = match get_signer_set(env, request.signer_set_version) {
            Some(set) => set,
            None => Vec::new(),
        };
        if !contains_address(&eligible, &signer) {
            return Err(TreasuryError::NotASigner);
        }
        if request.status != WithdrawalStatus::Pending {
            return Err(TreasuryError::ProposalNotPending);
        }
        if contains_address(&request.approvals, &signer) {
            return Err(TreasuryError::AlreadyApproved);
        }
        let ghost w0 = request@;
        request.approvals.push(signer);
        let threshold = get_threshold(env);
        if request.approvals.len() >= threshold as usize {
            request.status = WithdrawalStatus::Approved;
        }
        let ghost w1 = approved_withdrawal(w0, signer@, threshold);
        assert(request.approvals.deep_view() =~= w0.approvals.push(signer@));
        assert(request@ == w1);
        set_withdrawal(env, proposal_id, &request);
        proof {
            let s1 = old(env)@;
            let s2 = env@;
            assert(s2 == with_withdrawal(s1, proposal_id, w1));
            assert forall|i: int| 0 <= i < s1.withdrawals.len() implies withdrawal_advances(
                #[trigger] s1.withdrawals[i],
                s2.withdrawals[i],
            ) by {
                if i == proposal_id {
                    assert(w0.approvals.is_prefix_of(w1.approvals)) by {
                        assert(w1.approvals.subrange(0, w0.approvals.len() as int) =~= w0.approvals);
                    }
                } else {
                    assert(s2.withdrawals[i] == s1.withdrawals[i]);
                    assert(s1.withdrawals[i].approvals.is_prefix_of(s1.withdrawals[i].approvals));
                }
            }
            assert forall|i: int| 0 <= i < s2.withdrawals.len() implies {
                &&& (#[trigger] s2.withdrawals[i]).id == i
                &&& s2.withdrawals[i].approvals.no_duplicates()
            } by {
                if i == proposal_id {
                    assert forall|a: int, b: int|
                        0 <= a < w1.approvals.len() && 0 <= b < w1.approvals.len() && a != b
                        implies w1.approvals[a] != w1.approvals[b] by {
                        if a == w0.approvals.len() {
                            assert(w1.approvals[b] == w0.approvals[b]);
                            if w0.approvals[b] == signer@ {
                                assert(w0.approvals.contains(signer@));
                            }
                        } else if b == w0.approvals.len() {
                            assert(w1.approvals[a] == w0.approvals[a]);
                            if w0.approvals[a] == signer@ {
                                assert(w0.approvals.contains(signer@));
                            }
                        }
                    }
                }
            }
        }
        Ok(())
    }

    /// Executes approved withdrawal request `proposal_id` when the treasury
    /// holds `balance` of the request's token (as the host reads it): marks
    /// the request executed and returns the transfer that the host carries out.
    pub fn execute_withdrawal(
        env: &mut TreasuryStorage,
        executor: Address,
        proposal_id: u32,
        balance: i128,
    ) -> (r: Result<TokenTransfer, TreasuryError>)
        requires
            old(env)@.wf(),
        ensures
            final(env)@.wf(),
            withdrawals_advance(old(env)@, final(env)@),
            proposals_advance(old(env)@, final(env)@),
            match execute_withdrawal_check(old(env)@, proposal_id, balance) {
                Some(e) => r matches Err(e2) && e2 == e && final(env)@ == old(env)@,
                None => {
                    let w = old(env)@.withdrawals[proposal_id as int];
                    &&& r matches Ok(t) && t.token@ == w.token && t.to@ == w.recipient && t.amount
                        == w.amount
                    &&& final(env)@ == with_withdrawal(
                        old(env)@,
                        proposal_id,
                        WithdrawalModel { status: WithdrawalStatus::Executed, ..w },
                    )
                },
            },
    {
        proof {
            lemma_withdrawals_advance_refl(env@);
            lemma_proposals_advance_refl(env@);
        }
        Self::require_initialized(env)?;
        if is_paused(env) {
            return Err(TreasuryError::Paused);
        }
        let mut request = match get_withdrawal(env, proposal_id) {
            Some(w) => w,
            None => {
                return Err(TreasuryError::ProposalNotFound);
            },
        };
        if request.status != WithdrawalStatus::Approved {
            return Err(TreasuryError::ProposalNotApproved);
        }
        if balance < request.amount {
            return Err(TreasuryError::InsufficientBalance);
        }
        let transfer = TokenTransfer {
            token: request.token.clone(),
            to: request.recipient.clone(),
            amount: request.amount,
        };
        request.status = WithdrawalStatus::Executed;
        set_withdrawal(env, proposal_id, &request);
        proof {
            let s1 = old(env)@;
            let s2 = env@;
            assert forall|i: int| 0 <= i < s1.withdrawals.len() implies withdrawal_advances(
                #[trigger] s1.withdrawals[i],
                s2.withdrawals[i],
            ) by {
                assert(s1.withdrawals[i].approvals.is_prefix_of(s2.withdrawals[i].approvals));
            }
        }
        Ok(transfer)
    }

    fn require_admin(env: &TreasuryStorage, admin: &Address) -> (r: Result<(), TreasuryError>)
        ensures
            r == match admin_check(env@, admin@) {
                Some(e) => Err(e),
                None => Ok::<(), TreasuryError>(()),
            },
    {
        Self::require_initialized(env)?;
        let stored_admin = get_admin(env);
        if *admin != stored_admin {
            return Err(TreasuryError::Unauthorized);
        }
        Ok(())
    }

    /// Adds `new_signer` to the signer set and advances the signer set version.
    /// Withdrawal requests keep the version they were created under.
    pub fn add_signer(env: &mut TreasuryStorage, admin: Address, new_signer: Address) -> (r: Result<
        (),
        TreasuryError,
    >)
        requires
            old(env)@.wf(),
            add_signer_check(old(env)@, admin@, new_signer@) is None
                ==> old(env)@.signer_set_version->0 < u32::MAX,
        ensures
            final(env)@.wf(),
            withdrawals_advance(old(env)@, final(env)@),
            proposals_advance(old(env)@, final(env)@),
            match add_signer_check(old(env)@, admin@, new_signer@) {
                Some(e) => r == Err::<(), TreasuryError>(e) && final(env)@ == old(env)@,
                None => r is Ok && final(env)@ == with_signer_set(
                    old(env)@,
                    old(env)@.signer_list().push(new_signer@),
                ),
            },
    {
        proof {
            lemma_withdrawals_advance_refl(env@);
            lemma_proposals_advance_refl(env@);
        }
        Self::require_admin(env, &admin)?;
        let mut signers = get_signers(env);
        if contains_address(&signers, &new_signer) {
            return Err(TreasuryError::AlreadyASigner);
        }
        let ghost before = signers.deep_view();
        signers.push(new_signer);
        assert(signers.deep_view() =~= before.push(new_signer@));
        set_signers(env, &signers);
        let _new_version = increment_signer_set_version(env);
        proof {
            let s2 = env@;
            assert(s2 =~= with_signer_set(old(env)@, before.push(new_signer@)));
            let l = s2.signer_list();
            assert forall|a: int, b: int| 0 <= a < l.len() && 0 <= b < l.len() && a != b implies l[a]
                != l[b] by {
                if a == before.len() && before[b] == new_signer@ {
                    assert(before.contains(new_signer@));
                }
                if b == before.len() && before[a] == new_signer@ {
                    assert(before.contains(new_signer@));
                }
            }
        }
        Ok(())
    }

    /// Removes `signer` from the signer set and advances the signer set
    /// version, provided more signers than the threshold remain.
    pub fn remove_signer(env: &mut TreasuryStorage, admin: Address, signer: Address) -> (r: Result<
        (),
        TreasuryError,
    >)
        requires
            old(env)@.wf(),
            remove_signer_check(old(env)@, admin@, signer@) is None
                ==> old(env)@.signer_set_version->0 < u32::MAX,
        ensures
            final(env)@.wf(),
            withdrawals_advance(old(env)@, final(env)@),
            proposals_advance(old(env)@, final(env)@),
            match remove_signer_check(old(env)@, admin@, signer@) {
                Some(e) => r == Err::<(), TreasuryError>(e) && final(env)@ == old(env)@,
                None => r is Ok && final(env)@ == with_signer_set(
                    old(env)@,
                    remove_all(old(env)@.signer_list(), signer@),
                ),
            },
    {
        proof {
            lemma_withdrawals_advance_refl(env@);
            lemma_proposals_advance_refl(env@);
        }
        Self::require_admin(env, &admin)?;
        let signers = get_signers(env);
        let threshold = get_threshold(env);
        if signers.len() <= threshold as usize {
            return Err(TreasuryError::InvalidThreshold);
        }
        if !contains_address(&signers, &signer) {
            return Err(TreasuryError::NotASigner);
        }
        let new_signers = without_address(&signers, &signer);
        proof {
            lemma_filter_out_unique(signers.deep_view(), signer@);
        }
        set_signers(env, &new_signers);
        let _new_version = increment_signer_set_version(env);
        assert(env@ =~= with_signer_set(old(env)@, remove_all(old(env)@.signer_list(), signer@)));
        Ok(())
    }

    /// Sets the number of approvals a withdrawal needs.
    pub fn update_threshold(env: &mut TreasuryStorage, admin: Address, new_threshold: u32) -> (r:
        Result<(), TreasuryError>)
        requires
            old(env)@.wf(),
        ensures
            final(env)@.wf(),
            withdrawals_advance(old(env)@, final(env)@),
            proposals_advance(old(env)@, final(env)@),
            match update_threshold_check(old(env)@, admin@, new_threshold) {
                Some(e) => r == Err::<(), TreasuryError>(e) && final(env)@ == old(env)@,
                None => r is Ok && final(env)@ == (TreasuryModel {
                    threshold: Some(new_threshold),
                    ..old(env)@
                }),
            },
    {
        proof {
            lemma_withdrawals_advance_refl(env@);
            lemma_proposals_advance_refl(env@);
        }
        Self::require_admin(env, &admin)?;
        let signers = get_signers(env);
        if new_threshold == 0 || new_threshold as usize > signers.len() {
            return Err(TreasuryError::InvalidThreshold);
        }
        set_threshold(env, new_threshold);
        Ok(())
    }

    fn record_proposal(
        env: &mut TreasuryStorage,
        proposer: Address,
        wasm_hash: [u8; 32],
        description: String,
        status: UpgradeStatus,
        now: u64,
    ) -> (r: u32)
        requires
            old(env)@.wf(),
            old(env)@.initialized(),
            old(env)@.upgrade_total() < u32::MAX,
        ensures
            r == old(env)@.upgrade_total(),
            final(env)@.wf(),
            withdrawals_advance(old(env)@, final(env)@),
            proposals_advance(old(env)@, final(env)@),
            final(env)@ == with_new_proposal(
                old(env)@,
                new_proposal(old(env)@, proposer@, wasm_hash@, description@, status, now),
            ),
    {
        proof {
            lemma_withdrawals_advance_refl(env@);
            lemma_proposals_advance_refl(env@);
        }
        let proposal_id = get_upgrade_count(env);
        let mut approvals: Vec<Address> = Vec::new();
        approvals.push(proposer.clone());
        let proposal = UpgradeProposal {
            id: proposal_id,
            proposer,
            wasm_hash,
            description,
            approvals,
            status,
            signer_set_version: get_signer_set_version(env),
            created_at: now,
        };
        let ghost p = new_proposal(old(env)@, proposal.proposer@, wasm_hash@, proposal.description@, status, now);
        assert(proposal.approvals.deep_view() =~= seq![proposal.proposer@]);
        assert(proposal@ == p);
        set_upgrade_proposal(env, proposal_id, &proposal);
        set_upgrade_count(env, proposal_id + 1);
        assert(env@ =~= with_new_proposal(old(env)@, p));
        proposal_id
    }

    fn approve_proposal(
        env: &mut TreasuryStorage,
        signer: Address,
        proposal_id: u32,
        on_complete: Option<PauseState>,
    ) -> (r: Result<(), TreasuryError>)
        requires
            old(env)@.wf(),
        ensures
            final(env)@.wf(),
            withdrawals_advance(old(env)@, final(env)@),
            proposals_advance(old(env)@, final(env)@),
            match approve_proposal_check(old(env)@, signer@, proposal_id) {
                Some(e) => r == Err::<(), TreasuryError>(e) && final(env)@ == old(env)@,
                None => r is Ok && final(env)@ == after_approval(
                    old(env)@,
                    signer@,
                    proposal_id,
                    on_complete,
                ),
            },
    {
        proof {
            lemma_withdrawals_advance_refl(env@);
            lemma_proposals_advance_refl(env@);
        }
        Self::require_initialized(env)?;
        let mut proposal = match get_upgrade_proposal(env, proposal_id) {
            Some(p) => p,
            None => {
                return Err(TreasuryError::UpgradeProposalNotFound);
            },
        };
        if proposal.status != UpgradeStatus::Pending {
            return Err(TreasuryError::UpgradeProposalNotPending);
        }
        let signers = get_signers(env);
        if !contains_address(&signers, &signer) {
            return Err(TreasuryError::NotASigner);
        }
        if contains_address(&proposal.approvals, &signer) {
            return Err(TreasuryError::AlreadyApproved);
        }
        let ghost p0 = proposal@;
        proof {
            lemma_push_unique(p0.approvals, signer@);
        }
        proposal.approvals.push(signer);
        let threshold = get_threshold(env);
        let complete = proposal.approvals.len() >= threshold as usize;
        if complete {
            proposal.status = UpgradeStatus::Approved;
        }
        assert(proposal.approvals.deep_view() =~= p0.approvals.push(signer@));
        assert(proposal@ == approved_proposal(p0, signer@, threshold));
        set_upgrade_proposal(env, proposal_id, &proposal);
        if complete {
            match on_complete {
                Some(p) => set_pause_state(env, &p),
                None => {},
            }
        }
        assert(env@ =~= after_approval(old(env)@, signer@, proposal_id, on_complete));
        Ok(())
    }

    /// Records signer `proposer`'s proposal to pause the treasury and returns
    /// its identifier. With a threshold of one the proposer's own approval
    /// suffices, and the treasury is paused at once.
    pub fn propose_pause(env: &mut TreasuryStorage, proposer: Address, reason: String, now: u64) -> (r:
        Result<u32, TreasuryError>)
        requires
            old(env)@.wf(),
            signer_proposal_check(old(env)@, proposer@) is None ==> old(env)@.upgrade_total()
                < u32::MAX,
        ensures
            final(env)@.wf(),
            withdrawals_advance(old(env)@, final(env)@),
            proposals_advance(old(env)@, final(env)@),
            match signer_proposal_check(old(env)@, proposer@) {
                Some(e) => r == Err::<u32, TreasuryError>(e) && final(env)@ == old(env)@,
                None => r == Ok::<u32, TreasuryError>(old(env)@.upgrade_total()) && final(env)@
                    == after_pause_proposal(old(env)@, proposer@, reason@, now, PauseState::Paused),
            },
    {
        let id = match Self::propose_by_signer(env, proposer, zero_wasm_hash(), reason, now) {
            Ok(id) => id,
            Err(e) => {
                return Err(e);
            },
        };
        if get_threshold(env) == 1 {
            set_pause_state(env, &PauseState::Paused);
        }
        Ok(id)
    }

    /// Approves pause proposal `proposal_id`; the approval that reaches the
    /// threshold pauses the treasury.
    pub fn approve_pause(env: &mut TreasuryStorage, signer: Address, proposal_id: u32) -> (r: Result<
        (),
        TreasuryError,
    >)
        requires
            old(env)@.wf(),
        ensures
            final(env)@.wf(),
            withdrawals_advance(old(env)@, final(env)@),
            proposals_advance(old(env)@, final(env)@),
            match approve_proposal_check(old(env)@, signer@, proposal_id) {
                Some(e) => r == Err::<(), TreasuryError>(e) && final(env)@ == old(env)@,
                None => r is Ok && final(env)@ == after_approval(
                    old(env)@,
                    signer@,
                    proposal_id,
                    Some(PauseState::Paused),
                ),
            },
    {
        Self::approve_proposal(env, signer, proposal_id, Some(PauseState::Paused))
    }

    /// Records signer `proposer`'s proposal to unpause the treasury and
    /// returns its identifier. With a threshold of one the proposer's own
    /// approval suffices, and the treasury is unpaused at once.
    pub fn propose_unpause(env: &mut TreasuryStorage, proposer: Address, reason: String, now: u64) -> (r:
        Result<u32, TreasuryError>)
        requires
            old(env)@.wf(),
            signer_proposal_check(old(env)@, proposer@) is None ==> old(env)@.upgrade_total()
                < u32::MAX,
        ensures
            final(env)@.wf(),
            withdrawals_advance(old(env)@, final(env)@),
            proposals_advance(old(env)@, final(env)@),
            match signer_proposal_check(old(env)@, proposer@) {
                Some(e) => r == Err::<u32, TreasuryError>(e) && final(env)@ == old(env)@,
                None => r == Ok::<u32, TreasuryError>(old(env)@.upgrade_total()) && final(env)@
                    == after_pause_proposal(old(env)@, proposer@, reason@, now, PauseState::Unpaused),
            },
    {
        let id = match Self::propose_by_signer(env, proposer, zero_wasm_hash(), reason, now) {
            Ok(id) => id,
            Err(e) => {
                return Err(e);
            },
        };
        if get_threshold(env) == 1 {
            set_pause_state(env, &PauseState::Unpaused);
        }
        Ok(id)
    }

    /// Approves unpause proposal `proposal_id`; the approval that reaches the
    /// threshold unpauses the treasury.
    pub fn approve_unpause(env: &mut TreasuryStorage, signer: Address, proposal_id: u32) -> (r: Result<
        (),
        TreasuryError,
    >)
        requires
            old(env)@.wf(),
        ensures
            final(env)@.wf(),
            withdrawals_advance(old(env)@, final(env)@),
            proposals_advance(old(env)@, final(env)@),
            match approve_proposal_check(old(env)@, signer@, proposal_id) {
                Some(e) => r == Err::<(), TreasuryError>(e) && final(env)@ == old(env)@,
                None => r is Ok && final(env)@ == after_approval(
                    old(env)@,
                    signer@,
                    proposal_id,
                    Some(PauseState::Unpaused),
                ),
            },
    {
        Self::approve_proposal(env, signer, proposal_id, Some(PauseState::Unpaused))
    }

    fn propose_by_signer(
        env: &mut TreasuryStorage,
        proposer: Address,
        wasm_hash: [u8; 32],
        description: String,
        now: u64,
    ) -> (r: Result<u32, TreasuryError>)
        requires
            old(env)@.wf(),
            signer_proposal_check(old(env)@, proposer@) is None ==> old(env)@.upgrade_total()
                < u32::MAX,
        ensures
            final(env)@.wf(),
            withdrawals_advance(old(env)@, final(env)@),
            proposals_advance(old(env)@, final(env)@),
            match signer_proposal_check(old(env)@, proposer@) {
                Some(e) => r == Err::<u32, TreasuryError>(e) && final(env)@ == old(env)@,
                None => r == Ok::<u32, TreasuryError>(old(env)@.upgrade_total()) && final(env)@
                    == with_new_proposal(
                    old(env)@,
                    new_proposal(
                        old(env)@,
                        proposer@,
                        wasm_hash@,
                        description@,
                        initial_status(old(env)@),
                        now,
                    ),
                ),
            },
    {
        proof {
            lemma_withdrawals_advance_refl(env@);
            lemma_proposals_advance_refl(env@);
        }
        Self::require_initialized(env)?;
        let signers = get_signers(env);
        if !contains_address(&signers, &proposer) {
            return Err(TreasuryError::NotASigner);
        }
        let threshold = get_threshold(env);
        let status = if threshold == 1 {
            UpgradeStatus::Approved
        } else {
            UpgradeStatus::Pending
        };
        let id = Self::record_proposal(env, proposer, wasm_hash, description, status, now);
        Ok(id)
    }

    /// Records signer `proposer`'s proposal to upgrade the contract to
    /// `wasm_hash` and returns its identifier.
    pub fn propose_upgrade(
        env: &mut TreasuryStorage,
        proposer: Address,
        wasm_hash: [u8; 32],
        description: String,
        now: u64,
    ) -> (r: Result<u32, TreasuryError>)
        requires
            old(env)@.wf(),
            signer_proposal_check(old(env)@, proposer@) is None ==> old(env)@.upgrade_total()
                < u32::MAX,
        ensures
            final(env)@.wf(),
            withdrawals_advance(old(env)@, final(env)@),
            proposals_advance(old(env)@, final(env)@),
            match signer_proposal_check(old(env)@, proposer@) {
                Some(e) => r == Err::<u32, TreasuryError>(e) && final(env)@ == old(env)@,
                None => r == Ok::<u32, TreasuryError>(old(env)@.upgrade_total()) && final(env)@
                    == with_new_proposal(
                    old(env)@,
                    new_proposal(
                        old(env)@,
                        proposer@,
                        wasm_hash@,
                        description@,
                        initial_status(old(env)@),
                        now,
                    ),
                ),
            },
    {
        Self::propose_by_signer(env, proposer, wasm_hash, description, now)
    }

    /// Approves upgrade proposal `proposal_id`.
    pub fn approve_upgrade(env: &mut TreasuryStorage, signer: Address, proposal_id: u32) -> (r: Result<
        (),
        TreasuryError,
    >)
        requires
            old(env)@.wf(),
        ensures
            final(env)@.wf(),
            withdrawals_advance(old(env)@, final(env)@),
            proposals_advance(old(env)@, final(env)@),
            match approve_proposal_check(old(env)@, signer@, proposal_id) {
                Some(e) => r == Err::<(), TreasuryError>(e) && final(env)@ == old(env)@,
                None => r is Ok && final(env)@ == after_approval(
                    old(env)@,
                    signer@,
                    proposal_id,
                    None,
                ),
            },
    {
        Self::approve_proposal(env, signer, proposal_id, None)
    }

    /// Checks that proposal `proposal_id` is approved and returns the WASM hash
    /// that the host installs.
    pub fn execute_upgrade(env: &TreasuryStorage, executor: Address, proposal_id: u32) -> (r: Result<
        [u8; 32],
        TreasuryError,
    >)
        ensures
            match proposal_status_check(env@, proposal_id, UpgradeStatus::Approved) {
                Some(e) => r == Err::<[u8; 32], TreasuryError>(e),
                None => r matches Ok(h) && h@ == env@.upgrades[proposal_id as int].wasm_hash,
            },
    {
        Self::require_initialized(env)?;
        let proposal = match get_upgrade_proposal(env, proposal_id) {
            Some(p) => p,
            None => {
                return Err(TreasuryError::UpgradeProposalNotFound);
            },
        };
        if proposal.status != UpgradeStatus::Approved {
            return Err(TreasuryError::UpgradeProposalNotPending);
        }
        Ok(proposal.wasm_hash)
    }

    /// Schedules the change of admin to `new_admin`, effective once the
    /// signer change delay has passed after `now`.
    pub fn propose_admin_change(env: &mut TreasuryStorage, admin: Address, new_admin: Address, now: u64) -> (r:
        Result<(), TreasuryError>)
        requires
            old(env)@.wf(),
            admin_check(old(env)@, admin@) is None ==> now + old(env)@.delay() <= u64::MAX,
        ensures
            final(env)@.wf(),
            withdrawals_advance(old(env)@, final(env)@),
            proposals_advance(old(env)@, final(env)@),
            match admin_check(old(env)@, admin@) {
                Some(e) => r == Err::<(), TreasuryError>(e) && final(env)@ == old(env)@,
                None => r is Ok && final(env)@ == with_pending_admin_change(
                    old(env)@,
                    new_admin@,
                    now,
                ),
            },
    {
        proof {
            lemma_withdrawals_advance_refl(env@);
            lemma_proposals_advance_refl(env@);
        }
        Self::require_admin(env, &admin)?;
        let delay = get_signer_change_delay(env);
        let effective_at = now + delay;
        let pending_change = PendingAdminChange {
            new_admin,
            signer_set_version: get_signer_set_version(env),
            effective_at,
        };
        set_pending_admin_change(env, &pending_change);
        Ok(())
    }

    /// Makes the pending admin change take effect once its time has come at
    /// `now`, and returns the new admin.
    pub fn execute_admin_change(env: &mut TreasuryStorage, now: u64) -> (r: Result<Address, TreasuryError>)
        requires
            old(env)@.wf(),
        ensures
            final(env)@.wf(),
            withdrawals_advance(old(env)@, final(env)@),
            proposals_advance(old(env)@, final(env)@),
            match execute_admin_change_check(old(env)@, now) {
                Some(e) => r matches Err(e2) && e2 == e && final(env)@ == old(env)@,
                None => {
                    let new_admin = old(env)@.pending_admin_change->0.new_admin;
                    &&& r matches Ok(a) && a@ == new_admin
                    &&& final(env)@ == (TreasuryModel {
                        admin: Some(new_admin),
                        pending_admin_change: None,
                        ..old(env)@
                    })
                },
            },
    {
        proof {
            lemma_withdrawals_advance_refl(env@);
            lemma_proposals_advance_refl(env@);
        }
        Self::require_initialized(env)?;
        let pending = match get_pending_admin_change(env) {
            Some(p) => p,
            None => {
                return Err(TreasuryError::NoPendingAdminChange);
            },
        };
        if now < pending.effective_at {
            return Err(TreasuryError::TimelockNotExpired);
        }
        set_admin(env, &pending.new_admin);
        clear_pending_admin_change(env);
        assert(env@ =~= (TreasuryModel {
            admin: Some(pending.new_admin@),
            pending_admin_change: None,
            ..old(env)@
        }));
        Ok(pending.new_admin)
    }

    /// Cancels the pending admin change, if any.
    pub fn cancel_admin_change(env: &mut TreasuryStorage, admin: Address) -> (r: Result<(), TreasuryError>)
        requires
            old(env)@.wf(),
        ensures
            final(env)@.wf(),
            withdrawals_advance(old(env)@, final(env)@),
            proposals_advance(old(env)@, final(env)@),
            match admin_check(old(env)@, admin@) {
                Some(e) => r == Err::<(), TreasuryError>(e) && final(env)@ == old(env)@,
                None => r is Ok && final(env)@ == (TreasuryModel {
                    pending_admin_change: None,
                    ..old(env)@
                }),
            },
    {
        proof {
            lemma_withdrawals_advance_refl(env@);
            lemma_proposals_advance_refl(env@);
        }
        Self::require_admin(env, &admin)?;
        clear_pending_admin_change(env);
        Ok(())
    }

    /// Records the admin's timelocked proposal to add `new_signer` and returns
    /// its identifier.
    pub fn propose_signer_add(env: &mut TreasuryStorage, admin: Address, new_signer: Address, now: u64) -> (r:
        Result<u32, TreasuryError>)
        requires
            old(env)@.wf(),
            propose_signer_add_check(old(env)@, admin@, new_signer@) is None
                ==> old(env)@.upgrade_total() < u32::MAX,
        ensures
            final(env)@.wf(),
            withdrawals_advance(old(env)@, final(env)@),
            proposals_advance(old(env)@, final(env)@),
            match propose_signer_add_check(old(env)@, admin@, new_signer@) {
                Some(e) => r == Err::<u32, TreasuryError>(e) && final(env)@ == old(env)@,
                None => r == Ok::<u32, TreasuryError>(old(env)@.upgrade_total()) && final(env)@
                    == with_new_proposal(
                    old(env)@,
                    new_proposal(
                        old(env)@,
                        admin@,
                        zero_hash(),
                        "sa"@,
                        UpgradeStatus::PendingSignerChange,
                        now,
                    ),
                ),
            },
    {
        Self::require_admin(env, &admin)?;
        let signers = get_signers(env);
        if contains_address(&signers, &new_signer) {
            return Err(TreasuryError::AlreadyASigner);
        }
        let id = Self::record_proposal(
            env,
            admin,
            zero_wasm_hash(),
            String::from_str("sa"),
            UpgradeStatus::PendingSignerChange,
            now,
        );
        Ok(id)
    }

    /// Records the admin's timelocked proposal to remove `signer` and returns
    /// its identifier.
    pub fn schedule_signer_remove(env: &mut TreasuryStorage, admin: Address, signer: Address, now: u64) -> (r:
        Result<u32, TreasuryError>)
        requires
            old(env)@.wf(),
            schedule_signer_remove_check(old(env)@, admin@, signer@) is None
                ==> old(env)@.upgrade_total() < u32::MAX,
        ensures
            final(env)@.wf(),
            withdrawals_advance(old(env)@, final(env)@),
            proposals_advance(old(env)@, final(env)@),
            match schedule_signer_remove_check(old(env)@, admin@, signer@) {
                Some(e) => r == Err::<u32, TreasuryError>(e) && final(env)@ == old(env)@,
                None => r == Ok::<u32, TreasuryError>(old(env)@.upgrade_total()) && final(env)@
                    == with_new_proposal(
                    old(env)@,
                    new_proposal(
                        old(env)@,
                        admin@,
                        zero_hash(),
                        "sr"@,
                        UpgradeStatus::PendingSignerChange,
                        now,
                    ),
                ),
            },
    {
        Self::require_admin(env, &admin)?;
        let signers = get_signers(env);
        let threshold = get_threshold(env);
        if !contains_address(&signers, &signer) {
            return Err(TreasuryError::NotASigner);
        }
        if signers.len() <= threshold as usize {
            return Err(TreasuryError::InvalidThreshold);
        }
        let id = Self::record_proposal(
            env,
            admin,
            zero_wasm_hash(),
            String::from_str("sr"),
            UpgradeStatus::PendingSignerChange,
            now,
        );
        Ok(id)
    }

    /// Checks that signer-change proposal `proposal_id` exists and that its
    /// timelock has expired at `now`.
    pub fn execute_signer_change(env: &TreasuryStorage, executor: Address, proposal_id: u32, now: u64) -> (r:
        Result<(), TreasuryError>)
        requires
            proposal_status_check(env@, proposal_id, UpgradeStatus::PendingSignerChange) is None
                ==> env@.upgrades[proposal_id as int].created_at + env@.delay() <= u64::MAX,
        ensures
            r == match execute_signer_change_check(env@, proposal_id, now) {
                Some(e) => Err(e),
                None => Ok::<(), TreasuryError>(()),
            },
    {
        Self::require_initialized(env)?;
        let proposal = match get_upgrade_proposal(env, proposal_id) {
            Some(p) => p,
            None => {
                return Err(TreasuryError::UpgradeProposalNotFound);
            },
        };
        if proposal.status != UpgradeStatus::PendingSignerChange {
            return Err(TreasuryError::UpgradeProposalNotPending);
        }
        let delay = get_signer_change_delay(env);
        if now < proposal.created_at + delay {
            return Err(TreasuryError::TimelockNotExpired);
        }
        Ok(())
    }

    /// Records signer `proposer`'s emergency admin-change proposal and returns
    /// its identifier.
    pub fn propose_emergency_admin_change(
        env: &mut TreasuryStorage,
        proposer: Address,
        new_admin: Address,
        now: u64,
    ) -> (r: Result<u32, TreasuryError>)
        requires
            old(env)@.wf(),
            signer_proposal_check(old(env)@, proposer@) is None ==> old(env)@.upgrade_total()
                < u32::MAX,
        ensures
            final(env)@.wf(),
            withdrawals_advance(old(env)@, final(env)@),
            proposals_advance(old(env)@, final(env)@),
            match signer_proposal_check(old(env)@, proposer@) {
                Some(e) => r == Err::<u32, TreasuryError>(e) && final(env)@ == old(env)@,
                None => r == Ok::<u32, TreasuryError>(old(env)@.upgrade_total()) && final(env)@
                    == with_new_proposal(
                    old(env)@,
                    new_proposal(
                        old(env)@,
                        proposer@,
                        zero_hash(),
                        "eac"@,
                        initial_status(old(env)@),
                        now,
                    ),
                ),
            },
    {
        Self::propose_by_signer(env, proposer, zero_wasm_hash(), String::from_str("eac"), now)
    }

    /// Makes `executor` the admin on the authority of approved proposal
    /// `proposal_id`, whose proposer must still be a signer.
    pub fn execute_emergency_admin_change(env: &mut TreasuryStorage, executor: Address, proposal_id: u32) -> (r:
        Result<(), TreasuryError>)
        requires
            old(env)@.wf(),
        ensures
            final(env)@.wf(),
            withdrawals_advance(old(env)@, final(env)@),
            proposals_advance(old(env)@, final(env)@),
            match execute_emergency_admin_change_check(old(env)@, proposal_id) {
                Some(e) => r == Err::<(), TreasuryError>(e) && final(env)@ == old(env)@,
                None => r is Ok && final(env)@ == (TreasuryModel {
                    admin: Some(executor@),
                    ..old(env)@
                }),
            },
    {
        proof {
            lemma_withdrawals_advance_refl(env@);
            lemma_proposals_advance_refl(env@);
        }
        Self::require_initialized(env)?;
        let proposal = match get_upgrade_proposal(env, proposal_id) {
            Some(p) => p,
            None => {
                return Err(TreasuryError::UpgradeProposalNotFound);
            },
        };
        if proposal.status != UpgradeStatus::Approved {
            return Err(TreasuryError::UpgradeProposalNotPending);
        }
        let signers = get_signers(env);
        if !contains_address(&signers, &proposal.proposer) {
            return Err(TreasuryError::Unauthorized);
        }
        set_admin(env, &executor);
        Ok(())
    }

    /// Sets the timelock delay for signer and admin changes.
    pub fn update_signer_change_delay(env: &mut TreasuryStorage, admin: Address, new_delay: u64) -> (r:
        Result<(), TreasuryError>)
        requires
            old(env)@.wf(),
        ensures
            final(env)@.wf(),
            withdrawals_advance(old(env)@, final(env)@),
            proposals_advance(old(env)@, final(env)@),
            match update_delay_check(old(env)@, admin@, new_delay) {
                Some(e) => r == Err::<(), TreasuryError>(e) && final(env)@ == old(env)@,
                None => r is Ok && final(env)@ == (TreasuryModel {
                    signer_change_delay: Some(new_delay),
                    ..old(env)@
                }),
            },
    {
        proof {
            lemma_withdrawals_advance_refl(env@);
            lemma_proposals_advance_refl(env@);
        }
        Self::require_admin(env, &admin)?;
        if new_delay < MIN_SIGNER_CHANGE_DELAY {
            return Err(TreasuryError::InvalidTimelock);
        }
        set_signer_change_delay(env, new_delay);
        Ok(())
    }

    // ── Query functions ──────────────────────────────────────────────

    /// The admin address.
    pub fn get_admin(env: &TreasuryStorage) -> (r: Result<Address, TreasuryError>)
        requires
            env@.wf(),
        ensures
            match r {
                Ok(a) => env@.admin == Some(a@),
                Err(e) => e == TreasuryError::NotInitialized && !env@.initialized(),
            },
    {
        Self::require_initialized(env)?;
        Ok(get_admin(env))
    }

    /// The current signers.
    pub fn get_signers(env: &TreasuryStorage) -> (r: Result<Vec<Address>, TreasuryError>)
        requires
            env@.wf(),
        ensures
            match r {
                Ok(s) => env@.initialized() && env@.signers == Some(s.deep_view()),
                Err(e) => e == TreasuryError::NotInitialized && !env@.initialized(),
            },
    {
        Self::require_initialized(env)?;
        Ok(get_signers(env))
    }

    /// The number of approvals a withdrawal needs.
    pub fn get_threshold(env: &TreasuryStorage) -> (r: Result<u32, TreasuryError>)
        requires
            env@.wf(),
        ensures
            match r {
                Ok(t) => env@.initialized() && env@.threshold == Some(t),
                Err(e) => e == TreasuryError::NotInitialized && !env@.initialized(),
            },
    {
        Self::require_initialized(env)?;
        Ok(get_threshold(env))
    }

    /// Withdrawal request `proposal_id`.
    pub fn get_withdrawal(env: &TreasuryStorage, proposal_id: u32) -> (r: Result<WithdrawalRequest, TreasuryError>)
        ensures
            match r {
                Ok(w) => proposal_id < env@.withdrawals.len() && w@ == env@.withdrawals[proposal_id as int],
                Err(e) => e == TreasuryError::ProposalNotFound && proposal_id >= env@.withdrawals.len(),
            },
    {
        match get_withdrawal(env, proposal_id) {
            Some(w) => Ok(w),
            None => Err(TreasuryError::ProposalNotFound),
        }
    }

    /// The number of withdrawal requests created.
    pub fn get_proposal_count(env: &TreasuryStorage) -> (r: Result<u32, TreasuryError>)
        requires
            env@.wf(),
        ensures
            match r {
                Ok(c) => env@.initialized() && c == env@.withdrawals.len(),
                Err(e) => e == TreasuryError::NotInitialized && !env@.initialized(),
            },
    {
        Self::require_initialized(env)?;
        Ok(get_proposal_count(env))
    }

    /// The admin, signers, threshold, withdrawal count and pause flag.
    pub fn get_config(env: &TreasuryStorage) -> (r: Result<TreasuryConfig, TreasuryError>)
        requires
            env@.wf(),
        ensures
            match r {
                Ok(c) => {
                    &&& env@.initialized()
                    &&& env@.admin == Some(c.admin@)
                    &&& env@.signers == Some(c.signers.deep_view())
                    &&& env@.threshold == Some(c.threshold)
                    &&& c.proposal_count == env@.withdrawals.len()
                    &&& c.paused == env@.paused()
                },
                Err(e) => e == TreasuryError::NotInitialized && !env@.initialized(),
            },
    {
        Self::require_initialized(env)?;
        Ok(
            TreasuryConfig {
                admin: get_admin(env),
                signers: get_signers(env),
                threshold: get_threshold(env),
                proposal_count: get_proposal_count(env),
                paused: is_paused(env),
            },
        )
    }

    /// The pause state.
    pub fn get_pause_state(env: &TreasuryStorage) -> (r: Result<PauseState, TreasuryError>)
        ensures
            match r {
                Ok(p) => env@.initialized() && p == env@.pause(),
                Err(e) => e == TreasuryError::NotInitialized && !env@.initialized(),
            },
    {
        Self::require_initialized(env)?;
        Ok(get_pause_state(env))
    }

    /// The pending admin change.
    pub fn get_pending_admin_change(env: &TreasuryStorage) -> (r: Result<PendingAdminChange, TreasuryError>)
        ensures
            match r {
                Ok(p) => env@.initialized() && env@.pending_admin_change == Some(p@),
                Err(e) => if !env@.initialized() {
                    e == TreasuryError::NotInitialized
                } else {
                    e == TreasuryError::NoPendingAdminChange && env@.pending_admin_change is None
                },
            },
    {
        Self::require_initialized(env)?;
        match get_pending_admin_change(env) {
            Some(p) => Ok(p),
            None => Err(TreasuryError::NoPendingAdminChange),
        }
    }

    /// Proposal `proposal_id` (upgrade, pause, unpause, signer change or
    /// emergency admin change).
    pub fn get_upgrade_proposal(env: &TreasuryStorage, proposal_id: u32) -> (r: Result<UpgradeProposal, TreasuryError>)
        ensures
            match r {
                Ok(p) => env@.initialized() && proposal_id < env@.upgrades.len() && p@
                    == env@.upgrades[proposal_id as int],
                Err(e) => if !env@.initialized() {
                    e == TreasuryError::NotInitialized
                } else {
                    e == TreasuryError::UpgradeProposalNotFound && proposal_id >= env@.upgrades.len()
                },
            },
    {
        Self::require_initialized(env)?;
        match get_upgrade_proposal(env, proposal_id) {
            Some(p) => Ok(p),
            None => Err(TreasuryError::UpgradeProposalNotFound),
        }
    }

    /// The timelock delay for signer and admin changes.
    pub fn get_signer_change_delay(env: &TreasuryStorage) -> (r: Result<u64, TreasuryError>)
        ensures
            match r {
                Ok(d) => env@.initialized() && d == env@.delay(),
                Err(e) => e == TreasuryError::NotInitialized && !env@.initialized(),
            },
    {
        Self::require_initialized(env)?;
        Ok(get_signer_change_delay(env))
    }

    /// The number of proposals recorded.
    pub fn get_upgrade_count(env: &TreasuryStorage) -> (r: Result<u32, TreasuryError>)
        ensures
            match r {
                Ok(c) => env@.initialized() && c == env@.upgrade_total(),
                Err(e) => e == TreasuryError::NotInitialized && !env@.initialized(),
            },
    {
        Self::require_initialized(env)?;
        Ok(get_upgrade_count(env))
    }
}

} // verus!
