//! Properties of the treasury that span several entry points.

use vstd::prelude::*;

use crate::treasury::contract::{
    after_pause_proposal,
    after_approval, approval_completes, approve_proposal_check, approve_withdrawal_check,
    approved_withdrawal, create_withdrawal_check, deposit_check, execute_admin_change_check,
    execute_signer_change_check, execute_withdrawal_check, initialize_check, initialized_state,
    new_proposal, new_withdrawal, remove_signer_check, with_new_withdrawal, signer_proposal_check, update_threshold_check,
    with_new_proposal, with_pending_admin_change, with_signer_set, with_withdrawal, zero_hash,
    add_signer_check, admin_check, may_approve_withdrawal, update_delay_check,
    execute_emergency_admin_change_check,
};
use crate::address::{lemma_filter_out_unique, remove_all};
use crate::treasury::errors::TreasuryError;
use crate::treasury::storage::{TreasuryModel, MIN_SIGNER_CHANGE_DELAY};
use crate::treasury::types::{PauseState, UpgradeStatus, WithdrawalStatus};

verus! {

/// A treasury can be initialized only once: after a successful
/// `initialize`, every further `initialize` fails with `AlreadyInitialized`.
pub proof fn lemma_initialize_once(
    s: TreasuryModel,
    admin: Seq<char>,
    signers: Seq<Seq<char>>,
    threshold: u32,
    signers2: Seq<Seq<char>>,
    threshold2: u32,
)
    requires
        s.wf(),
        initialize_check(s, signers, threshold) is None,
    ensures
        initialize_check(initialized_state(s, admin, signers, threshold), signers2, threshold2)
            == Some(TreasuryError::AlreadyInitialized),
{
}

/// While the treasury is paused, deposits and every step of a withdrawal
/// (creation, approval, execution) are refused with `Paused`.
pub proof fn lemma_pause_blocks_transfers(
    s: TreasuryModel,
    who: Seq<char>,
    amount: i128,
    id: u32,
    balance: i128,
)
    requires
        s.wf(),
        s.initialized(),
        s.paused(),
    ensures
        deposit_check(s, amount) == Some(TreasuryError::Paused),
        create_withdrawal_check(s, who, amount) == Some(TreasuryError::Paused),
        approve_withdrawal_check(s, who, id) == Some(TreasuryError::Paused),
        execute_withdrawal_check(s, id, balance) == Some(TreasuryError::Paused),
{
}

/// Approving a pause or unpause proposal changes only the proposal and the
/// pause state: no withdrawal request, signer, threshold or admin changes, so
/// pausing never moves or reassigns funds.
pub proof fn lemma_pause_control_keeps_funds(
    s: TreasuryModel,
    signer: Seq<char>,
    id: u32,
    p: PauseState,
)
    requires
        s.wf(),
        approve_proposal_check(s, signer, id) is None,
    ensures
        after_approval(s, signer, id, Some(p)).withdrawals == s.withdrawals,
        after_approval(s, signer, id, Some(p)).signers == s.signers,
        after_approval(s, signer, id, Some(p)).threshold == s.threshold,
        after_approval(s, signer, id, Some(p)).admin == s.admin,
{
}

/// The approval that completes an unpause proposal lifts the pause: deposits
/// and withdrawals are no longer refused with `Paused`.
pub proof fn lemma_unpause_resumes(s: TreasuryModel, signer: Seq<char>, id: u32, who: Seq<char>, amount: i128)
    requires
        s.wf(),
        approve_proposal_check(s, signer, id) is None,
        approval_completes(s, signer, id),
    ensures
        !after_approval(s, signer, id, Some(PauseState::Unpaused)).paused(),
        deposit_check(after_approval(s, signer, id, Some(PauseState::Unpaused)), amount) != Some(
            TreasuryError::Paused,
        ),
        create_withdrawal_check(after_approval(s, signer, id, Some(PauseState::Unpaused)), who, amount)
            != Some(TreasuryError::Paused),
{
}

/// A signer cannot approve the same withdrawal request twice: once an
/// approval by `signer` has been recorded, a second one is refused.
pub proof fn lemma_withdrawal_approved_once(s: TreasuryModel, signer: Seq<char>, id: u32)
    requires
        s.wf(),
        approve_withdrawal_check(s, signer, id) is None,
    ensures
        approve_withdrawal_check(
            with_withdrawal(s, id, approved_withdrawal(s.withdrawals[id as int], signer, s.threshold->0)),
            signer,
            id,
        ) is Some,
{
    let s2 = with_withdrawal(s, id, approved_withdrawal(s.withdrawals[id as int], signer, s.threshold->0));
    let w2 = s2.withdrawals[id as int];
    assert(w2.approvals[w2.approvals.len() - 1] == signer);
    assert(w2.approvals.contains(signer));
}

/// A signer cannot approve the same proposal twice.
pub proof fn lemma_proposal_approved_once(s: TreasuryModel, signer: Seq<char>, id: u32, p: Option<PauseState>)
    requires
        s.wf(),
        approve_proposal_check(s, signer, id) is None,
    ensures
        approve_proposal_check(after_approval(s, signer, id, p), signer, id) is Some,
{
    let s2 = after_approval(s, signer, id, p);
    let p2 = s2.upgrades[id as int];
    assert(p2.approvals[p2.approvals.len() - 1] == signer);
    assert(p2.approvals.contains(signer));
}

/// Adding or removing a signer leaves every withdrawal request as it was,
/// including the signer set version it was created under, and advances the
/// signer set version by one.
pub proof fn lemma_signer_change_keeps_withdrawals(s: TreasuryModel, signers: Seq<Seq<char>>)
    requires
        s.wf(),
        s.initialized(),
        s.signer_set_version->0 < u32::MAX,
    ensures
        with_signer_set(s, signers).withdrawals == s.withdrawals,
        with_signer_set(s, signers).signer_set_version == Some((s.signer_set_version->0 + 1) as u32),
{
}

/// An admin change scheduled at time `t` cannot take effect before
/// `t + MIN_SIGNER_CHANGE_DELAY`.
pub proof fn lemma_admin_change_timelock(s: TreasuryModel, new_admin: Seq<char>, t: u64, now: u64)
    requires
        s.wf(),
        s.initialized(),
        t + s.delay() <= u64::MAX,
        now < t + MIN_SIGNER_CHANGE_DELAY,
    ensures
        execute_admin_change_check(with_pending_admin_change(s, new_admin, t), now) == Some(
            TreasuryError::TimelockNotExpired,
        ),
{
}

/// A signer change scheduled at time `t` cannot be executed before
/// `t + MIN_SIGNER_CHANGE_DELAY`.
pub proof fn lemma_signer_change_timelock(
    s: TreasuryModel,
    admin: Seq<char>,
    description: Seq<char>,
    t: u64,
    now: u64,
)
    requires
        s.wf(),
        s.initialized(),
        s.upgrade_total() < u32::MAX,
        now < t + MIN_SIGNER_CHANGE_DELAY,
    ensures
        ({
            let s2 = with_new_proposal(
                s,
                new_proposal(s, admin, zero_hash(), description, UpgradeStatus::PendingSignerChange, t),
            );
            execute_signer_change_check(s2, s.upgrade_total(), now) == Some(
                TreasuryError::TimelockNotExpired,
            )
        }),
{
}

/// Pause control is reserved to signers: a proposal to pause or unpause by
/// an address that is not a signer is refused with `NotASigner`, and so is
/// its approval of a pending proposal.
pub proof fn lemma_pause_control_signers_only(s: TreasuryModel, who: Seq<char>, id: u32)
    requires
        s.wf(),
        s.initialized(),
        !s.is_signer(who),
    ensures
        signer_proposal_check(s, who) == Some(TreasuryError::NotASigner),
        id < s.upgrades.len() && s.upgrades[id as int].status == UpgradeStatus::Pending
            ==> approve_proposal_check(s, who, id) == Some(TreasuryError::NotASigner),
        approve_proposal_check(s, who, id) is Some,
{
}

/// A pause does not block signer management or pause control: while the
/// treasury is paused, adding or removing a signer, changing the threshold,
/// proposing a pause, unpause or upgrade, and approving a proposal are never
/// refused with `Paused`.
pub proof fn lemma_pause_keeps_management_open(
    s: TreasuryModel,
    admin: Seq<char>,
    who: Seq<char>,
    id: u32,
    threshold: u32,
)
    requires
        s.wf(),
        s.paused(),
    ensures
        add_signer_check(s, admin, who) != Some(TreasuryError::Paused),
        remove_signer_check(s, admin, who) != Some(TreasuryError::Paused),
        update_threshold_check(s, admin, threshold) != Some(TreasuryError::Paused),
        signer_proposal_check(s, who) != Some(TreasuryError::Paused),
        approve_proposal_check(s, who, id) != Some(TreasuryError::Paused),
{
}

/// With a threshold of two or more, a signer cannot move funds alone: the
/// request they create is pending and cannot be executed, and their own
/// second approval of it is refused with `AlreadyApproved`.
pub proof fn lemma_single_signer_cannot_withdraw_alone(
    s: TreasuryModel,
    signer: Seq<char>,
    token: Seq<char>,
    recipient: Seq<char>,
    amount: i128,
    memo: Seq<char>,
    now: u64,
    balance: i128,
)
    requires
        s.wf(),
        s.threshold->0 >= 2,
        create_withdrawal_check(s, signer, amount) is None,
    ensures
        ({
            let w = new_withdrawal(s, signer, token, recipient, amount, memo, now);
            let s1 = with_new_withdrawal(s, w);
            let id = s.proposal_count->0;
            &&& s1.withdrawals[id as int].status == WithdrawalStatus::Pending
            &&& execute_withdrawal_check(s1, id, balance) == Some(TreasuryError::ProposalNotApproved)
            &&& approve_withdrawal_check(s1, signer, id) == Some(TreasuryError::AlreadyApproved)
        }),
{
    let w = new_withdrawal(s, signer, token, recipient, amount, memo, now);
    assert(w.approvals[0] == signer);
    assert(w.approvals.contains(signer));
}

/// A pause or unpause proposal whose proposer's approval already meets the
/// threshold takes effect at once: with a threshold of one, proposing an
/// unpause lifts the pause (deposits and withdrawals are no longer refused
/// with `Paused`), and proposing a pause pauses the treasury.
pub proof fn lemma_single_approval_pause_control(
    s: TreasuryModel,
    proposer: Seq<char>,
    reason: Seq<char>,
    now: u64,
    who: Seq<char>,
    amount: i128,
)
    requires
        s.wf(),
        s.threshold->0 == 1,
        signer_proposal_check(s, proposer) is None,
    ensures
        !after_pause_proposal(s, proposer, reason, now, PauseState::Unpaused).paused(),
        deposit_check(after_pause_proposal(s, proposer, reason, now, PauseState::Unpaused), amount)
            != Some(TreasuryError::Paused),
        create_withdrawal_check(
            after_pause_proposal(s, proposer, reason, now, PauseState::Unpaused),
            who,
            amount,
        ) != Some(TreasuryError::Paused),
        after_pause_proposal(s, proposer, reason, now, PauseState::Paused).paused(),
{
}

/// Every state the treasury passes through keeps its signer set valid: the
/// signers are pairwise distinct and the threshold lies between one and the
/// number of signers. Every entry point requires and ensures `wf`; here is
/// what `wf` gives for the signer set, and that a removal the contract
/// accepts leaves at least as many signers as the threshold.
pub proof fn lemma_signer_set_valid(s: TreasuryModel, admin: Seq<char>, signer: Seq<char>)
    requires
        s.wf(),
        s.initialized(),
    ensures
        s.signer_list().no_duplicates(),
        1 <= s.threshold->0 <= s.signer_list().len(),
        remove_signer_check(s, admin, signer) is None ==> remove_all(s.signer_list(), signer).len()
            >= s.threshold->0,
{
    if remove_signer_check(s, admin, signer) is None {
        lemma_filter_out_unique(s.signer_list(), signer);
    }
}

/// Any current signer of an initialized, unpaused treasury may file a
/// withdrawal request with a positive amount, whatever requests already
/// exist: the request is stored under the next identifier (the number of
/// requests so far) with the given terms, the proposer as its only approval,
/// the current signer set version, and approved at once exactly when the
/// threshold is one; every earlier request stays as it was.
pub proof fn lemma_signer_files_withdrawal(
    s: TreasuryModel,
    proposer: Seq<char>,
    token: Seq<char>,
    recipient: Seq<char>,
    amount: i128,
    memo: Seq<char>,
    now: u64,
)
    requires
        s.wf(),
        s.admin is Some,
        s.pause_state != Some(PauseState::Paused),
        s.signers->0.contains(proposer),
        amount > 0,
    ensures
        create_withdrawal_check(s, proposer, amount) is None,
        s.proposal_count == Some(s.withdrawals.len() as u32),
        ({
            let s2 = with_new_withdrawal(s, new_withdrawal(s, proposer, token, recipient, amount, memo, now));
            let w = s2.withdrawals[s.withdrawals.len() as int];
            &&& s2.withdrawals.len() == s.withdrawals.len() + 1
            &&& forall|j: int| 0 <= j < s.withdrawals.len() ==> s2.withdrawals[j] == s.withdrawals[j]
            &&& w.id == s.withdrawals.len()
            &&& w.proposer == proposer && w.token == token && w.recipient == recipient
            &&& w.amount == amount && w.memo == memo && w.created_at == now
            &&& w.approvals == seq![proposer]
            &&& w.signer_set_version == s.signer_set_version->0
            &&& (w.status == WithdrawalStatus::Approved <==> s.threshold->0 == 1)
            &&& (w.status == WithdrawalStatus::Pending <==> s.threshold->0 != 1)
            &&& s2.signers == s.signers && s2.threshold == s.threshold
            &&& s2.pause_state == s.pause_state && s2.admin == s.admin
        }),
{
}

/// Approving a proposal records the approval and approves the proposal
/// exactly when the approvals then reach the threshold. For a pause or
/// unpause proposal, that same approval, and only it, moves the treasury to
/// the proposal's pause state; an approval that leaves the count below the
/// threshold keeps the proposal pending and the pause state as it was.
pub proof fn lemma_pause_approval_applies_at_threshold(
    s: TreasuryModel,
    signer: Seq<char>,
    id: u32,
    p: PauseState,
)
    requires
        s.wf(),
        approve_proposal_check(s, signer, id) is None,
    ensures
        ({
            let before = s.upgrades[id as int];
            let s2 = after_approval(s, signer, id, Some(p));
            let reached = before.approvals.len() + 1 >= s.threshold->0;
            &&& s2.upgrades[id as int].approvals == before.approvals.push(signer)
            &&& s2.pause_state == if reached { Some(p) } else { s.pause_state }
            &&& s2.upgrades[id as int].status == if reached {
                UpgradeStatus::Approved
            } else {
                UpgradeStatus::Pending
            }
            &&& s2.withdrawals == s.withdrawals
            &&& s2.upgrades.len() == s.upgrades.len()
            &&& forall|j: int| 0 <= j < s.upgrades.len() && j != id ==> s2.upgrades[j] == s.upgrades[j]
        }),
        ({
            let s3 = after_approval(s, signer, id, None);
            &&& s3.pause_state == s.pause_state
            &&& s3.upgrades[id as int].approvals == s.upgrades[id as int].approvals.push(signer)
            &&& s3.upgrades[id as int].status == if s.upgrades[id as int].approvals.len() + 1
                >= s.threshold->0 {
                UpgradeStatus::Approved
            } else {
                UpgradeStatus::Pending
            }
            &&& s3.upgrades[id as int].wasm_hash == s.upgrades[id as int].wasm_hash
            &&& s3.admin == s.admin && s3.signers == s.signers
        }),
{
}

/// Approving a withdrawal request records the approval after the earlier
/// ones and approves the request exactly when the approvals then reach the
/// threshold; its terms stay as they were. A signer of the request's signer
/// set who has not approved a pending request may approve it.
pub proof fn lemma_withdrawal_approval_at_threshold(s: TreasuryModel, signer: Seq<char>, id: u32)
    requires
        s.wf(),
        s.admin is Some,
        s.pause_state != Some(PauseState::Paused),
        id < s.withdrawals.len(),
        s.signer_sets[s.withdrawals[id as int].signer_set_version as int].contains(signer),
        s.withdrawals[id as int].status == WithdrawalStatus::Pending,
        !s.withdrawals[id as int].approvals.contains(signer),
    ensures
        approve_withdrawal_check(s, signer, id) is None,
        ({
            let w = s.withdrawals[id as int];
            let w2 = approved_withdrawal(w, signer, s.threshold->0);
            &&& w2.approvals == w.approvals.push(signer)
            &&& (w2.status == WithdrawalStatus::Approved <==> w.approvals.len() + 1 >= s.threshold->0)
            &&& (w2.status == WithdrawalStatus::Pending <==> w.approvals.len() + 1 < s.threshold->0)
            &&& w2.id == w.id && w2.proposer == w.proposer && w2.token == w.token
            &&& w2.recipient == w.recipient && w2.amount == w.amount && w2.memo == w.memo
            &&& w2.signer_set_version == w.signer_set_version && w2.created_at == w.created_at
        }),
{
}

/// Executing a withdrawal request succeeds exactly for an existing approved
/// request of an initialized, unpaused treasury that holds at least its
/// amount, and then marks the request executed and nothing else.
pub proof fn lemma_execute_withdrawal_pays_approved(s: TreasuryModel, id: u32, balance: i128)
    requires
        s.wf(),
    ensures
        execute_withdrawal_check(s, id, balance) is None <==> {
            &&& s.admin is Some
            &&& s.pause_state != Some(PauseState::Paused)
            &&& id < s.withdrawals.len()
            &&& s.withdrawals[id as int].status == WithdrawalStatus::Approved
            &&& balance >= s.withdrawals[id as int].amount
        },
{
}

/// Deposits are accepted exactly on an initialized, unpaused treasury and
/// for a positive amount.
pub proof fn lemma_deposit_accepted(s: TreasuryModel, amount: i128)
    ensures
        deposit_check(s, amount) is None <==> (s.admin is Some && s.pause_state != Some(PauseState::Paused)
            && amount > 0),
{
}

/// A threshold change by the admin is accepted exactly when the new
/// threshold lies between one and the number of signers.
pub proof fn lemma_threshold_change_in_range(s: TreasuryModel, admin: Seq<char>, t: u32)
    requires
        s.wf(),
        s.admin == Some(admin),
    ensures
        update_threshold_check(s, admin, t) is None <==> (1 <= t && t <= s.signers->0.len()),
{
}

/// Adding a signer appends them to the signer set and records the new set
/// under the next version; it is accepted from the admin exactly for an
/// address that is not yet a signer. Removing one keeps the other signers in
/// order and is accepted from the admin exactly for a current signer while
/// more signers than the threshold remain.
pub proof fn lemma_signer_set_changes(s: TreasuryModel, admin: Seq<char>, a: Seq<char>)
    requires
        s.wf(),
        s.admin == Some(admin),
        s.signer_set_version->0 < u32::MAX,
    ensures
        add_signer_check(s, admin, a) is None <==> !s.signers->0.contains(a),
        remove_signer_check(s, admin, a) is None <==> (s.signers->0.contains(a) && s.signers->0.len()
            > s.threshold->0),
        ({
            let s2 = with_signer_set(s, s.signers->0.push(a));
            &&& s2.signers == Some(s.signers->0.push(a))
            &&& s2.signer_set_version == Some((s.signer_set_version->0 + 1) as u32)
            &&& s2.signer_sets.last() == s.signers->0.push(a)
            &&& s2.signer_sets.drop_last() == s.signer_sets
            &&& s2.withdrawals == s.withdrawals && s2.threshold == s.threshold
        }),
{
    let s2 = with_signer_set(s, s.signers->0.push(a));
    assert(s2.signer_sets.drop_last() =~= s.signer_sets);
}

/// A scheduled admin change takes effect exactly once its effective time
/// has come, and hands the admin role to the scheduled address.
pub proof fn lemma_admin_change_takes_effect(s: TreasuryModel, new_admin: Seq<char>, t: u64, now: u64)
    requires
        s.wf(),
        s.admin is Some,
        t + s.delay() <= u64::MAX,
    ensures
        ({
            let s2 = with_pending_admin_change(s, new_admin, t);
            &&& s2.pending_admin_change->0.new_admin == new_admin
            &&& s2.pending_admin_change->0.effective_at == t + s.delay()
            &&& (execute_admin_change_check(s2, now) is None <==> now >= t + s.delay())
            &&& s2.admin == s.admin
        }),
{
}

/// Initialization is accepted exactly on an uninitialized treasury, with a
/// threshold between one and the number of signers and no signer listed
/// twice; it stores the admin and signers, the threshold, zero requests,
/// signer set version zero with the given signers as its set, the unpaused
/// state and the default delay.
pub proof fn lemma_initialize_accepts_valid_setup(
    s: TreasuryModel,
    admin: Seq<char>,
    signers: Seq<Seq<char>>,
    t: u32,
)
    ensures
        initialize_check(s, signers, t) is None <==> (s.admin is None && 1 <= t && t <= signers.len()
            && signers.no_duplicates()),
        ({
            let s2 = initialized_state(s, admin, signers, t);
            &&& s2.admin == Some(admin)
            &&& s2.signers == Some(signers)
            &&& s2.threshold == Some(t)
            &&& s2.proposal_count == Some(0u32)
            &&& s2.signer_set_version == Some(0u32)
            &&& s2.signer_sets == seq![signers]
            &&& s2.pause_state == Some(PauseState::Unpaused)
            &&& s2.signer_change_delay == Some(crate::treasury::storage::DEFAULT_SIGNER_CHANGE_DELAY)
        }),
{
}

/// Signer-made proposals (pause, unpause, upgrade, emergency admin change)
/// are accepted exactly from a current signer of an initialized treasury,
/// and are recorded under the next identifier, approved by their proposer
/// alone, pending unless the threshold is one.
pub proof fn lemma_signer_proposals(
    s: TreasuryModel,
    proposer: Seq<char>,
    hash: Seq<u8>,
    description: Seq<char>,
    now: u64,
)
    requires
        s.wf(),
    ensures
        signer_proposal_check(s, proposer) is None <==> (s.admin is Some && s.signers->0.contains(proposer)),
        signer_proposal_check(s, proposer) is None ==> {
            let p = new_proposal(s, proposer, hash, description, crate::treasury::contract::initial_status(s), now);
            let s2 = with_new_proposal(s, p);
            &&& s2.upgrades.len() == s.upgrades.len() + 1
            &&& s2.upgrades[s.upgrades.len() as int] == p
            &&& p.id == s.upgrades.len()
            &&& p.proposer == proposer && p.wasm_hash == hash && p.description == description
            &&& p.approvals == seq![proposer]
            &&& p.created_at == now
            &&& (p.status == UpgradeStatus::Approved <==> s.threshold->0 == 1)
            &&& (p.status == UpgradeStatus::Pending <==> s.threshold->0 != 1)
            &&& forall|j: int| 0 <= j < s.upgrades.len() ==> s2.upgrades[j] == s.upgrades[j]
        },
{
}

/// A proposal approval is accepted exactly from a current signer who has
/// not yet approved an existing pending proposal of an initialized treasury.
pub proof fn lemma_proposal_approval_accepted(s: TreasuryModel, signer: Seq<char>, id: u32)
    requires
        s.wf(),
    ensures
        approve_proposal_check(s, signer, id) is None <==> {
            &&& s.admin is Some
            &&& id < s.upgrades.len()
            &&& s.upgrades[id as int].status == UpgradeStatus::Pending
            &&& s.signers->0.contains(signer)
            &&& !s.upgrades[id as int].approvals.contains(signer)
        },
{
}

/// A delay change by the admin is accepted exactly for a delay of at least
/// one day.
pub proof fn lemma_delay_change_floor(s: TreasuryModel, admin: Seq<char>, d: u64)
    requires
        s.admin == Some(admin),
    ensures
        update_delay_check(s, admin, d) is None <==> d >= MIN_SIGNER_CHANGE_DELAY,
{
}

/// A signer change scheduled by the admin can be executed exactly once its
/// delay has passed, and an emergency admin change exactly for an approved
/// proposal whose proposer is still a signer.
pub proof fn lemma_execution_conditions(s: TreasuryModel, id: u32, now: u64)
    requires
        s.wf(),
        s.admin is Some,
        id < s.upgrades.len(),
    ensures
        execute_signer_change_check(s, id, now) is None <==> (s.upgrades[id as int].status
            == UpgradeStatus::PendingSignerChange && now >= s.upgrades[id as int].created_at + s.delay()),
        execute_emergency_admin_change_check(s, id) is None <==> (s.upgrades[id as int].status
            == UpgradeStatus::Approved && s.signers->0.contains(s.upgrades[id as int].proposer)),
{
}

} // verus!
