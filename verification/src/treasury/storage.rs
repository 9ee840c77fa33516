//! The treasury's ledger storage: instance entries (admin, signers, counters,
//! pause state, timelock delay) and persistent entries (withdrawal requests,
//! upgrade proposals, the pending admin change).
//!
//! Withdrawal requests and upgrade proposals are keyed by their sequential
//! identifiers; entry `i` of `withdrawals` (of `upgrades`) is the request
//! (proposal) stored under identifier `i`.

use vstd::prelude::*;

use crate::address::{copy_addresses, opt_address, Address};
use crate::treasury::types::{
    PauseState, PendingAdminChange, PendingAdminChangeModel, UpgradeModel, UpgradeProposal,
    WithdrawalModel, WithdrawalRequest,
};

verus! {

/// Smallest timelock delay for signer and admin changes: one day in seconds.
pub const MIN_SIGNER_CHANGE_DELAY: u64 = 86400;

/// Timelock delay used until the admin sets another: seven days in seconds.
pub const DEFAULT_SIGNER_CHANGE_DELAY: u64 = 604800;

/// Ledgers closed per day.
pub const DAY_IN_LEDGERS: u32 = 17280;

/// TTL extension applied to instance storage: thirty days of ledgers.
pub const INSTANCE_BUMP_AMOUNT: u32 = 518400;

/// Remaining TTL below which instance storage is extended: twenty-nine days.
pub const INSTANCE_LIFETIME_THRESHOLD: u32 = 501120;

/// TTL extension applied to persistent entries: thirty days of ledgers.
pub const PERSISTENT_BUMP_AMOUNT: u32 = 518400;

/// Remaining TTL below which persistent entries are extended: twenty-nine days.
pub const PERSISTENT_LIFETIME_THRESHOLD: u32 = 501120;

/// Keys used to store data in the contract's ledger storage.
#[derive(Clone, Copy, Debug, PartialEq, Eq, Structural)]
pub enum DataKey {
    /// The admin address — stored in Instance storage.
    Admin,
    /// List of authorized signers — stored in Instance storage.
    Signers,
    /// The multi-sig approval threshold — stored in Instance storage.
    Threshold,
    /// Running count of withdrawal proposals — stored in Instance storage.
    ProposalCount,
    /// Signer set version — incremented on signer changes, stored in Instance storage.
    SignerSetVersion,
    /// Current pause state — stored in Instance storage.
    PauseState,
    /// Timelock delay for signer changes in seconds — stored in Instance storage.
    SignerChangeDelay,
    /// Pending admin change — stored in Persistent storage.
    PendingAdminChange,
    /// A specific withdrawal request — stored in Persistent storage.
    Withdrawal(u32),
    /// Upgrade proposal — stored in Persistent storage.
    Upgrade(u32),
    /// Upgrade proposal count — stored in Instance storage.
    UpgradeCount,
    /// The signer set of a signer set version — stored in Persistent storage.
    SignerSet(u32),
}

/// The treasury contract's storage. An absent entry is `None`.
pub struct TreasuryStorage {
    pub admin: Option<Address>,
    pub signers: Option<Vec<Address>>,
    pub threshold: Option<u32>,
    pub proposal_count: Option<u32>,
    pub signer_set_version: Option<u32>,
    pub pause_state: Option<PauseState>,
    pub signer_change_delay: Option<u64>,
    pub pending_admin_change: Option<PendingAdminChange>,
    pub withdrawals: Vec<WithdrawalRequest>,
    pub upgrade_count: Option<u32>,
    pub upgrades: Vec<UpgradeProposal>,
    pub signer_sets: Vec<Vec<Address>>,
}

/// The mathematical value of [`TreasuryStorage`].
#[verifier::ext_equal]
pub struct TreasuryModel {
    pub admin: Option<Seq<char>>,
    pub signers: Option<Seq<Seq<char>>>,
    pub threshold: Option<u32>,
    pub proposal_count: Option<u32>,
    pub signer_set_version: Option<u32>,
    pub pause_state: Option<PauseState>,
    pub signer_change_delay: Option<u64>,
    pub pending_admin_change: Option<PendingAdminChangeModel>,
    pub withdrawals: Seq<WithdrawalModel>,
    pub upgrade_count: Option<u32>,
    pub upgrades: Seq<UpgradeModel>,
    pub signer_sets: Seq<Seq<Seq<char>>>,
}

impl View for TreasuryStorage {
    type V = TreasuryModel;

    open spec fn view(&self) -> TreasuryModel {
        TreasuryModel {
            admin: opt_address(self.admin),
            signers: match self.signers {
                Some(s) => Some(s.deep_view()),
                None => None,
            },
            threshold: self.threshold,
            proposal_count: self.proposal_count,
            signer_set_version: self.signer_set_version,
            pause_state: self.pause_state,
            signer_change_delay: self.signer_change_delay,
            pending_admin_change: match self.pending_admin_change {
                Some(p) => Some(p@),
                None => None,
            },
            withdrawals: self.withdrawals@.map_values(|w: WithdrawalRequest| w@),
            upgrade_count: self.upgrade_count,
            upgrades: self.upgrades@.map_values(|u: UpgradeProposal| u@),
            signer_sets: self.signer_sets@.map_values(|v: Vec<Address>| v.deep_view()),
        }
    }
}

impl TreasuryModel {
    /// Whether the contract has been initialized (an admin is stored).
    pub open spec fn initialized(self) -> bool {
        self.admin is Some
    }

    /// The stored signer list (empty when absent).
    pub open spec fn signer_list(self) -> Seq<Seq<char>> {
        match self.signers {
            Some(s) => s,
            None => Seq::empty(),
        }
    }

    /// Whether `a` is one of the current signers.
    pub open spec fn is_signer(self, a: Seq<char>) -> bool {
        self.signer_list().contains(a)
    }

    /// Whether the stored admin is `a`.
    pub open spec fn is_admin(self, a: Seq<char>) -> bool {
        self.admin == Some(a)
    }

    /// The pause state, `Unpaused` when none is stored.
    pub open spec fn pause(self) -> PauseState {
        match self.pause_state {
            Some(p) => p,
            None => PauseState::Unpaused,
        }
    }

    /// Whether the treasury is paused.
    pub open spec fn paused(self) -> bool {
        self.pause() == PauseState::Paused
    }

    /// The timelock delay, the default when none is stored.
    pub open spec fn delay(self) -> u64 {
        match self.signer_change_delay {
            Some(d) => d,
            None => DEFAULT_SIGNER_CHANGE_DELAY,
        }
    }

    /// The number of upgrade proposals, zero when none is stored.
    pub open spec fn upgrade_total(self) -> u32 {
        match self.upgrade_count {
            Some(c) => c,
            None => 0,
        }
    }

    /// Well-formedness of the treasury storage.
    pub open spec fn wf(self) -> bool {
        &&& self.initialized() ==> {
            &&& self.signers is Some
            &&& self.threshold is Some
            &&& self.proposal_count is Some
            &&& self.signer_set_version is Some
            &&& 1 <= self.threshold->0 <= self.signers->0.len()
        }
        &&& self.initialized() ==> {
            &&& self.signer_sets.len() == self.signer_set_version->0 + 1
            &&& self.signer_sets.last() == self.signers->0
        }
        &&& !self.initialized() ==> self.withdrawals.len() == 0
        &&& self.signer_list().no_duplicates()
        &&& match self.proposal_count {
            Some(c) => c == self.withdrawals.len(),
            None => self.withdrawals.len() == 0,
        }
        &&& self.upgrade_total() == self.upgrades.len()
        &&& forall|i: int|
            0 <= i < self.withdrawals.len() ==> {
                &&& (#[trigger] self.withdrawals[i]).id == i
                &&& self.withdrawals[i].approvals.no_duplicates()
                &&& self.withdrawals[i].signer_set_version < self.signer_sets.len()
            }
        &&& forall|i: int|
            0 <= i < self.upgrades.len() ==> {
                &&& (#[trigger] self.upgrades[i]).id == i
                &&& self.upgrades[i].approvals.no_duplicates()
            }
        &&& self.delay() >= MIN_SIGNER_CHANGE_DELAY
    }
}

/// The storage of a freshly deployed treasury: no entry is stored.
pub open spec fn empty_treasury() -> TreasuryModel {
    TreasuryModel {
        admin: None,
        signers: None,
        threshold: None,
        proposal_count: None,
        signer_set_version: None,
        pause_state: None,
        signer_change_delay: None,
        pending_admin_change: None,
        withdrawals: Seq::empty(),
        upgrade_count: None,
        upgrades: Seq::empty(),
        signer_sets: Seq::empty(),
    }
}

impl TreasuryStorage {
    /// An empty storage: the state of a freshly deployed contract.
    pub fn new() -> (r: Self)
        ensures
            r@ == empty_treasury(),
            r@.wf(),
            !r@.initialized(),
            r@.withdrawals.len() == 0,
            r@.upgrades.len() == 0,
    {
        TreasuryStorage {
            admin: None,
            signers: None,
            threshold: None,
            proposal_count: None,
            signer_set_version: None,
            pause_state: None,
            signer_change_delay: None,
            pending_admin_change: None,
            withdrawals: Vec::new(),
            upgrade_count: None,
            upgrades: Vec::new(),
            signer_sets: Vec::new(),
        }
    }
}

// ── Admin helpers ────────────────────────────────────────────────

pub fn has_admin(env: &TreasuryStorage) -> (r: bool)
    ensures
        r == env@.initialized(),
{
    env.admin.is_some()
}

pub fn get_admin(env: &TreasuryStorage) -> (r: Address)
    requires
        env@.admin is Some,
    ensures
        Some(r@) == env@.admin,
{
    match &env.admin {
        Some(a) => a.clone(),
        None => String::new(),
    }
}

pub fn set_admin(env: &mut TreasuryStorage, admin: &Address)
    ensures
        final(env)@ == (TreasuryModel { admin: Some(admin@), ..old(env)@ }),
{
    env.admin = Some(admin.clone());
    assert(final(env)@ =~= (TreasuryModel { admin: Some(admin@), ..old(env)@ }));
}

// ── Signer helpers ───────────────────────────────────────────────

pub fn get_signers(env: &TreasuryStorage) -> (r: Vec<Address>)
    requires
        env@.signers is Some,
    ensures
        Some(r.deep_view()) == env@.signers,
{
    match &env.signers {
        Some(s) => copy_addresses(s),
        None => Vec::new(),
    }
}

pub fn set_signers(env: &mut TreasuryStorage, signers: &Vec<Address>)
    ensures
        final(env)@ == (TreasuryModel { signers: Some(signers.deep_view()), ..old(env)@ }),
{
    env.signers = Some(copy_addresses(signers));
    assert(final(env)@ =~= (TreasuryModel { signers: Some(signers.deep_view()), ..old(env)@ }));
}

// ── Threshold helpers ────────────────────────────────────────────

pub fn get_threshold(env: &TreasuryStorage) -> (r: u32)
    requires
        env@.threshold is Some,
    ensures
        Some(r) == env@.threshold,
{
    env.threshold.unwrap()
}

pub fn set_threshold(env: &mut TreasuryStorage, threshold: u32)
    ensures
        final(env)@ == (TreasuryModel { threshold: Some(threshold), ..old(env)@ }),
{
    env.threshold = Some(threshold);
    assert(final(env)@ =~= (TreasuryModel { threshold: Some(threshold), ..old(env)@ }));
}

// ── Proposal count helpers ───────────────────────────────────────

pub fn get_proposal_count(env: &TreasuryStorage) -> (r: u32)
    requires
        env@.proposal_count is Some,
    ensures
        Some(r) == env@.proposal_count,
{
    env.proposal_count.unwrap()
}

pub fn set_proposal_count(env: &mut TreasuryStorage, count: u32)
    ensures
        final(env)@ == (TreasuryModel { proposal_count: Some(count), ..old(env)@ }),
{
    env.proposal_count = Some(count);
    assert(final(env)@ =~= (TreasuryModel { proposal_count: Some(count), ..old(env)@ }));
}

// ── Signer set version helpers ───────────────────────────────────

pub fn get_signer_set_version(env: &TreasuryStorage) -> (r: u32)
    requires
        env@.signer_set_version is Some,
    ensures
        Some(r) == env@.signer_set_version,
{
    env.signer_set_version.unwrap()
}

pub fn set_signer_set_version(env: &mut TreasuryStorage, version: u32)
    ensures
        final(env)@ == (TreasuryModel { signer_set_version: Some(version), ..old(env)@ }),
{
    env.signer_set_version = Some(version);
    assert(final(env)@ =~= (TreasuryModel { signer_set_version: Some(version), ..old(env)@ }));
}

/// Advances the signer set version by one and records the current signers as
/// the signer set of the new version.
pub fn increment_signer_set_version(env: &mut TreasuryStorage) -> (r: u32)
    requires
        old(env)@.signer_set_version is Some,
        old(env)@.signer_set_version->0 < u32::MAX,
        old(env)@.signers is Some,
    ensures
        r == old(env)@.signer_set_version->0 + 1,
        final(env)@ == (TreasuryModel {
            signer_set_version: Some(r),
            signer_sets: old(env)@.signer_sets.push(old(env)@.signers->0),
            ..old(env)@
        }),
{
    let current = get_signer_set_version(env);
    let new_version = current + 1;
    set_signer_set_version(env, new_version);
    let signers = get_signers(env);
    env.signer_sets.push(signers);
    assert(final(env)@ =~= (TreasuryModel {
        signer_set_version: Some(new_version),
        signer_sets: old(env)@.signer_sets.push(old(env)@.signers->0),
        ..old(env)@
    }));
    new_version
}

/// Starts the signer set history with `signers` as the set of version zero.
pub fn start_signer_sets(env: &mut TreasuryStorage, signers: &Vec<Address>)
    ensures
        final(env)@ == (TreasuryModel { signer_sets: seq![signers.deep_view()], ..old(env)@ }),
{
    let mut sets: Vec<Vec<Address>> = Vec::new();
    sets.push(copy_addresses(signers));
    env.signer_sets = sets;
    assert(final(env)@ =~= (TreasuryModel { signer_sets: seq![signers.deep_view()], ..old(env)@ }));
}

/// The signer set recorded for signer set version `version`, if any.
pub fn get_signer_set(env: &TreasuryStorage, version: u32) -> (r: Option<Vec<Address>>)
    ensures
        match r {
            Some(v) => version < env@.signer_sets.len() && v.deep_view() == env@.signer_sets[version as int],
            None => version >= env@.signer_sets.len(),
        },
{
    if (version as usize) < env.signer_sets.len() {
        Some(copy_addresses(&env.signer_sets[version as usize]))
    } else {
        None
    }
}

// ── Withdrawal helpers ──────────────────────────────────────────

pub fn get_withdrawal(env: &TreasuryStorage, id: u32) -> (r: Option<WithdrawalRequest>)
    ensures
        match r {
            Some(w) => id < env@.withdrawals.len() && w@ == env@.withdrawals[id as int],
            None => id >= env@.withdrawals.len(),
        },
{
    if (id as usize) < env.withdrawals.len() {
        Some(env.withdrawals[id as usize].duplicate())
    } else {
        None
    }
}

pub fn set_withdrawal(env: &mut TreasuryStorage, id: u32, request: &WithdrawalRequest)
    requires
        id <= old(env)@.withdrawals.len(),
    ensures
        final(env)@ == (TreasuryModel {
            withdrawals: if id < old(env)@.withdrawals.len() {
                old(env)@.withdrawals.update(id as int, request@)
            } else {
                old(env)@.withdrawals.push(request@)
            },
            ..old(env)@
        }),
{
    let ghost pre = old(env)@;
    if (id as usize) < env.withdrawals.len() {
        env.withdrawals.set(id as usize, request.duplicate());
        assert(env@.withdrawals =~= pre.withdrawals.update(id as int, request@));
    } else {
        env.withdrawals.push(request.duplicate());
        assert(env@.withdrawals =~= pre.withdrawals.push(request@));
    }
    assert(env@ =~= (TreasuryModel {
        withdrawals: if id < pre.withdrawals.len() {
            pre.withdrawals.update(id as int, request@)
        } else {
            pre.withdrawals.push(request@)
        },
        ..pre
    }));
}

// ── Pause state helpers ────────────────────────────────────────────

pub fn get_pause_state(env: &TreasuryStorage) -> (r: PauseState)
    ensures
        r == env@.pause(),
{
    match env.pause_state {
        Some(p) => p,
        None => PauseState::Unpaused,
    }
}

pub fn set_pause_state(env: &mut TreasuryStorage, state: &PauseState)
    ensures
        final(env)@ == (TreasuryModel { pause_state: Some(*state), ..old(env)@ }),
{
    env.pause_state = Some(*state);
    assert(final(env)@ =~= (TreasuryModel { pause_state: Some(*state), ..old(env)@ }));
}

pub fn is_paused(env: &TreasuryStorage) -> (r: bool)
    ensures
        r == env@.paused(),
{
    match get_pause_state(env) {
        PauseState::Paused => true,
        PauseState::Unpaused => false,
    }
}

// ── Signer change delay helpers ────────────────────────────────────

pub fn get_signer_change_delay(env: &TreasuryStorage) -> (r: u64)
    ensures
        r == env@.delay(),
{
    match env.signer_change_delay {
        Some(d) => d,
        None => DEFAULT_SIGNER_CHANGE_DELAY,
    }
}

pub fn set_signer_change_delay(env: &mut TreasuryStorage, delay: u64)
    ensures
        final(env)@ == (TreasuryModel { signer_change_delay: Some(delay), ..old(env)@ }),
{
    env.signer_change_delay = Some(delay);
    assert(final(env)@ =~= (TreasuryModel { signer_change_delay: Some(delay), ..old(env)@ }));
}

// ── Pending admin change helpers ────────────────────────────────────

pub fn get_pending_admin_change(env: &TreasuryStorage) -> (r: Option<PendingAdminChange>)
    ensures
        match r {
            Some(p) => env@.pending_admin_change == Some(p@),
            None => env@.pending_admin_change is None,
        },
{
    match &env.pending_admin_change {
        Some(p) => Some(p.duplicate()),
        None => None,
    }
}

pub fn set_pending_admin_change(env: &mut TreasuryStorage, change: &PendingAdminChange)
    ensures
        final(env)@ == (TreasuryModel { pending_admin_change: Some(change@), ..old(env)@ }),
{
    env.pending_admin_change = Some(change.duplicate());
    assert(final(env)@ =~= (TreasuryModel { pending_admin_change: Some(change@), ..old(env)@ }));
}

pub fn clear_pending_admin_change(env: &mut TreasuryStorage)
    ensures
        final(env)@ == (TreasuryModel { pending_admin_change: None, ..old(env)@ }),
{
    env.pending_admin_change = None;
    assert(final(env)@ =~= (TreasuryModel { pending_admin_change: None, ..old(env)@ }));
}

// ── Upgrade proposal helpers ────────────────────────────────────────

pub fn get_upgrade_proposal(env: &TreasuryStorage, id: u32) -> (r: Option<UpgradeProposal>)
    ensures
        match r {
            Some(p) => id < env@.upgrades.len() && p@ == env@.upgrades[id as int],
            None => id >= env@.upgrades.len(),
        },
{
    if (id as usize) < env.upgrades.len() {
        Some(env.upgrades[id as usize].duplicate())
    } else {
        None
    }
}

pub fn set_upgrade_proposal(env: &mut TreasuryStorage, id: u32, proposal: &UpgradeProposal)
    requires
        id <= old(env)@.upgrades.len(),
    ensures
        final(env)@ == (TreasuryModel {
            upgrades: if id < old(env)@.upgrades.len() {
                old(env)@.upgrades.update(id as int, proposal@)
            } else {
                old(env)@.upgrades.push(proposal@)
            },
            ..old(env)@
        }),
{
    let ghost pre = old(env)@;
    if (id as usize) < env.upgrades.len() {
        env.upgrades.set(id as usize, proposal.duplicate());
        assert(env@.upgrades =~= pre.upgrades.update(id as int, proposal@));
    } else {
        env.upgrades.push(proposal.duplicate());
        assert(env@.upgrades =~= pre.upgrades.push(proposal@));
    }
    assert(env@ =~= (TreasuryModel {
        upgrades: if id < pre.upgrades.len() {
            pre.upgrades.update(id as int, proposal@)
        } else {
            pre.upgrades.push(proposal@)
        },
        ..pre
    }));
}

pub fn get_upgrade_count(env: &TreasuryStorage) -> (r: u32)
    ensures
        r == env@.upgrade_total(),
{
    match env.upgrade_count {
        Some(c) => c,
        None => 0,
    }
}

pub fn set_upgrade_count(env: &mut TreasuryStorage, count: u32)
    ensures
        final(env)@ == (TreasuryModel { upgrade_count: Some(count), ..old(env)@ }),
{
    env.upgrade_count = Some(count);
    assert(final(env)@ =~= (TreasuryModel { upgrade_count: Some(count), ..old(env)@ }));
}

} // verus!
