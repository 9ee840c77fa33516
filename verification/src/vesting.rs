//! Ledger storage of the vesting contract: the admin, the schedule counter,
//! the schedules, the per-grantor and per-beneficiary schedule indexes, the
//! claim history of each schedule and the pending upgrade. The schedule
//! record type is a parameter.

use vstd::prelude::*;

use crate::address::Address;
use crate::keyed::{AddressIds, IdStore};
use crate::upgrade::PendingUpgrade;

verus! {

/// Ledgers closed per day.
pub const DAY_IN_LEDGERS: u32 = 17280;

/// TTL extension applied to instance storage: thirty days of ledgers.
pub const INSTANCE_BUMP_AMOUNT: u32 = 518400;

/// Remaining TTL below which instance storage is extended: twenty-nine days.
pub const INSTANCE_LIFETIME_THRESHOLD: u32 = 501120;

/// TTL extension applied to persistent entries: thirty days of ledgers.
pub const PERSISTENT_BUMP_AMOUNT: u32 = 518400;

/// Remaining TTL below which persistent entries are extended: twenty-nine days.
pub const PERSISTENT_LIFETIME_THRESHOLD: u32 = 501120;

/// Keys used to store data in the contract's ledger storage.
#[derive(Clone, Debug, PartialEq, Eq)]
pub enum DataKey {
    Admin,
    ScheduleCount,
    Schedule(u32),
    GrantorSchedules(Address),
    BeneficiarySchedules(Address),
    ClaimHistory(u32),
    PendingUpgradeWasm,
    PendingUpgradeProposedAt,
}

/// One claim from a vesting schedule.
#[derive(Clone, Copy, Debug, PartialEq, Eq)]
pub struct ClaimRecord {
    pub amount: i128,
    pub timestamp: u64,
}

/// The vesting contract's storage. An absent entry is `None`.
pub struct VestingStorage<S> {
    pub admin: Option<Address>,
    pub schedule_count: Option<u32>,
    pub schedules: IdStore<S>,
    pub grantor_schedules: AddressIds,
    pub beneficiary_schedules: AddressIds,
    pub claim_history: IdStore<Vec<ClaimRecord>>,
    pub pending_upgrade_wasm: Option<[u8; 32]>,
    pub pending_upgrade_proposed_at: Option<u64>,
}

impl<S> VestingStorage<S> {
    /// An empty storage: the state of a freshly deployed contract.
    pub fn new() -> (r: Self)
        ensures
            r.admin is None,
            r.schedule_count is None,
            forall|id: u32| r.schedules.value(id) is None,
            forall|a: Seq<char>| r.grantor_schedules.list(a) == Seq::<u32>::empty(),
            forall|a: Seq<char>| r.beneficiary_schedules.list(a) == Seq::<u32>::empty(),
            forall|id: u32| r.claim_history.value(id) is None,
            r.pending_upgrade_wasm is None,
            r.pending_upgrade_proposed_at is None,
    {
        VestingStorage {
            admin: None,
            schedule_count: None,
            schedules: IdStore::new(),
            grantor_schedules: AddressIds::new(),
            beneficiary_schedules: AddressIds::new(),
            claim_history: IdStore::new(),
            pending_upgrade_wasm: None,
            pending_upgrade_proposed_at: None,
        }
    }
}

// ── Admin helpers ────────────────────────────────────────────────

pub fn has_admin<S>(env: &VestingStorage<S>) -> (r: bool)
    ensures
        r == env.admin is Some,
{
    env.admin.is_some()
}

pub fn get_admin<S>(env: &VestingStorage<S>) -> (r: Address)
    requires
        env.admin is Some,
    ensures
        r@ == env.admin->0@,
{
    match &env.admin {
        Some(a) => a.clone(),
        None => String::new(),
    }
}

pub fn set_admin<S>(env: &mut VestingStorage<S>, admin: &Address)
    ensures
        final(env).admin matches Some(a) && a@ == admin@,
        *final(env) == (VestingStorage { admin: final(env).admin, ..*old(env) }),
{
    env.admin = Some(admin.clone());
}

// ── Schedule count helpers ─────────────────────────────────────────

pub fn get_schedule_count<S>(env: &VestingStorage<S>) -> (r: u32)
    ensures
        r == match env.schedule_count {
            Some(c) => c,
            None => 0,
        },
{
    match env.schedule_count {
        Some(c) => c,
        None => 0,
    }
}

pub fn set_schedule_count<S>(env: &mut VestingStorage<S>, count: u32)
    ensures
        *final(env) == (VestingStorage { schedule_count: Some(count), ..*old(env) }),
{
    env.schedule_count = Some(count);
}

// ── Schedule helpers ───────────────────────────────────────────────

pub fn get_schedule<S>(env: &VestingStorage<S>, id: u32) -> (r: Option<&S>)
    ensures
        match r {
            Some(s) => env.schedules.value(id) == Some(*s),
            None => env.schedules.value(id) is None,
        },
{
    env.schedules.get(id)
}

pub fn set_schedule<S>(env: &mut VestingStorage<S>, id: u32, schedule: S)
    ensures
        final(env).schedules.value(id) == Some(schedule),
        forall|k: u32| k != id ==> final(env).schedules.value(k) == old(env).schedules.value(k),
        *final(env) == (VestingStorage { schedules: final(env).schedules, ..*old(env) }),
{
    env.schedules.set(id, schedule);
}

// ── Index helpers ────────────

pub fn get_grantor_schedules<S>(env: &VestingStorage<S>, grantor: &Address) -> (r: Vec<u32>)
    ensures
        r@ == env.grantor_schedules.list(grantor@),
{
    env.grantor_schedules.get(grantor)
}

pub fn add_grantor_schedule<S>(env: &mut VestingStorage<S>, grantor: &Address, schedule_id: u32)
    ensures
        final(env).grantor_schedules.list(grantor@) == old(env).grantor_schedules.list(grantor@).push(schedule_id),
        forall|b: Seq<char>| b != grantor@ ==> final(env).grantor_schedules.list(b) == old(env).grantor_schedules.list(b),
        *final(env) == (VestingStorage { grantor_schedules: final(env).grantor_schedules, ..*old(env) }),
{
    let mut schedules = get_grantor_schedules(env, grantor);
    schedules.push(schedule_id);
    env.grantor_schedules.set(grantor, schedules);
}

pub fn get_beneficiary_schedules<S>(env: &VestingStorage<S>, beneficiary: &Address) -> (r: Vec<u32>)
    ensures
        r@ == env.beneficiary_schedules.list(beneficiary@),
{
    env.beneficiary_schedules.get(beneficiary)
}

pub fn add_beneficiary_schedule<S>(env: &mut VestingStorage<S>, beneficiary: &Address, schedule_id: u32)
    ensures
        final(env).beneficiary_schedules.list(beneficiary@) == old(env).beneficiary_schedules.list(beneficiary@).push(
            schedule_id,
        ),
        forall|b: Seq<char>|
            b != beneficiary@ ==> final(env).beneficiary_schedules.list(b) == old(env).beneficiary_schedules.list(b),
        *final(env) == (VestingStorage { beneficiary_schedules: final(env).beneficiary_schedules, ..*old(env) }),
{
    let mut schedules = get_beneficiary_schedules(env, beneficiary);
    schedules.push(schedule_id);
    env.beneficiary_schedules.set(beneficiary, schedules);
}

// ── Claim history helpers ────────────────────────────────────────

/// The claim history of a schedule: the claims recorded for it, oldest
/// first (empty if none).
pub open spec fn history_of<S>(env: VestingStorage<S>, schedule_id: u32) -> Seq<ClaimRecord> {
    match env.claim_history.value(schedule_id) {
        Some(h) => h@,
        None => Seq::empty(),
    }
}

pub fn get_claim_history<S>(env: &VestingStorage<S>, schedule_id: u32) -> (r: Vec<ClaimRecord>)
    ensures
        r@ == history_of(*env, schedule_id),
{
    match env.claim_history.get(schedule_id) {
        Some(h) => {
            let r = h.clone();
            assert(r@ =~= h@);
            r
        },
        None => Vec::new(),
    }
}

pub fn add_claim_record<S>(env: &mut VestingStorage<S>, schedule_id: u32, amount: i128, timestamp: u64)
    ensures
        history_of(*final(env), schedule_id) == history_of(*old(env), schedule_id).push(
            ClaimRecord { amount, timestamp },
        ),
        forall|k: u32| k != schedule_id ==> history_of(*final(env), k) == history_of(*old(env), k),
        *final(env) == (VestingStorage { claim_history: final(env).claim_history, ..*old(env) }),
{
    let mut history = get_claim_history(env, schedule_id);
    history.push(ClaimRecord { amount, timestamp });
    env.claim_history.set(schedule_id, history);
}

// ── Upgrade timelock helpers ────────────────────────────────────────

pub fn get_pending_upgrade<S>(env: &VestingStorage<S>) -> (r: Option<PendingUpgrade>)
    ensures
        r == match (env.pending_upgrade_wasm, env.pending_upgrade_proposed_at) {
            (Some(w), Some(t)) => Some(PendingUpgrade { wasm_hash: w, proposed_at: t }),
            _ => None,
        },
{
    match (env.pending_upgrade_wasm, env.pending_upgrade_proposed_at) {
        (Some(w), Some(t)) => Some(PendingUpgrade { wasm_hash: w, proposed_at: t }),
        _ => None,
    }
}

pub fn set_pending_upgrade<S>(env: &mut VestingStorage<S>, upgrade: &PendingUpgrade)
    ensures
        *final(env) == (VestingStorage {
            pending_upgrade_wasm: Some(upgrade.wasm_hash),
            pending_upgrade_proposed_at: Some(upgrade.proposed_at),
            ..*old(env)
        }),
{
    env.pending_upgrade_wasm = Some(upgrade.wasm_hash);
    env.pending_upgrade_proposed_at = Some(upgrade.proposed_at);
}

pub fn clear_pending_upgrade<S>(env: &mut VestingStorage<S>)
    ensures
        *final(env) == (VestingStorage {
            pending_upgrade_wasm: None,
            pending_upgrade_proposed_at: None,
            ..*old(env)
        }),
{
    env.pending_upgrade_wasm = None;
    env.pending_upgrade_proposed_at = None;
}

} // verus!
