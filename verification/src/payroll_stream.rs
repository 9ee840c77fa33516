//! Ledger storage of the payroll stream contract: the admin, the stream
//! counter, the streams, the per-sender and per-recipient stream indexes and
//! the pending upgrade. The stream record type is a parameter.

use vstd::prelude::*;

use crate::address::Address;
use crate::keyed::{AddressIds, IdStore};
use crate::upgrade::PendingUpgrade;

verus! {

/// Ledgers closed per day.
pub const DAY_IN_LEDGERS: u32 = 17280;

/// TTL extension applied to instance storage: thirty days of ledgers.
pub const INSTANCE_BUMP_AMOUNT: u32 = 518400;

/// Remaining TTL below which instance storage is extended: twenty-nine days.
pub const INSTANCE_LIFETIME_THRESHOLD: u32 = 501120;

/// TTL extension applied to persistent entries: thirty days of ledgers.
pub const PERSISTENT_BUMP_AMOUNT: u32 = 518400;

/// Remaining TTL below which persistent entries are extended: twenty-nine days.
pub const PERSISTENT_LIFETIME_THRESHOLD: u32 = 501120;

/// Keys used to store data in the contract's ledger storage.
#[derive(Clone, Debug, PartialEq, Eq)]
pub enum DataKey {
    Admin,
    StreamCount,
    Stream(u32),
    SenderStreams(Address),
    RecipientStreams(Address),
    PendingUpgradeWasm,
    PendingUpgradeProposedAt,
}

/// The payroll stream contract's storage. An absent entry is `None`.
pub struct PayrollStorage<S> {
    pub admin: Option<Address>,
    pub stream_count: Option<u32>,
    pub streams: IdStore<S>,
    pub sender_streams: AddressIds,
    pub recipient_streams: AddressIds,
    pub pending_upgrade_wasm: Option<[u8; 32]>,
    pub pending_upgrade_proposed_at: Option<u64>,
}

impl<S> PayrollStorage<S> {
    /// An empty storage: the state of a freshly deployed contract.
    pub fn new() -> (r: Self)
        ensures
            r.admin is None,
            r.stream_count is None,
            forall|id: u32| r.streams.value(id) is None,
            forall|a: Seq<char>| r.sender_streams.list(a) == Seq::<u32>::empty(),
            forall|a: Seq<char>| r.recipient_streams.list(a) == Seq::<u32>::empty(),
            r.pending_upgrade_wasm is None,
            r.pending_upgrade_proposed_at is None,
    {
        PayrollStorage {
            admin: None,
            stream_count: None,
            streams: IdStore::new(),
            sender_streams: AddressIds::new(),
            recipient_streams: AddressIds::new(),
            pending_upgrade_wasm: None,
            pending_upgrade_proposed_at: None,
        }
    }
}

// ── Admin helpers ────────────────────────────────────────────────

pub fn has_admin<S>(env: &PayrollStorage<S>) -> (r: bool)
    ensures
        r == env.admin is Some,
{
    env.admin.is_some()
}

pub fn get_admin<S>(env: &PayrollStorage<S>) -> (r: Address)
    requires
        env.admin is Some,
    ensures
        r@ == env.admin->0@,
{
    match &env.admin {
        Some(a) => a.clone(),
        None => String::new(),
    }
}

pub fn set_admin<S>(env: &mut PayrollStorage<S>, admin: &Address)
    ensures
        final(env).admin matches Some(a) && a@ == admin@,
        *final(env) == (PayrollStorage { admin: final(env).admin, ..*old(env) }),
{
    env.admin = Some(admin.clone());
}

// ── Stream count helpers ─────────────────────────────────────────

pub fn get_stream_count<S>(env: &PayrollStorage<S>) -> (r: u32)
    ensures
        r == match env.stream_count {
            Some(c) => c,
            None => 0,
        },
{
    match env.stream_count {
        Some(c) => c,
        None => 0,
    }
}

pub fn set_stream_count<S>(env: &mut PayrollStorage<S>, count: u32)
    ensures
        *final(env) == (PayrollStorage { stream_count: Some(count), ..*old(env) }),
{
    env.stream_count = Some(count);
}

// ── Stream helpers ───────────────────────────────────────────────

pub fn get_stream<S>(env: &PayrollStorage<S>, id: u32) -> (r: Option<&S>)
    ensures
        match r {
            Some(s) => env.streams.value(id) == Some(*s),
            None => env.streams.value(id) is None,
        },
{
    env.streams.get(id)
}

pub fn set_stream<S>(env: &mut PayrollStorage<S>, id: u32, stream: S)
    ensures
        final(env).streams.value(id) == Some(stream),
        forall|k: u32| k != id ==> final(env).streams.value(k) == old(env).streams.value(k),
        *final(env) == (PayrollStorage { streams: final(env).streams, ..*old(env) }),
{
    env.streams.set(id, stream);
}

// ── Index helpers for sender/recipient stream lookups ────────────

pub fn get_sender_streams<S>(env: &PayrollStorage<S>, sender: &Address) -> (r: Vec<u32>)
    ensures
        r@ == env.sender_streams.list(sender@),
{
    env.sender_streams.get(sender)
}

pub fn add_sender_stream<S>(env: &mut PayrollStorage<S>, sender: &Address, stream_id: u32)
    ensures
        final(env).sender_streams.list(sender@) == old(env).sender_streams.list(sender@).push(stream_id),
        forall|b: Seq<char>| b != sender@ ==> final(env).sender_streams.list(b) == old(env).sender_streams.list(b),
        *final(env) == (PayrollStorage { sender_streams: final(env).sender_streams, ..*old(env) }),
{
    let mut streams = get_sender_streams(env, sender);
    streams.push(stream_id);
    env.sender_streams.set(sender, streams);
}

pub fn get_recipient_streams<S>(env: &PayrollStorage<S>, recipient: &Address) -> (r: Vec<u32>)
    ensures
        r@ == env.recipient_streams.list(recipient@),
{
    env.recipient_streams.get(recipient)
}

pub fn add_recipient_stream<S>(env: &mut PayrollStorage<S>, recipient: &Address, stream_id: u32)
    ensures
        final(env).recipient_streams.list(recipient@) == old(env).recipient_streams.list(recipient@).push(
            stream_id,
        ),
        forall|b: Seq<char>|
            b != recipient@ ==> final(env).recipient_streams.list(b) == old(env).recipient_streams.list(b),
        *final(env) == (PayrollStorage { recipient_streams: final(env).recipient_streams, ..*old(env) }),
{
    let mut streams = get_recipient_streams(env, recipient);
    streams.push(stream_id);
    env.recipient_streams.set(recipient, streams);
}

// ── Upgrade timelock helpers ────────────────────────────────────────

pub fn get_pending_upgrade<S>(env: &PayrollStorage<S>) -> (r: Option<PendingUpgrade>)
    ensures
        r == match (env.pending_upgrade_wasm, env.pending_upgrade_proposed_at) {
            (Some(w), Some(t)) => Some(PendingUpgrade { wasm_hash: w, proposed_at: t }),
            _ => None,
        },
{
    match (env.pending_upgrade_wasm, env.pending_upgrade_proposed_at) {
        (Some(w), Some(t)) => Some(PendingUpgrade { wasm_hash: w, proposed_at: t }),
        _ => None,
    }
}

pub fn set_pending_upgrade<S>(env: &mut PayrollStorage<S>, upgrade: &PendingUpgrade)
    ensures
        *final(env) == (PayrollStorage {
            pending_upgrade_wasm: Some(upgrade.wasm_hash),
            pending_upgrade_proposed_at: Some(upgrade.proposed_at),
            ..*old(env)
        }),
{
    env.pending_upgrade_wasm = Some(upgrade.wasm_hash);
    env.pending_upgrade_proposed_at = Some(upgrade.proposed_at);
}

pub fn clear_pending_upgrade<S>(env: &mut PayrollStorage<S>)
    ensures
        *final(env) == (PayrollStorage {
            pending_upgrade_wasm: None,
            pending_upgrade_proposed_at: None,
            ..*old(env)
        }),
{
    env.pending_upgrade_wasm = None;
    env.pending_upgrade_proposed_at = None;
}

} // verus!
