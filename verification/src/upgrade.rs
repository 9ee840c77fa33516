//! Timelocked contract upgrades, shared by the governance, payroll stream and
//! vesting contracts: the admin records a WASM hash, and anyone may install
//! it once `MIN_UPGRADE_DELAY` seconds have passed.

use vstd::prelude::*;

verus! {

/// Delay between proposing an upgrade and installing it: 24 hours in seconds.
pub const MIN_UPGRADE_DELAY: u64 = 86400;

/// An upgrade waiting for its timelock to expire.
#[derive(Clone, Copy, Debug, PartialEq, Eq)]
pub struct PendingUpgrade {
    /// Hash of the WASM bytecode to install.
    pub wasm_hash: [u8; 32],
    /// Ledger timestamp at which the upgrade was proposed.
    pub proposed_at: u64,
}

/// The time from which a pending upgrade proposed at `proposed_at` may be
/// installed.
pub open spec fn upgrade_ready_at(proposed_at: u64) -> int {
    proposed_at + MIN_UPGRADE_DELAY
}

/// Whether an upgrade proposed at `proposed_at` may be installed at `now`.
pub fn timelock_expired(proposed_at: u64, now: u64) -> (r: bool)
    requires
        proposed_at + MIN_UPGRADE_DELAY <= u64::MAX,
    ensures
        r == (now >= upgrade_ready_at(proposed_at)),
{
    now >= proposed_at + MIN_UPGRADE_DELAY
}

} // verus!
