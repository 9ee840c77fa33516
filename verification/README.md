# orbitpay

Verified models of the OrbitPay Soroban contracts, written in Verus.

- `src/treasury/`: the multi-signature treasury. Signers create and approve
  withdrawal requests up to a threshold, each request judged against the
  signer set it was created under; signers propose and approve pauses,
  unpauses and upgrades; the admin manages signers directly and schedules
  timelocked admin changes. A scheduled signer addition or removal is only
  recorded as a proposal: executing it checks its timelock and changes no
  signer.
- `src/governance/`: the budget-proposal DAO. Each proposal freezes a snapshot
  of the electorate, weights, quorum and grace period; votes and finalization
  read only that snapshot. Every contract upgrade goes through a 24-hour
  timelock: the admin proposes it, and anyone installs it once the delay has
  passed.
- `src/payroll_stream.rs`, `src/vesting.rs`: the ledger storage of the payroll
  stream and vesting contracts (admin, counters, records, per-address indexes,
  claim history, pending upgrade), generic over the record type.
- `src/address.rs`, `src/keyed.rs`, `src/upgrade.rs`: address lists, keyed
  ledger entries and the upgrade timelock shared by the contracts.

Every entry point is a transition over a plain model of the contract's
storage. Its contract states, for every input, which error it returns or how
the storage changes, and that a refused call changes nothing. The `laws`
modules state the properties that span several calls: one-time
initialization, what a pause blocks and leaves open, single approvals, the
timelocks, the signer-set validity and the multi-signature guarantee, the
lifecycle of withdrawal requests, upgrade proposals and budget
proposals, the governance total weight as the sum of the members' weights,
and the isolation of a proposal's outcome from later member
changes.

`app/` is the Soroban host adapter: it loads the storage model from the
ledger, calls the verified transition, and on success writes the changes
back, publishes events, extends TTLs and performs the token transfers and
WASM upgrades that the transition returns. The `auth` modules name, for
each entry point, the argument whose authorization it asks for and the
errors it reports before asking; `app/` requires that authorization
accordingly.
