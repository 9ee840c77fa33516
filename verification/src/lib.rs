//! Verified models of the OrbitPay contracts: a multi-signature treasury,
//! a snapshot-based governance module, and the storage layouts of the payroll
//! stream and vesting contracts.
//!
//! Every contract entry point is a state transition over a plain model of the
//! contract's ledger storage. Account and contract addresses are carried as
//! their string encodings, symbols as strings and WASM hashes as byte arrays.
//! Ledger access, authorization checks, events and token transfers are left to
//! the host adapter, which hands the library the values it reads (the ledger
//! timestamp, a token balance) and carries out the actions it returns.

pub mod address;
pub mod governance;
pub mod keyed;
pub mod payroll_stream;
pub mod treasury;
pub mod upgrade;
pub mod vesting;
