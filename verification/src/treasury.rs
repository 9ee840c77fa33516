//! Multi-signature treasury: signers, threshold-approved withdrawals, pause
//! control, signer-approved upgrades and timelocked admin changes.

pub mod auth;
pub mod contract;
pub mod errors;
pub mod laws;
pub mod storage;
pub mod types;
