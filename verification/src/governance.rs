//! DAO governance over budget proposals: members propose, vote with weights
//! frozen in a snapshot taken at proposal creation, and the admin executes
//! approved proposals.

pub mod auth;
pub mod contract;
pub mod errors;
pub mod laws;
pub mod storage;
pub mod types;
