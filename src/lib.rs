//! Governance of a small group: members submit typed proposals, vote on them
//! under a quorum and approval threshold, and accepted proposals carry out
//! their effect exactly once. A creation saga provisions a new governance
//! instance with its ledger and rolls back what it created on failure.

pub mod effects;
pub mod error;
pub mod identity;
pub mod ids;
pub mod init;
pub mod laws;
pub mod proposal;
pub mod requests;
pub mod resolve;
pub mod saga;
pub mod state;
pub mod submit;
pub mod tally;
pub mod types;
pub mod voting;
