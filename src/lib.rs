//! A staking-pool ledger: participants deposit value into a shared pool,
//! accrue time-proportional rewards, and may withdraw once a lock period has
//! passed. Every operation is a state transition on two in-memory records; the
//! host supplies the current time, performs the token transfer that an
//! operation asks for, and persists the records only when both succeeded.
pub mod accounts;
pub mod address;
pub mod basic_pool;
pub mod error;
pub mod ledger;
pub mod rewards;
pub mod staking;
