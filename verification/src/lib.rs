//! A staking-ledger engine.
//!
//! The library tracks user-deposited balances in one shared pool, accrues
//! time-based rewards at a fixed monthly rate, and authorizes withdrawals
//! under a cooldown and a tiered-unlock policy against the pool's reward
//! reserve. Asset custody itself is an external collaborator: every
//! operation that moves funds returns a [`custody::TransferRequest`]
//! describing the transfer the host must execute, and the host commits the
//! ledger mutation and the transfer atomically.

pub mod custody;
pub mod engine;
pub mod errors;
pub mod ledger;
pub mod policy;
pub mod reward;
