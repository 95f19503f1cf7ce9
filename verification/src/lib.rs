//! A token-staking ledger: users lock a fungible token for a minimum period
//! and accrue a time-proportional reward that they may later claim or
//! withdraw together with their principal.
//!
//! The accounting engine is pure: the caller supplies the acting account and
//! the current time with every operation, moves the tokens itself, and
//! publishes the events that an operation hands back.

pub mod account;
pub mod data;
pub mod errors;
pub mod events;
pub mod laws;
pub mod model;
pub mod reward;
pub mod staking;
pub mod store;
