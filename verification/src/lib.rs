//! Bonding-curve launchpad core: constant-product pricing over virtual
//! reserves, protocol fee policy, the protocol-config and token lifecycle
//! state machines, and the graduation hand-off decision logic.
//!
//! The library is pure compute: callers (a hosting ledger runtime) perform
//! the actual value transfers and pass timestamps in; every operation here
//! either commits a complete new state or returns an error leaving the
//! state untouched.

pub mod config;
pub mod constants;
pub mod errors;
pub mod events;
pub mod graduation;
pub mod keys;
pub mod launch;
pub mod laws;
pub mod math;
pub mod statuses;
pub mod token;
pub mod trade;
