//! An account-keyed state ledger: a balance ledger with deposit and withdraw,
//! and a registry of single-owner asset claims with create, revoke and
//! transfer. Every transition validates before it mutates, and either applies
//! completely and records one event, or fails with a typed error and leaves
//! the state untouched.

pub mod store;
pub mod bank;
pub mod claims;
