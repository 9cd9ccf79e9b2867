//! Custody core of a token bridge: a vault held by a program-derived
//! authority, with shield (deposit) and unshield (withdrawal) flows and a
//! write-once registry binding the vault to its attester set.

pub mod error;
pub mod identity;
pub mod ledger;
pub mod state;
pub mod instruction;
pub mod processor;
