//! Core of a hierarchical-deterministic wallet: one secret yields a master
//! key, the master key yields a sequence of accounts, and transfers between
//! addresses are validated, described and recorded.
//!
//! Everything that talks to a chain node is left to the caller: the wallet
//! says which queries and submissions are to be made and takes their outcome
//! back as plain values.

pub mod error;
pub mod uint;
pub mod codec;
pub mod keys;
pub mod registry;
pub mod ledger;
pub mod account;
pub mod wallet;
