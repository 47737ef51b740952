//! A cross-chain bridge relay ledger.
//!
//! The crate records which destination chains are permitted bridge targets,
//! issues a strictly increasing per-destination deposit nonce for each
//! outbound asset transfer, and appends an immutable transfer record for each
//! success, for an off-chain relayer network to act on. It also gates a
//! privileged native-asset transfer that funds bridge operations.

pub mod auth;
pub mod errors;
pub mod counter;
pub mod kv;
pub mod bytes;
pub mod registry;
pub mod ledger;
pub mod records;
pub mod bridge;
pub mod laws;
