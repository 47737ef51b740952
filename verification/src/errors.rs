//! The failure modes of the bridge operations.

use vstd::prelude::*;

verus! {

/// Why a bridge operation was rejected. Every failure aborts the whole
/// request with no state mutated.
#[derive(Clone, Copy, Debug, PartialEq, Eq, Structural)]
pub enum Error {
    /// The caller's identity is missing or invalid.
    Unauthenticated,
    /// The destination chain is not registered as a bridge target.
    ChainNotWhitelisted,
    /// The deposit-nonce space for the chain is exhausted.
    CounterOverflow,
    /// The funding account holds less than the requested amount.
    InsufficientFunds,
    /// Crediting the recipient would overflow its balance.
    BalanceOverflow,
}

} // verus!
