//! The authorization gate.
//!
//! Every mutating operation authenticates its caller before touching any
//! state. The policy is minimal: any signed caller is accepted, and its
//! identity is handed back so that a stricter, role-based policy can replace
//! this one without touching the rest of the module.

use vstd::prelude::*;

use crate::errors::Error;

verus! {

/// Identifies an account of the host ledger.
pub type AccountId = u64;

/// Where a request came from.
#[derive(Clone, Copy, Debug, PartialEq, Eq, Structural)]
pub enum Origin {
    /// A cryptographically authenticated caller.
    Signed(AccountId),
    /// A request with no authenticated identity.
    Unsigned,
}

/// Verifies that a request originates from an authenticated signed caller and
/// hands its identity back; rejects every other request.
pub fn authenticate(origin: &Origin) -> (r: Result<AccountId, Error>)
    ensures
        match *origin {
            Origin::Signed(who) => r == Ok::<AccountId, Error>(who),
            Origin::Unsigned => r == Err::<AccountId, Error>(Error::Unauthenticated),
        },
{
    match origin {
        Origin::Signed(who) => Ok(*who),
        Origin::Unsigned => Err(Error::Unauthenticated),
    }
}

} // verus!
