//! The per-chain deposit counter.

use vstd::prelude::*;

verus! {

/// Tracks deposit count for an associated chain.
#[derive(Clone, Copy, Debug, PartialEq, Eq, Structural)]
pub struct Counter(pub u32);

impl Counter {
    /// Steps the counter to the next deposit nonce. The caller must rule
    /// overflow out first and fail with a dedicated error instead of wrapping.
    pub fn increment(&mut self)
        requires
            old(self).0 < u32::MAX,
        ensures
            final(self).0 == old(self).0 + 1,
    {
        self.0 += 1;
    }
}

impl Default for Counter {
    fn default() -> (c: Self)
        ensures
            c.0 == 0,
    {
        Counter(0)
    }
}

} // verus!
