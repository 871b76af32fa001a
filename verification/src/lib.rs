//! Escrow ledger for conditional fund transfers.
//!
//! A depositor locks value against a bounty identifier; an authorized party
//! later releases it to a contributor, or the value is refunded to the
//! depositor once the deadline has passed (or a refund was pre-approved).
//! The crate models the whole engine over explicit state: the ledger of
//! escrow records, the token balances it moves, the pause gate, the rate
//! limiter, the multisig approval gate, the refund-approval and claim
//! subsystems, and the audit event index.

use vstd::prelude::*;

pub mod admin;
pub mod batch;
pub mod claims;
pub mod engine;
pub mod errors;
pub mod interface;
pub mod laws;
pub mod pause;
pub mod payout;
pub mod queries;
pub mod rbac;
pub mod refunds;
pub mod release;
pub mod store;
pub mod token;
pub mod types;

verus! {

/// Advances a linear-congruential seed and returns the new value.
pub fn next_seed(seed: &mut u64) -> (r: u64)
    ensures
        *final(seed) == ((*old(seed) * 6364136223846793005) % 0x1_0000_0000_0000_0000 + 1)
            % 0x1_0000_0000_0000_0000,
        r == *final(seed),
{
    *seed = seed.wrapping_mul(6364136223846793005).wrapping_add(1);
    *seed
}

} // verus!
