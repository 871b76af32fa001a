//! The engine's stated laws, each proved from the contracts in this crate:
//! the record invariant, idempotence of the pause operations, the
//! approve-then-refund round trip, the deadline and claim-window
//! boundaries, and batch atomicity.

use vstd::prelude::*;

use crate::engine::BountyEscrow;
use crate::errors::Error;
use crate::pause::{spec_set_pause_lock, spec_unpause};
use crate::types::{EscrowStatus, LockFundsItem, RefundMode};

verus! {

/// In every well-formed state, each record keeps its remaining amount
/// between zero and the locked amount, and the remainder is zero exactly
/// when the record is Released or Refunded.
pub proof fn lemma_record_invariant(s: BountyEscrow, bounty_id: u64)
    requires
        s.wf(),
        s.escrows.has_key(bounty_id),
    ensures
        0 <= s.spec_record(bounty_id).remaining_amount <= s.spec_record(bounty_id).amount,
        (s.spec_record(bounty_id).remaining_amount == 0 <==> (s.spec_record(bounty_id).status
            == EscrowStatus::Released || s.spec_record(bounty_id).status
            == EscrowStatus::Refunded)),
{
    assert(s.escrows.has_key(bounty_id));
}

/// Unpausing an already-unpaused engine changes nothing: a second unpause
/// reproduces the same state.
pub proof fn lemma_unpause_idempotent(s: BountyEscrow)
    ensures
        spec_unpause(spec_unpause(s)) == spec_unpause(s),
{
}

/// On a state with no flag set and no recorded reason, an unpause is the
/// identity: the observable state is exactly what it was.
pub proof fn lemma_unpause_of_unpaused_is_identity(s: BountyEscrow)
    requires
        !s.pause.lock_paused,
        !s.pause.release_paused,
        !s.pause.refund_paused,
        s.pause_reason is None,
    ensures
        spec_unpause(s) == s,
{
}

/// Setting the lock pause flag to the same value twice produces the state
/// a single call produces.
pub proof fn lemma_set_pause_lock_idempotent(s: BountyEscrow, paused: bool)
    ensures
        spec_set_pause_lock(spec_set_pause_lock(s, paused), paused) == spec_set_pause_lock(
            s,
            paused,
        ),
{
}

/// A custom refund that exactly matches a standing approval succeeds even
/// before the deadline. Together with `approve_refund`'s postcondition
/// (which installs exactly such an approval) and `refund`'s postcondition
/// (which consumes the matching approval on success), this is the
/// approve-then-refund round trip.
pub proof fn lemma_approved_refund_succeeds(
    s: BountyEscrow,
    bounty_id: u64,
    amount: i128,
    recipient: u64,
)
    requires
        s.wf(),
        !s.pause.refund_paused,
        s.escrows.has_key(bounty_id),
        s.spec_record(bounty_id).refundable(),
        0 < amount <= s.spec_record(bounty_id).remaining_amount,
        s.spec_approval_matches(bounty_id, amount, recipient),
        s.ledger.can_transfer(s.contract_account, recipient, amount),
    ensures
        s.spec_refund_err(bounty_id, Some(amount), Some(recipient), RefundMode::Custom) is None,
{
}

/// Refunding exactly at the deadline fails: the deadline has not passed
/// yet.
pub proof fn lemma_refund_at_deadline_fails(s: BountyEscrow, bounty_id: u64)
    requires
        s.wf(),
        !s.pause.refund_paused,
        s.escrows.has_key(bounty_id),
        s.spec_record(bounty_id).refundable(),
        s.now == s.spec_record(bounty_id).deadline,
    ensures
        s.spec_refund_err(bounty_id, None, None, RefundMode::Full) == Some(
            Error::DeadlineNotPassed,
        ),
{
}

/// Refunding one tick after the deadline succeeds, custody funds allowing.
pub proof fn lemma_refund_after_deadline_succeeds(s: BountyEscrow, bounty_id: u64)
    requires
        s.wf(),
        !s.pause.refund_paused,
        s.escrows.has_key(bounty_id),
        s.spec_record(bounty_id).refundable(),
        s.now == s.spec_record(bounty_id).deadline + 1,
        s.ledger.can_transfer(
            s.contract_account,
            s.spec_record(bounty_id).depositor,
            s.spec_record(bounty_id).remaining_amount,
        ),
    ensures
        s.spec_refund_err(bounty_id, None, None, RefundMode::Full) is None,
{
}

/// Claiming at exactly `expires_at` still succeeds: the window is
/// inclusive.
pub proof fn lemma_claim_at_expiry_succeeds(s: BountyEscrow, bounty_id: u64)
    requires
        s.wf(),
        s.pending_claims.has_key(bounty_id),
        !s.pending_claims.spec_get(bounty_id).unwrap().claimed,
        s.now == s.pending_claims.spec_get(bounty_id).unwrap().expires_at,
        s.escrows.has_key(bounty_id),
        s.spec_record(bounty_id).refundable(),
        0 < s.pending_claims.spec_get(bounty_id).unwrap().amount <= s.spec_record(
            bounty_id,
        ).remaining_amount,
        s.ledger.can_transfer(
            s.contract_account,
            s.pending_claims.spec_get(bounty_id).unwrap().recipient,
            s.pending_claims.spec_get(bounty_id).unwrap().amount,
        ),
    ensures
        s.spec_claim_err(bounty_id) is None,
{
}

/// Claiming one tick after `expires_at` fails: the claim has lapsed.
pub proof fn lemma_claim_after_expiry_fails(s: BountyEscrow, bounty_id: u64)
    requires
        s.pending_claims.has_key(bounty_id),
        !s.pending_claims.spec_get(bounty_id).unwrap().claimed,
        s.now == s.pending_claims.spec_get(bounty_id).unwrap().expires_at + 1,
    ensures
        s.spec_claim_err(bounty_id) == Some(Error::ClaimExpired),
{
}

/// When the scan of a lock batch finds no error, no single item has one.
pub proof fn lemma_lock_scan_none(s: BountyEscrow, items: Seq<LockFundsItem>, j: int, k: int)
    requires
        0 <= j <= k < items.len(),
        s.spec_lock_scan(items, j) is None,
    ensures
        s.spec_lock_item_err(items, k) is None,
    decreases k - j,
{
    if j < k {
        lemma_lock_scan_none(s, items, j + 1, k);
    }
}

/// Batch atomicity: a lock batch naming any bounty id that already exists
/// is refused as a whole. Together with `batch_lock_funds`'s postcondition
/// (an error leaves the state exactly as it was), none of the batch's
/// records comes into being.
pub proof fn lemma_batch_lock_duplicate_rejected(
    s: BountyEscrow,
    items: Seq<LockFundsItem>,
    k: int,
)
    requires
        s.wf(),
        !s.pause.lock_paused,
        0 < items.len() <= u32::MAX,
        0 <= k < items.len(),
        s.escrows.has_key(items[k].bounty_id),
    ensures
        s.spec_batch_lock_err(items) is Some,
{
    assert(s.spec_lock_item_err(items, k) is Some);
    if s.spec_lock_scan(items, 0) is None {
        lemma_lock_scan_none(s, items, 0, k);
        assert(false);
    }
}

} // verus!
