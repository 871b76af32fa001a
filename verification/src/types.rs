//! The engine's data model: escrow records, refund records and approvals,
//! multisig configuration, pending release approvals, claims, pause and
//! rate-limit configuration, batch items, query shapes, and the audit event
//! index.

use vstd::prelude::*;

verus! {

/// Where an escrow record stands in its lifecycle.
#[derive(Clone, Copy, Debug, PartialEq, Eq, Structural)]
pub enum EscrowStatus {
    /// Funds are locked and waiting for release.
    Locked,
    /// All funds have been released to a recipient.
    Released,
    /// All funds have been refunded.
    Refunded,
    /// Some funds were released; a positive amount remains.
    PartiallyReleased,
    /// Some funds were refunded; a positive amount remains.
    PartiallyRefunded,
}

impl EscrowStatus {
    /// The numeric code used by query filters.
    pub open spec fn spec_code(self) -> u32 {
        match self {
            EscrowStatus::Locked => 1,
            EscrowStatus::Released => 2,
            EscrowStatus::Refunded => 3,
            EscrowStatus::PartiallyReleased => 4,
            EscrowStatus::PartiallyRefunded => 5,
        }
    }

    pub fn code(&self) -> (r: u32)
        ensures
            r == self.spec_code(),
    {
        match self {
            EscrowStatus::Locked => 1,
            EscrowStatus::Released => 2,
            EscrowStatus::Refunded => 3,
            EscrowStatus::PartiallyReleased => 4,
            EscrowStatus::PartiallyRefunded => 5,
        }
    }
}

/// How a refund names its amount and recipient.
#[derive(Clone, Copy, Debug, PartialEq, Eq, Structural)]
pub enum RefundMode {
    /// The whole remaining amount, back to the depositor.
    Full,
    /// A caller-chosen part of the remaining amount, back to the depositor.
    Partial,
    /// A caller-chosen amount to a caller-chosen recipient.
    Custom,
}

/// The per-bounty ledger entry.
#[derive(Clone, Copy, Debug, PartialEq, Eq, Structural)]
pub struct EscrowRecord {
    pub depositor: u64,
    /// The amount locked at creation; never changes afterwards.
    pub amount: i128,
    /// What is still held for this bounty; between 0 and `amount`.
    pub remaining_amount: i128,
    /// Refunds become permissionless strictly after this time.
    pub deadline: u64,
    pub status: EscrowStatus,
    pub created_at: u64,
}

impl EscrowRecord {
    /// The record invariant: the locked amount is positive, the remaining
    /// amount stays within it, a zero remainder is exactly the terminal
    /// states, and an untouched record holds its full amount.
    pub open spec fn wf(self) -> bool {
        &&& 0 < self.amount
        &&& 0 <= self.remaining_amount <= self.amount
        &&& (self.remaining_amount == 0 <==> (self.status == EscrowStatus::Released
            || self.status == EscrowStatus::Refunded))
        &&& (self.status == EscrowStatus::Locked ==> self.remaining_amount == self.amount)
    }

    /// A release may act on the record.
    pub open spec fn releasable(self) -> bool {
        self.status == EscrowStatus::Locked || self.status == EscrowStatus::PartiallyReleased
    }

    /// The record still holds funds.
    pub open spec fn refundable(self) -> bool {
        self.remaining_amount > 0
    }
}

/// One executed refund, kept forever in the per-bounty history.
#[derive(Clone, Copy, Debug, PartialEq, Eq, Structural)]
pub struct RefundRecord {
    pub amount: i128,
    pub recipient: u64,
    pub mode: RefundMode,
    pub timestamp: u64,
}

/// A standing pre-approval for one custom refund; at most one per bounty.
#[derive(Clone, Copy, Debug, PartialEq, Eq, Structural)]
pub struct RefundApproval {
    pub amount: i128,
    pub recipient: u64,
    pub mode: RefundMode,
    pub approved_by: u64,
    pub created_at: u64,
}

/// The multisig gate: releases above `threshold_amount` need
/// `required_approvals` of the `signers`.
#[derive(Clone, Debug)]
pub struct MultisigConfig {
    pub threshold_amount: i128,
    pub signers: Vec<u64>,
    pub required_approvals: u32,
    pub enabled: bool,
}

impl MultisigConfig {
    pub open spec fn wf(self) -> bool {
        &&& 0 <= self.threshold_amount
        &&& 1 <= self.required_approvals <= self.signers@.len()
        &&& forall|i: int, j: int|
            0 <= i < j < self.signers@.len() ==> self.signers@[i] != self.signers@[j]
    }
}

/// A release waiting for multisig quorum; at most one per bounty.
#[derive(Clone, Debug)]
pub struct PendingReleaseApproval {
    pub bounty_id: u64,
    pub amount: i128,
    pub recipient: u64,
    /// The signers that have approved so far, each at most once.
    pub approvals: Vec<u64>,
    pub created_at: u64,
}

impl PendingReleaseApproval {
    pub open spec fn wf(self) -> bool {
        &&& 0 < self.amount
        &&& forall|i: int, j: int|
            0 <= i < j < self.approvals@.len() ==> self.approvals@[i] != self.approvals@[j]
    }
}

/// A time-boxed grant that lets a recipient pull a release themselves;
/// at most one per bounty.
#[derive(Clone, Copy, Debug, PartialEq, Eq, Structural)]
pub struct PendingClaim {
    pub recipient: u64,
    pub amount: i128,
    /// Claiming at exactly this time still succeeds.
    pub expires_at: u64,
    pub claimed: bool,
}

/// The three independent pause flags.
#[derive(Clone, Copy, Debug, PartialEq, Eq, Structural, Default)]
pub struct PauseConfig {
    pub lock_paused: bool,
    pub release_paused: bool,
    pub refund_paused: bool,
}

/// The anti-abuse settings for lock operations.
#[derive(Clone, Copy, Debug, PartialEq, Eq, Structural)]
pub struct RateLimitConfig {
    /// Minimum spacing between one depositor's consecutive locks.
    pub cooldown_period: u64,
    /// Length of the rolling window that caps lock operations.
    pub window_size: u64,
    /// How many locks one depositor may make within a window.
    pub max_operations: u32,
}

/// Per-depositor rate-limit bookkeeping; a slot exists once the depositor
/// has locked at least once.
#[derive(Clone, Copy, Debug, PartialEq, Eq, Structural)]
pub struct RateLimitEntry {
    pub last_lock: u64,
    pub window_start: u64,
    pub count: u32,
}

/// One lock request inside a batch.
#[derive(Clone, Copy, Debug, PartialEq, Eq, Structural)]
pub struct LockFundsItem {
    pub bounty_id: u64,
    pub depositor: u64,
    pub amount: i128,
    pub deadline: u64,
}

/// One release request inside a batch.
#[derive(Clone, Copy, Debug, PartialEq, Eq, Structural)]
pub struct ReleaseFundsItem {
    pub bounty_id: u64,
    pub contributor: u64,
}

/// Conditions a bounty must meet to appear in a `get_bounties` listing.
/// `status` holds a status code as `EscrowStatus::code` gives it.
#[derive(Clone, Copy, Debug, PartialEq, Eq, Structural, Default)]
pub struct EscrowFilter {
    pub status: Option<u32>,
    pub min_amount: Option<i128>,
    pub max_amount: Option<i128>,
    pub min_deadline: Option<u64>,
    pub max_deadline: Option<u64>,
    pub depositor: Option<u64>,
}

/// A page request: skip `offset` matches, return at most `limit`.
#[derive(Clone, Copy, Debug, PartialEq, Eq, Structural)]
pub struct Pagination {
    pub limit: u32,
    pub offset: u64,
}

/// One row of a `get_bounties` listing.
#[derive(Clone, Copy, Debug, PartialEq, Eq, Structural)]
pub struct BountyListItem {
    pub bounty_id: u64,
    pub record: EscrowRecord,
}

/// Aggregate counters over the whole ledger.
#[derive(Clone, Copy, Debug, PartialEq, Eq, Structural)]
pub struct ContractStats {
    pub total_bounties: u64,
    /// Sum of every record's remaining amount (saturating at the i128 maximum).
    pub total_locked_funds: i128,
    /// Sum of every released amount (saturating at the i128 maximum).
    pub total_released_funds: i128,
}

/// The kinds of audit events the engine indexes.
#[derive(Clone, Copy, Debug, PartialEq, Eq, Structural)]
pub enum EventType {
    Initialized,
    Locked,
    Released,
    Refunded,
    BatchLocked,
    BatchReleased,
}

/// One indexed audit event.
#[derive(Clone, Copy, Debug, PartialEq, Eq, Structural)]
pub struct EventIndex {
    pub event_type: EventType,
    /// Zero for events that concern no single bounty.
    pub bounty_id: u64,
    /// The account the event chiefly concerns; zero where none applies.
    pub address: u64,
    pub timestamp: u64,
    pub amount: i128,
    pub block_height: u32,
}

/// A page of audit events.
#[derive(Clone, Debug)]
pub struct EventQueryResult {
    pub events: Vec<EventIndex>,
    /// How many events this page holds.
    pub total_count: u32,
    /// Whether any events remain beyond `next_cursor`.
    pub has_more: bool,
    /// Where the next page's scan would begin.
    pub next_cursor: Option<u64>,
}

} // verus!
