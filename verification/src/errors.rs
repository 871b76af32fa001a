//! The engine's error taxonomy. Every failing operation returns one of these
//! and leaves the whole state unchanged.

use vstd::prelude::*;

verus! {

/// Why an engine operation was refused.
#[derive(Clone, Copy, Debug, PartialEq, Eq, Structural)]
pub enum Error {
    /// An amount was missing, not positive, or larger than what is available.
    InvalidAmount,
    /// A lock deadline that is not in the future.
    InvalidDeadline,
    /// A lock names a bounty id that already has a record.
    BountyExists,
    /// No record exists under the given bounty id.
    BountyNotFound,
    /// The record is not in a state that allows the requested transition.
    FundsNotLocked,
    /// A refund was requested before the record's deadline had passed.
    DeadlineNotPassed,
    /// Lock operations are paused.
    LockPaused,
    /// Release operations are paused.
    ReleasePaused,
    /// Refund operations are paused.
    RefundPaused,
    /// A custom refund before the deadline had no matching pre-approval.
    RefundNotApproved,
    /// A batch was empty or too large.
    InvalidBatchSize,
    /// A bounty id occurs twice within one batch.
    DuplicateBountyId,
    /// The release amount exceeds the multisig threshold; use the
    /// initiate/approve path instead.
    MultisigRequired,
    /// The caller is not one of the configured multisig signers.
    NotAuthorizedSigner,
    /// This signer has already approved the pending release.
    AlreadyApproved,
    /// No pending release approval exists for the bounty id.
    NoPendingApproval,
    /// A multisig configuration with no signers, duplicate signers, a zero
    /// quorum, or a quorum larger than the signer set.
    InvalidMultisigConfig,
    /// The depositor's previous lock is too recent.
    CooldownViolation,
    /// The depositor reached the operation cap for the current window.
    RateLimitExceeded,
    /// A transfer could not be funded (or would overflow the recipient).
    InsufficientBalance,
    /// The caller lacks the role the operation demands.
    Unauthorized,
    /// No pending claim exists for the bounty id.
    NoPendingClaim,
    /// The claim window has lapsed.
    ClaimExpired,
    /// The pending claim was already consumed.
    AlreadyClaimed,
    /// Removing this key would leave no backend key at all.
    LastBackendKey,
}

} // verus!
