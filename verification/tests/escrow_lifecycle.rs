//! Lock, release and refund lifecycle tests.

use bounty_escrow::engine::BountyEscrow;
use bounty_escrow::errors::Error;
use bounty_escrow::types::{EscrowStatus, RefundMode};

const ADMIN: u64 = 1;
const DEPOSITOR: u64 = 2;
const CONTRIBUTOR: u64 = 3;
const CONTRACT: u64 = 100;

fn setup() -> BountyEscrow {
    let mut e = BountyEscrow::new(ADMIN, CONTRACT);
    e.mint(DEPOSITOR, 1_000_000).unwrap();
    e
}

#[test]
fn test_lock_funds_success() {
    let mut e = setup();
    let bounty_id = 1;
    let amount = 1000;
    let deadline = e.timestamp() + 1000;

    e.lock_funds(DEPOSITOR, bounty_id, amount, deadline).unwrap();

    let stored = e.get_escrow_info(bounty_id).unwrap();
    assert_eq!(stored.depositor, DEPOSITOR);
    assert_eq!(stored.amount, amount);
    assert_eq!(stored.remaining_amount, amount);
    assert_eq!(stored.status, EscrowStatus::Locked);
    assert_eq!(stored.deadline, deadline);

    assert_eq!(e.get_balance(), amount);
}

#[test]
fn test_lock_funds_duplicate() {
    let mut e = setup();
    let bounty_id = 1;
    let amount = 1000;
    let deadline = e.timestamp() + 1000;

    e.lock_funds(DEPOSITOR, bounty_id, amount, deadline).unwrap();
    // locking again under the same bounty id is refused
    assert_eq!(
        e.lock_funds(DEPOSITOR, bounty_id, amount, deadline),
        Err(Error::BountyExists)
    );
}

#[test]
fn test_lock_funds_negative_amount() {
    let mut e = setup();
    let deadline = e.timestamp() + 1000;
    assert_eq!(
        e.lock_funds(DEPOSITOR, 1, -100, deadline),
        Err(Error::InvalidAmount)
    );
}

#[test]
fn test_get_escrow_info() {
    let mut e = setup();
    let bounty_id = 1;
    let amount = 1000;
    let deadline = e.timestamp() + 1000;

    e.lock_funds(DEPOSITOR, bounty_id, amount, deadline).unwrap();

    let escrow = e.get_escrow_info(bounty_id).unwrap();
    assert_eq!(escrow.amount, amount);
    assert_eq!(escrow.deadline, deadline);
    assert_eq!(escrow.depositor, DEPOSITOR);
    assert_eq!(escrow.status, EscrowStatus::Locked);
}

#[test]
fn test_release_funds_success() {
    let mut e = setup();
    let bounty_id = 1;
    let amount = 1000;
    let deadline = e.timestamp() + 1000;

    e.lock_funds(DEPOSITOR, bounty_id, amount, deadline).unwrap();

    assert_eq!(e.get_balance(), amount);
    assert_eq!(e.balance(CONTRIBUTOR), 0);

    e.release_funds(ADMIN, bounty_id, CONTRIBUTOR, None).unwrap();

    let stored = e.get_escrow_info(bounty_id).unwrap();
    assert_eq!(stored.status, EscrowStatus::Released);

    assert_eq!(e.get_balance(), 0);
    assert_eq!(e.balance(CONTRIBUTOR), amount);
}

#[test]
fn test_release_funds_already_released() {
    let mut e = setup();
    let bounty_id = 1;
    let amount = 1000;
    let deadline = e.timestamp() + 1000;

    e.lock_funds(DEPOSITOR, bounty_id, amount, deadline).unwrap();
    e.release_funds(ADMIN, bounty_id, CONTRIBUTOR, None).unwrap();

    assert_eq!(
        e.release_funds(ADMIN, bounty_id, CONTRIBUTOR, None),
        Err(Error::FundsNotLocked)
    );
}

#[test]
fn test_release_funds_not_found() {
    let mut e = setup();
    assert_eq!(
        e.release_funds(ADMIN, 1, CONTRIBUTOR, None),
        Err(Error::BountyNotFound)
    );
}

#[test]
fn test_refund_full_after_deadline() {
    let mut e = setup();
    let bounty_id = 1;
    let amount = 1000;
    let current_time = e.timestamp();
    let deadline = current_time + 1000;

    e.lock_funds(DEPOSITOR, bounty_id, amount, deadline).unwrap();
    e.set_timestamp(deadline + 1);

    let initial_depositor_balance = e.balance(DEPOSITOR);

    e.refund(bounty_id, None, None, RefundMode::Full).unwrap();

    let stored = e.get_escrow_info(bounty_id).unwrap();
    assert_eq!(stored.status, EscrowStatus::Refunded);
    assert_eq!(stored.remaining_amount, 0);

    assert_eq!(e.get_balance(), 0);
    assert_eq!(e.balance(DEPOSITOR), initial_depositor_balance + amount);

    let refund_history = e.get_refund_history(bounty_id);
    assert_eq!(refund_history.len(), 1);
    assert_eq!(refund_history[0].amount, amount);
    assert_eq!(refund_history[0].recipient, DEPOSITOR);
    assert_eq!(refund_history[0].mode, RefundMode::Full);
}

#[test]
fn test_refund_full_before_deadline() {
    let mut e = setup();
    let bounty_id = 1;
    let amount = 1000;
    let deadline = e.timestamp() + 1000;

    e.lock_funds(DEPOSITOR, bounty_id, amount, deadline).unwrap();

    assert_eq!(
        e.refund(bounty_id, None, None, RefundMode::Full),
        Err(Error::DeadlineNotPassed)
    );
}

#[test]
fn test_refund_partial_after_deadline() {
    let mut e = setup();
    let bounty_id = 1;
    let total_amount = 1000;
    let refund_amount = 300;
    let current_time = e.timestamp();
    let deadline = current_time + 1000;

    e.lock_funds(DEPOSITOR, bounty_id, total_amount, deadline).unwrap();
    e.set_timestamp(deadline + 1);

    let initial_depositor_balance = e.balance(DEPOSITOR);

    e.refund(bounty_id, Some(refund_amount), None, RefundMode::Partial).unwrap();

    let stored = e.get_escrow_info(bounty_id).unwrap();
    assert_eq!(stored.status, EscrowStatus::PartiallyRefunded);
    assert_eq!(stored.remaining_amount, total_amount - refund_amount);

    assert_eq!(e.get_balance(), total_amount - refund_amount);
    assert_eq!(e.balance(DEPOSITOR), initial_depositor_balance + refund_amount);

    let refund_history = e.get_refund_history(bounty_id);
    assert_eq!(refund_history.len(), 1);
    assert_eq!(refund_history[0].amount, refund_amount);
    assert_eq!(refund_history[0].recipient, DEPOSITOR);
    assert_eq!(refund_history[0].mode, RefundMode::Partial);
}

#[test]
fn test_refund_partial_multiple_times() {
    let mut e = setup();
    let bounty_id = 1;
    let total_amount = 1000;
    let refund1 = 200;
    let refund2 = 300;
    let deadline = e.timestamp() + 1000;

    e.lock_funds(DEPOSITOR, bounty_id, total_amount, deadline).unwrap();
    e.set_timestamp(deadline + 1);

    e.refund(bounty_id, Some(refund1), None, RefundMode::Partial).unwrap();
    e.refund(bounty_id, Some(refund2), None, RefundMode::Partial).unwrap();

    let stored = e.get_escrow_info(bounty_id).unwrap();
    assert_eq!(stored.status, EscrowStatus::PartiallyRefunded);
    assert_eq!(stored.remaining_amount, total_amount - refund1 - refund2);

    let refund_history = e.get_refund_history(bounty_id);
    assert_eq!(refund_history.len(), 2);
    assert_eq!(refund_history[0].amount, refund1);
    assert_eq!(refund_history[1].amount, refund2);
}

#[test]
fn test_refund_partial_before_deadline() {
    let mut e = setup();
    let bounty_id = 1;
    let amount = 1000;
    let refund_amount = 300;
    let deadline = e.timestamp() + 1000;

    e.lock_funds(DEPOSITOR, bounty_id, amount, deadline).unwrap();

    assert_eq!(
        e.refund(bounty_id, Some(refund_amount), None, RefundMode::Partial),
        Err(Error::DeadlineNotPassed)
    );
}

#[test]
fn test_refund_custom_after_deadline() {
    let mut e = setup();
    let bounty_id = 1;
    let amount = 1000;
    let refund_amount = 500;
    let custom_recipient = 42;
    let deadline = e.timestamp() + 1000;

    e.lock_funds(DEPOSITOR, bounty_id, amount, deadline).unwrap();
    e.set_timestamp(deadline + 1);

    let initial_recipient_balance = e.balance(custom_recipient);

    e.refund(
        bounty_id,
        Some(refund_amount),
        Some(custom_recipient),
        RefundMode::Custom,
    )
    .unwrap();

    let stored = e.get_escrow_info(bounty_id).unwrap();
    assert_eq!(stored.status, EscrowStatus::PartiallyRefunded);
    assert_eq!(stored.remaining_amount, amount - refund_amount);

    assert_eq!(
        e.balance(custom_recipient),
        initial_recipient_balance + refund_amount
    );

    let refund_history = e.get_refund_history(bounty_id);
    assert_eq!(refund_history.len(), 1);
    assert_eq!(refund_history[0].amount, refund_amount);
    assert_eq!(refund_history[0].recipient, custom_recipient);
    assert_eq!(refund_history[0].mode, RefundMode::Custom);
}

#[test]
fn test_refund_custom_before_deadline_without_approval() {
    let mut e = setup();
    let bounty_id = 1;
    let amount = 1000;
    let refund_amount = 500;
    let custom_recipient = 42;
    let deadline = e.timestamp() + 1000;

    e.lock_funds(DEPOSITOR, bounty_id, amount, deadline).unwrap();

    assert_eq!(
        e.refund(
            bounty_id,
            Some(refund_amount),
            Some(custom_recipient),
            RefundMode::Custom
        ),
        Err(Error::RefundNotApproved)
    );
}

#[test]
fn test_refund_approval_workflow() {
    let mut e = setup();
    let bounty_id = 1;
    let amount = 1000;
    let refund_amount = 500;
    let custom_recipient = 42;
    let deadline = e.timestamp() + 1000;

    e.lock_funds(DEPOSITOR, bounty_id, amount, deadline).unwrap();

    e.approve_refund(ADMIN, bounty_id, refund_amount, custom_recipient, RefundMode::Custom)
        .unwrap();

    let (can_refund, deadline_passed, remaining, approval) =
        e.get_refund_eligibility(bounty_id).unwrap();
    assert!(can_refund);
    assert!(!deadline_passed);
    assert_eq!(remaining, amount);
    assert!(approval.is_some());
    let approval_data = approval.unwrap();
    assert_eq!(approval_data.amount, refund_amount);
    assert_eq!(approval_data.recipient, custom_recipient);
    assert_eq!(approval_data.mode, RefundMode::Custom);
    assert_eq!(approval_data.approved_by, ADMIN);

    let initial_recipient_balance = e.balance(custom_recipient);

    e.refund(
        bounty_id,
        Some(refund_amount),
        Some(custom_recipient),
        RefundMode::Custom,
    )
    .unwrap();

    // the approval is consumed by the refund
    let (_, _, _, approval_after) = e.get_refund_eligibility(bounty_id).unwrap();
    assert!(approval_after.is_none());

    let stored = e.get_escrow_info(bounty_id).unwrap();
    assert_eq!(stored.status, EscrowStatus::PartiallyRefunded);
    assert_eq!(stored.remaining_amount, amount - refund_amount);

    assert_eq!(
        e.balance(custom_recipient),
        initial_recipient_balance + refund_amount
    );
}

#[test]
fn test_refund_approval_mismatch() {
    let mut e = setup();
    let bounty_id = 1;
    let amount = 1000;
    let approved_amount = 500;
    let requested_amount = 600;
    let custom_recipient = 42;
    let deadline = e.timestamp() + 1000;

    e.lock_funds(DEPOSITOR, bounty_id, amount, deadline).unwrap();

    e.approve_refund(ADMIN, bounty_id, approved_amount, custom_recipient, RefundMode::Custom)
        .unwrap();

    assert_eq!(
        e.refund(
            bounty_id,
            Some(requested_amount),
            Some(custom_recipient),
            RefundMode::Custom
        ),
        Err(Error::RefundNotApproved)
    );
}

#[test]
fn test_refund_history_tracking() {
    let mut e = setup();
    let bounty_id = 1;
    let total_amount = 1000;
    let refund1 = 200;
    let refund2 = 300;
    let deadline = e.timestamp() + 1000;

    e.lock_funds(DEPOSITOR, bounty_id, total_amount, deadline).unwrap();
    e.set_timestamp(deadline + 1);

    e.refund(bounty_id, Some(refund1), None, RefundMode::Partial).unwrap();
    e.refund(bounty_id, Some(refund2), None, RefundMode::Partial).unwrap();

    let remaining = total_amount - refund1 - refund2;
    e.refund(bounty_id, Some(remaining), None, RefundMode::Partial).unwrap();

    let refund_history = e.get_refund_history(bounty_id);
    assert_eq!(refund_history.len(), 3);

    assert_eq!(refund_history[0].amount, refund1);
    assert_eq!(refund_history[0].recipient, DEPOSITOR);
    assert_eq!(refund_history[0].mode, RefundMode::Partial);

    assert_eq!(refund_history[1].amount, refund2);
    assert_eq!(refund_history[1].recipient, DEPOSITOR);
    assert_eq!(refund_history[1].mode, RefundMode::Partial);

    assert_eq!(refund_history[2].amount, remaining);
    assert_eq!(refund_history[2].recipient, DEPOSITOR);
    assert_eq!(refund_history[2].mode, RefundMode::Partial);

    let stored = e.get_escrow_info(bounty_id).unwrap();
    assert_eq!(stored.status, EscrowStatus::Refunded);
    assert_eq!(stored.remaining_amount, 0);
}

#[test]
fn test_refund_history_with_custom_recipients() {
    let mut e = setup();
    let bounty_id = 1;
    let total_amount = 1000;
    let recipient1 = 51;
    let recipient2 = 52;
    let refund1 = 300;
    let refund2 = 400;
    let deadline = e.timestamp() + 1000;

    e.lock_funds(DEPOSITOR, bounty_id, total_amount, deadline).unwrap();
    e.set_timestamp(deadline + 1);

    e.refund(bounty_id, Some(refund1), Some(recipient1), RefundMode::Custom).unwrap();
    e.refund(bounty_id, Some(refund2), Some(recipient2), RefundMode::Custom).unwrap();

    let refund_history = e.get_refund_history(bounty_id);
    assert_eq!(refund_history.len(), 2);
    assert_eq!(refund_history[0].recipient, recipient1);
    assert_eq!(refund_history[1].recipient, recipient2);
}

#[test]
fn test_refund_invalid_amount_zero() {
    let mut e = setup();
    let bounty_id = 1;
    let amount = 1000;
    let deadline = e.timestamp() + 1000;

    e.lock_funds(DEPOSITOR, bounty_id, amount, deadline).unwrap();
    e.set_timestamp(deadline + 1);

    assert_eq!(
        e.refund(bounty_id, Some(0), None, RefundMode::Partial),
        Err(Error::InvalidAmount)
    );
}

#[test]
fn test_refund_invalid_amount_exceeds_remaining() {
    let mut e = setup();
    let bounty_id = 1;
    let amount = 1000;
    let refund_amount = 1500;
    let deadline = e.timestamp() + 1000;

    e.lock_funds(DEPOSITOR, bounty_id, amount, deadline).unwrap();
    e.set_timestamp(deadline + 1);

    assert_eq!(
        e.refund(bounty_id, Some(refund_amount), None, RefundMode::Partial),
        Err(Error::InvalidAmount)
    );
}

#[test]
fn test_refund_custom_missing_amount() {
    let mut e = setup();
    let bounty_id = 1;
    let amount = 1000;
    let custom_recipient = 42;
    let deadline = e.timestamp() + 1000;

    e.lock_funds(DEPOSITOR, bounty_id, amount, deadline).unwrap();
    e.set_timestamp(deadline + 1);

    assert_eq!(
        e.refund(bounty_id, None, Some(custom_recipient), RefundMode::Custom),
        Err(Error::InvalidAmount)
    );
}

#[test]
fn test_refund_custom_missing_recipient() {
    let mut e = setup();
    let bounty_id = 1;
    let amount = 1000;
    let refund_amount = 500;
    let deadline = e.timestamp() + 1000;

    e.lock_funds(DEPOSITOR, bounty_id, amount, deadline).unwrap();
    e.set_timestamp(deadline + 1);

    assert_eq!(
        e.refund(bounty_id, Some(refund_amount), None, RefundMode::Custom),
        Err(Error::InvalidAmount)
    );
}

#[test]
fn test_get_refund_eligibility() {
    let mut e = setup();
    let bounty_id = 1;
    let amount = 1000;
    let deadline = e.timestamp() + 1000;

    e.lock_funds(DEPOSITOR, bounty_id, amount, deadline).unwrap();

    // before deadline, no approval
    let (can_refund, deadline_passed, remaining, approval) =
        e.get_refund_eligibility(bounty_id).unwrap();
    assert!(!can_refund);
    assert!(!deadline_passed);
    assert_eq!(remaining, amount);
    assert!(approval.is_none());

    // after deadline
    e.set_timestamp(deadline + 1);
    let (can_refund, deadline_passed, remaining, approval) =
        e.get_refund_eligibility(bounty_id).unwrap();
    assert!(can_refund);
    assert!(deadline_passed);
    assert_eq!(remaining, amount);
    assert!(approval.is_none());

    // with approval before deadline
    e.set_timestamp(deadline - 100);
    let custom_recipient = 42;
    e.approve_refund(ADMIN, bounty_id, 500, custom_recipient, RefundMode::Custom).unwrap();

    let (can_refund, deadline_passed, remaining, approval) =
        e.get_refund_eligibility(bounty_id).unwrap();
    assert!(can_refund);
    assert!(!deadline_passed);
    assert_eq!(remaining, amount);
    assert!(approval.is_some());
}

#[test]
fn test_get_balance() {
    let mut e = setup();
    let bounty_id = 1;
    let amount = 500;
    let deadline = e.timestamp() + 1000;

    assert_eq!(e.get_balance(), 0);

    e.lock_funds(DEPOSITOR, bounty_id, amount, deadline).unwrap();

    assert_eq!(e.get_balance(), amount);
}

#[test]
fn test_lock_fund_invalid_amount() {
    let mut e = setup();
    assert_eq!(
        e.lock_funds(DEPOSITOR, 1, 0, 100),
        Err(Error::InvalidAmount)
    );
}

#[test]
fn test_lock_fund_invalid_deadline() {
    let mut e = setup();
    // the ledger starts at time zero, so a deadline of zero lies in the past
    assert_eq!(
        e.lock_funds(DEPOSITOR, 1, 1000, 0),
        Err(Error::InvalidDeadline)
    );
}

#[test]
fn test_partial_payout_single() {
    let mut e = setup();
    let bounty_id = 1;
    let amount = 1000;
    let deadline = 10;

    e.lock_funds(DEPOSITOR, bounty_id, amount, deadline).unwrap();

    e.release_funds(ADMIN, bounty_id, CONTRIBUTOR, Some(500)).unwrap();

    assert_eq!(e.balance(CONTRIBUTOR), 500);
    assert_eq!(e.get_remaining_amount(bounty_id).unwrap(), 500);
}

#[test]
fn test_partial_payout_multiple() {
    let mut e = setup();
    let bounty_id = 1;
    let amount = 1000;
    let deadline = 10;

    e.lock_funds(DEPOSITOR, bounty_id, amount, deadline).unwrap();

    e.release_funds(ADMIN, bounty_id, CONTRIBUTOR, Some(300)).unwrap();
    assert_eq!(e.balance(CONTRIBUTOR), 300);
    assert_eq!(e.get_remaining_amount(bounty_id).unwrap(), 700);

    e.release_funds(ADMIN, bounty_id, CONTRIBUTOR, Some(300)).unwrap();
    assert_eq!(e.balance(CONTRIBUTOR), 600);
    assert_eq!(e.get_remaining_amount(bounty_id).unwrap(), 400);

    e.release_funds(ADMIN, bounty_id, CONTRIBUTOR, None).unwrap();
    assert_eq!(e.balance(CONTRIBUTOR), 1000);
    assert_eq!(e.get_remaining_amount(bounty_id).unwrap(), 0);
}

#[test]
fn test_payout_over_balance() {
    let mut e = setup();
    let bounty_id = 1;
    let amount = 1000;
    let deadline = 10;

    e.lock_funds(DEPOSITOR, bounty_id, amount, deadline).unwrap();

    assert_eq!(
        e.release_funds(ADMIN, bounty_id, CONTRIBUTOR, Some(1001)),
        Err(Error::InvalidAmount)
    );
}
