//! Multisig gate tests: configuration, threshold behavior, the two-phase
//! initiate/approve flow, and cancellation.

use bounty_escrow::engine::BountyEscrow;
use bounty_escrow::errors::Error;

const ADMIN: u64 = 1;
const CONTRACT: u64 = 100;

fn setup() -> BountyEscrow {
    let mut e = BountyEscrow::new(ADMIN, CONTRACT);
    e.mint(ADMIN, 10_000).unwrap();
    e
}

#[test]
fn test_configure_multisig() {
    let mut e = setup();

    let signer1 = 21;
    let signer2 = 22;
    let signer3 = 23;
    let signers = vec![signer1, signer2, signer3];

    e.configure_multisig(ADMIN, 10_000_000_000, signers, 2, true).unwrap();

    let config = e.get_multisig_config();
    assert!(config.is_some());
    let config = config.as_ref().unwrap();
    assert_eq!(config.threshold_amount, 10_000_000_000);
    assert_eq!(config.required_approvals, 2);
    assert_eq!(config.enabled, true);
    assert_eq!(config.signers.len(), 3);
}

#[test]
fn test_configure_multisig_disabled() {
    let mut e = setup();

    let signers = vec![21];
    e.configure_multisig(ADMIN, 1000, signers, 1, false).unwrap();

    let config = e.get_multisig_config().as_ref().unwrap();
    assert_eq!(config.enabled, false);
}

#[test]
fn test_configure_multisig_invalid_threshold() {
    let mut e = setup();
    let signers = vec![21];
    // required_approvals > signers.len() must fail
    assert_eq!(
        e.configure_multisig(ADMIN, 1000, signers, 5, true),
        Err(Error::InvalidMultisigConfig)
    );
}

#[test]
fn test_configure_multisig_zero_required() {
    let mut e = setup();
    let signers = vec![21];
    // required_approvals = 0 must fail
    assert_eq!(
        e.configure_multisig(ADMIN, 1000, signers, 0, true),
        Err(Error::InvalidMultisigConfig)
    );
}

#[test]
fn test_release_below_threshold_single_key() {
    let mut e = setup();

    let signers = vec![21, 22];
    e.configure_multisig(ADMIN, 1000, signers, 2, true).unwrap();

    e.lock_funds(ADMIN, 1, 500, 9999999999).unwrap();

    let contributor = 31;
    e.release_funds(ADMIN, 1, contributor, None).unwrap();
}

#[test]
fn test_release_without_multisig_configured() {
    let mut e = setup();

    e.lock_funds(ADMIN, 1, 5000, 9999999999).unwrap();

    let contributor = 31;
    e.release_funds(ADMIN, 1, contributor, None).unwrap();
}

#[test]
fn test_release_with_multisig_disabled() {
    let mut e = setup();

    let signers = vec![21];
    e.configure_multisig(ADMIN, 100, signers, 1, false).unwrap();

    e.lock_funds(ADMIN, 1, 5000, 9999999999).unwrap();

    let contributor = 31;
    e.release_funds(ADMIN, 1, contributor, None).unwrap();
}

#[test]
fn test_release_above_threshold_requires_multisig() {
    let mut e = setup();

    let signers = vec![21, 22];
    e.configure_multisig(ADMIN, 100, signers, 2, true).unwrap();

    e.lock_funds(ADMIN, 1, 500, 9999999999).unwrap();

    let contributor = 31;
    assert_eq!(
        e.release_funds(ADMIN, 1, contributor, None),
        Err(Error::MultisigRequired)
    );
}

#[test]
fn test_initiate_release() {
    let mut e = setup();

    let signers = vec![21, 22];
    e.configure_multisig(ADMIN, 100, signers, 2, true).unwrap();

    e.lock_funds(ADMIN, 1, 500, 9999999999).unwrap();

    let contributor = 31;
    let needs_multisig = e.initiate_release(ADMIN, 1, contributor).unwrap();
    assert_eq!(needs_multisig, true);

    let approval = e.get_release_approval(1);
    assert!(approval.is_some());
}

#[test]
fn test_initiate_release_below_threshold() {
    let mut e = setup();

    let signers = vec![21];
    e.configure_multisig(ADMIN, 1000, signers, 1, true).unwrap();

    e.lock_funds(ADMIN, 1, 500, 9999999999).unwrap();

    let contributor = 31;
    let needs_multisig = e.initiate_release(ADMIN, 1, contributor).unwrap();
    assert_eq!(needs_multisig, false);

    let approval = e.get_release_approval(1);
    assert!(approval.is_none());
}

#[test]
fn test_multisig_approval_flow() {
    let mut e = setup();

    let signer1 = 21;
    let signer2 = 22;
    let signers = vec![signer1, signer2];

    e.configure_multisig(ADMIN, 100, signers, 2, true).unwrap();

    e.lock_funds(ADMIN, 1, 500, 9999999999).unwrap();

    let contributor = 31;
    let needs_multisig = e.initiate_release(ADMIN, 1, contributor).unwrap();
    assert_eq!(needs_multisig, true);

    let approval = e.get_release_approval(1);
    assert!(approval.is_some());
    let approval = approval.unwrap();
    assert_eq!(approval.bounty_id, 1);
    assert_eq!(approval.amount, 500);

    let executed = e.approve_release_as(1, signer1).unwrap();
    assert_eq!(executed, false);

    let executed = e.approve_release_as(1, signer2).unwrap();
    assert_eq!(executed, true);

    let approval = e.get_release_approval(1);
    assert!(approval.is_none());
}

#[test]
fn test_approve_not_authorized_signer() {
    let mut e = setup();

    let signer1 = 21;
    e.configure_multisig(ADMIN, 100, vec![signer1, 22], 2, true).unwrap();

    e.lock_funds(ADMIN, 1, 500, 9999999999).unwrap();

    let contributor = 31;
    e.initiate_release(ADMIN, 1, contributor).unwrap();

    let non_signer = 99;
    assert_eq!(
        e.approve_release_as(1, non_signer),
        Err(Error::NotAuthorizedSigner)
    );
}

#[test]
fn test_approve_already_approved() {
    let mut e = setup();

    let signer1 = 21;
    let signer2 = 22;
    e.configure_multisig(ADMIN, 100, vec![signer1, signer2], 2, true).unwrap();

    e.lock_funds(ADMIN, 1, 500, 9999999999).unwrap();

    let contributor = 31;
    e.initiate_release(ADMIN, 1, contributor).unwrap();

    e.approve_release_as(1, signer1).unwrap();

    assert_eq!(
        e.approve_release_as(1, signer1),
        Err(Error::AlreadyApproved)
    );
}

#[test]
fn test_approve_no_pending_approval() {
    let mut e = setup();

    let signer1 = 21;
    e.configure_multisig(ADMIN, 100, vec![signer1], 1, true).unwrap();

    assert_eq!(
        e.approve_release_as(999, signer1),
        Err(Error::NoPendingApproval)
    );
}

#[test]
fn test_cancel_release_approval() {
    let mut e = setup();

    let signer1 = 21;
    e.configure_multisig(ADMIN, 100, vec![signer1], 1, true).unwrap();

    e.lock_funds(ADMIN, 1, 500, 9999999999).unwrap();

    let contributor = 31;
    e.initiate_release(ADMIN, 1, contributor).unwrap();

    assert!(e.get_release_approval(1).is_some());

    e.cancel_release_approval(ADMIN, 1).unwrap();

    assert!(e.get_release_approval(1).is_none());
}

#[test]
fn test_cancel_nonexistent_approval() {
    let mut e = setup();
    assert_eq!(
        e.cancel_release_approval(ADMIN, 999),
        Err(Error::NoPendingApproval)
    );
}

#[test]
fn test_threshold_boundary_exact() {
    let mut e = setup();

    e.configure_multisig(ADMIN, 1000, vec![21], 1, true).unwrap();

    // exactly at the threshold: no multisig needed, only amounts above it
    e.lock_funds(ADMIN, 1, 1000, 9999999999).unwrap();

    let contributor = 31;
    e.release_funds(ADMIN, 1, contributor, None).unwrap();
}

#[test]
fn test_1_of_3_multisig() {
    let mut e = setup();

    let signer2 = 22;
    e.configure_multisig(ADMIN, 100, vec![21, signer2, 23], 1, true).unwrap();

    e.lock_funds(ADMIN, 1, 500, 9999999999).unwrap();

    let contributor = 31;
    e.initiate_release(ADMIN, 1, contributor).unwrap();

    let executed = e.approve_release_as(1, signer2).unwrap();
    assert_eq!(executed, true);
}

#[test]
fn test_full_release_after_multisig() {
    let mut e = setup();

    let signer1 = 21;
    e.configure_multisig(ADMIN, 100, vec![signer1], 1, true).unwrap();

    e.lock_funds(ADMIN, 1, 500, 9999999999).unwrap();

    let contributor = 31;
    e.initiate_release(ADMIN, 1, contributor).unwrap();
    let executed = e.approve_release_as(1, signer1).unwrap();
    assert_eq!(executed, true);

    let approval = e.get_release_approval(1);
    assert!(approval.is_none());
}
