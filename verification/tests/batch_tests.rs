//! Batch lock and release tests, including all-or-nothing behavior.

use bounty_escrow::engine::BountyEscrow;
use bounty_escrow::errors::Error;
use bounty_escrow::types::{EscrowStatus, LockFundsItem, ReleaseFundsItem};

const ADMIN: u64 = 1;
const DEPOSITOR: u64 = 2;
const CONTRIBUTOR: u64 = 3;
const CONTRACT: u64 = 100;

fn setup() -> BountyEscrow {
    let mut e = BountyEscrow::new(ADMIN, CONTRACT);
    e.mint(DEPOSITOR, 1_000_000).unwrap();
    // these tests lock repeatedly in quick succession; exempt the depositor
    // from the rate limiter so only the behavior under test is exercised
    e.set_whitelist(ADMIN, DEPOSITOR, true).unwrap();
    e
}

fn lock_item(bounty_id: u64, amount: i128, deadline: u64) -> LockFundsItem {
    LockFundsItem {
        bounty_id,
        depositor: DEPOSITOR,
        amount,
        deadline,
    }
}

#[test]
fn test_batch_lock_funds_success() {
    let mut e = setup();
    let deadline = e.timestamp() + 1000;

    let items = vec![
        lock_item(1, 1000, deadline),
        lock_item(2, 2000, deadline),
        lock_item(3, 3000, deadline),
    ];

    e.mint(DEPOSITOR, 10_000).unwrap();

    let count = e.batch_lock_funds(&items).unwrap();
    assert_eq!(count, 3);

    for i in 1..=3 {
        let escrow = e.get_escrow_info(i).unwrap();
        assert_eq!(escrow.status, EscrowStatus::Locked);
    }

    assert_eq!(e.get_balance(), 6000);
}

#[test]
fn test_batch_lock_funds_empty() {
    let mut e = setup();
    let items: Vec<LockFundsItem> = vec![];
    assert_eq!(e.batch_lock_funds(&items), Err(Error::InvalidBatchSize));
}

#[test]
fn test_batch_lock_funds_duplicate_bounty_id() {
    let mut e = setup();
    let deadline = e.timestamp() + 1000;

    e.lock_funds(DEPOSITOR, 1, 1000, deadline).unwrap();

    let items = vec![lock_item(1, 2000, deadline), lock_item(2, 3000, deadline)];
    assert_eq!(e.batch_lock_funds(&items), Err(Error::BountyExists));
}

#[test]
fn test_batch_lock_funds_duplicate_in_batch() {
    let mut e = setup();
    let deadline = e.timestamp() + 1000;

    let items = vec![lock_item(1, 1000, deadline), lock_item(1, 2000, deadline)];
    assert_eq!(e.batch_lock_funds(&items), Err(Error::DuplicateBountyId));
}

#[test]
fn test_batch_release_funds_success() {
    let mut e = setup();
    let deadline = e.timestamp() + 1000;

    e.lock_funds(DEPOSITOR, 1, 1000, deadline).unwrap();
    e.lock_funds(DEPOSITOR, 2, 2000, deadline).unwrap();
    e.lock_funds(DEPOSITOR, 3, 3000, deadline).unwrap();

    let contributor1 = 11;
    let contributor2 = 12;
    let contributor3 = 13;

    let items = vec![
        ReleaseFundsItem { bounty_id: 1, contributor: contributor1 },
        ReleaseFundsItem { bounty_id: 2, contributor: contributor2 },
        ReleaseFundsItem { bounty_id: 3, contributor: contributor3 },
    ];

    let count = e.batch_release_funds(ADMIN, &items).unwrap();
    assert_eq!(count, 3);

    for i in 1..=3 {
        let escrow = e.get_escrow_info(i).unwrap();
        assert_eq!(escrow.status, EscrowStatus::Released);
    }

    assert_eq!(e.balance(contributor1), 1000);
    assert_eq!(e.balance(contributor2), 2000);
    assert_eq!(e.balance(contributor3), 3000);
    assert_eq!(e.get_balance(), 0);
}

#[test]
fn test_batch_release_funds_empty() {
    let mut e = setup();
    let items: Vec<ReleaseFundsItem> = vec![];
    assert_eq!(
        e.batch_release_funds(ADMIN, &items),
        Err(Error::InvalidBatchSize)
    );
}

#[test]
fn test_batch_release_funds_not_found() {
    let mut e = setup();
    let items = vec![ReleaseFundsItem { bounty_id: 999, contributor: CONTRIBUTOR }];
    assert_eq!(
        e.batch_release_funds(ADMIN, &items),
        Err(Error::BountyNotFound)
    );
}

#[test]
fn test_batch_release_funds_already_released() {
    let mut e = setup();
    let deadline = e.timestamp() + 1000;

    e.lock_funds(DEPOSITOR, 1, 1000, deadline).unwrap();
    e.release_funds(ADMIN, 1, CONTRIBUTOR, None).unwrap();

    e.lock_funds(DEPOSITOR, 2, 2000, deadline).unwrap();

    let contributor2 = 12;
    let items = vec![
        ReleaseFundsItem { bounty_id: 1, contributor: CONTRIBUTOR },
        ReleaseFundsItem { bounty_id: 2, contributor: contributor2 },
    ];

    assert_eq!(
        e.batch_release_funds(ADMIN, &items),
        Err(Error::FundsNotLocked)
    );
    // atomicity: the valid item was not applied either
    assert_eq!(e.balance(contributor2), 0);
    assert_eq!(
        e.get_escrow_info(2).unwrap().status,
        EscrowStatus::Locked
    );
}

#[test]
fn test_batch_release_funds_duplicate_in_batch() {
    let mut e = setup();
    let deadline = e.timestamp() + 1000;

    e.lock_funds(DEPOSITOR, 1, 1000, deadline).unwrap();

    let items = vec![
        ReleaseFundsItem { bounty_id: 1, contributor: CONTRIBUTOR },
        ReleaseFundsItem { bounty_id: 1, contributor: CONTRIBUTOR },
    ];

    assert_eq!(
        e.batch_release_funds(ADMIN, &items),
        Err(Error::DuplicateBountyId)
    );
}

#[test]
fn test_batch_operations_atomicity() {
    let mut e = setup();
    let deadline = e.timestamp() + 1000;

    e.lock_funds(DEPOSITOR, 1, 1000, deadline).unwrap();

    // one valid item and one that duplicates an existing bounty id:
    // the whole batch must fail and create nothing
    let items = vec![lock_item(2, 2000, deadline), lock_item(1, 3000, deadline)];

    assert_eq!(e.batch_lock_funds(&items), Err(Error::BountyExists));
    assert_eq!(e.get_escrow_info(2), Err(Error::BountyNotFound));
    assert_eq!(e.get_balance(), 1000);
}

#[test]
fn test_batch_operations_large_batch() {
    let mut e = setup();
    let deadline = e.timestamp() + 1000;

    let mut items = Vec::new();
    for i in 1..=10 {
        items.push(lock_item(i, (i * 100) as i128, deadline));
    }

    e.mint(DEPOSITOR, 10_000).unwrap();

    let count = e.batch_lock_funds(&items).unwrap();
    assert_eq!(count, 10);

    for i in 1..=10 {
        let escrow = e.get_escrow_info(i).unwrap();
        assert_eq!(escrow.status, EscrowStatus::Locked);
    }

    let mut release_items = Vec::new();
    for i in 1..=10u64 {
        release_items.push(ReleaseFundsItem { bounty_id: i, contributor: 200 + i });
    }

    let release_count = e.batch_release_funds(ADMIN, &release_items).unwrap();
    assert_eq!(release_count, 10);
}

#[test]
fn test_batch_lock_insufficient_funds_is_atomic() {
    let mut e = BountyEscrow::new(ADMIN, CONTRACT);
    e.mint(DEPOSITOR, 1500).unwrap();
    let deadline = e.timestamp() + 1000;

    // the two items together exceed the depositor's balance
    let items = vec![lock_item(1, 1000, deadline), lock_item(2, 1000, deadline)];
    assert_eq!(e.batch_lock_funds(&items), Err(Error::InsufficientBalance));
    assert_eq!(e.get_escrow_info(1), Err(Error::BountyNotFound));
    assert_eq!(e.get_balance(), 0);
    assert_eq!(e.balance(DEPOSITOR), 1500);
}
