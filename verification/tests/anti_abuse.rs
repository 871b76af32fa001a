//! Rate limiter tests: cooldown, window cap, and the whitelist bypass.

use bounty_escrow::engine::BountyEscrow;
use bounty_escrow::errors::Error;

const ADMIN: u64 = 1;
const DEPOSITOR: u64 = 2;
const CONTRACT: u64 = 100;

fn setup() -> BountyEscrow {
    let mut e = BountyEscrow::new(ADMIN, CONTRACT);
    e.mint(DEPOSITOR, 1_000_000).unwrap();
    e
}

#[test]
fn test_bounty_anti_abuse_rate_limit_exceeded() {
    let mut e = setup();
    let bounty_id = 999u64;
    let amount = 1000;

    let config = e.get_config();
    let max_ops = config.max_operations;

    let start_time = 1_000_000;
    e.set_timestamp(start_time);

    let deadline = start_time + 1000;

    for i in 0..max_ops {
        e.set_timestamp(start_time + config.cooldown_period * (i as u64) + 1);
        e.lock_funds(DEPOSITOR, bounty_id + i as u64, amount, deadline).unwrap();
    }

    e.set_timestamp(start_time + config.cooldown_period * (max_ops as u64) + 1);

    assert_eq!(
        e.lock_funds(DEPOSITOR, bounty_id + max_ops as u64, amount, deadline),
        Err(Error::RateLimitExceeded)
    );
}

#[test]
fn test_bounty_anti_abuse_cooldown_violation() {
    let mut e = setup();
    let bounty_id = 2999u64;
    let amount = 1000;

    let config = e.get_config();

    let start_time = 1_000_000;
    e.set_timestamp(start_time);

    let deadline = start_time + 1000;

    e.lock_funds(DEPOSITOR, bounty_id, amount, deadline).unwrap();

    e.set_timestamp(start_time + config.cooldown_period + 1);

    e.lock_funds(DEPOSITOR, bounty_id + 1, amount, deadline).unwrap();

    // a third lock at the same timestamp violates the cooldown
    assert_eq!(
        e.lock_funds(DEPOSITOR, bounty_id + 2, amount, deadline),
        Err(Error::CooldownViolation)
    );
}

#[test]
fn test_bounty_anti_abuse_whitelist_bypass() {
    let mut e = setup();
    let bounty_id = 3999u64;
    let amount = 10;

    let config = e.get_config();
    let max_ops = config.max_operations;

    let start_time = 1_000_000;
    e.set_timestamp(start_time);

    let deadline = start_time + 1000;

    e.lock_funds(DEPOSITOR, bounty_id, amount, deadline).unwrap();

    e.set_whitelist(ADMIN, DEPOSITOR, true).unwrap();

    e.set_timestamp(start_time + config.cooldown_period + 1);

    // whitelisted depositors may lock without limit at one timestamp
    for i in 1..=(max_ops + 5) {
        e.lock_funds(DEPOSITOR, bounty_id + i as u64, amount, deadline).unwrap();
    }

    let escrow = e.get_escrow_info(bounty_id + max_ops as u64 + 5).unwrap();
    assert_eq!(escrow.amount, amount);
}

#[test]
fn test_cooldown_with_custom_config() {
    let mut e = setup();
    let cfg = bounty_escrow::types::RateLimitConfig {
        cooldown_period: 50,
        window_size: 10_000,
        max_operations: 3,
    };
    e.set_rate_limit_config(ADMIN, cfg).unwrap();
    assert_eq!(e.get_config(), cfg);

    e.set_timestamp(1_000);
    let deadline = 100_000;
    e.lock_funds(DEPOSITOR, 1, 10, deadline).unwrap();

    // before the cooldown elapses the next lock is refused
    e.set_timestamp(1_049);
    assert_eq!(
        e.lock_funds(DEPOSITOR, 2, 10, deadline),
        Err(Error::CooldownViolation)
    );

    // exactly at the cooldown boundary it is allowed again
    e.set_timestamp(1_050);
    e.lock_funds(DEPOSITOR, 2, 10, deadline).unwrap();
}

#[test]
fn test_whitelist_toggle() {
    let mut e = setup();
    assert!(!e.is_whitelisted(DEPOSITOR));
    e.set_whitelist(ADMIN, DEPOSITOR, true).unwrap();
    assert!(e.is_whitelisted(DEPOSITOR));
    e.set_whitelist(ADMIN, DEPOSITOR, false).unwrap();
    assert!(!e.is_whitelisted(DEPOSITOR));
}

#[test]
fn test_set_whitelist_requires_admin() {
    let mut e = setup();
    assert_eq!(
        e.set_whitelist(DEPOSITOR, DEPOSITOR, true),
        Err(Error::Unauthorized)
    );
}

#[test]
fn test_cooldown_applies_at_time_zero() {
    let mut e = setup();
    let deadline = e.timestamp() + 1000;

    // the first lock arms the depositor's slot even at ledger time zero
    e.lock_funds(DEPOSITOR, 1, 10, deadline).unwrap();
    assert_eq!(
        e.lock_funds(DEPOSITOR, 2, 10, deadline),
        Err(Error::CooldownViolation)
    );
}
