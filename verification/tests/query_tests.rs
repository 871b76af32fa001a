//! Query tests: filtered bounty listings, pagination, aggregate counters,
//! and the audit event index.

use bounty_escrow::engine::BountyEscrow;
use bounty_escrow::types::{EscrowFilter, EscrowStatus, EventType, Pagination};

const ADMIN: u64 = 1;
const DEPOSITOR: u64 = 2;
const CONTRACT: u64 = 100;

fn setup() -> BountyEscrow {
    let mut e = BountyEscrow::new(ADMIN, CONTRACT);
    e.mint(DEPOSITOR, 1_000_000).unwrap();
    // these tests lock repeatedly in quick succession; exempt the depositor
    // from the rate limiter so only the behavior under test is exercised
    e.set_whitelist(ADMIN, DEPOSITOR, true).unwrap();
    e
}

fn empty_filter() -> EscrowFilter {
    EscrowFilter {
        status: None,
        min_amount: None,
        max_amount: None,
        min_deadline: None,
        max_deadline: None,
        depositor: None,
    }
}

#[test]
fn test_get_bounties_filtering() {
    let mut e = setup();
    let deadline = e.timestamp() + 1000;

    e.lock_funds(DEPOSITOR, 1, 1000, deadline).unwrap();

    e.mint(DEPOSITOR, 5000).unwrap();
    e.lock_funds(DEPOSITOR, 2, 2000, deadline).unwrap();
    e.lock_funds(DEPOSITOR, 3, 3000, deadline).unwrap();

    let contributor = 31;
    e.release_funds(ADMIN, 2, contributor, None).unwrap();

    // filter by status Locked (code 1)
    let filter_locked = EscrowFilter {
        status: Some(1),
        ..empty_filter()
    };
    let pagination = Pagination { limit: 10, offset: 0 };

    let results_locked = e.get_bounties(&filter_locked, &pagination);
    assert_eq!(results_locked.len(), 2);
    assert_eq!(results_locked[0].bounty_id, 1);
    assert_eq!(results_locked[1].bounty_id, 3);

    // filter by status Released (code 2)
    let filter_released = EscrowFilter {
        status: Some(2),
        ..empty_filter()
    };
    let results_released = e.get_bounties(&filter_released, &pagination);
    assert_eq!(results_released.len(), 1);
    assert_eq!(results_released[0].bounty_id, 2);

    // filter by amount
    let filter_amount = EscrowFilter {
        min_amount: Some(1500),
        ..empty_filter()
    };
    let results_amount = e.get_bounties(&filter_amount, &pagination);
    assert_eq!(results_amount.len(), 2);
    assert_eq!(results_amount[0].bounty_id, 2);
    assert_eq!(results_amount[1].bounty_id, 3);
}

#[test]
fn test_get_bounties_pagination() {
    let mut e = setup();
    let deadline = e.timestamp() + 1000;

    e.mint(DEPOSITOR, 10_000).unwrap();
    for i in 1..=5 {
        e.lock_funds(DEPOSITOR, i, 1000, deadline).unwrap();
    }

    let filter_all = empty_filter();

    let page1 = e.get_bounties(&filter_all, &Pagination { limit: 2, offset: 0 });
    assert_eq!(page1.len(), 2);
    assert_eq!(page1[0].bounty_id, 1);
    assert_eq!(page1[1].bounty_id, 2);

    let page2 = e.get_bounties(&filter_all, &Pagination { limit: 2, offset: 2 });
    assert_eq!(page2.len(), 2);
    assert_eq!(page2[0].bounty_id, 3);
    assert_eq!(page2[1].bounty_id, 4);

    let page3 = e.get_bounties(&filter_all, &Pagination { limit: 2, offset: 4 });
    assert_eq!(page3.len(), 1);
    assert_eq!(page3[0].bounty_id, 5);
}

#[test]
fn test_get_contract_stats() {
    let mut e = setup();
    let deadline = e.timestamp() + 1000;

    e.lock_funds(DEPOSITOR, 1, 100, deadline).unwrap();

    e.mint(DEPOSITOR, 5000).unwrap();
    e.lock_funds(DEPOSITOR, 2, 200, deadline).unwrap();

    let stats = e.get_contract_stats();
    assert_eq!(stats.total_bounties, 2);
    assert_eq!(stats.total_locked_funds, 300);
    assert_eq!(stats.total_released_funds, 0);

    let contributor = 31;
    e.release_funds(ADMIN, 1, contributor, None).unwrap();

    let stats_after = e.get_contract_stats();
    assert_eq!(stats_after.total_bounties, 2);
    assert_eq!(stats_after.total_locked_funds, 200);
    assert_eq!(stats_after.total_released_funds, 100);

    e.lock_funds(DEPOSITOR, 3, 50, deadline).unwrap();

    let stats_final = e.get_contract_stats();
    assert_eq!(stats_final.total_bounties, 3);
    assert_eq!(stats_final.total_locked_funds, 250);
    assert_eq!(stats_final.total_released_funds, 100);
}

#[test]
fn test_large_dataset_pagination_and_stats() {
    let mut e = setup();
    let start_time = e.timestamp();
    let deadline = start_time + 31_536_000;

    e.mint(DEPOSITOR, 10_000).unwrap();

    for i in 1..=50 {
        e.lock_funds(DEPOSITOR, i, 100, deadline).unwrap();
        // advance by a day so no rate limit can interfere
        e.set_timestamp(e.timestamp() + 86_400);
    }

    let stats = e.get_contract_stats();
    assert_eq!(stats.total_bounties, 50);
    assert_eq!(stats.total_locked_funds, 5000);

    let filter = empty_filter();

    let mut total_fetched = 0;
    for page in 0..5 {
        let results = e.get_bounties(
            &filter,
            &Pagination { limit: 10, offset: (page * 10) as u64 },
        );
        assert_eq!(results.len(), 10, "Page {} should have 10 items", page);
        total_fetched += results.len();
    }

    assert_eq!(total_fetched, 50);
}

#[test]
fn test_event_indexing_on_lock() {
    let mut e = setup();

    let bounty_id = 1u64;
    let amount = 1_000_000i128;
    let deadline = e.timestamp() + 1000;

    e.lock_funds(DEPOSITOR, bounty_id, amount, deadline).unwrap();

    let event_count = e.get_event_count();
    assert_eq!(event_count, 2); // Init + Lock

    let history = e.get_bounty_history(bounty_id);
    assert_eq!(history.len(), 1);
    assert_eq!(history[0].event_type, EventType::Locked);
    assert_eq!(history[0].amount, amount);
}

#[test]
fn test_query_by_address() {
    let mut e = setup();
    e.mint(DEPOSITOR, 20_000).unwrap();

    let deadline = e.timestamp() + 1000;
    e.lock_funds(DEPOSITOR, 1, 1_000, deadline).unwrap();
    e.lock_funds(DEPOSITOR, 2, 2_000, deadline).unwrap();

    let result = e.get_address_history(DEPOSITOR, 10, None);
    assert_eq!(result.total_count, 2);
}

#[test]
fn test_query_with_filters() {
    let mut e = setup();
    let contributor = 31;

    let bounty_id = 1u64;
    let amount = 1_000i128;
    let deadline = e.timestamp() + 1000;
    e.lock_funds(DEPOSITOR, bounty_id, amount, deadline).unwrap();
    e.release_funds(ADMIN, bounty_id, contributor, None).unwrap();

    let event_types = vec![EventType::Released];
    let result = e.get_events_by_type(&event_types, 10, None);

    assert_eq!(result.total_count, 1);
    assert_eq!(result.events[0].event_type, EventType::Released);
}

#[test]
fn test_pagination() {
    let mut e = setup();
    e.mint(DEPOSITOR, 100_000).unwrap();

    let deadline = e.timestamp() + 1000;
    for i in 1..=10 {
        e.lock_funds(DEPOSITOR, i, (i as i128) * 100, deadline).unwrap();
    }

    let page1 = e.get_address_history(DEPOSITOR, 5, None);
    assert_eq!(page1.total_count, 5);
    assert!(page1.has_more);

    let page2 = e.get_address_history(DEPOSITOR, 5, page1.next_cursor);
    assert_eq!(page2.total_count, 5);
}

#[test]
fn test_query_by_amount_range() {
    let mut e = setup();
    e.mint(DEPOSITOR, 100_000_000_000).unwrap();

    let deadline = e.timestamp() + 1000;
    e.lock_funds(DEPOSITOR, 1, 500_000_000, deadline).unwrap();
    e.lock_funds(DEPOSITOR, 2, 1_500_000_000, deadline).unwrap();
    e.lock_funds(DEPOSITOR, 3, 2_500_000_000, deadline).unwrap();

    let result = e.get_events_by_amount(Some(1_000_000_000), Some(2_000_000_000), 10, None);

    assert_eq!(result.total_count, 1);
    assert_eq!(result.events[0].amount, 1_500_000_000);
}

#[test]
fn test_query_by_timerange() {
    let mut e = setup();

    let start_time = e.timestamp();
    e.lock_funds(DEPOSITOR, 1, 1_000, start_time + 1000).unwrap();
    let end_time = e.timestamp();

    let result = e.get_events_by_timerange(start_time, end_time, 10, None);

    assert!(result.total_count >= 1);
}
