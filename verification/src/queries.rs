//! Read-only queries: filtered bounty listings with pagination, aggregate
//! counters, and cursor-based pages over the audit event index. None of
//! these mutates state or requires authorization.

use vstd::prelude::*;

use crate::engine::{sat_add, BountyEscrow};
use crate::types::{
    BountyListItem, ContractStats, EscrowFilter, EscrowRecord, EventIndex, EventQueryResult,
    EventType, Pagination,
};

verus! {

/// Whether a record passes every bound the filter sets.
pub open spec fn spec_bounty_matches(f: EscrowFilter, p: (u64, EscrowRecord)) -> bool {
    &&& match f.status {
        Some(code) => p.1.status.spec_code() == code,
        None => true,
    }
    &&& match f.min_amount {
        Some(m) => p.1.amount >= m,
        None => true,
    }
    &&& match f.max_amount {
        Some(m) => p.1.amount <= m,
        None => true,
    }
    &&& match f.min_deadline {
        Some(m) => p.1.deadline >= m,
        None => true,
    }
    &&& match f.max_deadline {
        Some(m) => p.1.deadline <= m,
        None => true,
    }
    &&& match f.depositor {
        Some(d) => p.1.depositor == d,
        None => true,
    }
}

/// The smaller of two ints.
pub open spec fn spec_min(a: int, b: int) -> int {
    if a < b {
        a
    } else {
        b
    }
}

/// Which events an event query selects.
pub enum EventSelector {
    /// Events that concern the given bounty.
    ByBounty(u64),
    /// Events whose primary address is the given account.
    ByAddress(u64),
    /// Events whose type occurs in the given list.
    ByTypes(Seq<EventType>),
    /// Events whose amount lies within the optional bounds.
    ByAmount(Option<i128>, Option<i128>),
    /// Events whose timestamp lies in the inclusive range.
    ByTime(u64, u64),
}

/// Whether one event passes the selector.
pub open spec fn spec_event_matches(sel: EventSelector, e: EventIndex) -> bool {
    match sel {
        EventSelector::ByBounty(id) => e.bounty_id == id,
        EventSelector::ByAddress(a) => e.address == a,
        EventSelector::ByTypes(ts) => ts.contains(e.event_type),
        EventSelector::ByAmount(lo, hi) => {
            &&& match lo {
                Some(m) => e.amount >= m,
                None => true,
            }
            &&& match hi {
                Some(m) => e.amount <= m,
                None => true,
            }
        },
        EventSelector::ByTime(from, to) => from <= e.timestamp && e.timestamp <= to,
    }
}

/// The selected events among `events[c0..k]`, oldest first.
pub open spec fn spec_event_window(
    events: Seq<EventIndex>,
    sel: EventSelector,
    c0: int,
    k: int,
) -> Seq<EventIndex>
    decreases k - c0,
{
    if k <= c0 {
        Seq::empty()
    } else {
        let rest = spec_event_window(events, sel, c0, k - 1);
        if spec_event_matches(sel, events[k - 1]) {
            rest.push(events[k - 1])
        } else {
            rest
        }
    }
}

/// What one cursor-based page promises: its events are exactly the matches
/// between the scan start and `next_cursor`, at most `limit` of them, and
/// the scan stopped before the end only because the page filled on a match.
pub open spec fn spec_page_ok(
    events: Seq<EventIndex>,
    sel: EventSelector,
    cursor: Option<u64>,
    limit: u32,
    r: EventQueryResult,
) -> bool {
    let c0 = spec_min(
        match cursor {
            Some(c) => c as int,
            None => 0,
        },
        events.len() as int,
    );
    &&& r.next_cursor is Some
    &&& {
        let nc = r.next_cursor.unwrap() as int;
        &&& c0 <= nc <= events.len()
        &&& r.events@ =~= spec_event_window(events, sel, c0, nc)
        &&& r.events@.len() <= limit
        &&& (nc < events.len() ==> r.events@.len() == limit && (limit > 0 ==> nc > c0
            && spec_event_matches(sel, events[nc - 1])))
        &&& r.has_more == (nc < events.len())
        &&& r.total_count == r.events@.len()
    }
}

impl BountyEscrow {
    /// The rows matching the filter among the first `k` records, in
    /// creation order.
    pub open spec fn spec_matching_rows(self, f: EscrowFilter, k: int) -> Seq<BountyListItem>
        decreases k,
    {
        if k <= 0 {
            Seq::empty()
        } else {
            let rest = self.spec_matching_rows(f, k - 1);
            let p = self.escrows.entries@[k - 1];
            if spec_bounty_matches(f, p) {
                rest.push(BountyListItem { bounty_id: p.0, record: p.1 })
            } else {
                rest
            }
        }
    }

    /// The page a `get_bounties` call returns: the matching records in
    /// creation order, after skipping `offset` matches, at most `limit`.
    pub open spec fn spec_bounty_page(self, f: EscrowFilter, pag: Pagination) -> Seq<
        BountyListItem,
    > {
        let all = self.spec_matching_rows(f, self.escrows.spec_len() as int);
        all.subrange(
            spec_min(pag.offset as int, all.len() as int),
            spec_min(pag.offset + pag.limit, all.len() as int),
        )
    }

    /// Lists bounties that pass the filter, in creation order, as one page.
    pub fn get_bounties(&self, filter: &EscrowFilter, pagination: &Pagination) -> (r: Vec<
        BountyListItem,
    >)
        requires
            self.wf(),
        ensures
            r@ =~= self.spec_bounty_page(*filter, *pagination),
    {
        let n = self.escrows.len();
        let mut all: Vec<BountyListItem> = Vec::new();
        let mut i: usize = 0;
        while i < n
            invariant
                n == self.escrows.entries@.len(),
                0 <= i <= n,
                self.wf(),
                all@ =~= self.spec_matching_rows(*filter, i as int),
            decreases n - i,
        {
            let entry = self.escrows.entry_at(i);
            let rec = entry.1;
            let ok_status = match filter.status {
                Some(code) => rec.status.code() == code,
                None => true,
            };
            let ok_min_amount = match filter.min_amount {
                Some(m) => rec.amount >= m,
                None => true,
            };
            let ok_max_amount = match filter.max_amount {
                Some(m) => rec.amount <= m,
                None => true,
            };
            let ok_min_deadline = match filter.min_deadline {
                Some(m) => rec.deadline >= m,
                None => true,
            };
            let ok_max_deadline = match filter.max_deadline {
                Some(m) => rec.deadline <= m,
                None => true,
            };
            let ok_depositor = match filter.depositor {
                Some(d) => rec.depositor == d,
                None => true,
            };
            let matched = ok_status && ok_min_amount && ok_max_amount && ok_min_deadline
                && ok_max_deadline && ok_depositor;
            proof {
                assert(matched == spec_bounty_matches(*filter, self.escrows.entries@[i as int]));
            }
            if matched {
                all.push(BountyListItem { bounty_id: entry.0, record: rec });
            }
            proof {
                assert(all@ =~= self.spec_matching_rows(*filter, i + 1));
            }
            i = i + 1;
        }
        // cut the requested page out of the full match list
        let total = all.len();
        let start = if pagination.offset > total as u64 {
            total
        } else {
            pagination.offset as usize
        };
        let end_wide: u64 = if pagination.offset > total as u64 {
            total as u64
        } else {
            let room: u64 = total as u64 - pagination.offset;
            if (pagination.limit as u64) < room {
                pagination.offset + pagination.limit as u64
            } else {
                total as u64
            }
        };
        let end = end_wide as usize;
        let mut out: Vec<BountyListItem> = Vec::new();
        let mut j: usize = start;
        while j < end
            invariant
                start <= j <= end,
                end <= all@.len(),
                out@ =~= all@.subrange(start as int, j as int),
            decreases end - j,
        {
            let item = all[j];
            out.push(item);
            proof {
                assert(out@ =~= all@.subrange(start as int, j + 1));
            }
            j = j + 1;
        }
        out
    }

    /// The saturating sum of the remaining amounts of the first `k` records.
    pub open spec fn spec_remaining_sum(self, k: int) -> i128
        decreases k,
    {
        if k <= 0 {
            0
        } else {
            sat_add(
                self.spec_remaining_sum(k - 1),
                self.escrows.entries@[k - 1].1.remaining_amount,
            )
        }
    }

    /// Aggregate counters: how many bounties exist, how much is still held
    /// across all of them, and how much was ever released.
    pub fn get_contract_stats(&self) -> (r: ContractStats)
        requires
            self.wf(),
        ensures
            r.total_bounties == self.escrows.spec_len(),
            r.total_locked_funds == self.spec_remaining_sum(self.escrows.spec_len() as int),
            r.total_released_funds == self.total_released,
    {
        let n = self.escrows.len();
        let mut locked: i128 = 0;
        let mut i: usize = 0;
        while i < n
            invariant
                n == self.escrows.entries@.len(),
                0 <= i <= n,
                self.wf(),
                0 <= locked,
                locked == self.spec_remaining_sum(i as int),
            decreases n - i,
        {
            let entry = self.escrows.entry_at(i);
            proof {
                self.escrows.lemma_key_index(self.escrows.entries@[i as int].0, i as int);
                assert(self.escrows.has_key(self.escrows.entries@[i as int].0));
                assert(self.escrows.entries@[i as int].1.wf());
            }
            locked = match locked.checked_add(entry.1.remaining_amount) {
                Some(v) => v,
                None => i128::MAX,
            };
            i = i + 1;
        }
        ContractStats {
            total_bounties: n as u64,
            total_locked_funds: locked,
            total_released_funds: self.total_released,
        }
    }

    /// How many audit events the engine has indexed.
    pub fn get_event_count(&self) -> (r: u64)
        ensures
            r == self.events@.len(),
    {
        self.events.len() as u64
    }

    /// Every indexed event that concerns the given bounty, oldest first.
    pub fn get_bounty_history(&self, bounty_id: u64) -> (r: Vec<EventIndex>)
        ensures
            r@ =~= spec_event_window(
                self.events@,
                EventSelector::ByBounty(bounty_id),
                0,
                self.events@.len() as int,
            ),
    {
        let n = self.events.len();
        let mut out: Vec<EventIndex> = Vec::new();
        let mut i: usize = 0;
        while i < n
            invariant
                n == self.events@.len(),
                0 <= i <= n,
                out@ =~= spec_event_window(
                    self.events@,
                    EventSelector::ByBounty(bounty_id),
                    0,
                    i as int,
                ),
            decreases n - i,
        {
            let e = self.events[i];
            if e.bounty_id == bounty_id {
                out.push(e);
            }
            proof {
                assert(out@ =~= spec_event_window(
                    self.events@,
                    EventSelector::ByBounty(bounty_id),
                    0,
                    i + 1,
                ));
            }
            i = i + 1;
        }
        out
    }

    /// One page of events whose primary address is `address`.
    pub fn get_address_history(&self, address: u64, limit: u32, cursor: Option<u64>) -> (r:
        EventQueryResult)
        ensures
            spec_page_ok(self.events@, EventSelector::ByAddress(address), cursor, limit, r),
    {
        let n = self.events.len();
        let c0: usize = match cursor {
            Some(c) => if c >= n as u64 {
                n
            } else {
                c as usize
            },
            None => 0,
        };
        let mut out: Vec<EventIndex> = Vec::new();
        let mut i: usize = c0;
        while i < n && out.len() < limit as usize
            invariant
                n == self.events@.len(),
                c0 <= i <= n,
                out@ =~= spec_event_window(
                    self.events@,
                    EventSelector::ByAddress(address),
                    c0 as int,
                    i as int,
                ),
                out@.len() <= limit,
                (limit > 0 && out@.len() == limit) ==> i > c0 && spec_event_matches(
                    EventSelector::ByAddress(address),
                    self.events@[i - 1],
                ),
            decreases n - i,
        {
            let e = self.events[i];
            if e.address == address {
                out.push(e);
            }
            proof {
                assert(out@ =~= spec_event_window(
                    self.events@,
                    EventSelector::ByAddress(address),
                    c0 as int,
                    i + 1,
                ));
            }
            i = i + 1;
        }
        let count = out.len();
        EventQueryResult {
            events: out,
            total_count: count as u32,
            has_more: i < n,
            next_cursor: Some(i as u64),
        }
    }

    /// One page of events whose type occurs in `types`.
    pub fn get_events_by_type(&self, types: &Vec<EventType>, limit: u32, cursor: Option<u64>) -> (r:
        EventQueryResult)
        ensures
            spec_page_ok(self.events@, EventSelector::ByTypes(types@), cursor, limit, r),
    {
        let n = self.events.len();
        let c0: usize = match cursor {
            Some(c) => if c >= n as u64 {
                n
            } else {
                c as usize
            },
            None => 0,
        };
        let mut out: Vec<EventIndex> = Vec::new();
        let mut i: usize = c0;
        while i < n && out.len() < limit as usize
            invariant
                n == self.events@.len(),
                c0 <= i <= n,
                out@ =~= spec_event_window(
                    self.events@,
                    EventSelector::ByTypes(types@),
                    c0 as int,
                    i as int,
                ),
                out@.len() <= limit,
                (limit > 0 && out@.len() == limit) ==> i > c0 && spec_event_matches(
                    EventSelector::ByTypes(types@),
                    self.events@[i - 1],
                ),
            decreases n - i,
        {
            let e = self.events[i];
            let m = contains_event_type(types, e.event_type);
            if m {
                out.push(e);
            }
            proof {
                assert(out@ =~= spec_event_window(
                    self.events@,
                    EventSelector::ByTypes(types@),
                    c0 as int,
                    i + 1,
                ));
            }
            i = i + 1;
        }
        let count = out.len();
        EventQueryResult {
            events: out,
            total_count: count as u32,
            has_more: i < n,
            next_cursor: Some(i as u64),
        }
    }

    /// One page of events whose amount lies within the optional bounds.
    pub fn get_events_by_amount(
        &self,
        min_amount: Option<i128>,
        max_amount: Option<i128>,
        limit: u32,
        cursor: Option<u64>,
    ) -> (r: EventQueryResult)
        ensures
            spec_page_ok(
                self.events@,
                EventSelector::ByAmount(min_amount, max_amount),
                cursor,
                limit,
                r,
            ),
    {
        let n = self.events.len();
        let c0: usize = match cursor {
            Some(c) => if c >= n as u64 {
                n
            } else {
                c as usize
            },
            None => 0,
        };
        let mut out: Vec<EventIndex> = Vec::new();
        let mut i: usize = c0;
        while i < n && out.len() < limit as usize
            invariant
                n == self.events@.len(),
                c0 <= i <= n,
                out@ =~= spec_event_window(
                    self.events@,
                    EventSelector::ByAmount(min_amount, max_amount),
                    c0 as int,
                    i as int,
                ),
                out@.len() <= limit,
                (limit > 0 && out@.len() == limit) ==> i > c0 && spec_event_matches(
                    EventSelector::ByAmount(min_amount, max_amount),
                    self.events@[i - 1],
                ),
            decreases n - i,
        {
            let e = self.events[i];
            let ok_lo = match min_amount {
                Some(m) => e.amount >= m,
                None => true,
            };
            let ok_hi = match max_amount {
                Some(m) => e.amount <= m,
                None => true,
            };
            if ok_lo && ok_hi {
                out.push(e);
            }
            proof {
                assert(out@ =~= spec_event_window(
                    self.events@,
                    EventSelector::ByAmount(min_amount, max_amount),
                    c0 as int,
                    i + 1,
                ));
            }
            i = i + 1;
        }
        let count = out.len();
        EventQueryResult {
            events: out,
            total_count: count as u32,
            has_more: i < n,
            next_cursor: Some(i as u64),
        }
    }

    /// One page of events stamped within the inclusive time range.
    pub fn get_events_by_timerange(
        &self,
        from_timestamp: u64,
        to_timestamp: u64,
        limit: u32,
        cursor: Option<u64>,
    ) -> (r: EventQueryResult)
        ensures
            spec_page_ok(
                self.events@,
                EventSelector::ByTime(from_timestamp, to_timestamp),
                cursor,
                limit,
                r,
            ),
    {
        let n = self.events.len();
        let c0: usize = match cursor {
            Some(c) => if c >= n as u64 {
                n
            } else {
                c as usize
            },
            None => 0,
        };
        let mut out: Vec<EventIndex> = Vec::new();
        let mut i: usize = c0;
        while i < n && out.len() < limit as usize
            invariant
                n == self.events@.len(),
                c0 <= i <= n,
                out@ =~= spec_event_window(
                    self.events@,
                    EventSelector::ByTime(from_timestamp, to_timestamp),
                    c0 as int,
                    i as int,
                ),
                out@.len() <= limit,
                (limit > 0 && out@.len() == limit) ==> i > c0 && spec_event_matches(
                    EventSelector::ByTime(from_timestamp, to_timestamp),
                    self.events@[i - 1],
                ),
            decreases n - i,
        {
            let e = self.events[i];
            if from_timestamp <= e.timestamp && e.timestamp <= to_timestamp {
                out.push(e);
            }
            proof {
                assert(out@ =~= spec_event_window(
                    self.events@,
                    EventSelector::ByTime(from_timestamp, to_timestamp),
                    c0 as int,
                    i + 1,
                ));
            }
            i = i + 1;
        }
        let count = out.len();
        EventQueryResult {
            events: out,
            total_count: count as u32,
            has_more: i < n,
            next_cursor: Some(i as u64),
        }
    }
}

/// Whether `t` occurs in `v`.
fn contains_event_type(v: &Vec<EventType>, t: EventType) -> (r: bool)
    ensures
        r == v@.contains(t),
{
    let n = v.len();
    let mut i: usize = 0;
    while i < n
        invariant
            n == v@.len(),
            0 <= i <= n,
            forall|j: int| 0 <= j < i ==> v@[j] != t,
        decreases n - i,
    {
        if v[i] == t {
            return true;
        }
        i = i + 1;
    }
    false
}

} // verus!
