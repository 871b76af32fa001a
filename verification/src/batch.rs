//! The batch coordinator: lists of lock or release operations applied as a
//! single all-or-nothing unit. The whole list is validated against a
//! simulated ledger before anything is written, so a failure anywhere
//! leaves every record and every balance untouched.

use vstd::prelude::*;

use crate::engine::{released_record, sat_add, BountyEscrow};
use crate::errors::Error;
use crate::store::Table;
use crate::types::{
    EscrowRecord, EscrowStatus, EventIndex, EventType, LockFundsItem, ReleaseFundsItem,
};

verus! {

/// The balance the validation pass ascribes to `a`: the simulated entry if
/// one exists, the real ledger balance otherwise.
pub open spec fn spec_sim_balance(sim: Table<i128>, base: crate::token::TokenLedger, a: u64) -> int {
    match sim.spec_get(a) {
        Some(v) => v as int,
        None => base.spec_balance(a) as int,
    }
}

impl BountyEscrow {
    /// Sum of the amounts of the first `k` items a given account deposits,
    /// counting only real transfers (a deposit from the custodial account
    /// itself moves nothing).
    pub open spec fn spec_lock_debit(self, items: Seq<LockFundsItem>, k: int, a: u64) -> int
        decreases k,
    {
        if k <= 0 {
            0
        } else {
            self.spec_lock_debit(items, k - 1, a) + if items[k - 1].depositor == a && a
                != self.contract_account {
                items[k - 1].amount
            } else {
                0
            }
        }
    }

    /// Sum of the amounts of the first `k` items that really move funds
    /// into custody.
    pub open spec fn spec_lock_credit(self, items: Seq<LockFundsItem>, k: int) -> int
        decreases k,
    {
        if k <= 0 {
            0
        } else {
            self.spec_lock_credit(items, k - 1) + if items[k - 1].depositor
                != self.contract_account {
                items[k - 1].amount
            } else {
                0
            }
        }
    }

    /// The balance account `a` would hold after applying the first `k`
    /// items of the batch to this state.
    pub open spec fn spec_lock_bal_at(self, items: Seq<LockFundsItem>, k: int, a: u64) -> int {
        self.ledger.spec_balance(a) - self.spec_lock_debit(items, k, a) + if a
            == self.contract_account {
            self.spec_lock_credit(items, k)
        } else {
            0
        }
    }

    /// The first problem with item `k`, judged against this (pre-batch)
    /// state and the simulated effect of the items before it.
    pub open spec fn spec_lock_item_err(self, items: Seq<LockFundsItem>, k: int) -> Option<Error> {
        let it = items[k];
        if it.amount <= 0 {
            Some(Error::InvalidAmount)
        } else if it.deadline <= self.now {
            Some(Error::InvalidDeadline)
        } else if self.escrows.has_key(it.bounty_id) {
            Some(Error::BountyExists)
        } else if exists|j: int| 0 <= j < k && (#[trigger] items[j]).bounty_id == it.bounty_id {
            Some(Error::DuplicateBountyId)
        } else if !(it.amount <= self.spec_lock_bal_at(items, k, it.depositor)) {
            Some(Error::InsufficientBalance)
        } else if it.depositor != self.contract_account && self.spec_lock_bal_at(
            items,
            k,
            self.contract_account,
        ) + it.amount > i128::MAX {
            Some(Error::InsufficientBalance)
        } else {
            None
        }
    }

    /// The first item error at or after position `k`.
    pub open spec fn spec_lock_scan(self, items: Seq<LockFundsItem>, k: int) -> Option<Error>
        decreases items.len() - k,
    {
        if k < 0 || k >= items.len() {
            None
        } else {
            match self.spec_lock_item_err(items, k) {
                Some(e) => Some(e),
                None => self.spec_lock_scan(items, k + 1),
            }
        }
    }

    /// When the first `k` items are clean, the scan from the start equals
    /// the scan from `k`.
    pub proof fn lemma_lock_scan_skip(self, items: Seq<LockFundsItem>, k: int)
        requires
            0 <= k <= items.len(),
            forall|j: int| 0 <= j < k ==> self.spec_lock_item_err(items, j) is None,
        ensures
            self.spec_lock_scan(items, 0) == self.spec_lock_scan(items, k),
        decreases k,
    {
        if k > 0 {
            self.lemma_lock_scan_skip(items, k - 1);
            assert(self.spec_lock_item_err(items, k - 1) is None);
        }
    }

    /// The custodial account itself is never debited by a batch.
    pub proof fn lemma_lock_debit_contract(self, items: Seq<LockFundsItem>, k: int)
        ensures
            self.spec_lock_debit(items, k, self.contract_account) == 0,
        decreases k,
    {
        if k > 0 {
            self.lemma_lock_debit_contract(items, k - 1);
        }
    }

    /// The error a whole batch runs into: the pause gate, then the size,
    /// then the first item error.
    pub open spec fn spec_batch_lock_err(self, items: Seq<LockFundsItem>) -> Option<Error> {
        if self.pause.lock_paused {
            Some(Error::LockPaused)
        } else if items.len() == 0 || items.len() > u32::MAX {
            Some(Error::InvalidBatchSize)
        } else {
            self.spec_lock_scan(items, 0)
        }
    }

    /// Locks every item of the batch, or nothing. The whole list is
    /// validated first (amounts, deadlines, fresh ids, no duplicate inside
    /// the batch, and funding against a simulated ledger); the rate limiter
    /// does not apply to batches. On success returns the item count.
    pub fn batch_lock_funds(&mut self, items: &Vec<LockFundsItem>) -> (r: Result<u32, Error>)
        requires
            old(self).wf(),
        ensures
            final(self).wf(),
            match old(self).spec_batch_lock_err(items@) {
                Some(e) => r == Err::<u32, Error>(e) && *final(self) == *old(self),
                None => r == Ok::<u32, Error>(items@.len() as u32),
            },
            r is Ok ==> {
                &&& final(self).escrows.entries@ =~= old(self).escrows.entries@ + items@.map_values(
                    |it: LockFundsItem|
                        (
                            it.bounty_id,
                            old(self).spec_new_record(it.depositor, it.amount, it.deadline),
                        ),
                )
                &&& forall|k: int|
                    0 <= k < items@.len() ==> final(self).escrows.spec_get(
                        (#[trigger] items@[k]).bounty_id,
                    ) == Some(
                        old(self).spec_new_record(
                            items@[k].depositor,
                            items@[k].amount,
                            items@[k].deadline,
                        ),
                    )
                &&& forall|a: u64| #[trigger]
                    final(self).ledger.spec_balance(a) == old(self).spec_lock_bal_at(
                        items@,
                        items@.len() as int,
                        a,
                    )
                &&& final(self).events@ =~= old(self).events@ + items@.map_values(
                    |it: LockFundsItem|
                        old(self).spec_event(EventType::Locked, it.bounty_id, it.depositor, it.amount),
                ).push(
                    old(self).spec_event(
                        EventType::BatchLocked,
                        0,
                        0,
                        old(self).spec_lock_credit(items@, items@.len() as int) as i128,
                    ),
                )
                &&& *final(self) == (BountyEscrow {
                    ledger: final(self).ledger,
                    escrows: final(self).escrows,
                    events: final(self).events,
                    ..*old(self)
                })
            },
    {
        if self.pause.lock_paused {
            return Err(Error::LockPaused);
        }
        let n = items.len();
        if n == 0 || n > u32::MAX as usize {
            return Err(Error::InvalidBatchSize);
        }
        let contract = self.contract_account;
        // validation pass over a simulated ledger; nothing is written yet
        let mut sim: Table<i128> = Table::new();
        let mut seen: Table<bool> = Table::new();
        let mut k: usize = 0;
        while k < n
            invariant
                n == items@.len(),
                0 < n <= u32::MAX,
                0 <= k <= n,
                contract == self.contract_account,
                old(self).wf(),
                !old(self).pause.lock_paused,
                self.wf(),
                *self == *old(self),
                sim.wf(),
                seen.wf(),
                forall|a: u64| #[trigger]
                    spec_sim_balance(sim, self.ledger, a) == self.spec_lock_bal_at(
                        items@,
                        k as int,
                        a,
                    ),
                forall|id: u64| #[trigger]
                    seen.has_key(id) <==> exists|j: int|
                        0 <= j < k && (#[trigger] items@[j]).bounty_id == id,
                forall|j: int| 0 <= j < k ==> self.spec_lock_item_err(items@, j) is None,
            decreases n - k,
        {
            let it = items[k];
            if it.amount <= 0 {
                proof {
                    self.lemma_lock_scan_skip(items@, k as int);
                }
                return Err(Error::InvalidAmount);
            }
            if it.deadline <= self.now {
                proof {
                    self.lemma_lock_scan_skip(items@, k as int);
                }
                return Err(Error::InvalidDeadline);
            }
            if self.escrows.contains(it.bounty_id) {
                proof {
                    self.lemma_lock_scan_skip(items@, k as int);
                }
                return Err(Error::BountyExists);
            }
            if seen.contains(it.bounty_id) {
                proof {
                    self.lemma_lock_scan_skip(items@, k as int);
                }
                return Err(Error::DuplicateBountyId);
            }
            let dep_bal = match sim.get(it.depositor) {
                Some(v) => *v,
                None => self.ledger.balance(it.depositor),
            };
            proof {
                assert(dep_bal == spec_sim_balance(sim, self.ledger, it.depositor));
                assert(dep_bal == self.spec_lock_bal_at(items@, k as int, it.depositor));
            }
            if !(it.amount <= dep_bal) {
                proof {
                    self.lemma_lock_scan_skip(items@, k as int);
                }
                return Err(Error::InsufficientBalance);
            }
            let ghost sim0 = sim;
            if it.depositor != contract {
                let c_bal = match sim.get(contract) {
                    Some(v) => *v,
                    None => self.ledger.balance(contract),
                };
                proof {
                    assert(c_bal == spec_sim_balance(sim, self.ledger, contract));
                    assert(c_bal == self.spec_lock_bal_at(items@, k as int, contract));
                }
                if c_bal > i128::MAX - it.amount {
                    proof {
                        self.lemma_lock_scan_skip(items@, k as int);
                    }
                    return Err(Error::InsufficientBalance);
                }
                sim.insert(it.depositor, dep_bal - it.amount);
                let c_bal2 = match sim.get(contract) {
                    Some(v) => *v,
                    None => self.ledger.balance(contract),
                };
                proof {
                    assert(c_bal2 == c_bal);
                }
                sim.insert(contract, c_bal2 + it.amount);
                proof {
                    assert(sim.spec_get(it.depositor) == Some(
                        (dep_bal - it.amount) as i128,
                    ));
                    assert(sim.spec_get(contract) == Some((c_bal + it.amount) as i128));
                }
            }
            seen.insert(it.bounty_id, true);
            proof {
                assert(self.spec_lock_item_err(items@, k as int) is None);
                assert forall|a: u64| #[trigger]
                    spec_sim_balance(sim, self.ledger, a) == self.spec_lock_bal_at(
                        items@,
                        k + 1,
                        a,
                    ) by {
                    assert(self.spec_lock_debit(items@, k + 1, a) == self.spec_lock_debit(
                        items@,
                        k as int,
                        a,
                    ) + if items@[k as int].depositor == a && a != self.contract_account {
                        items@[k as int].amount as int
                    } else {
                        0
                    });
                    assert(self.spec_lock_credit(items@, k + 1) == self.spec_lock_credit(
                        items@,
                        k as int,
                    ) + if items@[k as int].depositor != self.contract_account {
                        items@[k as int].amount as int
                    } else {
                        0
                    });
                    assert(spec_sim_balance(sim0, self.ledger, a) == self.spec_lock_bal_at(
                        items@,
                        k as int,
                        a,
                    ));
                    if it.depositor != contract {
                        if a != it.depositor && a != contract {
                            assert(sim.spec_get(a) == sim0.spec_get(a));
                        }
                    } else {
                        assert(sim.spec_get(a) == sim0.spec_get(a));
                    }
                }
                assert forall|id: u64| #[trigger]
                    seen.has_key(id) <==> exists|j: int|
                        0 <= j < k + 1 && (#[trigger] items@[j]).bounty_id == id by {
                    if seen.has_key(id) {
                        if id == items@[k as int].bounty_id {
                            assert(items@[k as int].bounty_id == id);
                        }
                    }
                    if exists|j: int| 0 <= j < k + 1 && (#[trigger] items@[j]).bounty_id == id {
                        let j = choose|j: int|
                            0 <= j < k + 1 && (#[trigger] items@[j]).bounty_id == id;
                        if j < k {
                            assert(old(self).spec_lock_item_err(items@, j) is None || true);
                        }
                    }
                }
            }
            k = k + 1;
        }
        proof {
            self.lemma_lock_scan_skip(items@, n as int);
        }
        // apply pass: every transfer and insertion below is known to succeed
        let ghost pre = *self;
        let mut total: i128 = 0;
        let mut k2: usize = 0;
        while k2 < n
            invariant
                n == items@.len(),
                0 < n <= u32::MAX,
                0 <= k2 <= n,
                contract == pre.contract_account,
                pre == *old(self),
                pre.wf(),
                !pre.pause.lock_paused,
                self.wf(),
                forall|j: int| 0 <= j < n ==> pre.spec_lock_item_err(items@, j) is None,
                forall|a: u64| #[trigger]
                    self.ledger.spec_balance(a) == pre.spec_lock_bal_at(items@, k2 as int, a),
                self.escrows.entries@ =~= pre.escrows.entries@ + items@.take(k2 as int).map_values(
                    |it: LockFundsItem|
                        (it.bounty_id, pre.spec_new_record(it.depositor, it.amount, it.deadline)),
                ),
                self.events@ =~= pre.events@ + items@.take(k2 as int).map_values(
                    |it: LockFundsItem|
                        pre.spec_event(EventType::Locked, it.bounty_id, it.depositor, it.amount),
                ),
                total == pre.spec_lock_credit(items@, k2 as int),
                *self == (BountyEscrow {
                    ledger: self.ledger,
                    escrows: self.escrows,
                    events: self.events,
                    ..pre
                }),
            decreases n - k2,
        {
            let it = items[k2];
            proof {
                assert(pre.spec_lock_item_err(items@, k2 as int) is None);
                assert(!self.escrows.has_key(it.bounty_id)) by {
                    if self.escrows.has_key(it.bounty_id) {
                        let i = self.escrows.key_index(it.bounty_id);
                        assert(self.escrows.entries@[i].0 == it.bounty_id);
                        if i < pre.escrows.entries@.len() {
                            assert(pre.escrows.entries@[i].0 == it.bounty_id);
                            pre.escrows.lemma_key_index(it.bounty_id, i);
                        } else {
                            let j = i - pre.escrows.entries@.len();
                            assert(items@.take(k2 as int)[j].bounty_id == it.bounty_id);
                            assert(items@[j].bounty_id == it.bounty_id);
                        }
                    }
                }
            }
            let ok = self.ledger.transfer(it.depositor, contract, it.amount);
            proof {
                assert(ok);
            }
            let record = EscrowRecord {
                depositor: it.depositor,
                amount: it.amount,
                remaining_amount: it.amount,
                deadline: it.deadline,
                status: EscrowStatus::Locked,
                created_at: self.now,
            };
            self.escrows.insert(it.bounty_id, record);
            self.events.push(
                EventIndex {
                    event_type: EventType::Locked,
                    bounty_id: it.bounty_id,
                    address: it.depositor,
                    timestamp: self.now,
                    amount: it.amount,
                    block_height: 0,
                },
            );
            if it.depositor != contract {
                total = match total.checked_add(it.amount) {
                    Some(v) => v,
                    None => {
                        proof {
                            pre.lemma_lock_debit_contract(items@, k2 as int);
                            assert(pre.spec_lock_item_err(items@, k2 as int) is None);
                            assert(pre.spec_lock_bal_at(items@, k2 as int, contract) + it.amount
                                <= i128::MAX);
                            assert(pre.ledger.spec_balance(contract) >= 0);
                            assert(false);
                        }
                        0
                    },
                };
            }
            proof {
                assert(self.escrows.entries@ =~= pre.escrows.entries@ + items@.take(
                    k2 + 1,
                ).map_values(
                    |it2: LockFundsItem|
                        (it2.bounty_id, pre.spec_new_record(it2.depositor, it2.amount, it2.deadline)),
                ));
                assert(self.events@ =~= pre.events@ + items@.take(k2 + 1).map_values(
                    |it2: LockFundsItem|
                        pre.spec_event(EventType::Locked, it2.bounty_id, it2.depositor, it2.amount),
                ));
                assert forall|a: u64| #[trigger]
                    self.ledger.spec_balance(a) == pre.spec_lock_bal_at(items@, k2 + 1, a) by {
                    assert(pre.spec_lock_debit(items@, k2 + 1, a) == pre.spec_lock_debit(
                        items@,
                        k2 as int,
                        a,
                    ) + if items@[k2 as int].depositor == a && a != pre.contract_account {
                        items@[k2 as int].amount as int
                    } else {
                        0
                    });
                }
                assert forall|id: u64| #[trigger]
                    self.escrows.has_key(id) implies self.escrows.spec_get(id).unwrap().wf() by {}
            }
            k2 = k2 + 1;
        }
        self.events.push(
            EventIndex {
                event_type: EventType::BatchLocked,
                bounty_id: 0,
                address: 0,
                timestamp: self.now,
                amount: total,
                block_height: 0,
            },
        );
        proof {
            assert(items@.take(n as int) =~= items@);
            assert(self.events@ =~= pre.events@ + items@.map_values(
                |it: LockFundsItem|
                    pre.spec_event(EventType::Locked, it.bounty_id, it.depositor, it.amount),
            ).push(
                pre.spec_event(
                    EventType::BatchLocked,
                    0,
                    0,
                    pre.spec_lock_credit(items@, items@.len() as int) as i128,
                ),
            ));
            let ghost f = |it: LockFundsItem|
                (it.bounty_id, pre.spec_new_record(it.depositor, it.amount, it.deadline));
            assert forall|k3: int| 0 <= k3 < items@.len() implies self.escrows.spec_get(
                (#[trigger] items@[k3]).bounty_id,
            ) == Some(
                pre.spec_new_record(items@[k3].depositor, items@[k3].amount, items@[k3].deadline),
            ) by {
                let i = pre.escrows.entries@.len() as int + k3;
                assert(self.escrows.entries@[i] == items@.map_values(f)[k3]);
                self.escrows.lemma_key_index(items@[k3].bounty_id, i);
            }
        }
        Ok(n as u32)
    }

    /// The amount batch item `j` releases: the record's whole remainder.
    pub open spec fn spec_rel_eff(self, items: Seq<ReleaseFundsItem>, j: int) -> int {
        self.spec_record(items[j].bounty_id).remaining_amount as int
    }

    /// Custody paid out by the first `k` items (payouts back to the
    /// custodial account itself move nothing).
    pub open spec fn spec_rel_out(self, items: Seq<ReleaseFundsItem>, k: int) -> int
        decreases k,
    {
        if k <= 0 {
            0
        } else {
            self.spec_rel_out(items, k - 1) + if items[k - 1].contributor
                != self.contract_account {
                self.spec_rel_eff(items, k - 1)
            } else {
                0
            }
        }
    }

    /// What the first `k` items credit to account `a`.
    pub open spec fn spec_rel_in(self, items: Seq<ReleaseFundsItem>, k: int, a: u64) -> int
        decreases k,
    {
        if k <= 0 {
            0
        } else {
            self.spec_rel_in(items, k - 1, a) + if items[k - 1].contributor == a && a
                != self.contract_account {
                self.spec_rel_eff(items, k - 1)
            } else {
                0
            }
        }
    }

    /// The balance account `a` would hold after the first `k` items.
    pub open spec fn spec_rel_bal_at(self, items: Seq<ReleaseFundsItem>, k: int, a: u64) -> int {
        self.ledger.spec_balance(a) + self.spec_rel_in(items, k, a) - if a
            == self.contract_account {
            self.spec_rel_out(items, k)
        } else {
            0
        }
    }

    /// The released total after the first `k` items, accumulated with
    /// saturation exactly as the engine accumulates it.
    pub open spec fn spec_rel_total_at(self, items: Seq<ReleaseFundsItem>, k: int) -> i128
        decreases k,
    {
        if k <= 0 {
            self.total_released
        } else {
            sat_add(self.spec_rel_total_at(items, k - 1), self.spec_rel_eff(items, k - 1) as i128)
        }
    }

    /// The per-event released sum after the first `k` items, saturating.
    pub open spec fn spec_rel_sum_sat(self, items: Seq<ReleaseFundsItem>, k: int) -> i128
        decreases k,
    {
        if k <= 0 {
            0
        } else {
            sat_add(self.spec_rel_sum_sat(items, k - 1), self.spec_rel_eff(items, k - 1) as i128)
        }
    }

    /// The first problem with release item `k`, judged against this
    /// (pre-batch) state and the simulated effect of the items before it.
    pub open spec fn spec_rel_item_err(self, items: Seq<ReleaseFundsItem>, k: int) -> Option<
        Error,
    > {
        let it = items[k];
        if !self.escrows.has_key(it.bounty_id) {
            Some(Error::BountyNotFound)
        } else if !self.spec_record(it.bounty_id).releasable() {
            Some(Error::FundsNotLocked)
        } else if exists|j: int| 0 <= j < k && (#[trigger] items[j]).bounty_id == it.bounty_id {
            Some(Error::DuplicateBountyId)
        } else if !(self.spec_rel_eff(items, k) <= self.spec_rel_bal_at(
            items,
            k,
            self.contract_account,
        )) {
            Some(Error::InsufficientBalance)
        } else if it.contributor != self.contract_account && self.spec_rel_bal_at(
            items,
            k,
            it.contributor,
        ) + self.spec_rel_eff(items, k) > i128::MAX {
            Some(Error::InsufficientBalance)
        } else {
            None
        }
    }

    /// The first release item error at or after position `k`.
    pub open spec fn spec_rel_scan(self, items: Seq<ReleaseFundsItem>, k: int) -> Option<Error>
        decreases items.len() - k,
    {
        if k < 0 || k >= items.len() {
            None
        } else {
            match self.spec_rel_item_err(items, k) {
                Some(e) => Some(e),
                None => self.spec_rel_scan(items, k + 1),
            }
        }
    }

    /// When the first `k` release items are clean, the scan from the start
    /// equals the scan from `k`.
    pub proof fn lemma_rel_scan_skip(self, items: Seq<ReleaseFundsItem>, k: int)
        requires
            0 <= k <= items.len(),
            forall|j: int| 0 <= j < k ==> self.spec_rel_item_err(items, j) is None,
        ensures
            self.spec_rel_scan(items, 0) == self.spec_rel_scan(items, k),
        decreases k,
    {
        if k > 0 {
            self.lemma_rel_scan_skip(items, k - 1);
            assert(self.spec_rel_item_err(items, k - 1) is None);
        }
    }

    /// The error a whole release batch runs into: the pause gate, the
    /// caller's role, the size, then the first item error.
    pub open spec fn spec_batch_release_err(self, caller: u64, items: Seq<ReleaseFundsItem>) -> Option<
        Error,
    > {
        if self.pause.release_paused {
            Some(Error::ReleasePaused)
        } else if !self.roles.spec_is_operator(caller) {
            Some(Error::Unauthorized)
        } else if items.len() == 0 || items.len() > u32::MAX {
            Some(Error::InvalidBatchSize)
        } else {
            self.spec_rel_scan(items, 0)
        }
    }

    /// Releases every item's whole remainder to its contributor, or
    /// nothing. The whole list is validated against a simulated ledger
    /// first; each record ends Released with nothing remaining. On success
    /// returns the item count.
    pub fn batch_release_funds(&mut self, caller: u64, items: &Vec<ReleaseFundsItem>) -> (r:
        Result<u32, Error>)
        requires
            old(self).wf(),
        ensures
            final(self).wf(),
            match old(self).spec_batch_release_err(caller, items@) {
                Some(e) => r == Err::<u32, Error>(e) && *final(self) == *old(self),
                None => r == Ok::<u32, Error>(items@.len() as u32),
            },
            r is Ok ==> {
                &&& forall|k: int|
                    0 <= k < items@.len() ==> final(self).escrows.spec_get(
                        (#[trigger] items@[k]).bounty_id,
                    ) == Some(
                        released_record(
                            old(self).spec_record(items@[k].bounty_id),
                            old(self).spec_record(items@[k].bounty_id).remaining_amount,
                        ),
                    )
                &&& forall|id: u64|
                    #[trigger] final(self).escrows.spec_get(id) == old(self).escrows.spec_get(id)
                        || exists|j: int|
                        0 <= j < items@.len() && (#[trigger] items@[j]).bounty_id == id
                &&& forall|a: u64| #[trigger]
                    final(self).ledger.spec_balance(a) == old(self).spec_rel_bal_at(
                        items@,
                        items@.len() as int,
                        a,
                    )
                &&& final(self).total_released == old(self).spec_rel_total_at(
                    items@,
                    items@.len() as int,
                )
                &&& final(self).events@ =~= old(self).events@ + items@.map_values(
                    |it: ReleaseFundsItem|
                        old(self).spec_event(
                            EventType::Released,
                            it.bounty_id,
                            it.contributor,
                            old(self).spec_record(it.bounty_id).remaining_amount,
                        ),
                ).push(
                    old(self).spec_event(
                        EventType::BatchReleased,
                        0,
                        0,
                        old(self).spec_rel_sum_sat(items@, items@.len() as int),
                    ),
                )
                &&& *final(self) == (BountyEscrow {
                    ledger: final(self).ledger,
                    escrows: final(self).escrows,
                    events: final(self).events,
                    total_released: final(self).total_released,
                    ..*old(self)
                })
            },
    {
        if self.pause.release_paused {
            return Err(Error::ReleasePaused);
        }
        if !self.roles.is_operator(caller) {
            return Err(Error::Unauthorized);
        }
        let n = items.len();
        if n == 0 || n > u32::MAX as usize {
            return Err(Error::InvalidBatchSize);
        }
        let contract = self.contract_account;
        // validation pass over a simulated ledger; nothing is written yet
        let mut sim: Table<i128> = Table::new();
        let mut seen: Table<bool> = Table::new();
        let mut k: usize = 0;
        while k < n
            invariant
                n == items@.len(),
                0 < n <= u32::MAX,
                0 <= k <= n,
                contract == self.contract_account,
                old(self).wf(),
                !old(self).pause.release_paused,
                old(self).roles.spec_is_operator(caller),
                self.wf(),
                *self == *old(self),
                sim.wf(),
                seen.wf(),
                forall|a: u64| #[trigger]
                    spec_sim_balance(sim, self.ledger, a) == self.spec_rel_bal_at(
                        items@,
                        k as int,
                        a,
                    ),
                forall|id: u64| #[trigger]
                    seen.has_key(id) <==> exists|j: int|
                        0 <= j < k && (#[trigger] items@[j]).bounty_id == id,
                forall|j: int| 0 <= j < k ==> self.spec_rel_item_err(items@, j) is None,
            decreases n - k,
        {
            let it = items[k];
            let rec = match self.escrows.get(it.bounty_id) {
                Some(r) => *r,
                None => {
                    proof {
                        self.lemma_rel_scan_skip(items@, k as int);
                    }
                    return Err(Error::BountyNotFound);
                },
            };
            if !(matches!(rec.status, EscrowStatus::Locked) || matches!(
                rec.status,
                EscrowStatus::PartiallyReleased,
            )) {
                proof {
                    self.lemma_rel_scan_skip(items@, k as int);
                }
                return Err(Error::FundsNotLocked);
            }
            if seen.contains(it.bounty_id) {
                proof {
                    self.lemma_rel_scan_skip(items@, k as int);
                }
                return Err(Error::DuplicateBountyId);
            }
            let eff = rec.remaining_amount;
            let c_bal = match sim.get(contract) {
                Some(v) => *v,
                None => self.ledger.balance(contract),
            };
            proof {
                assert(c_bal == spec_sim_balance(sim, self.ledger, contract));
                assert(c_bal == self.spec_rel_bal_at(items@, k as int, contract));
            }
            if !(eff <= c_bal) {
                proof {
                    self.lemma_rel_scan_skip(items@, k as int);
                }
                return Err(Error::InsufficientBalance);
            }
            let ghost sim0 = sim;
            if it.contributor != contract {
                let x_bal = match sim.get(it.contributor) {
                    Some(v) => *v,
                    None => self.ledger.balance(it.contributor),
                };
                proof {
                    assert(x_bal == spec_sim_balance(sim, self.ledger, it.contributor));
                    assert(x_bal == self.spec_rel_bal_at(items@, k as int, it.contributor));
                }
                if x_bal > i128::MAX - eff {
                    proof {
                        self.lemma_rel_scan_skip(items@, k as int);
                    }
                    return Err(Error::InsufficientBalance);
                }
                sim.insert(contract, c_bal - eff);
                let x_bal2 = match sim.get(it.contributor) {
                    Some(v) => *v,
                    None => self.ledger.balance(it.contributor),
                };
                proof {
                    assert(x_bal2 == x_bal);
                }
                sim.insert(it.contributor, x_bal2 + eff);
                proof {
                    assert(sim.spec_get(contract) == Some((c_bal - eff) as i128));
                    assert(sim.spec_get(it.contributor) == Some((x_bal + eff) as i128));
                }
            }
            seen.insert(it.bounty_id, true);
            proof {
                assert(self.spec_rel_item_err(items@, k as int) is None);
                assert forall|a: u64| #[trigger]
                    spec_sim_balance(sim, self.ledger, a) == self.spec_rel_bal_at(
                        items@,
                        k + 1,
                        a,
                    ) by {
                    assert(self.spec_rel_in(items@, k + 1, a) == self.spec_rel_in(
                        items@,
                        k as int,
                        a,
                    ) + if items@[k as int].contributor == a && a != self.contract_account {
                        self.spec_rel_eff(items@, k as int)
                    } else {
                        0
                    });
                    assert(self.spec_rel_out(items@, k + 1) == self.spec_rel_out(
                        items@,
                        k as int,
                    ) + if items@[k as int].contributor != self.contract_account {
                        self.spec_rel_eff(items@, k as int)
                    } else {
                        0
                    });
                    assert(spec_sim_balance(sim0, self.ledger, a) == self.spec_rel_bal_at(
                        items@,
                        k as int,
                        a,
                    ));
                    if it.contributor != contract {
                        if a != it.contributor && a != contract {
                            assert(sim.spec_get(a) == sim0.spec_get(a));
                        }
                    } else {
                        assert(sim.spec_get(a) == sim0.spec_get(a));
                    }
                }
                assert forall|id: u64| #[trigger]
                    seen.has_key(id) <==> exists|j: int|
                        0 <= j < k + 1 && (#[trigger] items@[j]).bounty_id == id by {
                    if seen.has_key(id) {
                        if id == items@[k as int].bounty_id {
                            assert(items@[k as int].bounty_id == id);
                        }
                    }
                }
            }
            k = k + 1;
        }
        proof {
            self.lemma_rel_scan_skip(items@, n as int);
        }
        // apply pass: every transfer and update below is known to succeed
        let ghost pre = *self;
        let mut total: i128 = 0;
        let mut k2: usize = 0;
        while k2 < n
            invariant
                n == items@.len(),
                0 < n <= u32::MAX,
                0 <= k2 <= n,
                contract == pre.contract_account,
                pre == *old(self),
                pre.wf(),
                !pre.pause.release_paused,
                pre.roles.spec_is_operator(caller),
                self.wf(),
                forall|j: int| 0 <= j < n ==> pre.spec_rel_item_err(items@, j) is None,
                forall|a: u64| #[trigger]
                    self.ledger.spec_balance(a) == pre.spec_rel_bal_at(items@, k2 as int, a),
                forall|j: int|
                    0 <= j < k2 ==> self.escrows.spec_get((#[trigger] items@[j]).bounty_id)
                        == Some(
                        released_record(
                            pre.spec_record(items@[j].bounty_id),
                            pre.spec_record(items@[j].bounty_id).remaining_amount,
                        ),
                    ),
                forall|id: u64|
                    #[trigger] self.escrows.spec_get(id) == pre.escrows.spec_get(id) || exists|
                        j: int,
                    | 0 <= j < k2 && (#[trigger] items@[j]).bounty_id == id,
                self.escrows.key_seq() == pre.escrows.key_seq(),
                self.total_released == pre.spec_rel_total_at(items@, k2 as int),
                total == pre.spec_rel_sum_sat(items@, k2 as int),
                self.events@ =~= pre.events@ + items@.take(k2 as int).map_values(
                    |it: ReleaseFundsItem|
                        pre.spec_event(
                            EventType::Released,
                            it.bounty_id,
                            it.contributor,
                            pre.spec_record(it.bounty_id).remaining_amount,
                        ),
                ),
                *self == (BountyEscrow {
                    ledger: self.ledger,
                    escrows: self.escrows,
                    events: self.events,
                    total_released: self.total_released,
                    ..pre
                }),
            decreases n - k2,
        {
            let it = items[k2];
            proof {
                assert(pre.spec_rel_item_err(items@, k2 as int) is None);
                assert(!(exists|j: int|
                    0 <= j < k2 && (#[trigger] items@[j]).bounty_id == it.bounty_id));
                assert(self.escrows.spec_get(it.bounty_id) == pre.escrows.spec_get(it.bounty_id));
                assert(pre.escrows.has_key(it.bounty_id));
                assert(pre.spec_record(it.bounty_id).wf());
            }
            let rec = match self.escrows.get(it.bounty_id) {
                Some(r) => *r,
                None => {
                    proof {
                        assert(false);
                    }
                    return Err(Error::BountyNotFound);
                },
            };
            let eff = rec.remaining_amount;
            let ok = self.ledger.transfer(contract, it.contributor, eff);
            proof {
                assert(ok);
            }
            let updated = EscrowRecord {
                remaining_amount: 0,
                status: EscrowStatus::Released,
                ..rec
            };
            self.escrows.insert(it.bounty_id, updated);
            self.total_released = match self.total_released.checked_add(eff) {
                Some(v) => v,
                None => i128::MAX,
            };
            total = match total.checked_add(eff) {
                Some(v) => v,
                None => i128::MAX,
            };
            self.events.push(
                EventIndex {
                    event_type: EventType::Released,
                    bounty_id: it.bounty_id,
                    address: it.contributor,
                    timestamp: self.now,
                    amount: eff,
                    block_height: 0,
                },
            );
            proof {
                assert(self.events@ =~= pre.events@ + items@.take(k2 + 1).map_values(
                    |it2: ReleaseFundsItem|
                        pre.spec_event(
                            EventType::Released,
                            it2.bounty_id,
                            it2.contributor,
                            pre.spec_record(it2.bounty_id).remaining_amount,
                        ),
                ));
                assert forall|a: u64| #[trigger]
                    self.ledger.spec_balance(a) == pre.spec_rel_bal_at(items@, k2 + 1, a) by {
                    assert(pre.spec_rel_in(items@, k2 + 1, a) == pre.spec_rel_in(
                        items@,
                        k2 as int,
                        a,
                    ) + if items@[k2 as int].contributor == a && a != pre.contract_account {
                        pre.spec_rel_eff(items@, k2 as int)
                    } else {
                        0
                    });
                    assert(pre.spec_rel_out(items@, k2 + 1) == pre.spec_rel_out(
                        items@,
                        k2 as int,
                    ) + if items@[k2 as int].contributor != pre.contract_account {
                        pre.spec_rel_eff(items@, k2 as int)
                    } else {
                        0
                    });
                }
                assert forall|id: u64| #[trigger]
                    self.escrows.has_key(id) implies self.escrows.spec_get(id).unwrap().wf() by {}
            }
            k2 = k2 + 1;
        }
        self.events.push(
            EventIndex {
                event_type: EventType::BatchReleased,
                bounty_id: 0,
                address: 0,
                timestamp: self.now,
                amount: total,
                block_height: 0,
            },
        );
        proof {
            assert(items@.take(n as int) =~= items@);
            assert(self.events@ =~= pre.events@ + items@.map_values(
                |it: ReleaseFundsItem|
                    pre.spec_event(
                        EventType::Released,
                        it.bounty_id,
                        it.contributor,
                        pre.spec_record(it.bounty_id).remaining_amount,
                    ),
            ).push(
                pre.spec_event(
                    EventType::BatchReleased,
                    0,
                    0,
                    pre.spec_rel_sum_sat(items@, items@.len() as int),
                ),
            ));
        }
        Ok(n as u32)
    }
}

} // verus!
