//! The escrow lifecycle engine: one explicit state value holding the ledger
//! of escrow records, the token balances, the pause gate, the rate limiter,
//! the multisig gate, refund approvals, pending claims, role assignments and
//! the audit event index. Every operation either performs its whole effect
//! or returns an error and leaves the state untouched.

use vstd::prelude::*;

use crate::errors::Error;
use crate::rbac::{Role, Roles};
use crate::store::Table;
use crate::token::TokenLedger;
use crate::types::{
    EscrowRecord, EscrowStatus, EventIndex, EventType, MultisigConfig, PauseConfig, PendingClaim,
    PendingReleaseApproval, RateLimitConfig, RateLimitEntry, RefundApproval, RefundRecord,
};

verus! {

/// The claim window used when none was configured.
pub const DEFAULT_CLAIM_WINDOW: u64 = 86400;

/// Default minimum spacing between one depositor's locks.
pub const DEFAULT_COOLDOWN_PERIOD: u64 = 60;

/// Default length of the rate-limit window.
pub const DEFAULT_WINDOW_SIZE: u64 = 3600;

/// Default cap on locks per depositor and window.
pub const DEFAULT_MAX_OPERATIONS: u32 = 5;

/// The whole engine state.
pub struct BountyEscrow {
    /// The account that received the Admin role at initialization.
    pub admin: u64,
    /// The custodial account all escrowed value sits on.
    pub contract_account: u64,
    /// The current ledger time.
    pub now: u64,
    /// Token balances, including the custodial account's.
    pub ledger: TokenLedger,
    /// The per-bounty records, in creation order.
    pub escrows: Table<EscrowRecord>,
    /// Executed refunds by bounty id, append-only.
    pub refund_history: Table<Vec<RefundRecord>>,
    /// At most one standing refund approval per bounty id.
    pub refund_approvals: Table<RefundApproval>,
    /// The multisig gate, once configured.
    pub multisig: Option<MultisigConfig>,
    /// At most one pending release approval per bounty id.
    pub release_approvals: Table<PendingReleaseApproval>,
    /// At most one pending claim per bounty id.
    pub pending_claims: Table<PendingClaim>,
    /// The configured claim window, if any.
    pub claim_window: Option<u64>,
    /// The three pause flags.
    pub pause: PauseConfig,
    /// The reason recorded by the last global pause.
    pub pause_reason: Option<String>,
    /// The anti-abuse settings.
    pub rate_config: RateLimitConfig,
    /// Per-depositor rate-limit bookkeeping.
    pub rate_entries: Table<RateLimitEntry>,
    /// Depositors exempt from rate limiting (present with value true).
    pub whitelist: Table<bool>,
    /// Role assignments.
    pub roles: Roles,
    /// The audit event index, append-only.
    pub events: Vec<EventIndex>,
    /// Sum of all released amounts, saturating at the i128 maximum.
    pub total_released: i128,
}

/// `a + b` for non-negative amounts, saturating at the i128 maximum.
pub open spec fn sat_add(a: i128, b: i128) -> i128 {
    if a + b > i128::MAX {
        i128::MAX
    } else {
        (a + b) as i128
    }
}

/// The record after releasing `amount` of its remainder.
pub open spec fn released_record(rec: EscrowRecord, amount: i128) -> EscrowRecord {
    EscrowRecord {
        remaining_amount: (rec.remaining_amount - amount) as i128,
        status: if rec.remaining_amount == amount {
            EscrowStatus::Released
        } else {
            EscrowStatus::PartiallyReleased
        },
        ..rec
    }
}

/// The record after refunding `amount` of its remainder.
pub open spec fn refunded_record(rec: EscrowRecord, amount: i128) -> EscrowRecord {
    EscrowRecord {
        remaining_amount: (rec.remaining_amount - amount) as i128,
        status: if rec.remaining_amount == amount {
            EscrowStatus::Refunded
        } else {
            EscrowStatus::PartiallyRefunded
        },
        ..rec
    }
}

impl BountyEscrow {
    /// The engine invariant: every component is well-formed and every escrow
    /// record satisfies its own invariant (`0 <= remaining <= amount`, with a
    /// zero remainder exactly in the terminal states).
    pub open spec fn wf(self) -> bool {
        &&& self.ledger.wf()
        &&& self.escrows.wf()
        &&& self.refund_history.wf()
        &&& self.refund_approvals.wf()
        &&& self.release_approvals.wf()
        &&& self.pending_claims.wf()
        &&& self.rate_entries.wf()
        &&& self.whitelist.wf()
        &&& self.roles.wf()
        &&& forall|id: u64| #[trigger]
            self.escrows.has_key(id) ==> self.escrows.spec_get(id).unwrap().wf()
        &&& match self.multisig {
            Some(c) => c.wf(),
            None => true,
        }
        &&& forall|id: u64| #[trigger]
            self.release_approvals.has_key(id) ==> self.release_approvals.spec_get(
                id,
            ).unwrap().wf()
        &&& forall|id: u64| #[trigger]
            self.pending_claims.has_key(id) ==> self.pending_claims.spec_get(id).unwrap().amount
                >= 0
        &&& self.total_released >= 0
    }

    /// The record under `id` (meaningful only when one exists).
    pub open spec fn spec_record(self, id: u64) -> EscrowRecord {
        self.escrows.spec_get(id).unwrap()
    }

    pub open spec fn spec_whitelisted(self, account: u64) -> bool {
        self.whitelist.spec_get(account) == Some(true)
    }

    /// The depositor's previous lock is too recent: a rate-limit slot exists
    /// and less than the cooldown period has elapsed since its last lock.
    pub open spec fn spec_cooldown_violation(self, depositor: u64) -> bool {
        &&& !self.spec_whitelisted(depositor)
        &&& match self.rate_entries.spec_get(depositor) {
            Some(e) => self.now < e.last_lock + self.rate_config.cooldown_period,
            None => false,
        }
    }

    /// The depositor reached the operation cap for the still-running window.
    pub open spec fn spec_rate_limited(self, depositor: u64) -> bool {
        &&& !self.spec_whitelisted(depositor)
        &&& match self.rate_entries.spec_get(depositor) {
            Some(e) => self.now < e.window_start + self.rate_config.window_size && e.count
                >= self.rate_config.max_operations,
            None => false,
        }
    }

    /// The rate-limit slot a successful lock leaves behind.
    pub open spec fn spec_next_rate_entry(self, depositor: u64) -> RateLimitEntry {
        match self.rate_entries.spec_get(depositor) {
            None => RateLimitEntry { last_lock: self.now, window_start: self.now, count: 1 },
            Some(e) => {
                if self.now >= e.window_start + self.rate_config.window_size {
                    RateLimitEntry { last_lock: self.now, window_start: self.now, count: 1 }
                } else {
                    RateLimitEntry {
                        last_lock: self.now,
                        window_start: e.window_start,
                        count: (e.count + 1) as u32,
                    }
                }
            },
        }
    }

    /// Whether a release of `amount` must go through the multisig path.
    pub open spec fn spec_needs_multisig(self, amount: i128) -> bool {
        match self.multisig {
            Some(c) => c.enabled && amount > c.threshold_amount,
            None => false,
        }
    }

    /// The record a successful lock creates.
    pub open spec fn spec_new_record(
        self,
        depositor: u64,
        amount: i128,
        deadline: u64,
    ) -> EscrowRecord {
        EscrowRecord {
            depositor,
            amount,
            remaining_amount: amount,
            deadline,
            status: EscrowStatus::Locked,
            created_at: self.now,
        }
    }

    /// An audit event stamped with the current time.
    pub open spec fn spec_event(
        self,
        event_type: EventType,
        bounty_id: u64,
        address: u64,
        amount: i128,
    ) -> EventIndex {
        EventIndex { event_type, bounty_id, address, timestamp: self.now, amount, block_height: 0 }
    }

    /// A fresh engine: empty ledger, everything unpaused, default rate
    /// limits, the admin holding the Admin role, and one Initialized event.
    pub fn new(admin: u64, contract_account: u64) -> (r: Self)
        ensures
            r.wf(),
            r.admin == admin,
            r.contract_account == contract_account,
            r.now == 0,
            forall|a: u64| r.ledger.spec_balance(a) == 0,
            r.escrows.spec_len() == 0,
            forall|id: u64| !r.escrows.has_key(id),
            forall|id: u64| !r.refund_history.has_key(id),
            forall|id: u64| !r.refund_approvals.has_key(id),
            r.multisig is None,
            forall|id: u64| !r.release_approvals.has_key(id),
            forall|id: u64| !r.pending_claims.has_key(id),
            r.claim_window is None,
            r.pause == (PauseConfig { lock_paused: false, release_paused: false, refund_paused: false }),
            r.pause_reason is None,
            r.rate_config == (RateLimitConfig {
                cooldown_period: DEFAULT_COOLDOWN_PERIOD,
                window_size: DEFAULT_WINDOW_SIZE,
                max_operations: DEFAULT_MAX_OPERATIONS,
            }),
            forall|d: u64| !r.rate_entries.has_key(d),
            forall|d: u64| !r.spec_whitelisted(d),
            forall|a: u64, ro: Role|
                #[trigger] r.roles.spec_has_role(a, ro) <==> (a == admin && ro == Role::Admin),
            r.events@.len() == 1,
            r.events@[0] == (EventIndex {
                event_type: EventType::Initialized,
                bounty_id: 0,
                address: admin,
                timestamp: 0,
                amount: 0,
                block_height: 0,
            }),
            r.total_released == 0,
    {
        let mut roles = Roles::new();
        roles.grant(admin, Role::Admin);
        let mut events: Vec<EventIndex> = Vec::new();
        events.push(
            EventIndex {
                event_type: EventType::Initialized,
                bounty_id: 0,
                address: admin,
                timestamp: 0,
                amount: 0,
                block_height: 0,
            },
        );
        BountyEscrow {
            admin,
            contract_account,
            now: 0,
            ledger: TokenLedger::new(),
            escrows: Table::new(),
            refund_history: Table::new(),
            refund_approvals: Table::new(),
            multisig: None,
            release_approvals: Table::new(),
            pending_claims: Table::new(),
            claim_window: None,
            pause: PauseConfig { lock_paused: false, release_paused: false, refund_paused: false },
            pause_reason: None,
            rate_config: RateLimitConfig {
                cooldown_period: DEFAULT_COOLDOWN_PERIOD,
                window_size: DEFAULT_WINDOW_SIZE,
                max_operations: DEFAULT_MAX_OPERATIONS,
            },
            rate_entries: Table::new(),
            whitelist: Table::new(),
            roles,
            events,
            total_released: 0,
        }
    }

    pub fn timestamp(&self) -> (r: u64)
        ensures
            r == self.now,
    {
        self.now
    }

    /// Sets the ledger time the engine sees.
    pub fn set_timestamp(&mut self, t: u64)
        requires
            old(self).wf(),
        ensures
            final(self).wf(),
            *final(self) == (BountyEscrow { now: t, ..*old(self) }),
    {
        self.now = t;
    }

    /// Credits fresh tokens to an account; models the external asset issuer.
    pub fn mint(&mut self, account: u64, amount: i128) -> (r: Result<(), Error>)
        requires
            old(self).wf(),
        ensures
            final(self).wf(),
            r is Ok <==> (0 <= amount && old(self).ledger.spec_balance(account) + amount
                <= i128::MAX),
            r is Err ==> *final(self) == *old(self) && r == Err::<(), Error>(Error::InvalidAmount),
            r is Ok ==> final(self).ledger.spec_balance(account) == old(self).ledger.spec_balance(
                account,
            ) + amount,
            r is Ok ==> forall|a: u64|
                a != account ==> #[trigger] final(self).ledger.spec_balance(a) == old(self).ledger.spec_balance(a),
            r is Ok ==> *final(self) == (BountyEscrow { ledger: final(self).ledger, ..*old(self) }),
    {
        let ok = self.ledger.mint(account, amount);
        if ok {
            Ok(())
        } else {
            Err(Error::InvalidAmount)
        }
    }

    /// The token balance of any account.
    pub fn balance(&self, account: u64) -> (r: i128)
        requires
            self.wf(),
        ensures
            r == self.ledger.spec_balance(account),
    {
        self.ledger.balance(account)
    }

    /// The custodial balance the engine holds.
    pub fn get_balance(&self) -> (r: i128)
        requires
            self.wf(),
        ensures
            r == self.ledger.spec_balance(self.contract_account),
    {
        self.ledger.balance(self.contract_account)
    }

    /// The stored record for a bounty.
    pub fn get_escrow_info(&self, bounty_id: u64) -> (r: Result<EscrowRecord, Error>)
        requires
            self.wf(),
        ensures
            match r {
                Ok(rec) => self.escrows.spec_get(bounty_id) == Some(rec),
                Err(e) => !self.escrows.has_key(bounty_id) && e == Error::BountyNotFound,
            },
    {
        match self.escrows.get(bounty_id) {
            Some(rec) => Ok(*rec),
            None => Err(Error::BountyNotFound),
        }
    }

    /// The remaining amount of a bounty.
    pub fn get_remaining_amount(&self, bounty_id: u64) -> (r: Result<i128, Error>)
        requires
            self.wf(),
        ensures
            match r {
                Ok(v) => self.escrows.has_key(bounty_id) && v == self.spec_record(
                    bounty_id,
                ).remaining_amount,
                Err(e) => !self.escrows.has_key(bounty_id) && e == Error::BountyNotFound,
            },
    {
        match self.escrows.get(bounty_id) {
            Some(rec) => Ok(rec.remaining_amount),
            None => Err(Error::BountyNotFound),
        }
    }

    /// The error a lock attempt runs into, checked in order: the pause gate,
    /// amount and deadline validation, id freshness, the rate limiter, and
    /// finally whether the depositor can fund the transfer.
    pub open spec fn spec_lock_err(
        self,
        depositor: u64,
        bounty_id: u64,
        amount: i128,
        deadline: u64,
    ) -> Option<Error> {
        if self.pause.lock_paused {
            Some(Error::LockPaused)
        } else if amount <= 0 {
            Some(Error::InvalidAmount)
        } else if deadline <= self.now {
            Some(Error::InvalidDeadline)
        } else if self.escrows.has_key(bounty_id) {
            Some(Error::BountyExists)
        } else if self.spec_cooldown_violation(depositor) {
            Some(Error::CooldownViolation)
        } else if self.spec_rate_limited(depositor) {
            Some(Error::RateLimitExceeded)
        } else if !self.ledger.can_transfer(depositor, self.contract_account, amount) {
            Some(Error::InsufficientBalance)
        } else {
            None
        }
    }

    /// Locks `amount` for `bounty_id`: debits the depositor into custody and
    /// creates the record with status Locked and its full remaining amount.
    /// Fails atomically with the first error `spec_lock_err` names.
    pub fn lock_funds(
        &mut self,
        depositor: u64,
        bounty_id: u64,
        amount: i128,
        deadline: u64,
    ) -> (r: Result<(), Error>)
        requires
            old(self).wf(),
        ensures
            final(self).wf(),
            match old(self).spec_lock_err(depositor, bounty_id, amount, deadline) {
                Some(e) => r == Err::<(), Error>(e) && *final(self) == *old(self),
                None => r is Ok,
            },
            r is Ok ==> {
                &&& final(self).escrows.entries@ == old(self).escrows.entries@.push(
                    (bounty_id, old(self).spec_new_record(depositor, amount, deadline)),
                )
                &&& final(self).escrows.spec_get(bounty_id) == Some(
                    old(self).spec_new_record(depositor, amount, deadline),
                )
                &&& forall|id: u64|
                    id != bounty_id ==> #[trigger] final(self).escrows.spec_get(id) == old(self).escrows.spec_get(id)
                &&& (depositor != old(self).contract_account ==> final(self).ledger.spec_balance(
                    depositor,
                ) == old(self).ledger.spec_balance(depositor) - amount && final(self).ledger.spec_balance(old(self).contract_account) == old(self).ledger.spec_balance(
                    old(self).contract_account,
                ) + amount)
                &&& (depositor == old(self).contract_account ==> final(self).ledger == old(self).ledger)
                &&& forall|a: u64|
                    a != depositor && a != old(self).contract_account ==> #[trigger] final(self).ledger.spec_balance(a) == old(self).ledger.spec_balance(a)
                &&& final(self).events@ == old(self).events@.push(
                    old(self).spec_event(EventType::Locked, bounty_id, depositor, amount),
                )
                &&& (old(self).spec_whitelisted(depositor) ==> final(self).rate_entries == old(self).rate_entries)
                &&& (!old(self).spec_whitelisted(depositor) ==> final(self).rate_entries.spec_get(depositor) == Some(
                    old(self).spec_next_rate_entry(depositor),
                ) && forall|d: u64|
                    d != depositor ==> #[trigger] final(self).rate_entries.spec_get(d) == old(self).rate_entries.spec_get(d))
                &&& *final(self) == (BountyEscrow {
                    ledger: final(self).ledger,
                    escrows: final(self).escrows,
                    rate_entries: final(self).rate_entries,
                    events: final(self).events,
                    ..*old(self)
                })
            },
    {
        if self.pause.lock_paused {
            return Err(Error::LockPaused);
        }
        if amount <= 0 {
            return Err(Error::InvalidAmount);
        }
        if deadline <= self.now {
            return Err(Error::InvalidDeadline);
        }
        if self.escrows.contains(bounty_id) {
            return Err(Error::BountyExists);
        }
        let whitelisted = match self.whitelist.get(depositor) {
            Some(b) => *b,
            None => false,
        };
        if !whitelisted {
            match self.rate_entries.get(depositor) {
                Some(e) => {
                    let entry = *e;
                    let cooldown_until = entry.last_lock.checked_add(
                        self.rate_config.cooldown_period,
                    );
                    let in_cooldown = match cooldown_until {
                        Some(t) => self.now < t,
                        None => true,
                    };
                    if in_cooldown {
                        return Err(Error::CooldownViolation);
                    }
                    let window_end = entry.window_start.checked_add(self.rate_config.window_size);
                    let in_window = match window_end {
                        Some(t) => self.now < t,
                        None => true,
                    };
                    if in_window && entry.count >= self.rate_config.max_operations {
                        return Err(Error::RateLimitExceeded);
                    }
                },
                None => {},
            }
        }
        let contract = self.contract_account;
        let ok = self.ledger.transfer(depositor, contract, amount);
        if !ok {
            return Err(Error::InsufficientBalance);
        }
        let record = EscrowRecord {
            depositor,
            amount,
            remaining_amount: amount,
            deadline,
            status: EscrowStatus::Locked,
            created_at: self.now,
        };
        self.escrows.insert(bounty_id, record);
        if !whitelisted {
            let next = match self.rate_entries.get(depositor) {
                Some(e) => {
                    let entry = *e;
                    let window_end = entry.window_start.checked_add(self.rate_config.window_size);
                    let expired = match window_end {
                        Some(t) => self.now >= t,
                        None => false,
                    };
                    if expired {
                        RateLimitEntry { last_lock: self.now, window_start: self.now, count: 1 }
                    } else {
                        RateLimitEntry {
                            last_lock: self.now,
                            window_start: entry.window_start,
                            count: entry.count + 1,
                        }
                    }
                },
                None => RateLimitEntry { last_lock: self.now, window_start: self.now, count: 1 },
            };
            self.rate_entries.insert(depositor, next);
        }
        self.events.push(
            EventIndex {
                event_type: EventType::Locked,
                bounty_id,
                address: depositor,
                timestamp: self.now,
                amount,
                block_height: 0,
            },
        );
        proof {
            assert forall|id: u64| #[trigger]
                self.escrows.has_key(id) implies self.escrows.spec_get(id).unwrap().wf() by {
                if id != bounty_id {
                    assert(self.escrows.spec_get(id) == old(self).escrows.spec_get(id));
                    assert(old(self).escrows.has_key(id));
                }
            }
        }
        Ok(())
    }
}

} // verus!
