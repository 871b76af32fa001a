//! Refunds: full and partial refunds to the depositor after the deadline,
//! custom refunds to a chosen recipient (pre-approved before the deadline,
//! permissionless after), the standing approval slot, and the append-only
//! refund history.

use vstd::prelude::*;

use crate::engine::{refunded_record, BountyEscrow};
use crate::errors::Error;
use crate::types::{
    EscrowRecord, EscrowStatus, EventIndex, EventType, RefundApproval, RefundMode, RefundRecord,
};

verus! {

/// A fresh vector with the same refund records.
fn copy_refund_records(v: &Vec<RefundRecord>) -> (r: Vec<RefundRecord>)
    ensures
        r@ =~= v@,
{
    let n = v.len();
    let mut out: Vec<RefundRecord> = Vec::new();
    let mut i: usize = 0;
    while i < n
        invariant
            n == v@.len(),
            0 <= i <= n,
            out@ =~= v@.take(i as int),
        decreases n - i,
    {
        out.push(v[i]);
        proof {
            assert(out@ =~= v@.take(i + 1 as int));
        }
        i = i + 1;
    }
    out
}

impl BountyEscrow {
    /// The amount a refund request denotes: the whole remainder in Full
    /// mode, the supplied amount otherwise.
    pub open spec fn spec_refund_amount(
        self,
        bounty_id: u64,
        amount: Option<i128>,
        mode: RefundMode,
    ) -> i128 {
        match mode {
            RefundMode::Full => self.spec_record(bounty_id).remaining_amount,
            _ => amount.unwrap(),
        }
    }

    /// The account a refund request pays: the depositor except in Custom
    /// mode, where the caller names the recipient.
    pub open spec fn spec_refund_recipient(
        self,
        bounty_id: u64,
        recipient: Option<u64>,
        mode: RefundMode,
    ) -> u64 {
        match mode {
            RefundMode::Custom => recipient.unwrap(),
            _ => self.spec_record(bounty_id).depositor,
        }
    }

    /// Whether a standing approval matches the requested amount and
    /// recipient exactly.
    pub open spec fn spec_approval_matches(self, bounty_id: u64, amount: i128, recipient: u64) -> bool {
        match self.refund_approvals.spec_get(bounty_id) {
            Some(ap) => ap.amount == amount && ap.recipient == recipient,
            None => false,
        }
    }

    /// The refunds recorded so far for a bounty.
    pub open spec fn spec_history(self, bounty_id: u64) -> Seq<RefundRecord> {
        match self.refund_history.spec_get(bounty_id) {
            Some(v) => v@,
            None => Seq::empty(),
        }
    }

    /// The error a refund runs into, checked in order: the pause gate, the
    /// record, the mode's own rules (deadline for Full and Partial; both
    /// arguments, and before the deadline a matching approval, for Custom),
    /// and custody funding. Refunding at exactly the deadline still fails;
    /// one tick later it is allowed.
    pub open spec fn spec_refund_err(
        self,
        bounty_id: u64,
        amount: Option<i128>,
        recipient: Option<u64>,
        mode: RefundMode,
    ) -> Option<Error> {
        if self.pause.refund_paused {
            Some(Error::RefundPaused)
        } else if !self.escrows.has_key(bounty_id) {
            Some(Error::BountyNotFound)
        } else if !self.spec_record(bounty_id).refundable() {
            Some(Error::FundsNotLocked)
        } else {
            let rec = self.spec_record(bounty_id);
            match mode {
                RefundMode::Full => {
                    if self.now <= rec.deadline {
                        Some(Error::DeadlineNotPassed)
                    } else if !self.ledger.can_transfer(
                        self.contract_account,
                        rec.depositor,
                        rec.remaining_amount,
                    ) {
                        Some(Error::InsufficientBalance)
                    } else {
                        None
                    }
                },
                RefundMode::Partial => {
                    if self.now <= rec.deadline {
                        Some(Error::DeadlineNotPassed)
                    } else if amount is None || !(0 < amount.unwrap() <= rec.remaining_amount) {
                        Some(Error::InvalidAmount)
                    } else if !self.ledger.can_transfer(
                        self.contract_account,
                        rec.depositor,
                        amount.unwrap(),
                    ) {
                        Some(Error::InsufficientBalance)
                    } else {
                        None
                    }
                },
                RefundMode::Custom => {
                    if amount is None || recipient is None {
                        Some(Error::InvalidAmount)
                    } else if !(0 < amount.unwrap() <= rec.remaining_amount) {
                        Some(Error::InvalidAmount)
                    } else if self.now <= rec.deadline && !self.spec_approval_matches(
                        bounty_id,
                        amount.unwrap(),
                        recipient.unwrap(),
                    ) {
                        Some(Error::RefundNotApproved)
                    } else if !self.ledger.can_transfer(
                        self.contract_account,
                        recipient.unwrap(),
                        amount.unwrap(),
                    ) {
                        Some(Error::InsufficientBalance)
                    } else {
                        None
                    }
                },
            }
        }
    }

    /// Refunds part or all of a bounty's remainder. On success the record,
    /// the custodial balance, the refund history and the event index all
    /// move together; a matching custom approval is consumed.
    pub fn refund(
        &mut self,
        bounty_id: u64,
        amount: Option<i128>,
        recipient: Option<u64>,
        mode: RefundMode,
    ) -> (r: Result<(), Error>)
        requires
            old(self).wf(),
        ensures
            final(self).wf(),
            match old(self).spec_refund_err(bounty_id, amount, recipient, mode) {
                Some(e) => r == Err::<(), Error>(e) && *final(self) == *old(self),
                None => r is Ok,
            },
            r is Ok ==> {
                let amt = old(self).spec_refund_amount(bounty_id, amount, mode);
                let rcpt = old(self).spec_refund_recipient(bounty_id, recipient, mode);
                &&& final(self).escrows.spec_get(bounty_id) == Some(
                    refunded_record(old(self).spec_record(bounty_id), amt),
                )
                &&& forall|id: u64|
                    id != bounty_id ==> #[trigger] final(self).escrows.spec_get(id) == old(self).escrows.spec_get(id)
                &&& (old(self).contract_account != rcpt ==> final(self).ledger.spec_balance(rcpt)
                    == old(self).ledger.spec_balance(rcpt) + amt && final(self).ledger.spec_balance(
                    old(self).contract_account,
                ) == old(self).ledger.spec_balance(old(self).contract_account) - amt)
                &&& (old(self).contract_account == rcpt ==> final(self).ledger == old(self).ledger)
                &&& forall|a: u64|
                    a != old(self).contract_account && a != rcpt ==> #[trigger] final(self).ledger.spec_balance(a) == old(self).ledger.spec_balance(a)
                &&& final(self).spec_history(bounty_id) =~= old(self).spec_history(
                    bounty_id,
                ).push(
                    RefundRecord { amount: amt, recipient: rcpt, mode, timestamp: old(self).now },
                )
                &&& forall|id: u64|
                    id != bounty_id ==> #[trigger] final(self).spec_history(id) == old(self).spec_history(id)
                &&& (mode == RefundMode::Custom && old(self).spec_approval_matches(
                    bounty_id,
                    amt,
                    rcpt,
                ) ==> !final(self).refund_approvals.has_key(bounty_id))
                &&& (!(mode == RefundMode::Custom && old(self).spec_approval_matches(
                    bounty_id,
                    amt,
                    rcpt,
                )) ==> final(self).refund_approvals == old(self).refund_approvals)
                &&& forall|id: u64|
                    id != bounty_id ==> #[trigger] final(self).refund_approvals.spec_get(id)
                        == old(self).refund_approvals.spec_get(id)
                &&& final(self).events@ == old(self).events@.push(
                    old(self).spec_event(EventType::Refunded, bounty_id, rcpt, amt),
                )
                &&& *final(self) == (BountyEscrow {
                    ledger: final(self).ledger,
                    escrows: final(self).escrows,
                    refund_history: final(self).refund_history,
                    refund_approvals: final(self).refund_approvals,
                    events: final(self).events,
                    ..*old(self)
                })
            },
    {
        if self.pause.refund_paused {
            return Err(Error::RefundPaused);
        }
        let rec = match self.escrows.get(bounty_id) {
            Some(r) => *r,
            None => {
                return Err(Error::BountyNotFound);
            },
        };
        if !(rec.remaining_amount > 0) {
            return Err(Error::FundsNotLocked);
        }
        let (amt, rcpt): (i128, u64) = match mode {
            RefundMode::Full => {
                if self.now <= rec.deadline {
                    return Err(Error::DeadlineNotPassed);
                }
                (rec.remaining_amount, rec.depositor)
            },
            RefundMode::Partial => {
                if self.now <= rec.deadline {
                    return Err(Error::DeadlineNotPassed);
                }
                let a = match amount {
                    Some(a) => a,
                    None => {
                        return Err(Error::InvalidAmount);
                    },
                };
                if !(0 < a && a <= rec.remaining_amount) {
                    return Err(Error::InvalidAmount);
                }
                (a, rec.depositor)
            },
            RefundMode::Custom => {
                let a = match amount {
                    Some(a) => a,
                    None => {
                        return Err(Error::InvalidAmount);
                    },
                };
                let to = match recipient {
                    Some(t) => t,
                    None => {
                        return Err(Error::InvalidAmount);
                    },
                };
                if !(0 < a && a <= rec.remaining_amount) {
                    return Err(Error::InvalidAmount);
                }
                if self.now <= rec.deadline {
                    let matches_approval = match self.refund_approvals.get(bounty_id) {
                        Some(ap) => ap.amount == a && ap.recipient == to,
                        None => false,
                    };
                    if !matches_approval {
                        return Err(Error::RefundNotApproved);
                    }
                }
                (a, to)
            },
        };
        let contract = self.contract_account;
        let can_fund = {
            let custody = self.ledger.balance(contract);
            let dest = self.ledger.balance(rcpt);
            custody >= amt && (contract == rcpt || dest <= i128::MAX - amt)
        };
        if !can_fund {
            return Err(Error::InsufficientBalance);
        }
        let ok = self.ledger.transfer(contract, rcpt, amt);
        proof {
            assert(ok);
        }
        let updated = EscrowRecord {
            remaining_amount: rec.remaining_amount - amt,
            status: if rec.remaining_amount == amt {
                EscrowStatus::Refunded
            } else {
                EscrowStatus::PartiallyRefunded
            },
            ..rec
        };
        self.escrows.insert(bounty_id, updated);
        let mut history = match self.refund_history.take(bounty_id) {
            Some(v) => v,
            None => Vec::new(),
        };
        history.push(RefundRecord { amount: amt, recipient: rcpt, mode, timestamp: self.now });
        self.refund_history.insert(bounty_id, history);
        let consume = match mode {
            RefundMode::Custom => {
                let matches_approval = match self.refund_approvals.get(bounty_id) {
                    Some(ap) => ap.amount == amt && ap.recipient == rcpt,
                    None => false,
                };
                matches_approval
            },
            _ => false,
        };
        if consume {
            self.refund_approvals.remove(bounty_id);
        }
        self.events.push(
            EventIndex {
                event_type: EventType::Refunded,
                bounty_id,
                address: rcpt,
                timestamp: self.now,
                amount: amt,
                block_height: 0,
            },
        );
        proof {
            assert forall|id: u64| #[trigger]
                self.escrows.has_key(id) implies self.escrows.spec_get(id).unwrap().wf() by {
                if id != bounty_id {
                    assert(self.escrows.spec_get(id) == old(self).escrows.spec_get(id));
                    assert(old(self).escrows.has_key(id));
                }
            }
        }
        Ok(())
    }

    /// The error an approval attempt runs into: the caller must be Admin or
    /// Operator, the record must exist, and the amount must be positive.
    pub open spec fn spec_approve_refund_err(
        self,
        caller: u64,
        bounty_id: u64,
        amount: i128,
    ) -> Option<Error> {
        if !self.roles.spec_is_operator(caller) {
            Some(Error::Unauthorized)
        } else if !self.escrows.has_key(bounty_id) {
            Some(Error::BountyNotFound)
        } else if amount <= 0 {
            Some(Error::InvalidAmount)
        } else {
            None
        }
    }

    /// Creates or overwrites the single standing refund approval for a
    /// bounty. No funds move.
    pub fn approve_refund(
        &mut self,
        caller: u64,
        bounty_id: u64,
        amount: i128,
        recipient: u64,
        mode: RefundMode,
    ) -> (r: Result<(), Error>)
        requires
            old(self).wf(),
        ensures
            final(self).wf(),
            match old(self).spec_approve_refund_err(caller, bounty_id, amount) {
                Some(e) => r == Err::<(), Error>(e) && *final(self) == *old(self),
                None => r is Ok,
            },
            r is Ok ==> {
                &&& final(self).refund_approvals.spec_get(bounty_id) == Some(
                    RefundApproval {
                        amount,
                        recipient,
                        mode,
                        approved_by: caller,
                        created_at: old(self).now,
                    },
                )
                &&& forall|id: u64|
                    id != bounty_id ==> #[trigger] final(self).refund_approvals.spec_get(id)
                        == old(self).refund_approvals.spec_get(id)
                &&& *final(self) == (BountyEscrow {
                    refund_approvals: final(self).refund_approvals,
                    ..*old(self)
                })
            },
    {
        if !self.roles.is_operator(caller) {
            return Err(Error::Unauthorized);
        }
        if !self.escrows.contains(bounty_id) {
            return Err(Error::BountyNotFound);
        }
        if amount <= 0 {
            return Err(Error::InvalidAmount);
        }
        let approval = RefundApproval {
            amount,
            recipient,
            mode,
            approved_by: caller,
            created_at: self.now,
        };
        self.refund_approvals.insert(bounty_id, approval);
        Ok(())
    }

    /// The refund history of a bounty, oldest first; empty when none exists.
    pub fn get_refund_history(&self, bounty_id: u64) -> (r: Vec<RefundRecord>)
        requires
            self.wf(),
        ensures
            r@ =~= self.spec_history(bounty_id),
    {
        match self.refund_history.get(bounty_id) {
            Some(v) => copy_refund_records(v),
            None => Vec::new(),
        }
    }

    /// Whether a refund could currently succeed, whether the deadline has
    /// passed, the remaining amount, and the standing approval, if any.
    pub fn get_refund_eligibility(&self, bounty_id: u64) -> (r: Result<
        (bool, bool, i128, Option<RefundApproval>),
        Error,
    >)
        requires
            self.wf(),
        ensures
            match r {
                Ok(t) => {
                    &&& self.escrows.has_key(bounty_id)
                    &&& t.1 == (self.now > self.spec_record(bounty_id).deadline)
                    &&& t.2 == self.spec_record(bounty_id).remaining_amount
                    &&& t.3 == self.refund_approvals.spec_get(bounty_id)
                    &&& t.0 == (t.2 > 0 && (t.1 || t.3 is Some))
                },
                Err(e) => !self.escrows.has_key(bounty_id) && e == Error::BountyNotFound,
            },
    {
        let rec = match self.escrows.get(bounty_id) {
            Some(r) => *r,
            None => {
                return Err(Error::BountyNotFound);
            },
        };
        let deadline_passed = self.now > rec.deadline;
        let approval: Option<RefundApproval> = match self.refund_approvals.get(bounty_id) {
            Some(ap) => Some(*ap),
            None => None,
        };
        let can_refund = rec.remaining_amount > 0 && (deadline_passed || approval.is_some());
        Ok((can_refund, deadline_passed, rec.remaining_amount, approval))
    }
}

} // verus!
