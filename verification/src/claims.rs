//! The claim subsystem: a time-boxed grant that lets a designated recipient
//! pull a release themselves before the grant lapses.

use vstd::prelude::*;

use crate::engine::{sat_add, BountyEscrow, DEFAULT_CLAIM_WINDOW};
use crate::errors::Error;
use crate::rbac::Role;
use crate::types::{EscrowRecord, EscrowStatus, EventIndex, EventType, PendingClaim};

verus! {

/// The record after a successful claim: emptied and Released.
pub open spec fn claimed_record(rec: EscrowRecord) -> EscrowRecord {
    EscrowRecord { remaining_amount: 0, status: EscrowStatus::Released, ..rec }
}

/// `a + b` on u64, saturating at the maximum.
pub open spec fn sat_add_u64(a: u64, b: u64) -> u64 {
    if a + b > u64::MAX {
        u64::MAX
    } else {
        (a + b) as u64
    }
}

impl BountyEscrow {
    /// The claim window in force: the configured one, or the default.
    pub open spec fn spec_claim_window(self) -> u64 {
        match self.claim_window {
            Some(w) => w,
            None => DEFAULT_CLAIM_WINDOW,
        }
    }

    /// Sets the claim window used by later `authorize_claim` calls.
    pub fn set_claim_window(&mut self, caller: u64, window: u64) -> (r: Result<(), Error>)
        requires
            old(self).wf(),
        ensures
            final(self).wf(),
            r is Ok <==> old(self).roles.spec_has_role(caller, Role::Admin),
            r is Err ==> r == Err::<(), Error>(Error::Unauthorized) && *final(self) == *old(self),
            r is Ok ==> *final(self) == (BountyEscrow { claim_window: Some(window), ..*old(self) }),
    {
        if !self.roles.has_role(caller, Role::Admin) {
            return Err(Error::Unauthorized);
        }
        self.claim_window = Some(window);
        Ok(())
    }

    /// The error an authorization runs into: the caller must be Admin or
    /// Operator, the record must exist and still hold funds.
    pub open spec fn spec_authorize_claim_err(self, caller: u64, bounty_id: u64) -> Option<Error> {
        if !self.roles.spec_is_operator(caller) {
            Some(Error::Unauthorized)
        } else if !self.escrows.has_key(bounty_id) {
            Some(Error::BountyNotFound)
        } else if !self.spec_record(bounty_id).refundable() {
            Some(Error::FundsNotLocked)
        } else {
            None
        }
    }

    /// Grants `recipient` the right to claim the bounty's whole remainder
    /// until `now + claim window` (inclusive). Overwrites any prior claim
    /// for the bounty; no funds move.
    pub fn authorize_claim(&mut self, caller: u64, bounty_id: u64, recipient: u64) -> (r: Result<
        (),
        Error,
    >)
        requires
            old(self).wf(),
        ensures
            final(self).wf(),
            match old(self).spec_authorize_claim_err(caller, bounty_id) {
                Some(e) => r == Err::<(), Error>(e) && *final(self) == *old(self),
                None => r is Ok,
            },
            r is Ok ==> {
                &&& final(self).pending_claims.spec_get(bounty_id) == Some(
                    PendingClaim {
                        recipient,
                        amount: old(self).spec_record(bounty_id).remaining_amount,
                        expires_at: sat_add_u64(old(self).now, old(self).spec_claim_window()),
                        claimed: false,
                    },
                )
                &&& forall|id: u64|
                    id != bounty_id ==> #[trigger] final(self).pending_claims.spec_get(id) == old(self).pending_claims.spec_get(id)
                &&& *final(self) == (BountyEscrow {
                    pending_claims: final(self).pending_claims,
                    ..*old(self)
                })
            },
    {
        if !self.roles.is_operator(caller) {
            return Err(Error::Unauthorized);
        }
        let rec = match self.escrows.get(bounty_id) {
            Some(r) => *r,
            None => {
                return Err(Error::BountyNotFound);
            },
        };
        if !(rec.remaining_amount > 0) {
            return Err(Error::FundsNotLocked);
        }
        let window = match self.claim_window {
            Some(w) => w,
            None => DEFAULT_CLAIM_WINDOW,
        };
        let expires_at = self.now.saturating_add(window);
        let claim = PendingClaim {
            recipient,
            amount: rec.remaining_amount,
            expires_at,
            claimed: false,
        };
        self.pending_claims.insert(bounty_id, claim);
        proof {
            assert forall|id: u64| #[trigger]
                self.pending_claims.has_key(id) implies self.pending_claims.spec_get(
                id,
            ).unwrap().amount >= 0 by {
                if id != bounty_id {
                    assert(self.pending_claims.spec_get(id) == old(self).pending_claims.spec_get(
                        id,
                    ));
                    assert(old(self).pending_claims.has_key(id));
                }
            }
        }
        Ok(())
    }

    /// The error a claim runs into, checked in order: a pending entry, not
    /// yet consumed, not lapsed (claiming at exactly `expires_at` still
    /// succeeds), and then the record and funding checks of the release it
    /// performs.
    pub open spec fn spec_claim_err(self, bounty_id: u64) -> Option<Error> {
        if !self.pending_claims.has_key(bounty_id) {
            Some(Error::NoPendingClaim)
        } else {
            let c = self.pending_claims.spec_get(bounty_id).unwrap();
            if c.claimed {
                Some(Error::AlreadyClaimed)
            } else if self.now > c.expires_at {
                Some(Error::ClaimExpired)
            } else if !self.escrows.has_key(bounty_id) {
                Some(Error::BountyNotFound)
            } else if !self.spec_record(bounty_id).refundable() {
                Some(Error::FundsNotLocked)
            } else if c.amount > self.spec_record(bounty_id).remaining_amount || c.amount <= 0 {
                Some(Error::InvalidAmount)
            } else if !self.ledger.can_transfer(self.contract_account, c.recipient, c.amount) {
                Some(Error::InsufficientBalance)
            } else {
                None
            }
        }
    }

    /// Pays the pending claim out to its recipient, marks the record
    /// Released with nothing remaining, and removes the claim.
    pub fn claim(&mut self, bounty_id: u64) -> (r: Result<(), Error>)
        requires
            old(self).wf(),
        ensures
            final(self).wf(),
            match old(self).spec_claim_err(bounty_id) {
                Some(e) => r == Err::<(), Error>(e) && *final(self) == *old(self),
                None => r is Ok,
            },
            r is Ok ==> {
                let c = old(self).pending_claims.spec_get(bounty_id).unwrap();
                &&& final(self).escrows.spec_get(bounty_id) == Some(
                    claimed_record(old(self).spec_record(bounty_id)),
                )
                &&& forall|id: u64|
                    id != bounty_id ==> #[trigger] final(self).escrows.spec_get(id) == old(self).escrows.spec_get(id)
                &&& (old(self).contract_account != c.recipient ==> final(self).ledger.spec_balance(
                    c.recipient,
                ) == old(self).ledger.spec_balance(c.recipient) + c.amount && final(self).ledger.spec_balance(old(self).contract_account) == old(self).ledger.spec_balance(
                    old(self).contract_account,
                ) - c.amount)
                &&& (old(self).contract_account == c.recipient ==> final(self).ledger == old(self).ledger)
                &&& forall|a: u64|
                    a != old(self).contract_account && a != c.recipient
                        ==> #[trigger] final(self).ledger.spec_balance(a) == old(self).ledger.spec_balance(a)
                &&& !final(self).pending_claims.has_key(bounty_id)
                &&& forall|id: u64|
                    id != bounty_id ==> #[trigger] final(self).pending_claims.spec_get(id) == old(self).pending_claims.spec_get(id)
                &&& final(self).total_released == sat_add(old(self).total_released, c.amount)
                &&& final(self).events@ == old(self).events@.push(
                    old(self).spec_event(EventType::Released, bounty_id, c.recipient, c.amount),
                )
                &&& *final(self) == (BountyEscrow {
                    ledger: final(self).ledger,
                    escrows: final(self).escrows,
                    pending_claims: final(self).pending_claims,
                    events: final(self).events,
                    total_released: final(self).total_released,
                    ..*old(self)
                })
            },
    {
        let claim = match self.pending_claims.get(bounty_id) {
            Some(c) => *c,
            None => {
                return Err(Error::NoPendingClaim);
            },
        };
        if claim.claimed {
            return Err(Error::AlreadyClaimed);
        }
        if self.now > claim.expires_at {
            return Err(Error::ClaimExpired);
        }
        let rec = match self.escrows.get(bounty_id) {
            Some(r) => *r,
            None => {
                return Err(Error::BountyNotFound);
            },
        };
        if !(rec.remaining_amount > 0) {
            return Err(Error::FundsNotLocked);
        }
        if claim.amount > rec.remaining_amount || claim.amount <= 0 {
            return Err(Error::InvalidAmount);
        }
        let contract = self.contract_account;
        let can_fund = {
            let custody = self.ledger.balance(contract);
            let dest = self.ledger.balance(claim.recipient);
            custody >= claim.amount && (contract == claim.recipient || dest <= i128::MAX
                - claim.amount)
        };
        if !can_fund {
            return Err(Error::InsufficientBalance);
        }
        let ok = self.ledger.transfer(contract, claim.recipient, claim.amount);
        proof {
            assert(ok);
        }
        let updated = EscrowRecord {
            remaining_amount: 0,
            status: EscrowStatus::Released,
            ..rec
        };
        self.escrows.insert(bounty_id, updated);
        self.pending_claims.remove(bounty_id);
        self.total_released = match self.total_released.checked_add(claim.amount) {
            Some(v) => v,
            None => i128::MAX,
        };
        self.events.push(
            EventIndex {
                event_type: EventType::Released,
                bounty_id,
                address: claim.recipient,
                timestamp: self.now,
                amount: claim.amount,
                block_height: 0,
            },
        );
        proof {
            assert forall|id: u64| #[trigger]
                self.escrows.has_key(id) implies self.escrows.spec_get(id).unwrap().wf() by {
                if id != bounty_id {
                    assert(self.escrows.spec_get(id) == old(self).escrows.spec_get(id));
                    assert(old(self).escrows.has_key(id));
                }
            }
            assert forall|id: u64| #[trigger]
                self.pending_claims.has_key(id) implies self.pending_claims.spec_get(
                id,
            ).unwrap().amount >= 0 by {
                assert(self.pending_claims.spec_get(id) == old(self).pending_claims.spec_get(id));
                assert(old(self).pending_claims.has_key(id));
            }
        }
        Ok(())
    }

    /// The error a cancellation runs into: the caller must hold Admin, and
    /// a pending claim must exist.
    pub open spec fn spec_cancel_claim_err(self, caller: u64, bounty_id: u64) -> Option<Error> {
        if !self.roles.spec_has_role(caller, Role::Admin) {
            Some(Error::Unauthorized)
        } else if !self.pending_claims.has_key(bounty_id) {
            Some(Error::NoPendingClaim)
        } else {
            None
        }
    }

    /// Removes a pending claim (lapsed or not) without moving funds; the
    /// escrow record is untouched and stays open for release or refund.
    pub fn cancel_pending_claim(&mut self, caller: u64, bounty_id: u64) -> (r: Result<(), Error>)
        requires
            old(self).wf(),
        ensures
            final(self).wf(),
            match old(self).spec_cancel_claim_err(caller, bounty_id) {
                Some(e) => r == Err::<(), Error>(e) && *final(self) == *old(self),
                None => r is Ok,
            },
            r is Ok ==> {
                &&& !final(self).pending_claims.has_key(bounty_id)
                &&& forall|id: u64|
                    id != bounty_id ==> #[trigger] final(self).pending_claims.spec_get(id) == old(self).pending_claims.spec_get(id)
                &&& *final(self) == (BountyEscrow {
                    pending_claims: final(self).pending_claims,
                    ..*old(self)
                })
            },
    {
        if !self.roles.has_role(caller, Role::Admin) {
            return Err(Error::Unauthorized);
        }
        if !self.pending_claims.contains(bounty_id) {
            return Err(Error::NoPendingClaim);
        }
        self.pending_claims.remove(bounty_id);
        proof {
            assert forall|id: u64| #[trigger]
                self.pending_claims.has_key(id) implies self.pending_claims.spec_get(
                id,
            ).unwrap().amount >= 0 by {
                assert(self.pending_claims.spec_get(id) == old(self).pending_claims.spec_get(id));
                assert(old(self).pending_claims.has_key(id));
            }
        }
        Ok(())
    }

    /// The pending claim for a bounty.
    pub fn get_pending_claim(&self, bounty_id: u64) -> (r: Result<PendingClaim, Error>)
        requires
            self.wf(),
        ensures
            match r {
                Ok(c) => self.pending_claims.spec_get(bounty_id) == Some(c),
                Err(e) => !self.pending_claims.has_key(bounty_id) && e == Error::NoPendingClaim,
            },
    {
        match self.pending_claims.get(bounty_id) {
            Some(c) => Ok(*c),
            None => Err(Error::NoPendingClaim),
        }
    }
}

} // verus!
