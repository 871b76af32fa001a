//! Releases: the direct path, and the two-phase multisig path for amounts
//! above the configured threshold.

use vstd::prelude::*;

use crate::engine::{released_record, sat_add, BountyEscrow};
use crate::errors::Error;
use crate::types::{
    EscrowRecord, EventIndex, EventType, MultisigConfig, PendingReleaseApproval,
};

verus! {

impl BountyEscrow {
    /// Pays `amount` of an existing record out to `recipient` and updates
    /// the record, the running total and the event index. The shared tail of
    /// every release-shaped operation.
    fn do_release(&mut self, bounty_id: u64, recipient: u64, amount: i128)
        requires
            old(self).wf(),
            old(self).escrows.has_key(bounty_id),
            old(self).spec_record(bounty_id).releasable(),
            0 < amount <= old(self).spec_record(bounty_id).remaining_amount,
            old(self).ledger.can_transfer(old(self).contract_account, recipient, amount),
        ensures
            final(self).wf(),
            final(self).escrows.spec_get(bounty_id) == Some(
                released_record(old(self).spec_record(bounty_id), amount),
            ),
            forall|id: u64|
                id != bounty_id ==> #[trigger] final(self).escrows.spec_get(id) == old(self).escrows.spec_get(id),
            final(self).escrows.entries@ == old(self).escrows.entries@.update(
                old(self).escrows.key_index(bounty_id),
                (bounty_id, released_record(old(self).spec_record(bounty_id), amount)),
            ),
            old(self).contract_account != recipient ==> final(self).ledger.spec_balance(
                old(self).contract_account,
            ) == old(self).ledger.spec_balance(old(self).contract_account) - amount && final(self).ledger.spec_balance(recipient) == old(self).ledger.spec_balance(recipient) + amount,
            old(self).contract_account == recipient ==> final(self).ledger == old(self).ledger,
            forall|a: u64|
                a != old(self).contract_account && a != recipient ==> #[trigger] final(self).ledger.spec_balance(a) == old(self).ledger.spec_balance(a),
            final(self).total_released == sat_add(old(self).total_released, amount),
            final(self).events@ == old(self).events@.push(
                old(self).spec_event(EventType::Released, bounty_id, recipient, amount),
            ),
            *final(self) == (BountyEscrow {
                ledger: final(self).ledger,
                escrows: final(self).escrows,
                events: final(self).events,
                total_released: final(self).total_released,
                ..*old(self)
            }),
    {
        let rec = match self.escrows.get(bounty_id) {
            Some(r) => *r,
            None => {
                proof {
                    assert(false);
                }
                return ;
            },
        };
        let contract = self.contract_account;
        let ok = self.ledger.transfer(contract, recipient, amount);
        proof {
            assert(ok);
        }
        let updated = EscrowRecord {
            remaining_amount: rec.remaining_amount - amount,
            status: if rec.remaining_amount == amount {
                crate::types::EscrowStatus::Released
            } else {
                crate::types::EscrowStatus::PartiallyReleased
            },
            ..rec
        };
        self.escrows.insert(bounty_id, updated);
        self.total_released = match self.total_released.checked_add(amount) {
            Some(v) => v,
            None => i128::MAX,
        };
        self.events.push(
            EventIndex {
                event_type: EventType::Released,
                bounty_id,
                address: recipient,
                timestamp: self.now,
                amount,
                block_height: 0,
            },
        );
        proof {
            assert forall|id: u64| #[trigger]
                self.escrows.has_key(id) implies self.escrows.spec_get(id).unwrap().wf() by {
                if id != bounty_id {
                    assert(self.escrows.spec_get(id) == old(self).escrows.spec_get(id));
                    assert(old(self).escrows.has_key(id));
                }
            }
        }
    }

    /// The error a direct release runs into, checked in order: the pause
    /// gate, the caller's role, record existence and state, the partial
    /// amount, the multisig gate, and custody funding.
    pub open spec fn spec_release_err(
        self,
        caller: u64,
        bounty_id: u64,
        contributor: u64,
        partial_amount: Option<i128>,
    ) -> Option<Error> {
        if self.pause.release_paused {
            Some(Error::ReleasePaused)
        } else if !self.roles.spec_is_operator(caller) {
            Some(Error::Unauthorized)
        } else if !self.escrows.has_key(bounty_id) {
            Some(Error::BountyNotFound)
        } else if !self.spec_record(bounty_id).releasable() {
            Some(Error::FundsNotLocked)
        } else if partial_amount is Some && !(0 < partial_amount.unwrap() <= self.spec_record(
            bounty_id,
        ).remaining_amount) {
            Some(Error::InvalidAmount)
        } else if self.spec_needs_multisig(
            match partial_amount {
                Some(a) => a,
                None => self.spec_record(bounty_id).remaining_amount,
            },
        ) {
            Some(Error::MultisigRequired)
        } else if !self.ledger.can_transfer(
            self.contract_account,
            contributor,
            match partial_amount {
                Some(a) => a,
                None => self.spec_record(bounty_id).remaining_amount,
            },
        ) {
            Some(Error::InsufficientBalance)
        } else {
            None
        }
    }

    /// Releases the full remainder (or `partial_amount` of it) to the
    /// contributor. Amounts above the multisig threshold are refused here;
    /// they must go through `initiate_release` / `approve_release_as`.
    pub fn release_funds(
        &mut self,
        caller: u64,
        bounty_id: u64,
        contributor: u64,
        partial_amount: Option<i128>,
    ) -> (r: Result<(), Error>)
        requires
            old(self).wf(),
        ensures
            final(self).wf(),
            match old(self).spec_release_err(caller, bounty_id, contributor, partial_amount) {
                Some(e) => r == Err::<(), Error>(e) && *final(self) == *old(self),
                None => r is Ok,
            },
            r is Ok ==> {
                let eff = match partial_amount {
                    Some(a) => a,
                    None => old(self).spec_record(bounty_id).remaining_amount,
                };
                &&& final(self).escrows.spec_get(bounty_id) == Some(
                    released_record(old(self).spec_record(bounty_id), eff),
                )
                &&& forall|id: u64|
                    id != bounty_id ==> #[trigger] final(self).escrows.spec_get(id) == old(self).escrows.spec_get(id)
                &&& (old(self).contract_account != contributor ==> final(self).ledger.spec_balance(contributor) == old(self).ledger.spec_balance(contributor)
                    + eff && final(self).ledger.spec_balance(old(self).contract_account) == old(self).ledger.spec_balance(old(self).contract_account) - eff)
                &&& (old(self).contract_account == contributor ==> final(self).ledger == old(self).ledger)
                &&& forall|a: u64|
                    a != old(self).contract_account && a != contributor
                        ==> #[trigger] final(self).ledger.spec_balance(a) == old(self).ledger.spec_balance(a)
                &&& final(self).total_released == sat_add(old(self).total_released, eff)
                &&& final(self).events@ == old(self).events@.push(
                    old(self).spec_event(EventType::Released, bounty_id, contributor, eff),
                )
                &&& *final(self) == (BountyEscrow {
                    ledger: final(self).ledger,
                    escrows: final(self).escrows,
                    events: final(self).events,
                    total_released: final(self).total_released,
                    ..*old(self)
                })
            },
    {
        if self.pause.release_paused {
            return Err(Error::ReleasePaused);
        }
        if !self.roles.is_operator(caller) {
            return Err(Error::Unauthorized);
        }
        let rec = match self.escrows.get(bounty_id) {
            Some(r) => *r,
            None => {
                return Err(Error::BountyNotFound);
            },
        };
        if !(matches!(rec.status, crate::types::EscrowStatus::Locked) || matches!(
            rec.status,
            crate::types::EscrowStatus::PartiallyReleased,
        )) {
            return Err(Error::FundsNotLocked);
        }
        let eff = match partial_amount {
            Some(a) => {
                if !(0 < a && a <= rec.remaining_amount) {
                    return Err(Error::InvalidAmount);
                }
                a
            },
            None => rec.remaining_amount,
        };
        let needs_multisig = match &self.multisig {
            Some(c) => c.enabled && eff > c.threshold_amount,
            None => false,
        };
        if needs_multisig {
            return Err(Error::MultisigRequired);
        }
        let contract = self.contract_account;
        let can_fund = {
            let custody = self.ledger.balance(contract);
            let dest = self.ledger.balance(contributor);
            custody >= eff && (contract == contributor || dest <= i128::MAX - eff)
        };
        if !can_fund {
            return Err(Error::InsufficientBalance);
        }
        self.do_release(bounty_id, contributor, eff);
        Ok(())
    }

    /// The error an `initiate_release` runs into. The multisig path itself
    /// cannot fail once the record checks pass; only the immediate path can
    /// still want for funds.
    pub open spec fn spec_initiate_err(self, caller: u64, bounty_id: u64, contributor: u64) -> Option<
        Error,
    > {
        if self.pause.release_paused {
            Some(Error::ReleasePaused)
        } else if !self.roles.spec_is_operator(caller) {
            Some(Error::Unauthorized)
        } else if !self.escrows.has_key(bounty_id) {
            Some(Error::BountyNotFound)
        } else if !self.spec_record(bounty_id).releasable() {
            Some(Error::FundsNotLocked)
        } else if !self.spec_needs_multisig(self.spec_record(bounty_id).remaining_amount)
            && !self.ledger.can_transfer(
            self.contract_account,
            contributor,
            self.spec_record(bounty_id).remaining_amount,
        ) {
            Some(Error::InsufficientBalance)
        } else {
            None
        }
    }

    /// Starts a release of the full remainder. Below the multisig threshold
    /// (or with multisig off) it releases immediately and returns false;
    /// above it, it records a fresh pending approval (overwriting any prior
    /// one) and returns true with no funds moved.
    pub fn initiate_release(&mut self, caller: u64, bounty_id: u64, contributor: u64) -> (r: Result<
        bool,
        Error,
    >)
        requires
            old(self).wf(),
        ensures
            final(self).wf(),
            match old(self).spec_initiate_err(caller, bounty_id, contributor) {
                Some(e) => r == Err::<bool, Error>(e) && *final(self) == *old(self),
                None => r == Ok::<bool, Error>(
                    old(self).spec_needs_multisig(old(self).spec_record(bounty_id).remaining_amount),
                ),
            },
            (r is Ok && r.unwrap() == true) ==> {
                let p = final(self).release_approvals.spec_get(bounty_id).unwrap();
                &&& final(self).release_approvals.has_key(bounty_id)
                &&& p.bounty_id == bounty_id
                &&& p.amount == old(self).spec_record(bounty_id).remaining_amount
                &&& p.recipient == contributor
                &&& p.approvals@ =~= Seq::<u64>::empty()
                &&& p.created_at == old(self).now
                &&& forall|id: u64|
                    id != bounty_id ==> #[trigger] final(self).release_approvals.spec_get(id)
                        == old(self).release_approvals.spec_get(id)
                &&& *final(self) == (BountyEscrow {
                    release_approvals: final(self).release_approvals,
                    ..*old(self)
                })
            },
            (r is Ok && r.unwrap() == false) ==> {
                let eff = old(self).spec_record(bounty_id).remaining_amount;
                &&& final(self).escrows.spec_get(bounty_id) == Some(
                    released_record(old(self).spec_record(bounty_id), eff),
                )
                &&& forall|id: u64|
                    id != bounty_id ==> #[trigger] final(self).escrows.spec_get(id) == old(self).escrows.spec_get(id)
                &&& (old(self).contract_account != contributor ==> final(self).ledger.spec_balance(
                    contributor,
                ) == old(self).ledger.spec_balance(contributor) + eff && final(self).ledger.spec_balance(old(self).contract_account) == old(self).ledger.spec_balance(
                    old(self).contract_account,
                ) - eff)
                &&& (old(self).contract_account == contributor ==> final(self).ledger == old(self).ledger)
                &&& forall|a: u64|
                    a != old(self).contract_account && a != contributor
                        ==> #[trigger] final(self).ledger.spec_balance(a) == old(self).ledger.spec_balance(a)
                &&& final(self).total_released == sat_add(old(self).total_released, eff)
                &&& final(self).events@ == old(self).events@.push(
                    old(self).spec_event(EventType::Released, bounty_id, contributor, eff),
                )
                &&& *final(self) == (BountyEscrow {
                    ledger: final(self).ledger,
                    escrows: final(self).escrows,
                    events: final(self).events,
                    total_released: final(self).total_released,
                    ..*old(self)
                })
            },
    {
        if self.pause.release_paused {
            return Err(Error::ReleasePaused);
        }
        if !self.roles.is_operator(caller) {
            return Err(Error::Unauthorized);
        }
        let rec = match self.escrows.get(bounty_id) {
            Some(r) => *r,
            None => {
                return Err(Error::BountyNotFound);
            },
        };
        if !(matches!(rec.status, crate::types::EscrowStatus::Locked) || matches!(
            rec.status,
            crate::types::EscrowStatus::PartiallyReleased,
        )) {
            return Err(Error::FundsNotLocked);
        }
        let eff = rec.remaining_amount;
        let needs_multisig = match &self.multisig {
            Some(c) => c.enabled && eff > c.threshold_amount,
            None => false,
        };
        if needs_multisig {
            let pending = PendingReleaseApproval {
                bounty_id,
                amount: eff,
                recipient: contributor,
                approvals: Vec::new(),
                created_at: self.now,
            };
            self.release_approvals.insert(bounty_id, pending);
            proof {
                assert forall|id: u64| #[trigger]
                    self.release_approvals.has_key(id) implies self.release_approvals.spec_get(
                    id,
                ).unwrap().wf() by {
                    if id != bounty_id {
                        assert(self.release_approvals.spec_get(id) == old(
                            self,
                        ).release_approvals.spec_get(id));
                        assert(old(self).release_approvals.has_key(id));
                    }
                }
            }
            return Ok(true);
        }
        let contract = self.contract_account;
        let can_fund = {
            let custody = self.ledger.balance(contract);
            let dest = self.ledger.balance(contributor);
            custody >= eff && (contract == contributor || dest <= i128::MAX - eff)
        };
        if !can_fund {
            return Err(Error::InsufficientBalance);
        }
        self.do_release(bounty_id, contributor, eff);
        Ok(false)
    }
}

impl BountyEscrow {
    /// Whether one more approval reaches the configured quorum.
    pub open spec fn spec_quorum_reached(self, bounty_id: u64) -> bool {
        self.release_approvals.spec_get(bounty_id).unwrap().approvals@.len() + 1
            >= self.multisig.unwrap().required_approvals
    }

    /// The error an approval runs into, checked in order: the pause gate,
    /// a pending entry, signer membership, double approval, and -- when this
    /// approval reaches quorum -- the record and funding checks of the
    /// release it executes.
    pub open spec fn spec_approve_err(self, bounty_id: u64, signer: u64) -> Option<Error> {
        if self.pause.release_paused {
            Some(Error::ReleasePaused)
        } else if !self.release_approvals.has_key(bounty_id) {
            Some(Error::NoPendingApproval)
        } else if !(self.multisig is Some && self.multisig.unwrap().signers@.contains(signer)) {
            Some(Error::NotAuthorizedSigner)
        } else if self.release_approvals.spec_get(bounty_id).unwrap().approvals@.contains(signer) {
            Some(Error::AlreadyApproved)
        } else if self.spec_quorum_reached(bounty_id) {
            let p = self.release_approvals.spec_get(bounty_id).unwrap();
            if !self.escrows.has_key(bounty_id) {
                Some(Error::BountyNotFound)
            } else if !self.spec_record(bounty_id).releasable() {
                Some(Error::FundsNotLocked)
            } else if p.amount > self.spec_record(bounty_id).remaining_amount {
                Some(Error::InvalidAmount)
            } else if !self.ledger.can_transfer(self.contract_account, p.recipient, p.amount) {
                Some(Error::InsufficientBalance)
            } else {
                None
            }
        } else {
            None
        }
    }

    /// Records one signer's approval of the pending release. When the
    /// approval count reaches the configured quorum, the release executes
    /// exactly as `release_funds` would, the pending entry is deleted, and
    /// true is returned; otherwise only the signer is recorded.
    pub fn approve_release_as(&mut self, bounty_id: u64, signer: u64) -> (r: Result<bool, Error>)
        requires
            old(self).wf(),
        ensures
            final(self).wf(),
            match old(self).spec_approve_err(bounty_id, signer) {
                Some(e) => r == Err::<bool, Error>(e) && *final(self) == *old(self),
                None => r == Ok::<bool, Error>(old(self).spec_quorum_reached(bounty_id)),
            },
            (r is Ok && r.unwrap() == false) ==> {
                let p0 = old(self).release_approvals.spec_get(bounty_id).unwrap();
                let p = final(self).release_approvals.spec_get(bounty_id).unwrap();
                &&& final(self).release_approvals.has_key(bounty_id)
                &&& p.approvals@ =~= p0.approvals@.push(signer)
                &&& p.amount == p0.amount
                &&& p.recipient == p0.recipient
                &&& p.bounty_id == p0.bounty_id
                &&& p.created_at == p0.created_at
                &&& forall|id: u64|
                    id != bounty_id ==> #[trigger] final(self).release_approvals.spec_get(id)
                        == old(self).release_approvals.spec_get(id)
                &&& *final(self) == (BountyEscrow {
                    release_approvals: final(self).release_approvals,
                    ..*old(self)
                })
            },
            (r is Ok && r.unwrap() == true) ==> {
                let p0 = old(self).release_approvals.spec_get(bounty_id).unwrap();
                &&& !final(self).release_approvals.has_key(bounty_id)
                &&& forall|id: u64|
                    id != bounty_id ==> #[trigger] final(self).release_approvals.spec_get(id)
                        == old(self).release_approvals.spec_get(id)
                &&& final(self).escrows.spec_get(bounty_id) == Some(
                    released_record(old(self).spec_record(bounty_id), p0.amount),
                )
                &&& forall|id: u64|
                    id != bounty_id ==> #[trigger] final(self).escrows.spec_get(id) == old(self).escrows.spec_get(id)
                &&& (old(self).contract_account != p0.recipient ==> final(self).ledger.spec_balance(p0.recipient) == old(self).ledger.spec_balance(p0.recipient)
                    + p0.amount && final(self).ledger.spec_balance(old(self).contract_account)
                    == old(self).ledger.spec_balance(old(self).contract_account) - p0.amount)
                &&& (old(self).contract_account == p0.recipient ==> final(self).ledger == old(self).ledger)
                &&& forall|a: u64|
                    a != old(self).contract_account && a != p0.recipient
                        ==> #[trigger] final(self).ledger.spec_balance(a) == old(self).ledger.spec_balance(a)
                &&& final(self).total_released == sat_add(old(self).total_released, p0.amount)
                &&& final(self).events@ == old(self).events@.push(
                    old(self).spec_event(EventType::Released, bounty_id, p0.recipient, p0.amount),
                )
                &&& *final(self) == (BountyEscrow {
                    ledger: final(self).ledger,
                    escrows: final(self).escrows,
                    events: final(self).events,
                    total_released: final(self).total_released,
                    release_approvals: final(self).release_approvals,
                    ..*old(self)
                })
            },
    {
        if self.pause.release_paused {
            return Err(Error::ReleasePaused);
        }
        let (p_amount, p_recipient, p_bounty, p_created, approvals_copy, already) = match self
            .release_approvals
            .get(bounty_id) {
            Some(p) => (
                p.amount,
                p.recipient,
                p.bounty_id,
                p.created_at,
                copy_u64_vec(&p.approvals),
                vec_contains_u64(&p.approvals, signer),
            ),
            None => {
                return Err(Error::NoPendingApproval);
            },
        };
        let (signer_ok, required) = match &self.multisig {
            Some(c) => (vec_contains_u64(&c.signers, signer), c.required_approvals),
            None => (false, 0u32),
        };
        if !signer_ok {
            return Err(Error::NotAuthorizedSigner);
        }
        if already {
            return Err(Error::AlreadyApproved);
        }
        proof {
            assert(self.multisig.unwrap().wf());
        }
        let quorum = approvals_copy.len() >= (required as usize) - 1;
        if !quorum {
            let mut new_approvals = approvals_copy;
            new_approvals.push(signer);
            let updated = PendingReleaseApproval {
                bounty_id: p_bounty,
                amount: p_amount,
                recipient: p_recipient,
                approvals: new_approvals,
                created_at: p_created,
            };
            self.release_approvals.insert(bounty_id, updated);
            proof {
                assert forall|id: u64| #[trigger]
                    self.release_approvals.has_key(id) implies self.release_approvals.spec_get(
                    id,
                ).unwrap().wf() by {
                    if id != bounty_id {
                        assert(self.release_approvals.spec_get(id) == old(
                            self,
                        ).release_approvals.spec_get(id));
                        assert(old(self).release_approvals.has_key(id));
                    } else {
                        assert(old(self).release_approvals.has_key(bounty_id));
                        assert(old(self).release_approvals.spec_get(bounty_id).unwrap().wf());
                    }
                }
            }
            return Ok(false);
        }
        let rec = match self.escrows.get(bounty_id) {
            Some(r) => *r,
            None => {
                return Err(Error::BountyNotFound);
            },
        };
        if !(matches!(rec.status, crate::types::EscrowStatus::Locked) || matches!(
            rec.status,
            crate::types::EscrowStatus::PartiallyReleased,
        )) {
            return Err(Error::FundsNotLocked);
        }
        proof {
            assert(old(self).release_approvals.has_key(bounty_id));
            assert(old(self).release_approvals.spec_get(bounty_id).unwrap().wf());
        }
        if p_amount > rec.remaining_amount {
            return Err(Error::InvalidAmount);
        }
        let contract = self.contract_account;
        let can_fund = {
            let custody = self.ledger.balance(contract);
            let dest = self.ledger.balance(p_recipient);
            custody >= p_amount && (contract == p_recipient || dest <= i128::MAX - p_amount)
        };
        if !can_fund {
            return Err(Error::InsufficientBalance);
        }
        self.release_approvals.remove(bounty_id);
        proof {
            assert forall|id: u64| #[trigger]
                self.release_approvals.has_key(id) implies self.release_approvals.spec_get(
                id,
            ).unwrap().wf() by {
                assert(self.release_approvals.spec_get(id) == old(
                    self,
                ).release_approvals.spec_get(id));
                assert(old(self).release_approvals.has_key(id));
            }
        }
        self.do_release(bounty_id, p_recipient, p_amount);
        Ok(true)
    }

    /// The error a cancellation runs into: the caller must hold Admin, and a
    /// pending approval must exist.
    pub open spec fn spec_cancel_release_err(self, caller: u64, bounty_id: u64) -> Option<Error> {
        if !self.roles.spec_has_role(caller, crate::rbac::Role::Admin) {
            Some(Error::Unauthorized)
        } else if !self.release_approvals.has_key(bounty_id) {
            Some(Error::NoPendingApproval)
        } else {
            None
        }
    }

    /// Deletes a pending release approval without moving funds.
    pub fn cancel_release_approval(&mut self, caller: u64, bounty_id: u64) -> (r: Result<
        (),
        Error,
    >)
        requires
            old(self).wf(),
        ensures
            final(self).wf(),
            match old(self).spec_cancel_release_err(caller, bounty_id) {
                Some(e) => r == Err::<(), Error>(e) && *final(self) == *old(self),
                None => r is Ok,
            },
            r is Ok ==> {
                &&& !final(self).release_approvals.has_key(bounty_id)
                &&& forall|id: u64|
                    id != bounty_id ==> #[trigger] final(self).release_approvals.spec_get(id)
                        == old(self).release_approvals.spec_get(id)
                &&& *final(self) == (BountyEscrow {
                    release_approvals: final(self).release_approvals,
                    ..*old(self)
                })
            },
    {
        if !self.roles.has_role(caller, crate::rbac::Role::Admin) {
            return Err(Error::Unauthorized);
        }
        if !self.release_approvals.contains(bounty_id) {
            return Err(Error::NoPendingApproval);
        }
        self.release_approvals.remove(bounty_id);
        proof {
            assert forall|id: u64| #[trigger]
                self.release_approvals.has_key(id) implies self.release_approvals.spec_get(
                id,
            ).unwrap().wf() by {
                assert(self.release_approvals.spec_get(id) == old(
                    self,
                ).release_approvals.spec_get(id));
                assert(old(self).release_approvals.has_key(id));
            }
        }
        Ok(())
    }

    /// The error a configuration attempt runs into: the caller must hold
    /// Admin; the threshold must not be negative; the quorum must be at
    /// least one and at most the signer count; signers must be distinct.
    pub open spec fn spec_configure_multisig_err(
        self,
        caller: u64,
        threshold_amount: i128,
        signers: Seq<u64>,
        required_approvals: u32,
    ) -> Option<Error> {
        if !self.roles.spec_has_role(caller, crate::rbac::Role::Admin) {
            Some(Error::Unauthorized)
        } else if !(0 <= threshold_amount && 1 <= required_approvals && required_approvals
            <= signers.len() && (forall|i: int, j: int|
            0 <= i < j < signers.len() ==> signers[i] != signers[j])) {
            Some(Error::InvalidMultisigConfig)
        } else {
            None
        }
    }

    /// Installs (or replaces) the multisig gate.
    pub fn configure_multisig(
        &mut self,
        caller: u64,
        threshold_amount: i128,
        signers: Vec<u64>,
        required_approvals: u32,
        enabled: bool,
    ) -> (r: Result<(), Error>)
        requires
            old(self).wf(),
        ensures
            final(self).wf(),
            match old(self).spec_configure_multisig_err(
                caller,
                threshold_amount,
                signers@,
                required_approvals,
            ) {
                Some(e) => r == Err::<(), Error>(e) && *final(self) == *old(self),
                None => r is Ok,
            },
            r is Ok ==> {
                let c = final(self).multisig.unwrap();
                &&& final(self).multisig is Some
                &&& c.threshold_amount == threshold_amount
                &&& c.signers@ == signers@
                &&& c.required_approvals == required_approvals
                &&& c.enabled == enabled
                &&& *final(self) == (BountyEscrow { multisig: final(self).multisig, ..*old(self) })
            },
    {
        if !self.roles.has_role(caller, crate::rbac::Role::Admin) {
            return Err(Error::Unauthorized);
        }
        let distinct = u64_vec_distinct(&signers);
        if !(0 <= threshold_amount && 1 <= required_approvals && (required_approvals as usize)
            <= signers.len() && distinct) {
            return Err(Error::InvalidMultisigConfig);
        }
        self.multisig = Some(
            MultisigConfig { threshold_amount, signers, required_approvals, enabled },
        );
        Ok(())
    }

    /// The installed multisig configuration, if any.
    pub fn get_multisig_config(&self) -> (r: &Option<MultisigConfig>)
        ensures
            r == &self.multisig,
    {
        &self.multisig
    }

    /// The pending release approval for a bounty, if any.
    pub fn get_release_approval(&self, bounty_id: u64) -> (r: Option<&PendingReleaseApproval>)
        requires
            self.wf(),
        ensures
            match r {
                Some(p) => self.release_approvals.spec_get(bounty_id) == Some(*p),
                None => !self.release_approvals.has_key(bounty_id),
            },
    {
        self.release_approvals.get(bounty_id)
    }
}

/// Whether `x` occurs in `v`.
fn vec_contains_u64(v: &Vec<u64>, x: u64) -> (r: bool)
    ensures
        r == v@.contains(x),
{
    let n = v.len();
    let mut i: usize = 0;
    while i < n
        invariant
            n == v@.len(),
            0 <= i <= n,
            forall|j: int| 0 <= j < i ==> v@[j] != x,
        decreases n - i,
    {
        if v[i] == x {
            return true;
        }
        i = i + 1;
    }
    false
}

/// A fresh vector with the same contents.
fn copy_u64_vec(v: &Vec<u64>) -> (r: Vec<u64>)
    ensures
        r@ =~= v@,
{
    let n = v.len();
    let mut out: Vec<u64> = Vec::new();
    let mut i: usize = 0;
    while i < n
        invariant
            n == v@.len(),
            0 <= i <= n,
            out@ =~= v@.take(i as int),
        decreases n - i,
    {
        out.push(v[i]);
        proof {
            assert(out@ =~= v@.take(i + 1 as int));
        }
        i = i + 1;
    }
    out
}

/// Whether no value occurs twice in `v`.
fn u64_vec_distinct(v: &Vec<u64>) -> (r: bool)
    ensures
        r == (forall|i: int, j: int| 0 <= i < j < v@.len() ==> v@[i] != v@[j]),
{
    let n = v.len();
    let mut i: usize = 0;
    while i < n
        invariant
            n == v@.len(),
            0 <= i <= n,
            forall|a: int, b: int| 0 <= a < b < i ==> v@[a] != v@[b],
        decreases n - i,
    {
        let mut j: usize = 0;
        while j < i
            invariant
                n == v@.len(),
                0 <= j <= i < n,
                forall|a: int, b: int| 0 <= a < b < i ==> v@[a] != v@[b],
                forall|b: int| 0 <= b < j ==> v@[b] != v@[i as int],
            decreases i - j,
        {
            if v[j] == v[i] {
                return false;
            }
            j = j + 1;
        }
        i = i + 1;
    }
    true
}

} // verus!
