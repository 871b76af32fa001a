//! The pause gate: three independent flags, a global pause with a recorded
//! reason, and the emergency drain that works with or without a pause.

use vstd::prelude::*;

use crate::engine::BountyEscrow;
use crate::errors::Error;
use crate::rbac::Role;
use crate::types::PauseConfig;

verus! {

/// The state after a global pause: all three flags set, the reason stored.
pub open spec fn spec_pause(s: BountyEscrow, reason: String) -> BountyEscrow {
    BountyEscrow {
        pause: PauseConfig { lock_paused: true, release_paused: true, refund_paused: true },
        pause_reason: Some(reason),
        ..s
    }
}

/// The state after a global unpause: all three flags clear, no reason.
pub open spec fn spec_unpause(s: BountyEscrow) -> BountyEscrow {
    BountyEscrow {
        pause: PauseConfig { lock_paused: false, release_paused: false, refund_paused: false },
        pause_reason: None,
        ..s
    }
}

/// The state after setting the lock flag alone.
pub open spec fn spec_set_pause_lock(s: BountyEscrow, paused: bool) -> BountyEscrow {
    BountyEscrow { pause: PauseConfig { lock_paused: paused, ..s.pause }, ..s }
}

/// The state after setting the release flag alone.
pub open spec fn spec_set_pause_release(s: BountyEscrow, paused: bool) -> BountyEscrow {
    BountyEscrow { pause: PauseConfig { release_paused: paused, ..s.pause }, ..s }
}

/// The state after setting the refund flag alone.
pub open spec fn spec_set_pause_refund(s: BountyEscrow, paused: bool) -> BountyEscrow {
    BountyEscrow { pause: PauseConfig { refund_paused: paused, ..s.pause }, ..s }
}

/// The flags after applying each optional override.
pub open spec fn spec_apply_flags(
    p: PauseConfig,
    lock: Option<bool>,
    release: Option<bool>,
    refund: Option<bool>,
) -> PauseConfig {
    PauseConfig {
        lock_paused: match lock {
            Some(b) => b,
            None => p.lock_paused,
        },
        release_paused: match release {
            Some(b) => b,
            None => p.release_paused,
        },
        refund_paused: match refund {
            Some(b) => b,
            None => p.refund_paused,
        },
    }
}

impl BountyEscrow {
    /// "Fully paused": all three flags at once.
    pub open spec fn spec_is_paused(self) -> bool {
        self.pause.lock_paused && self.pause.release_paused && self.pause.refund_paused
    }

    /// Pauses all three operation classes and records the reason
    /// (overwriting a previous one). Admin or Pauser only.
    pub fn pause(&mut self, caller: u64, reason: String) -> (r: Result<(), Error>)
        requires
            old(self).wf(),
        ensures
            final(self).wf(),
            r is Ok <==> old(self).roles.spec_may_pause(caller),
            r is Err ==> r == Err::<(), Error>(Error::Unauthorized) && *final(self) == *old(self),
            r is Ok ==> *final(self) == spec_pause(*old(self), reason),
    {
        if !self.roles.may_pause(caller) {
            return Err(Error::Unauthorized);
        }
        self.pause = PauseConfig { lock_paused: true, release_paused: true, refund_paused: true };
        self.pause_reason = Some(reason);
        Ok(())
    }

    /// Clears all three flags and the reason; a safe no-op when already
    /// unpaused. Admin only.
    pub fn unpause(&mut self, caller: u64) -> (r: Result<(), Error>)
        requires
            old(self).wf(),
        ensures
            final(self).wf(),
            r is Ok <==> old(self).roles.spec_has_role(caller, Role::Admin),
            r is Err ==> r == Err::<(), Error>(Error::Unauthorized) && *final(self) == *old(self),
            r is Ok ==> *final(self) == spec_unpause(*old(self)),
    {
        if !self.roles.has_role(caller, Role::Admin) {
            return Err(Error::Unauthorized);
        }
        self.pause = PauseConfig { lock_paused: false, release_paused: false, refund_paused: false };
        self.pause_reason = None;
        Ok(())
    }

    /// Sets the lock flag alone; idempotent. Admin or Pauser only.
    pub fn set_pause_lock(&mut self, caller: u64, paused: bool) -> (r: Result<(), Error>)
        requires
            old(self).wf(),
        ensures
            final(self).wf(),
            r is Ok <==> old(self).roles.spec_may_pause(caller),
            r is Err ==> r == Err::<(), Error>(Error::Unauthorized) && *final(self) == *old(self),
            r is Ok ==> *final(self) == spec_set_pause_lock(*old(self), paused),
    {
        if !self.roles.may_pause(caller) {
            return Err(Error::Unauthorized);
        }
        self.pause = PauseConfig { lock_paused: paused, ..self.pause };
        Ok(())
    }

    /// Sets the release flag alone; idempotent. Admin or Pauser only.
    pub fn set_pause_release(&mut self, caller: u64, paused: bool) -> (r: Result<(), Error>)
        requires
            old(self).wf(),
        ensures
            final(self).wf(),
            r is Ok <==> old(self).roles.spec_may_pause(caller),
            r is Err ==> r == Err::<(), Error>(Error::Unauthorized) && *final(self) == *old(self),
            r is Ok ==> *final(self) == spec_set_pause_release(*old(self), paused),
    {
        if !self.roles.may_pause(caller) {
            return Err(Error::Unauthorized);
        }
        self.pause = PauseConfig { release_paused: paused, ..self.pause };
        Ok(())
    }

    /// Sets the refund flag alone; idempotent. Admin or Pauser only.
    pub fn set_pause_refund(&mut self, caller: u64, paused: bool) -> (r: Result<(), Error>)
        requires
            old(self).wf(),
        ensures
            final(self).wf(),
            r is Ok <==> old(self).roles.spec_may_pause(caller),
            r is Err ==> r == Err::<(), Error>(Error::Unauthorized) && *final(self) == *old(self),
            r is Ok ==> *final(self) == spec_set_pause_refund(*old(self), paused),
    {
        if !self.roles.may_pause(caller) {
            return Err(Error::Unauthorized);
        }
        self.pause = PauseConfig { refund_paused: paused, ..self.pause };
        Ok(())
    }

    /// Applies any combination of flag overrides at once. Admin or Pauser
    /// only.
    pub fn set_paused(
        &mut self,
        caller: u64,
        lock: Option<bool>,
        release: Option<bool>,
        refund: Option<bool>,
    ) -> (r: Result<(), Error>)
        requires
            old(self).wf(),
        ensures
            final(self).wf(),
            r is Ok <==> old(self).roles.spec_may_pause(caller),
            r is Err ==> r == Err::<(), Error>(Error::Unauthorized) && *final(self) == *old(self),
            r is Ok ==> *final(self) == (BountyEscrow {
                pause: spec_apply_flags(old(self).pause, lock, release, refund),
                ..*old(self)
            }),
    {
        if !self.roles.may_pause(caller) {
            return Err(Error::Unauthorized);
        }
        self.pause = PauseConfig {
            lock_paused: match lock {
                Some(b) => b,
                None => self.pause.lock_paused,
            },
            release_paused: match release {
                Some(b) => b,
                None => self.pause.release_paused,
            },
            refund_paused: match refund {
                Some(b) => b,
                None => self.pause.refund_paused,
            },
        };
        Ok(())
    }

    /// Whether all three operation classes are paused at once.
    pub fn is_paused(&self) -> (r: bool)
        ensures
            r == self.spec_is_paused(),
    {
        self.pause.lock_paused && self.pause.release_paused && self.pause.refund_paused
    }

    pub fn is_lock_paused(&self) -> (r: bool)
        ensures
            r == self.pause.lock_paused,
    {
        self.pause.lock_paused
    }

    pub fn is_release_paused(&self) -> (r: bool)
        ensures
            r == self.pause.release_paused,
    {
        self.pause.release_paused
    }

    pub fn is_refund_paused(&self) -> (r: bool)
        ensures
            r == self.pause.refund_paused,
    {
        self.pause.refund_paused
    }

    /// The three flags as stored.
    pub fn get_pause_config(&self) -> (r: PauseConfig)
        ensures
            r == self.pause,
    {
        self.pause
    }

    /// The reason recorded by the last global pause, if still paused.
    pub fn get_pause_reason(&self) -> (r: &Option<String>)
        ensures
            r == &self.pause_reason,
    {
        &self.pause_reason
    }

    /// The error an emergency withdrawal runs into: the caller must hold
    /// Admin, and the recipient's balance must be able to take the whole
    /// custodial balance.
    pub open spec fn spec_emergency_withdraw_err(self, caller: u64, recipient: u64) -> Option<
        Error,
    > {
        if !self.roles.spec_has_role(caller, Role::Admin) {
            Some(Error::Unauthorized)
        } else if !self.ledger.can_transfer(
            self.contract_account,
            recipient,
            self.ledger.spec_balance(self.contract_account),
        ) {
            Some(Error::InsufficientBalance)
        } else {
            None
        }
    }

    /// Drains the whole custodial balance to `recipient`, regardless of
    /// per-bounty bookkeeping and without requiring a prior pause. A zero
    /// balance is a safe no-op.
    pub fn emergency_withdraw(&mut self, caller: u64, recipient: u64) -> (r: Result<(), Error>)
        requires
            old(self).wf(),
        ensures
            final(self).wf(),
            match old(self).spec_emergency_withdraw_err(caller, recipient) {
                Some(e) => r == Err::<(), Error>(e) && *final(self) == *old(self),
                None => r is Ok,
            },
            r is Ok ==> {
                let amount = old(self).ledger.spec_balance(old(self).contract_account);
                &&& (old(self).contract_account != recipient ==> final(self).ledger.spec_balance(
                    old(self).contract_account,
                ) == 0 && final(self).ledger.spec_balance(recipient) == old(self).ledger.spec_balance(recipient) + amount)
                &&& (old(self).contract_account == recipient ==> final(self).ledger == old(self).ledger)
                &&& forall|a: u64|
                    a != old(self).contract_account && a != recipient ==> #[trigger] final(self).ledger.spec_balance(a) == old(self).ledger.spec_balance(a)
                &&& *final(self) == (BountyEscrow { ledger: final(self).ledger, ..*old(self) })
            },
    {
        if !self.roles.has_role(caller, Role::Admin) {
            return Err(Error::Unauthorized);
        }
        let contract = self.contract_account;
        let amount = self.ledger.balance(contract);
        let can_fund = {
            let dest = self.ledger.balance(recipient);
            contract == recipient || dest <= i128::MAX - amount
        };
        if !can_fund {
            return Err(Error::InsufficientBalance);
        }
        let ok = self.ledger.transfer(contract, recipient, amount);
        proof {
            assert(ok);
        }
        Ok(())
    }
}

} // verus!
