//! The value-transfer model: a ledger of non-negative token balances. It
//! stands for the external token service the engine moves funds through;
//! a transfer is atomic and fails whole on insufficient funds.

use vstd::prelude::*;

use crate::store::Table;

verus! {

/// Token balances by account.
pub struct TokenLedger {
    pub accounts: Table<i128>,
}

impl TokenLedger {
    /// Well-formed: the table is one, and no balance is negative.
    pub open spec fn wf(self) -> bool {
        &&& self.accounts.wf()
        &&& forall|a: u64| #[trigger] self.spec_balance(a) >= 0
    }

    /// The balance of `account`; absent accounts hold zero.
    pub open spec fn spec_balance(self, account: u64) -> i128 {
        match self.accounts.spec_get(account) {
            Some(v) => v,
            None => 0,
        }
    }

    /// Whether `transfer` would succeed: the amount is non-negative, the
    /// source covers it, and the destination does not overflow.
    pub open spec fn can_transfer(self, from: u64, to: u64, amount: i128) -> bool {
        &&& 0 <= amount <= self.spec_balance(from)
        &&& (from == to || self.spec_balance(to) + amount <= i128::MAX)
    }

    pub fn new() -> (r: Self)
        ensures
            r.wf(),
            forall|a: u64| r.spec_balance(a) == 0,
    {
        TokenLedger { accounts: Table::new() }
    }

    pub fn balance(&self, account: u64) -> (r: i128)
        requires
            self.wf(),
        ensures
            r == self.spec_balance(account),
            r >= 0,
    {
        match self.accounts.get(account) {
            Some(v) => *v,
            None => 0,
        }
    }

    /// Credits `account` with `amount` new tokens. Fails (and changes
    /// nothing) when the amount is negative or the balance would overflow.
    pub fn mint(&mut self, account: u64, amount: i128) -> (ok: bool)
        requires
            old(self).wf(),
        ensures
            final(self).wf(),
            ok == (0 <= amount && old(self).spec_balance(account) + amount <= i128::MAX),
            ok ==> final(self).spec_balance(account) == old(self).spec_balance(account) + amount,
            ok ==> forall|a: u64|
                a != account ==> #[trigger] final(self).spec_balance(a) == old(self).spec_balance(
                    a,
                ),
            !ok ==> *final(self) == *old(self),
    {
        if amount < 0 {
            return false;
        }
        let current = self.balance(account);
        match current.checked_add(amount) {
            Some(updated) => {
                self.accounts.insert(account, updated);
                proof {
                    assert forall|a: u64| #[trigger] self.spec_balance(a) >= 0 by {
                        if a == account {
                            assert(self.accounts.spec_get(a) == Some(updated));
                        } else {
                            assert(self.accounts.spec_get(a) == old(self).accounts.spec_get(a));
                            assert(old(self).spec_balance(a) >= 0);
                        }
                    }
                }
                true
            },
            None => false,
        }
    }

    /// Moves `amount` from `from` to `to`; fails whole (and changes nothing)
    /// when it cannot.
    pub fn transfer(&mut self, from: u64, to: u64, amount: i128) -> (ok: bool)
        requires
            old(self).wf(),
        ensures
            final(self).wf(),
            ok == old(self).can_transfer(from, to, amount),
            !ok ==> *final(self) == *old(self),
            ok && from == to ==> *final(self) == *old(self),
            ok && from != to ==> final(self).spec_balance(from) == old(self).spec_balance(from)
                - amount,
            ok && from != to ==> final(self).spec_balance(to) == old(self).spec_balance(to)
                + amount,
            ok ==> forall|a: u64|
                a != from && a != to ==> #[trigger] final(self).spec_balance(a) == old(self).spec_balance(a),
    {
        if amount < 0 {
            return false;
        }
        let source = self.balance(from);
        if source < amount {
            return false;
        }
        if from == to {
            return true;
        }
        let dest = self.balance(to);
        match dest.checked_add(amount) {
            Some(credited) => {
                self.accounts.insert(from, source - amount);
                self.accounts.insert(to, credited);
                proof {
                    assert forall|a: u64| #[trigger] self.spec_balance(a) >= 0 by {
                        if a == to {
                            assert(self.accounts.spec_get(a) == Some(credited));
                        } else if a == from {
                            assert(self.accounts.spec_get(a) == Some((source - amount) as i128));
                        } else {
                            assert(self.accounts.spec_get(a) == old(self).accounts.spec_get(a));
                            assert(old(self).spec_balance(a) >= 0);
                        }
                    }
                }
                true
            },
            None => false,
        }
    }
}

} // verus!
