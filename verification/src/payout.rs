//! A keyed payout contract: a custodial balance that authorized keys pay
//! out from. Backend keys may release and batch-pay; maintainer keys (and
//! backends, which subsume them) may refund. Only the admin manages keys,
//! and the last backend key can never be removed.

use vstd::prelude::*;

use crate::errors::Error;
use crate::queries::spec_min;
use crate::store::Table;
use crate::token::TokenLedger;

verus! {

/// The two operational roles of the payout contract. Backend subsumes
/// Maintainer.
#[derive(Clone, Copy, Debug, PartialEq, Eq, Structural)]
pub enum Role {
    /// May trigger automated payouts and batch payouts, and anything a
    /// maintainer may.
    Backend,
    /// May trigger refunds.
    Maintainer,
}

/// One authorized key with its role.
#[derive(Clone, Copy, Debug, PartialEq, Eq, Structural)]
pub struct AuthorizedKey {
    pub key: u64,
    pub role: Role,
}

/// Whether a held role satisfies a required one.
pub open spec fn spec_role_allows(held: Role, required: Role) -> bool {
    match required {
        Role::Backend => held == Role::Backend,
        Role::Maintainer => held == Role::Backend || held == Role::Maintainer,
    }
}

/// The payout contract's whole state.
pub struct EscrowContract {
    /// The only account that may manage keys.
    pub admin: u64,
    /// The account the contract's custodial balance sits on.
    pub custody: u64,
    /// Token balances, including the custodial account's.
    pub ledger: TokenLedger,
    /// The authorized keys and their roles.
    pub keys: Table<Role>,
}

impl EscrowContract {
    pub open spec fn wf(self) -> bool {
        &&& self.ledger.wf()
        &&& self.keys.wf()
    }

    /// Whether `address` may act in `required` capacity.
    pub open spec fn spec_is_authorized(self, address: u64, required: Role) -> bool {
        match self.keys.spec_get(address) {
            Some(held) => spec_role_allows(held, required),
            None => false,
        }
    }

    /// How many backend keys exist among the first `k` entries.
    pub open spec fn spec_backend_count(self, k: int) -> int
        decreases k,
    {
        if k <= 0 {
            0
        } else {
            self.spec_backend_count(k - 1) + if self.keys.entries@[k - 1].1 == Role::Backend {
                1int
            } else {
                0int
            }
        }
    }

    /// Sets up the contract: the backend key first, then every maintainer
    /// key (a maintainer entry overwrites the backend one if they collide).
    pub fn initialize(admin: u64, custody: u64, backend_key: u64, maintainer_keys: &Vec<u64>) -> (r:
        Self)
        ensures
            r.wf(),
            r.admin == admin,
            r.custody == custody,
            forall|a: u64| r.ledger.spec_balance(a) == 0,
            forall|a: u64| #[trigger]
                r.keys.spec_get(a) == if maintainer_keys@.contains(a) {
                    Some(Role::Maintainer)
                } else if a == backend_key {
                    Some(Role::Backend)
                } else {
                    None::<Role>
                },
    {
        let mut keys: Table<Role> = Table::new();
        keys.insert(backend_key, Role::Backend);
        let n = maintainer_keys.len();
        let mut i: usize = 0;
        while i < n
            invariant
                n == maintainer_keys@.len(),
                0 <= i <= n,
                keys.wf(),
                forall|a: u64| #[trigger]
                    keys.spec_get(a) == if maintainer_keys@.take(i as int).contains(a) {
                        Some(Role::Maintainer)
                    } else if a == backend_key {
                        Some(Role::Backend)
                    } else {
                        None::<Role>
                    },
            decreases n - i,
        {
            let key = maintainer_keys[i];
            keys.insert(key, Role::Maintainer);
            proof {
                assert forall|a: u64| #[trigger]
                    keys.spec_get(a) == if maintainer_keys@.take(i + 1).contains(a) {
                        Some(Role::Maintainer)
                    } else if a == backend_key {
                        Some(Role::Backend)
                    } else {
                        None::<Role>
                    } by {
                    if a == key {
                        assert(maintainer_keys@.take(i + 1)[i as int] == key);
                        assert(maintainer_keys@.take(i + 1).contains(a));
                    } else {
                        assert(maintainer_keys@.take(i + 1).contains(a)
                            == maintainer_keys@.take(i as int).contains(a)) by {
                            if maintainer_keys@.take(i + 1).contains(a) {
                                let j = choose|j: int|
                                    0 <= j < i + 1 && #[trigger] maintainer_keys@.take(i + 1)[j]
                                        == a;
                                assert(maintainer_keys@.take(i as int)[j] == a);
                            } else if maintainer_keys@.take(i as int).contains(a) {
                                let j = choose|j: int|
                                    0 <= j < i && #[trigger] maintainer_keys@.take(i as int)[j]
                                        == a;
                                assert(maintainer_keys@.take(i + 1)[j] == a);
                            }
                        }
                    }
                }
            }
            i = i + 1;
        }
        proof {
            assert(maintainer_keys@.take(n as int) =~= maintainer_keys@);
            assert forall|a: u64| true implies #[trigger] keys.spec_get(a) == if maintainer_keys@.contains(
                a,
            ) {
                Some(Role::Maintainer)
            } else if a == backend_key {
                Some(Role::Backend)
            } else {
                None::<Role>
            } by {
                assert(maintainer_keys@.take(n as int) =~= maintainer_keys@);
            }
        }
        EscrowContract { admin, custody, ledger: TokenLedger::new(), keys }
    }

    /// Whether `address` may act in `required` capacity.
    pub fn is_authorized(&self, address: u64, required_role: Role) -> (r: bool)
        requires
            self.wf(),
        ensures
            r == self.spec_is_authorized(address, required_role),
    {
        match self.keys.get(address) {
            Some(held) => match required_role {
                Role::Backend => matches!(held, Role::Backend),
                Role::Maintainer => matches!(held, Role::Backend | Role::Maintainer),
            },
            None => false,
        }
    }

    /// Read-only alias of `is_authorized`.
    pub fn check_authorization(&self, address: u64, role: Role) -> (r: bool)
        requires
            self.wf(),
        ensures
            r == self.spec_is_authorized(address, role),
    {
        self.is_authorized(address, role)
    }

    /// Adds or re-roles an authorized key. Admin only.
    pub fn set_authorized_key(&mut self, caller: u64, key: u64, role: Role) -> (r: Result<
        (),
        Error,
    >)
        requires
            old(self).wf(),
        ensures
            final(self).wf(),
            r is Ok <==> caller == old(self).admin,
            r is Err ==> r == Err::<(), Error>(Error::Unauthorized) && *final(self) == *old(self),
            r is Ok ==> {
                &&& final(self).keys.spec_get(key) == Some(role)
                &&& forall|a: u64|
                    a != key ==> #[trigger] final(self).keys.spec_get(a) == old(self).keys.spec_get(a)
                &&& *final(self) == (EscrowContract { keys: final(self).keys, ..*old(self) })
            },
    {
        if caller != self.admin {
            return Err(Error::Unauthorized);
        }
        self.keys.insert(key, role);
        Ok(())
    }

    /// Removes an authorized key. Admin only; refuses to remove the last
    /// backend key.
    pub fn remove_authorized_key(&mut self, caller: u64, key: u64) -> (r: Result<(), Error>)
        requires
            old(self).wf(),
        ensures
            final(self).wf(),
            r is Ok <==> (caller == old(self).admin && !(old(self).keys.spec_get(key) == Some(
                Role::Backend,
            ) && old(self).spec_backend_count(old(self).keys.spec_len() as int) <= 1)),
            r is Err ==> *final(self) == *old(self),
            caller != old(self).admin ==> r == Err::<(), Error>(Error::Unauthorized),
            caller == old(self).admin && r is Err ==> r == Err::<(), Error>(
                Error::LastBackendKey,
            ),
            r is Ok ==> {
                &&& !final(self).keys.has_key(key)
                &&& forall|a: u64|
                    a != key ==> #[trigger] final(self).keys.spec_get(a) == old(self).keys.spec_get(a)
                &&& *final(self) == (EscrowContract { keys: final(self).keys, ..*old(self) })
            },
    {
        if caller != self.admin {
            return Err(Error::Unauthorized);
        }
        let is_backend = match self.keys.get(key) {
            Some(held) => matches!(held, Role::Backend),
            None => false,
        };
        if is_backend {
            let n = self.keys.len();
            let mut count: usize = 0;
            let mut i: usize = 0;
            while i < n
                invariant
                    n == self.keys.entries@.len(),
                    0 <= i <= n,
                    count <= i,
                    count == self.spec_backend_count(i as int),
                decreases n - i,
            {
                let entry = self.keys.entry_at(i);
                if matches!(entry.1, Role::Backend) {
                    count = count + 1;
                }
                i = i + 1;
            }
            if count <= 1 {
                return Err(Error::LastBackendKey);
            }
        }
        self.keys.remove(key);
        Ok(())
    }

    /// The number of authorized keys (saturating at the u32 maximum).
    pub fn get_authorized_keys_count(&self) -> (r: u32)
        ensures
            r == spec_min(self.keys.spec_len() as int, u32::MAX as int),
    {
        let n = self.keys.len();
        if n > u32::MAX as usize {
            u32::MAX
        } else {
            n as u32
        }
    }

    /// Credits fresh tokens to an account; models the external asset issuer.
    pub fn mint(&mut self, account: u64, amount: i128) -> (r: Result<(), Error>)
        requires
            old(self).wf(),
        ensures
            final(self).wf(),
            r is Ok <==> (0 <= amount && old(self).ledger.spec_balance(account) + amount
                <= i128::MAX),
            r is Err ==> *final(self) == *old(self) && r == Err::<(), Error>(Error::InvalidAmount),
            r is Ok ==> final(self).ledger.spec_balance(account) == old(self).ledger.spec_balance(
                account,
            ) + amount && (forall|a: u64|
                a != account ==> #[trigger] final(self).ledger.spec_balance(a) == old(self).ledger.spec_balance(a)) && *final(self) == (EscrowContract {
                ledger: final(self).ledger,
                ..*old(self)
            }),
    {
        let ok = self.ledger.mint(account, amount);
        if ok {
            Ok(())
        } else {
            Err(Error::InvalidAmount)
        }
    }

    /// The token balance of any account.
    pub fn balance(&self, account: u64) -> (r: i128)
        requires
            self.wf(),
        ensures
            r == self.ledger.spec_balance(account),
    {
        self.ledger.balance(account)
    }

    /// The error a single payout runs into: authorization first, then the
    /// amount, then funding.
    pub open spec fn spec_payout_err(
        self,
        caller: u64,
        required: Role,
        recipient: u64,
        amount: i128,
    ) -> Option<Error> {
        if !self.spec_is_authorized(caller, required) {
            Some(Error::Unauthorized)
        } else if amount <= 0 {
            Some(Error::InvalidAmount)
        } else if !self.ledger.can_transfer(self.custody, recipient, amount) {
            Some(Error::InsufficientBalance)
        } else {
            None
        }
    }

    /// Pays `amount` from custody to a contributor. Backend only.
    pub fn release_funds(&mut self, caller: u64, contributor: u64, amount: i128) -> (r: Result<
        (),
        Error,
    >)
        requires
            old(self).wf(),
        ensures
            final(self).wf(),
            match old(self).spec_payout_err(caller, Role::Backend, contributor, amount) {
                Some(e) => r == Err::<(), Error>(e) && *final(self) == *old(self),
                None => r is Ok,
            },
            r is Ok ==> {
                &&& (old(self).custody != contributor ==> final(self).ledger.spec_balance(
                    contributor,
                ) == old(self).ledger.spec_balance(contributor) + amount && final(self).ledger.spec_balance(old(self).custody) == old(self).ledger.spec_balance(
                    old(self).custody,
                ) - amount)
                &&& (old(self).custody == contributor ==> final(self).ledger == old(self).ledger)
                &&& forall|a: u64|
                    a != old(self).custody && a != contributor ==> #[trigger] final(self).ledger.spec_balance(a) == old(self).ledger.spec_balance(a)
                &&& *final(self) == (EscrowContract { ledger: final(self).ledger, ..*old(self) })
            },
    {
        if !self.is_authorized(caller, Role::Backend) {
            return Err(Error::Unauthorized);
        }
        if amount <= 0 {
            return Err(Error::InvalidAmount);
        }
        let custody = self.custody;
        let can_fund = {
            let bal = self.ledger.balance(custody);
            let dest = self.ledger.balance(contributor);
            bal >= amount && (custody == contributor || dest <= i128::MAX - amount)
        };
        if !can_fund {
            return Err(Error::InsufficientBalance);
        }
        let ok = self.ledger.transfer(custody, contributor, amount);
        proof {
            assert(ok);
        }
        Ok(())
    }

    /// Pays `amount` from custody to a recipient. Maintainer or backend.
    pub fn refund(&mut self, caller: u64, recipient: u64, amount: i128) -> (r: Result<(), Error>)
        requires
            old(self).wf(),
        ensures
            final(self).wf(),
            match old(self).spec_payout_err(caller, Role::Maintainer, recipient, amount) {
                Some(e) => r == Err::<(), Error>(e) && *final(self) == *old(self),
                None => r is Ok,
            },
            r is Ok ==> {
                &&& (old(self).custody != recipient ==> final(self).ledger.spec_balance(recipient)
                    == old(self).ledger.spec_balance(recipient) + amount && final(self).ledger.spec_balance(old(self).custody) == old(self).ledger.spec_balance(
                    old(self).custody,
                ) - amount)
                &&& (old(self).custody == recipient ==> final(self).ledger == old(self).ledger)
                &&& forall|a: u64|
                    a != old(self).custody && a != recipient ==> #[trigger] final(self).ledger.spec_balance(a) == old(self).ledger.spec_balance(a)
                &&& *final(self) == (EscrowContract { ledger: final(self).ledger, ..*old(self) })
            },
    {
        if !self.is_authorized(caller, Role::Maintainer) {
            return Err(Error::Unauthorized);
        }
        if amount <= 0 {
            return Err(Error::InvalidAmount);
        }
        let custody = self.custody;
        let can_fund = {
            let bal = self.ledger.balance(custody);
            let dest = self.ledger.balance(recipient);
            bal >= amount && (custody == recipient || dest <= i128::MAX - amount)
        };
        if !can_fund {
            return Err(Error::InsufficientBalance);
        }
        let ok = self.ledger.transfer(custody, recipient, amount);
        proof {
            assert(ok);
        }
        Ok(())
    }
}

impl EscrowContract {
    /// Custody paid out by the first `k` payouts (a payout back to custody
    /// itself moves nothing).
    pub open spec fn spec_pay_out(self, payouts: Seq<(u64, i128)>, k: int) -> int
        decreases k,
    {
        if k <= 0 {
            0
        } else {
            self.spec_pay_out(payouts, k - 1) + if payouts[k - 1].0 != self.custody {
                payouts[k - 1].1 as int
            } else {
                0
            }
        }
    }

    /// What the first `k` payouts credit to account `a`.
    pub open spec fn spec_pay_in(self, payouts: Seq<(u64, i128)>, k: int, a: u64) -> int
        decreases k,
    {
        if k <= 0 {
            0
        } else {
            self.spec_pay_in(payouts, k - 1, a) + if payouts[k - 1].0 == a && a != self.custody {
                payouts[k - 1].1 as int
            } else {
                0
            }
        }
    }

    /// The balance account `a` would hold after the first `k` payouts.
    pub open spec fn spec_pay_bal_at(self, payouts: Seq<(u64, i128)>, k: int, a: u64) -> int {
        self.ledger.spec_balance(a) + self.spec_pay_in(payouts, k, a) - if a == self.custody {
            self.spec_pay_out(payouts, k)
        } else {
            0
        }
    }

    /// Sum of the amounts of the first `k` payouts, self-payouts included:
    /// the custodial balance must cover the whole total up front, whether or
    /// not a payout moves funds.
    pub open spec fn spec_pay_charge(self, payouts: Seq<(u64, i128)>, k: int) -> int
        decreases k,
    {
        if k <= 0 {
            0
        } else {
            self.spec_pay_charge(payouts, k - 1) + payouts[k - 1].1 as int
        }
    }

    /// With positive amounts, what really leaves custody never exceeds the
    /// charged total.
    pub proof fn lemma_pay_out_le_charge(self, payouts: Seq<(u64, i128)>, k: int)
        requires
            0 <= k <= payouts.len(),
            forall|j: int| 0 <= j < k ==> (#[trigger] payouts[j]).1 > 0,
        ensures
            self.spec_pay_out(payouts, k) <= self.spec_pay_charge(payouts, k),
        decreases k,
    {
        if k > 0 {
            self.lemma_pay_out_le_charge(payouts, k - 1);
        }
    }

    /// Custody is the source of every payout, never a crediting target.
    pub proof fn lemma_pay_in_custody_zero(self, payouts: Seq<(u64, i128)>, k: int)
        ensures
            self.spec_pay_in(payouts, k, self.custody) == 0,
        decreases k,
    {
        if k > 0 {
            self.lemma_pay_in_custody_zero(payouts, k - 1);
        }
    }

    /// The first problem with payout `k`, judged against this state and the
    /// simulated effect of the payouts before it: the amount must be
    /// positive, the custodial balance must still cover it after the charge
    /// of every earlier payout (self-payouts included), and the recipient
    /// must be able to take the credit.
    pub open spec fn spec_pay_item_err(self, payouts: Seq<(u64, i128)>, k: int) -> Option<Error> {
        let to = payouts[k].0;
        let amt = payouts[k].1;
        if amt <= 0 {
            Some(Error::InvalidAmount)
        } else if !(amt + self.spec_pay_charge(payouts, k) <= self.ledger.spec_balance(
            self.custody,
        )) {
            Some(Error::InsufficientBalance)
        } else if to != self.custody && self.spec_pay_bal_at(payouts, k, to) + amt > i128::MAX {
            Some(Error::InsufficientBalance)
        } else {
            None
        }
    }

    /// The first payout error at or after position `k`.
    pub open spec fn spec_pay_scan(self, payouts: Seq<(u64, i128)>, k: int) -> Option<Error>
        decreases payouts.len() - k,
    {
        if k < 0 || k >= payouts.len() {
            None
        } else {
            match self.spec_pay_item_err(payouts, k) {
                Some(e) => Some(e),
                None => self.spec_pay_scan(payouts, k + 1),
            }
        }
    }

    /// When the first `k` payouts are clean, the scan from the start equals
    /// the scan from `k`.
    pub proof fn lemma_pay_scan_skip(self, payouts: Seq<(u64, i128)>, k: int)
        requires
            0 <= k <= payouts.len(),
            forall|j: int| 0 <= j < k ==> self.spec_pay_item_err(payouts, j) is None,
        ensures
            self.spec_pay_scan(payouts, 0) == self.spec_pay_scan(payouts, k),
        decreases k,
    {
        if k > 0 {
            self.lemma_pay_scan_skip(payouts, k - 1);
            assert(self.spec_pay_item_err(payouts, k - 1) is None);
        }
    }

    /// The error a whole batch payout runs into: authorization, then the
    /// size, then the first item error.
    pub open spec fn spec_batch_payout_err(self, caller: u64, payouts: Seq<(u64, i128)>) -> Option<
        Error,
    > {
        if !self.spec_is_authorized(caller, Role::Backend) {
            Some(Error::Unauthorized)
        } else if payouts.len() == 0 {
            Some(Error::InvalidBatchSize)
        } else {
            self.spec_pay_scan(payouts, 0)
        }
    }

    /// Pays every (recipient, amount) pair from custody, or nothing. The
    /// whole list is validated first: every amount must be positive and the
    /// custodial balance must cover the payouts' running total, self-payouts
    /// included. Backend only.
    pub fn batch_payout(&mut self, caller: u64, payouts: &Vec<(u64, i128)>) -> (r: Result<
        (),
        Error,
    >)
        requires
            old(self).wf(),
        ensures
            final(self).wf(),
            match old(self).spec_batch_payout_err(caller, payouts@) {
                Some(e) => r == Err::<(), Error>(e) && *final(self) == *old(self),
                None => r is Ok,
            },
            r is Ok ==> {
                &&& forall|a: u64| #[trigger]
                    final(self).ledger.spec_balance(a) == old(self).spec_pay_bal_at(
                        payouts@,
                        payouts@.len() as int,
                        a,
                    )
                &&& *final(self) == (EscrowContract { ledger: final(self).ledger, ..*old(self) })
            },
    {
        if !self.is_authorized(caller, Role::Backend) {
            return Err(Error::Unauthorized);
        }
        let n = payouts.len();
        if n == 0 {
            return Err(Error::InvalidBatchSize);
        }
        let custody = self.custody;
        // validation pass over a simulated ledger; nothing is written yet
        let c_bal0 = self.ledger.balance(custody);
        let mut charged: i128 = 0;
        let mut sim: Table<i128> = Table::new();
        let mut k: usize = 0;
        while k < n
            invariant
                n == payouts@.len(),
                0 < n,
                0 <= k <= n,
                custody == self.custody,
                old(self).wf(),
                old(self).spec_is_authorized(caller, Role::Backend),
                self.wf(),
                *self == *old(self),
                sim.wf(),
                c_bal0 == self.ledger.spec_balance(custody),
                0 <= charged <= c_bal0,
                charged == self.spec_pay_charge(payouts@, k as int),
                forall|a: u64| #[trigger]
                    crate::batch::spec_sim_balance(sim, self.ledger, a) == self.spec_pay_bal_at(
                        payouts@,
                        k as int,
                        a,
                    ),
                forall|j: int| 0 <= j < k ==> self.spec_pay_item_err(payouts@, j) is None,
            decreases n - k,
        {
            let (to, amt) = payouts[k];
            if amt <= 0 {
                proof {
                    self.lemma_pay_scan_skip(payouts@, k as int);
                }
                return Err(Error::InvalidAmount);
            }
            if !(amt <= c_bal0 - charged) {
                proof {
                    self.lemma_pay_scan_skip(payouts@, k as int);
                }
                return Err(Error::InsufficientBalance);
            }
            charged = charged + amt;
            let ghost sim0 = sim;
            if to != custody {
                let c_bal = match sim.get(custody) {
                    Some(v) => *v,
                    None => self.ledger.balance(custody),
                };
                proof {
                    assert(c_bal == crate::batch::spec_sim_balance(sim, self.ledger, custody));
                    assert(c_bal == self.spec_pay_bal_at(payouts@, k as int, custody));
                    assert forall|j: int| 0 <= j < k implies (#[trigger] payouts@[j]).1 > 0 by {
                        assert(self.spec_pay_item_err(payouts@, j) is None);
                    }
                    self.lemma_pay_out_le_charge(payouts@, k as int);
                    self.lemma_pay_in_custody_zero(payouts@, k as int);
                    assert(amt <= c_bal);
                }
                let x_bal = match sim.get(to) {
                    Some(v) => *v,
                    None => self.ledger.balance(to),
                };
                proof {
                    assert(x_bal == crate::batch::spec_sim_balance(sim, self.ledger, to));
                    assert(x_bal == self.spec_pay_bal_at(payouts@, k as int, to));
                }
                if x_bal > i128::MAX - amt {
                    proof {
                        self.lemma_pay_scan_skip(payouts@, k as int);
                    }
                    return Err(Error::InsufficientBalance);
                }
                sim.insert(custody, c_bal - amt);
                let x_bal2 = match sim.get(to) {
                    Some(v) => *v,
                    None => self.ledger.balance(to),
                };
                proof {
                    assert(x_bal2 == x_bal);
                }
                sim.insert(to, x_bal2 + amt);
                proof {
                    assert(sim.spec_get(custody) == Some((c_bal - amt) as i128));
                    assert(sim.spec_get(to) == Some((x_bal + amt) as i128));
                }
            }
            proof {
                assert(self.spec_pay_charge(payouts@, k + 1) == self.spec_pay_charge(
                    payouts@,
                    k as int,
                ) + payouts@[k as int].1 as int);
                assert(self.spec_pay_item_err(payouts@, k as int) is None);
                assert forall|a: u64| #[trigger]
                    crate::batch::spec_sim_balance(sim, self.ledger, a) == self.spec_pay_bal_at(
                        payouts@,
                        k + 1,
                        a,
                    ) by {
                    assert(self.spec_pay_in(payouts@, k + 1, a) == self.spec_pay_in(
                        payouts@,
                        k as int,
                        a,
                    ) + if payouts@[k as int].0 == a && a != self.custody {
                        payouts@[k as int].1 as int
                    } else {
                        0
                    });
                    assert(self.spec_pay_out(payouts@, k + 1) == self.spec_pay_out(
                        payouts@,
                        k as int,
                    ) + if payouts@[k as int].0 != self.custody {
                        payouts@[k as int].1 as int
                    } else {
                        0
                    });
                    assert(crate::batch::spec_sim_balance(sim0, self.ledger, a)
                        == self.spec_pay_bal_at(payouts@, k as int, a));
                    if to != custody {
                        if a != to && a != custody {
                            assert(sim.spec_get(a) == sim0.spec_get(a));
                        }
                    } else {
                        assert(sim.spec_get(a) == sim0.spec_get(a));
                    }
                }
            }
            k = k + 1;
        }
        proof {
            self.lemma_pay_scan_skip(payouts@, n as int);
        }
        // apply pass: every transfer below is known to succeed
        let ghost pre = *self;
        let mut k2: usize = 0;
        while k2 < n
            invariant
                n == payouts@.len(),
                0 <= k2 <= n,
                custody == pre.custody,
                pre == *old(self),
                pre.wf(),
                self.wf(),
                forall|j: int| 0 <= j < n ==> pre.spec_pay_item_err(payouts@, j) is None,
                forall|a: u64| #[trigger]
                    self.ledger.spec_balance(a) == pre.spec_pay_bal_at(payouts@, k2 as int, a),
                *self == (EscrowContract { ledger: self.ledger, ..pre }),
            decreases n - k2,
        {
            let (to, amt) = payouts[k2];
            proof {
                assert(pre.spec_pay_item_err(payouts@, k2 as int) is None);
                assert forall|j: int| 0 <= j < k2 implies (#[trigger] payouts@[j]).1 > 0 by {
                    assert(pre.spec_pay_item_err(payouts@, j) is None);
                }
                pre.lemma_pay_out_le_charge(payouts@, k2 as int);
                pre.lemma_pay_in_custody_zero(payouts@, k2 as int);
            }
            let ok = self.ledger.transfer(custody, to, amt);
            proof {
                assert(ok);
            }
            proof {
                assert forall|a: u64| #[trigger]
                    self.ledger.spec_balance(a) == pre.spec_pay_bal_at(payouts@, k2 + 1, a) by {
                    assert(pre.spec_pay_in(payouts@, k2 + 1, a) == pre.spec_pay_in(
                        payouts@,
                        k2 as int,
                        a,
                    ) + if payouts@[k2 as int].0 == a && a != pre.custody {
                        payouts@[k2 as int].1 as int
                    } else {
                        0
                    });
                    assert(pre.spec_pay_out(payouts@, k2 + 1) == pre.spec_pay_out(
                        payouts@,
                        k2 as int,
                    ) + if payouts@[k2 as int].0 != pre.custody {
                        payouts@[k2 as int].1 as int
                    } else {
                        0
                    });
                }
            }
            k2 = k2 + 1;
        }
        Ok(())
    }
}

} // verus!
