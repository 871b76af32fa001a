//! Administrative operations: role management, the rate-limit whitelist,
//! and the anti-abuse configuration.

use vstd::prelude::*;

use crate::engine::BountyEscrow;
use crate::errors::Error;
use crate::rbac::Role;
use crate::types::RateLimitConfig;

verus! {

impl BountyEscrow {
    /// Grants `role` to `account`. Admin only.
    pub fn grant_role(&mut self, caller: u64, account: u64, role: Role) -> (r: Result<(), Error>)
        requires
            old(self).wf(),
        ensures
            final(self).wf(),
            r is Ok <==> old(self).roles.spec_has_role(caller, Role::Admin),
            r is Err ==> r == Err::<(), Error>(Error::Unauthorized) && *final(self) == *old(self),
            r is Ok ==> {
                &&& final(self).roles.spec_has_role(account, role)
                &&& forall|a: u64, ro: Role|
                    a != account || ro != role ==> #[trigger] final(self).roles.spec_has_role(
                        a,
                        ro,
                    ) == old(self).roles.spec_has_role(a, ro)
                &&& *final(self) == (BountyEscrow { roles: final(self).roles, ..*old(self) })
            },
    {
        if !self.roles.has_role(caller, Role::Admin) {
            return Err(Error::Unauthorized);
        }
        self.roles.grant(account, role);
        Ok(())
    }

    /// Revokes `role` from `account`. Admin only.
    pub fn revoke_role(&mut self, caller: u64, account: u64, role: Role) -> (r: Result<(), Error>)
        requires
            old(self).wf(),
        ensures
            final(self).wf(),
            r is Ok <==> old(self).roles.spec_has_role(caller, Role::Admin),
            r is Err ==> r == Err::<(), Error>(Error::Unauthorized) && *final(self) == *old(self),
            r is Ok ==> {
                &&& !final(self).roles.spec_has_role(account, role)
                &&& forall|a: u64, ro: Role|
                    a != account || ro != role ==> #[trigger] final(self).roles.spec_has_role(
                        a,
                        ro,
                    ) == old(self).roles.spec_has_role(a, ro)
                &&& *final(self) == (BountyEscrow { roles: final(self).roles, ..*old(self) })
            },
    {
        if !self.roles.has_role(caller, Role::Admin) {
            return Err(Error::Unauthorized);
        }
        self.roles.revoke(account, role);
        Ok(())
    }

    /// Whether `account` holds `role`.
    pub fn has_role(&self, account: u64, role: Role) -> (r: bool)
        requires
            self.wf(),
        ensures
            r == self.roles.spec_has_role(account, role),
    {
        self.roles.has_role(account, role)
    }

    /// All roles `account` holds, in the fixed Admin, Operator, Pauser,
    /// Viewer order.
    pub fn get_roles(&self, account: u64) -> (r: Vec<Role>)
        requires
            self.wf(),
        ensures
            r@ =~= crate::rbac::spec_role_list(self.roles.spec_role_set(account)),
            forall|ro: Role| r@.contains(ro) == self.roles.spec_has_role(account, ro),
            forall|i: int, j: int| 0 <= i < j < r@.len() ==> r@[i] != r@[j],
    {
        self.roles.get_roles(account)
    }

    /// Adds `account` to (or removes it from) the rate-limit whitelist.
    /// Admin only.
    pub fn set_whitelist(&mut self, caller: u64, account: u64, allowed: bool) -> (r: Result<
        (),
        Error,
    >)
        requires
            old(self).wf(),
        ensures
            final(self).wf(),
            r is Ok <==> old(self).roles.spec_has_role(caller, Role::Admin),
            r is Err ==> r == Err::<(), Error>(Error::Unauthorized) && *final(self) == *old(self),
            r is Ok ==> {
                &&& final(self).spec_whitelisted(account) == allowed
                &&& forall|a: u64|
                    a != account ==> #[trigger] final(self).spec_whitelisted(a) == old(self).spec_whitelisted(a)
                &&& *final(self) == (BountyEscrow { whitelist: final(self).whitelist, ..*old(self) })
            },
    {
        if !self.roles.has_role(caller, Role::Admin) {
            return Err(Error::Unauthorized);
        }
        self.whitelist.insert(account, allowed);
        Ok(())
    }

    /// Whether `account` bypasses the rate limiter.
    pub fn is_whitelisted(&self, account: u64) -> (r: bool)
        requires
            self.wf(),
        ensures
            r == self.spec_whitelisted(account),
    {
        match self.whitelist.get(account) {
            Some(b) => *b,
            None => false,
        }
    }

    /// The anti-abuse settings in force.
    pub fn get_config(&self) -> (r: RateLimitConfig)
        ensures
            r == self.rate_config,
    {
        self.rate_config
    }

    /// Replaces the anti-abuse settings. Admin only.
    pub fn set_rate_limit_config(&mut self, caller: u64, config: RateLimitConfig) -> (r: Result<
        (),
        Error,
    >)
        requires
            old(self).wf(),
        ensures
            final(self).wf(),
            r is Ok <==> old(self).roles.spec_has_role(caller, Role::Admin),
            r is Err ==> r == Err::<(), Error>(Error::Unauthorized) && *final(self) == *old(self),
            r is Ok ==> *final(self) == (BountyEscrow { rate_config: config, ..*old(self) }),
    {
        if !self.roles.has_role(caller, Role::Admin) {
            return Err(Error::Unauthorized);
        }
        self.rate_config = config;
        Ok(())
    }
}

} // verus!
