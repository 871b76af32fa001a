//! Role-based access control: which accounts hold which roles. The engine
//! consults this before every privileged operation.

use vstd::prelude::*;

use crate::store::Table;

verus! {

broadcast use vstd::seq_lib::lemma_seq_contains_after_push;

/// The roles the engine distinguishes.
#[derive(Clone, Copy, Debug, PartialEq, Eq, Structural)]
pub enum Role {
    /// Full control: manages roles, configuration, emergency operations.
    Admin,
    /// Day-to-day operations: releases funds, approves refunds and claims.
    Operator,
    /// May pause operations in an emergency.
    Pauser,
    /// Read-only access.
    Viewer,
}

/// The set of roles one account holds.
#[derive(Clone, Copy, Debug, PartialEq, Eq, Structural, Default)]
pub struct RoleSet {
    pub admin: bool,
    pub operator: bool,
    pub pauser: bool,
    pub viewer: bool,
}

impl RoleSet {
    pub open spec fn spec_holds(self, role: Role) -> bool {
        match role {
            Role::Admin => self.admin,
            Role::Operator => self.operator,
            Role::Pauser => self.pauser,
            Role::Viewer => self.viewer,
        }
    }

}

/// The roles a set holds, listed in the fixed Admin, Operator, Pauser,
/// Viewer order.
pub open spec fn spec_role_list(rs: RoleSet) -> Seq<Role> {
    let s0 = Seq::<Role>::empty();
    let s1 = if rs.admin {
        s0.push(Role::Admin)
    } else {
        s0
    };
    let s2 = if rs.operator {
        s1.push(Role::Operator)
    } else {
        s1
    };
    let s3 = if rs.pauser {
        s2.push(Role::Pauser)
    } else {
        s2
    };
    if rs.viewer {
        s3.push(Role::Viewer)
    } else {
        s3
    }
}

/// All role assignments.
pub struct Roles {
    pub assignments: Table<RoleSet>,
}

impl Roles {
    pub open spec fn wf(self) -> bool {
        self.assignments.wf()
    }

    /// The role set assigned to `account`; empty when none was ever granted.
    pub open spec fn spec_role_set(self, account: u64) -> RoleSet {
        match self.assignments.spec_get(account) {
            Some(rs) => rs,
            None => RoleSet { admin: false, operator: false, pauser: false, viewer: false },
        }
    }

    /// Whether `account` holds `role`.
    pub open spec fn spec_has_role(self, account: u64, role: Role) -> bool {
        self.spec_role_set(account).spec_holds(role)
    }

    /// Whether `account` may run day-to-day operations.
    pub open spec fn spec_is_operator(self, account: u64) -> bool {
        self.spec_has_role(account, Role::Admin) || self.spec_has_role(account, Role::Operator)
    }

    /// Whether `account` may pause operations.
    pub open spec fn spec_may_pause(self, account: u64) -> bool {
        self.spec_has_role(account, Role::Admin) || self.spec_has_role(account, Role::Pauser)
    }

    pub fn new() -> (r: Self)
        ensures
            r.wf(),
            forall|a: u64, ro: Role| !r.spec_has_role(a, ro),
    {
        Roles { assignments: Table::new() }
    }

    pub fn has_role(&self, account: u64, role: Role) -> (r: bool)
        requires
            self.wf(),
        ensures
            r == self.spec_has_role(account, role),
    {
        match self.assignments.get(account) {
            Some(rs) => match role {
                Role::Admin => rs.admin,
                Role::Operator => rs.operator,
                Role::Pauser => rs.pauser,
                Role::Viewer => rs.viewer,
            },
            None => false,
        }
    }

    pub fn is_operator(&self, account: u64) -> (r: bool)
        requires
            self.wf(),
        ensures
            r == self.spec_is_operator(account),
    {
        self.has_role(account, Role::Admin) || self.has_role(account, Role::Operator)
    }

    pub fn may_pause(&self, account: u64) -> (r: bool)
        requires
            self.wf(),
        ensures
            r == self.spec_may_pause(account),
    {
        self.has_role(account, Role::Admin) || self.has_role(account, Role::Pauser)
    }

    /// Grants `role` to `account`; every other assignment is untouched.
    pub fn grant(&mut self, account: u64, role: Role)
        requires
            old(self).wf(),
        ensures
            final(self).wf(),
            final(self).spec_has_role(account, role),
            forall|a: u64, ro: Role|
                a != account || ro != role ==> #[trigger] final(self).spec_has_role(a, ro) == old(self).spec_has_role(a, ro),
    {
        let current = match self.assignments.get(account) {
            Some(rs) => *rs,
            None => RoleSet { admin: false, operator: false, pauser: false, viewer: false },
        };
        let updated = match role {
            Role::Admin => RoleSet { admin: true, ..current },
            Role::Operator => RoleSet { operator: true, ..current },
            Role::Pauser => RoleSet { pauser: true, ..current },
            Role::Viewer => RoleSet { viewer: true, ..current },
        };
        self.assignments.insert(account, updated);
    }

    /// Revokes `role` from `account`; every other assignment is untouched.
    pub fn revoke(&mut self, account: u64, role: Role)
        requires
            old(self).wf(),
        ensures
            final(self).wf(),
            !final(self).spec_has_role(account, role),
            forall|a: u64, ro: Role|
                a != account || ro != role ==> #[trigger] final(self).spec_has_role(a, ro) == old(self).spec_has_role(a, ro),
    {
        let current = match self.assignments.get(account) {
            Some(rs) => *rs,
            None => RoleSet { admin: false, operator: false, pauser: false, viewer: false },
        };
        let updated = match role {
            Role::Admin => RoleSet { admin: false, ..current },
            Role::Operator => RoleSet { operator: false, ..current },
            Role::Pauser => RoleSet { pauser: false, ..current },
            Role::Viewer => RoleSet { viewer: false, ..current },
        };
        self.assignments.insert(account, updated);
    }

    /// All roles `account` holds, without duplicates, in the fixed Admin,
    /// Operator, Pauser, Viewer order.
    pub fn get_roles(&self, account: u64) -> (r: Vec<Role>)
        requires
            self.wf(),
        ensures
            r@ =~= spec_role_list(self.spec_role_set(account)),
            forall|ro: Role| r@.contains(ro) == self.spec_has_role(account, ro),
            forall|i: int, j: int| 0 <= i < j < r@.len() ==> r@[i] != r@[j],
    {
        let mut out: Vec<Role> = Vec::new();
        let rs = match self.assignments.get(account) {
            Some(rs) => *rs,
            None => RoleSet { admin: false, operator: false, pauser: false, viewer: false },
        };
        if rs.admin {
            out.push(Role::Admin);
            assert(out@.contains(Role::Admin));
        }
        if rs.operator {
            out.push(Role::Operator);
            assert(out@.contains(Role::Operator));
        }
        assert(rs.admin ==> out@.contains(Role::Admin));
        if rs.pauser {
            out.push(Role::Pauser);
            assert(out@.contains(Role::Pauser));
        }
        assert(rs.admin ==> out@.contains(Role::Admin));
        assert(rs.operator ==> out@.contains(Role::Operator));
        if rs.viewer {
            out.push(Role::Viewer);
            assert(out@.contains(Role::Viewer));
        }
        proof {
            assert(out@ =~= spec_role_list(rs));
            assert(rs.admin ==> out@.contains(Role::Admin));
            assert(rs.operator ==> out@.contains(Role::Operator));
            assert(rs.pauser ==> out@.contains(Role::Pauser));
            assert forall|ro: Role| out@.contains(ro) implies rs.spec_holds(ro) by {
                let i = choose|i: int| 0 <= i < out@.len() && out@[i] == ro;
                assert(rs.spec_holds(out@[i]));
            }
            assert forall|ro: Role| rs.spec_holds(ro) implies out@.contains(ro) by {
                match ro {
                    Role::Admin => {},
                    Role::Operator => {},
                    Role::Pauser => {},
                    Role::Viewer => {},
                }
            }
        }
        out
    }

    /// Whether `account` holds at least one of `required`.
    pub fn has_any_role(&self, account: u64, required: &Vec<Role>) -> (r: bool)
        requires
            self.wf(),
        ensures
            r == exists|i: int|
                0 <= i < required@.len() && self.spec_has_role(account, #[trigger] required@[i]),
    {
        let n = required.len();
        let mut i: usize = 0;
        while i < n
            invariant
                n == required@.len(),
                0 <= i <= n,
                self.wf(),
                forall|j: int| 0 <= j < i ==> !self.spec_has_role(account, #[trigger] required@[j]),
            decreases n - i,
        {
            if self.has_role(account, required[i]) {
                return true;
            }
            i = i + 1;
        }
        false
    }

    /// Whether `account` holds every one of `required`.
    pub fn has_all_roles(&self, account: u64, required: &Vec<Role>) -> (r: bool)
        requires
            self.wf(),
        ensures
            r == forall|i: int|
                0 <= i < required@.len() ==> self.spec_has_role(account, #[trigger] required@[i]),
    {
        let n = required.len();
        let mut i: usize = 0;
        while i < n
            invariant
                n == required@.len(),
                0 <= i <= n,
                self.wf(),
                forall|j: int| 0 <= j < i ==> self.spec_has_role(account, #[trigger] required@[j]),
            decreases n - i,
        {
            if !self.has_role(account, required[i]) {
                return false;
            }
            i = i + 1;
        }
        true
    }
}

} // verus!
