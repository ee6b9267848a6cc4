//! Role-based access control.
use super::{ext_ok, holds, outcome, publish, refuse, ContractView, Outcome, VeroContract};
use crate::events::{Effect, Event};
use crate::types::{Address, ContractError, Role, RoleKey};
use vstd::prelude::*;

verus! {

/// Number of `role` holders the lockout check can see: the stored admin
/// (if it holds the role) plus every registered guardian holding it.
pub open spec fn holder_count(v: ContractView, role: Role) -> int {
    (if v.config.admin is Some && holds(v, v.config.admin->0, role) {
        1int
    } else {
        0int
    }) + v.guardians.filter(|g: Address| holds(v, g, role)).len()
}

/// The last-admin check of an accepted `Admin` caller counts more holders
/// than a `u32` holds.
pub open spec fn core_revoke_aborts(v: ContractView, caller: Address, role: Role) -> bool {
    holds(v, caller, Role::Admin) && role == Role::Admin && holder_count(v, Role::Admin) > u32::MAX
}

/// `revoke_role` with acceptable addresses reaches an overflowing
/// last-admin count.
pub open spec fn revoke_aborts(v: ContractView, caller: Address, target: Address, role: Role) -> bool {
    ext_ok(v, caller) && ext_ok(v, target) && core_revoke_aborts(v, caller, role)
}

/// Granting after the address checks: an `Admin` grants `role` to `target`.
pub open spec fn grant_role_core(v: ContractView, caller: Address, target: Address, role: Role) -> (
    ContractView,
    Outcome,
) {
    if !holds(v, caller, Role::Admin) {
        refuse(v, ContractError::NotAuthorized)
    } else {
        (
            ContractView { roles: v.roles.insert(RoleKey { address: target, role }), ..v },
            Ok(publish(Event::RoleGranted { caller, target, role })),
        )
    }
}

/// Revoking after the address checks: an `Admin` revokes `role` from
/// `target`; revoking `Admin` is refused while at most one holder is
/// visible.
pub open spec fn revoke_role_core(v: ContractView, caller: Address, target: Address, role: Role) -> (
    ContractView,
    Outcome,
) {
    if !holds(v, caller, Role::Admin) {
        refuse(v, ContractError::NotAuthorized)
    } else if role == Role::Admin && holder_count(v, Role::Admin) <= 1 {
        refuse(v, ContractError::LastAdminRemovalBlocked)
    } else {
        (
            ContractView { roles: v.roles.remove(RoleKey { address: target, role }), ..v },
            Ok(publish(Event::RoleRevoked { caller, target, role })),
        )
    }
}

/// `grant_role`: both addresses acceptable, then `grant_role_core`.
pub open spec fn step_grant_role(v: ContractView, caller: Address, target: Address, role: Role) -> (
    ContractView,
    Outcome,
) {
    if !ext_ok(v, caller) || !ext_ok(v, target) {
        refuse(v, ContractError::InvalidAddress)
    } else {
        grant_role_core(v, caller, target, role)
    }
}

/// `revoke_role`: both addresses acceptable, then `revoke_role_core`.
pub open spec fn step_revoke_role(v: ContractView, caller: Address, target: Address, role: Role) -> (
    ContractView,
    Outcome,
) {
    if !ext_ok(v, caller) || !ext_ok(v, target) {
        refuse(v, ContractError::InvalidAddress)
    } else {
        revoke_role_core(v, caller, target, role)
    }
}

impl VeroContract {
    /// Whether `address` holds `role`.
    pub fn has_role(&self, address: Address, role: Role) -> (b: bool)
        ensures
            b == holds(self@, address, role),
    {
        self.holds_role(&address, role)
    }

    /// Rejects `caller` with `NotAuthorized` unless it holds `role`.
    pub fn require_role(&self, caller: Address, role: Role) -> (r: Result<(), ContractError>)
        ensures
            r == (if holds(self@, caller, role) {
                Ok(())
            } else {
                Err(ContractError::NotAuthorized)
            }),
    {
        self.check_role(&caller, role)
    }

    /// The number of visible `role` holders, counted wide enough for every
    /// registry size.
    fn holder_count_wide(&self, role: Role) -> (n: u64)
        requires
            self.wf(),
        ensures
            n == holder_count(self@, role),
    {
        let ghost pred = |g: Address| holds(self@, g, role);
        let mut count: u64 = 0;
        if let Some(admin) = self.config.admin {
            if self.holds_role(&admin, role) {
                count = 1;
            }
        }
        let ghost base = count as int;
        let mut i: usize = 0;
        while i < self.guardians.len()
            invariant
                i <= self.guardians@.len(),
                self.guardians@.len() <= u32::MAX,
                base <= 1,
                count == base + self.guardians@.subrange(0, i as int).filter(pred).len(),
                pred == (|g: Address| holds(self@, g, role)),
            decreases self.guardians@.len() - i,
        {
            proof {
                let s = self.guardians@.subrange(0, i as int + 1);
                assert(s.drop_last() =~= self.guardians@.subrange(0, i as int));
                reveal(Seq::filter);
                self.guardians@.subrange(0, i as int).lemma_filter_len(pred);
            }
            if self.holds_role(&self.guardians[i], role) {
                count = count + 1;
            }
            i += 1;
        }
        assert(self.guardians@.subrange(0, self.guardians@.len() as int) =~= self.guardians@);
        count
    }

    /// Counts the holders of `role` among the stored admin and the
    /// registered guardians; the count must fit in a `u32`.
    pub fn count_role_holders(&self, role: Role) -> (n: u32)
        requires
            self.wf(),
            holder_count(self@, role) <= u32::MAX,
        ensures
            n == holder_count(self@, role),
    {
        let n = self.holder_count_wide(role);
        n as u32
    }

    /// Whether revoking `role` from `target` would overflow the `u32`
    /// holder count of the last-admin check.
    pub fn revoke_role_aborts(&self, caller: Address, target: Address, role: Role) -> (b: bool)
        requires
            self.wf(),
        ensures
            b == revoke_aborts(self@, caller, target, role),
    {
        if self.check_external(&caller).is_err() || self.check_external(&target).is_err() {
            return false;
        }
        if !self.holds_role(&caller, Role::Admin) || role != Role::Admin {
            return false;
        }
        self.holder_count_wide(Role::Admin) > u32::MAX as u64
    }

    /// Grants `role` to `target` once the addresses are checked. Requires
    /// `Admin`.
    pub fn grant_role_internal(&mut self, caller: Address, target: Address, role: Role) -> (r:
        Result<Vec<Effect>, ContractError>)
        requires
            old(self).wf(),
        ensures
            final(self).wf(),
            grant_role_core(old(self)@, caller, target, role) == (final(self)@, outcome(r)),
    {
        self.check_role(&caller, Role::Admin)?;
        self.roles.insert(RoleKey { address: target, role }, ());
        let mut fx: Vec<Effect> = Vec::new();
        fx.push(Effect::Publish(Event::RoleGranted { caller, target, role }));
        proof {
            assert(self@.roles =~= old(self)@.roles.insert(RoleKey { address: target, role }));
            assert(self@ == ContractView { roles: self@.roles, ..old(self)@ });
            assert(fx@ =~= publish(Event::RoleGranted { caller, target, role }));
        }
        Ok(fx)
    }

    /// Grants `role` to `target`. Requires `Admin`.
    pub fn grant_role(&mut self, caller: Address, target: Address, role: Role) -> (r: Result<
        Vec<Effect>,
        ContractError,
    >)
        requires
            old(self).wf(),
        ensures
            final(self).wf(),
            step_grant_role(old(self)@, caller, target, role) == (final(self)@, outcome(r)),
    {
        self.check_external(&caller)?;
        self.check_external(&target)?;
        self.grant_role_internal(caller, target, role)
    }

    /// Revokes `role` from `target` once the addresses are checked. Requires
    /// `Admin`; the last visible `Admin` cannot be revoked.
    pub fn revoke_role_internal(&mut self, caller: Address, target: Address, role: Role) -> (r:
        Result<Vec<Effect>, ContractError>)
        requires
            old(self).wf(),
            !core_revoke_aborts(old(self)@, caller, role),
        ensures
            final(self).wf(),
            revoke_role_core(old(self)@, caller, target, role) == (final(self)@, outcome(r)),
    {
        self.check_role(&caller, Role::Admin)?;
        if role == Role::Admin {
            let n = self.count_role_holders(Role::Admin);
            if n <= 1 {
                return Err(ContractError::LastAdminRemovalBlocked);
            }
        }
        self.roles.remove(&RoleKey { address: target, role });
        let mut fx: Vec<Effect> = Vec::new();
        fx.push(Effect::Publish(Event::RoleRevoked { caller, target, role }));
        proof {
            assert(self@.roles =~= old(self)@.roles.remove(RoleKey { address: target, role }));
            assert(fx@ =~= publish(Event::RoleRevoked { caller, target, role }));
        }
        Ok(fx)
    }

    /// Revokes `role` from `target`. Requires `Admin`; the last visible
    /// `Admin` cannot be revoked.
    pub fn revoke_role(&mut self, caller: Address, target: Address, role: Role) -> (r: Result<
        Vec<Effect>,
        ContractError,
    >)
        requires
            old(self).wf(),
            !revoke_aborts(old(self)@, caller, target, role),
        ensures
            final(self).wf(),
            step_revoke_role(old(self)@, caller, target, role) == (final(self)@, outcome(r)),
    {
        self.check_external(&caller)?;
        self.check_external(&target)?;
        self.revoke_role_internal(caller, target, role)
    }
}

} // verus!
