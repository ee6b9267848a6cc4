//! Guardian registry and reputation scores.
//!
//! Registered guardians are kept twice: in registration order and in a dense
//! slot index (compacted by swap-remove) that the paginated view reads.
use super::{ext_ok, holds, outcome, publish, refuse, ContractView, Outcome, VeroContract};
use crate::events::{Effect, Event};
use crate::keymap::{
    copy_list, lemma_index_of_unique, lemma_push_unique, lemma_remove_unique,
    lemma_swap_remove_unique, list_contains, list_position, swap_removed,
};
use crate::types::{Address, ContractError, Role};
use crate::validation::{reputation_score_result, validate_reputation_score};
use vstd::prelude::*;

verus! {

/// The checks of the `GuardianManager` entry points: both addresses valid,
/// not paused, role held.
pub open spec fn guardian_gate(v: ContractView, admin: Address, guardian: Address) -> Option<
    ContractError,
> {
    if !ext_ok(v, admin) || !ext_ok(v, guardian) {
        Some(ContractError::InvalidAddress)
    } else if v.config.paused {
        Some(ContractError::ContractPaused)
    } else if !holds(v, admin, Role::GuardianManager) {
        Some(ContractError::NotAuthorized)
    } else {
        None
    }
}

/// The registry with `guardian` taken out of both lists.
pub open spec fn deregistered(v: ContractView, guardian: Address) -> ContractView {
    ContractView {
        guardians: v.guardians.remove(v.guardians.index_of(guardian)),
        guardian_slots: swap_removed(v.guardian_slots, v.guardian_slots.index_of(guardian)),
        ..v
    }
}

/// `add_guardian`.
pub open spec fn step_add_guardian(v: ContractView, admin: Address, guardian: Address) -> (
    ContractView,
    Outcome,
) {
    if let Some(e) = guardian_gate(v, admin, guardian) {
        refuse(v, e)
    } else if v.guardians.contains(guardian) {
        refuse(v, ContractError::DuplicateGuardian)
    } else {
        (
            ContractView {
                guardians: v.guardians.push(guardian),
                guardian_slots: v.guardian_slots.push(guardian),
                ..v
            },
            Ok(publish(Event::GuardianAdded { admin, guardian })),
        )
    }
}

/// `remove_guardian`: deregisters the guardian and drops its reputation.
pub open spec fn step_remove_guardian(v: ContractView, admin: Address, guardian: Address) -> (
    ContractView,
    Outcome,
) {
    if let Some(e) = guardian_gate(v, admin, guardian) {
        refuse(v, e)
    } else if !v.guardians.contains(guardian) {
        refuse(v, ContractError::NotGuardian)
    } else {
        (
            ContractView {
                reputations: v.reputations.remove(guardian),
                ..deregistered(v, guardian)
            },
            Ok(publish(Event::GuardianRemoved { admin, guardian })),
        )
    }
}

/// `set_reputation`: a score in `1..=MAX_REPUTATION_SCORE`.
pub open spec fn step_set_reputation(v: ContractView, admin: Address, guardian: Address, score: u64) -> (
    ContractView,
    Outcome,
) {
    if let Some(e) = guardian_gate(v, admin, guardian) {
        refuse(v, e)
    } else if let Err(e) = reputation_score_result(score) {
        refuse(v, e)
    } else {
        (
            ContractView { reputations: v.reputations.insert(guardian, score), ..v },
            Ok(publish(Event::ReputationSet { admin, guardian, score })),
        )
    }
}

/// A registered guardian's reputation, which is its voting weight.
pub open spec fn voting_power(v: ContractView, guardian: Address) -> Option<u64> {
    if v.guardians.contains(guardian) && v.reputations.contains_key(guardian) {
        Some(v.reputations[guardian])
    } else {
        None
    }
}

impl VeroContract {
    fn guardian_gate(&self, admin: &Address, guardian: &Address) -> (r: Result<(), ContractError>)
        ensures
            r == (match guardian_gate(self@, *admin, *guardian) {
                Some(e) => Err(e),
                None => Ok(()),
            }),
    {
        self.check_external(admin)?;
        self.check_external(guardian)?;
        self.require_not_paused()?;
        self.check_role(admin, Role::GuardianManager)
    }

    /// Takes a guardian out of both registry lists; refused with
    /// `NotGuardian` for an address that is not registered.
    pub fn deregister_guardian(&mut self, guardian: Address) -> (r: Result<(), ContractError>)
        requires
            old(self).wf(),
        ensures
            final(self).wf(),
            r is Err <==> !old(self)@.guardians.contains(guardian),
            r is Err ==> r == Err::<(), ContractError>(ContractError::NotGuardian),
            final(self)@ == if old(self)@.guardians.contains(guardian) {
                deregistered(old(self)@, guardian)
            } else {
                old(self)@
            },
    {
        let ghost v = self@;
        let pos = match list_position(&self.guardians, &guardian) {
            Some(p) => p,
            None => {
                return Err(ContractError::NotGuardian);
            },
        };
        let slot = match list_position(&self.guardian_slots, &guardian) {
            Some(p) => p,
            None => {
                proof {
                    assert(v.guardian_slots.contains(guardian));
                }
                return Err(ContractError::NotGuardian);
            },
        };
        proof {
            lemma_index_of_unique(v.guardians, pos as int);
            lemma_index_of_unique(v.guardian_slots, slot as int);
            lemma_remove_unique(v.guardians, pos as int);
            lemma_swap_remove_unique(v.guardian_slots, slot as int);
        }
        self.guardians.remove(pos);
        self.guardian_slots.swap_remove(slot);
        proof {
            assert forall|x: Address| self@.guardians.contains(x) <==> self@.guardian_slots.contains(
                x,
            ) by {
                assert(v.guardians.contains(x) <==> v.guardian_slots.contains(x));
            }
        }
        Ok(())
    }

    /// Registers `guardian`. Requires `GuardianManager`; refused with
    /// `DuplicateGuardian` for a registered guardian.
    pub fn add_guardian(&mut self, admin: Address, guardian: Address) -> (r: Result<
        Vec<Effect>,
        ContractError,
    >)
        requires
            old(self).wf(),
            old(self)@.guardians.len() < u32::MAX,
        ensures
            final(self).wf(),
            step_add_guardian(old(self)@, admin, guardian) == (final(self)@, outcome(r)),
    {
        self.guardian_gate(&admin, &guardian)?;
        if list_contains(&self.guardians, &guardian) {
            return Err(ContractError::DuplicateGuardian);
        }
        let ghost v = self@;
        proof {
            lemma_push_unique(v.guardians, guardian);
            assert(!v.guardian_slots.contains(guardian));
            lemma_push_unique(v.guardian_slots, guardian);
        }
        self.guardians.push(guardian);
        self.guardian_slots.push(guardian);
        proof {
            assert forall|x: Address| self@.guardians.contains(x) <==> self@.guardian_slots.contains(
                x,
            ) by {
                assert(v.guardians.contains(x) <==> v.guardian_slots.contains(x));
            }
        }
        let mut fx: Vec<Effect> = Vec::new();
        fx.push(Effect::Publish(Event::GuardianAdded { admin, guardian }));
        Ok(fx)
    }

    /// Deregisters `guardian` and drops its reputation. Requires
    /// `GuardianManager`; refused with `NotGuardian` for a non-guardian.
    pub fn remove_guardian(&mut self, admin: Address, guardian: Address) -> (r: Result<
        Vec<Effect>,
        ContractError,
    >)
        requires
            old(self).wf(),
        ensures
            final(self).wf(),
            step_remove_guardian(old(self)@, admin, guardian) == (final(self)@, outcome(r)),
    {
        self.guardian_gate(&admin, &guardian)?;
        if !list_contains(&self.guardians, &guardian) {
            return Err(ContractError::NotGuardian);
        }
        self.deregister_guardian(guardian)?;
        self.reputations.remove(&guardian);
        let mut fx: Vec<Effect> = Vec::new();
        fx.push(Effect::Publish(Event::GuardianRemoved { admin, guardian }));
        Ok(fx)
    }

    /// Whether `guardian` is registered.
    pub fn is_guardian(&self, guardian: Address) -> (b: bool)
        ensures
            b == self@.guardians.contains(guardian),
    {
        list_contains(&self.guardians, &guardian)
    }

    /// Every registered guardian, in registration order.
    pub fn get_all_guardians(&self) -> (r: Vec<Address>)
        ensures
            r@ == self@.guardians,
    {
        copy_list(&self.guardians)
    }

    /// Sets a reputation score in `1..=MAX_REPUTATION_SCORE`. Requires
    /// `GuardianManager`.
    pub fn set_reputation(&mut self, admin: Address, guardian: Address, score: u64) -> (r: Result<
        Vec<Effect>,
        ContractError,
    >)
        requires
            old(self).wf(),
        ensures
            final(self).wf(),
            step_set_reputation(old(self)@, admin, guardian, score) == (final(self)@, outcome(r)),
    {
        self.guardian_gate(&admin, &guardian)?;
        validate_reputation_score(score)?;
        self.reputations.insert(guardian, score);
        let mut fx: Vec<Effect> = Vec::new();
        fx.push(Effect::Publish(Event::ReputationSet { admin, guardian, score }));
        Ok(fx)
    }

    /// The reputation score of `guardian`, if one is set.
    pub fn get_reputation(&self, guardian: Address) -> (r: Option<u64>)
        ensures
            r == (if self@.reputations.contains_key(guardian) {
                Some(self@.reputations[guardian])
            } else {
                None
            }),
    {
        match self.reputations.get(&guardian) {
            Some(s) => Some(*s),
            None => None,
        }
    }

    /// The voting weight of a registered guardian with a reputation.
    pub fn calculate_voting_power(&self, guardian: Address) -> (r: Option<u64>)
        ensures
            r == voting_power(self@, guardian),
    {
        if !self.is_guardian(guardian) {
            return None;
        }
        self.get_reputation(guardian)
    }
}

} // verus!
