//! Storage versioning and the migration pre-flight check.
//!
//! A migration stages the configuration it would write, validates the staged
//! values, and commits only when every check passes; a failing check leaves
//! the stored state untouched.
use super::{ext_ok, holds, outcome, publish, refuse, Config, ContractView, Outcome, VeroContract};
use crate::events::Effect;
use crate::keymap::{entries_map, keys_unique, list_contains, list_without, without, KeyEq, KeyMap};
use crate::types::{Address, ContractError, Role};
use crate::validation::{valid_external, validate_external_address, validate_weight_threshold, weight_threshold_result};
use vstd::prelude::*;

verus! {

/// The current storage schema version.
pub const CURRENT_VERSION: u32 = 1;

/// Largest fee the pre-flight check accepts, in basis points.
pub const MAX_MIGRATION_FEE_BPS: u32 = 10000;

/// An optional address is absent or acceptable.
pub open spec fn opt_addr_ok(current: Address, a: Option<Address>) -> bool {
    match a {
        Some(x) => valid_external(current, x),
        None => true,
    }
}

/// Outcome of the pre-flight validation of a staged configuration.
pub open spec fn migration_check(current: Address, c: Config) -> Result<(), ContractError> {
    if c.storage_version != CURRENT_VERSION {
        Err(ContractError::InvalidVersion)
    } else if !opt_addr_ok(current, c.admin) || !opt_addr_ok(current, c.token) || !opt_addr_ok(
        current,
        c.vault,
    ) || !opt_addr_ok(current, c.drips) {
        Err(ContractError::InvalidAddress)
    } else if c.weight_threshold is Some && weight_threshold_result(c.weight_threshold->0) is Err {
        weight_threshold_result(c.weight_threshold->0)
    } else if c.fee_bps is Some && c.fee_bps->0 > MAX_MIGRATION_FEE_BPS {
        Err(ContractError::InvalidConfig)
    } else {
        Ok(())
    }
}

/// The migration itself: a no-op when already current, otherwise the staged
/// version bump, committed only if it passes the pre-flight check.
pub open spec fn step_migrate(v: ContractView) -> (ContractView, Outcome) {
    if v.config.storage_version >= CURRENT_VERSION {
        (v, Ok(Seq::empty()))
    } else {
        let staged = Config { storage_version: CURRENT_VERSION, ..v.config };
        match migration_check(v.self_address, staged) {
            Err(e) => refuse(v, e),
            Ok(_) => (ContractView { config: staged, ..v }, Ok(Seq::empty())),
        }
    }
}

/// `migrate_storage`: an `Admin` runs the migration.
pub open spec fn step_migrate_storage(v: ContractView, admin: Address) -> (ContractView, Outcome) {
    if !ext_ok(v, admin) {
        refuse(v, ContractError::InvalidAddress)
    } else if !holds(v, admin, Role::Admin) {
        refuse(v, ContractError::NotAuthorized)
    } else {
        step_migrate(v)
    }
}

fn check_opt_address(current: &Address, a: &Option<Address>) -> (r: Result<(), ContractError>)
    ensures
        r == (if opt_addr_ok(*current, *a) {
            Ok(())
        } else {
            Err(ContractError::InvalidAddress)
        }),
{
    match a {
        Some(x) => validate_external_address(current, x),
        None => Ok(()),
    }
}

impl VeroContract {
    /// The storage version recorded (0 before versioning).
    pub fn get_version(&self) -> (n: u32)
        ensures
            n == self@.config.storage_version,
    {
        self.config.storage_version
    }

    /// The storage version recorded (0 before versioning).
    pub fn get_storage_version(&self) -> (n: u32)
        ensures
            n == self@.config.storage_version,
    {
        self.config.storage_version
    }

    /// Records a storage version.
    pub fn set_version(&mut self, version: u32)
        requires
            old(self).wf(),
        ensures
            final(self).wf(),
            final(self)@ == (ContractView {
                config: Config { storage_version: version, ..old(self)@.config },
                ..old(self)@
            }),
    {
        self.config.storage_version = version;
    }

    /// Whether the stored schema is older than `CURRENT_VERSION`.
    pub fn needs_migration(&self) -> (b: bool)
        ensures
            b == (self@.config.storage_version < CURRENT_VERSION),
    {
        self.config.storage_version < CURRENT_VERSION
    }

    /// Pre-flight check of a staged configuration: current version, valid
    /// addresses, weight threshold in range, fee at most 10000 bps.
    pub fn validate_migration(&self, staged: &Config) -> (r: Result<(), ContractError>)
        ensures
            r == migration_check(self@.self_address, *staged),
    {
        if staged.storage_version != CURRENT_VERSION {
            return Err(ContractError::InvalidVersion);
        }
        check_opt_address(&self.self_address, &staged.admin)?;
        check_opt_address(&self.self_address, &staged.token)?;
        check_opt_address(&self.self_address, &staged.vault)?;
        check_opt_address(&self.self_address, &staged.drips)?;
        if let Some(t) = staged.weight_threshold {
            validate_weight_threshold(t)?;
        }
        if let Some(f) = staged.fee_bps {
            if f > MAX_MIGRATION_FEE_BPS {
                return Err(ContractError::InvalidConfig);
            }
        }
        Ok(())
    }

    /// Brings the storage schema to `CURRENT_VERSION`; idempotent.
    pub fn migrate(&mut self) -> (r: Result<Vec<Effect>, ContractError>)
        requires
            old(self).wf(),
        ensures
            final(self).wf(),
            step_migrate(old(self)@) == (final(self)@, outcome(r)),
    {
        if self.config.storage_version >= CURRENT_VERSION {
            return Ok(Vec::new());
        }
        let staged = Config { storage_version: CURRENT_VERSION, ..self.config };
        self.validate_migration(&staged)?;
        self.config = staged;
        Ok(Vec::new())
    }

    /// Runs the migration. Requires `Admin`.
    pub fn migrate_storage(&mut self, admin: Address) -> (r: Result<Vec<Effect>, ContractError>)
        requires
            old(self).wf(),
        ensures
            final(self).wf(),
            step_migrate_storage(old(self)@, admin) == (final(self)@, outcome(r)),
    {
        self.check_external(&admin)?;
        self.check_role(&admin, Role::Admin)?;
        self.migrate()
    }
}

/// What reading `key` through a cache with staged `updates` and `removals`
/// gives, when storage holds `stored` under it.
pub open spec fn cache_read<K, V>(updates: Map<K, V>, removals: Seq<K>, key: K, stored: Option<V>) -> Option<V> {
    if removals.contains(key) {
        None
    } else if updates.contains_key(key) {
        Some(updates[key])
    } else {
        stored
    }
}

/// Writes and removals staged during a migration dry run, committed to
/// storage only once the migration validates.
pub struct MigrationCache<K, V> {
    updates: KeyMap<K, V>,
    removals: Vec<K>,
}

impl<K, V> MigrationCache<K, V> {
    /// The staged writes.
    pub closed spec fn updates(&self) -> Map<K, V> {
        self.updates@
    }

    /// The staged removals, in the order they were staged.
    pub closed spec fn removals(&self) -> Seq<K> {
        self.removals@
    }

    /// An empty cache.
    pub fn new() -> (c: Self)
        ensures
            c.updates() == Map::<K, V>::empty(),
            c.removals() == Seq::<K>::empty(),
    {
        MigrationCache { updates: KeyMap::new(), removals: Vec::new() }
    }
}

impl<K: KeyEq + Copy, V: Copy> MigrationCache<K, V> {
    /// Reads `key` through the cache: nothing when its removal is staged,
    /// the staged value when one is, and otherwise `stored`, the value
    /// storage holds under `key`.
    pub fn get(&self, key: &K, stored: Option<V>) -> (r: Option<V>)
        ensures
            r == cache_read(self.updates(), self.removals(), *key, stored),
    {
        if self.has_removal(key) {
            return None;
        }
        match self.updates.get(key) {
            Some(v) => Some(*v),
            None => stored,
        }
    }

    /// Stages a write of `value` under `key`, dropping a staged removal.
    pub fn set(&mut self, key: K, value: V)
        ensures
            final(self).updates() == old(self).updates().insert(key, value),
            final(self).removals() == without(old(self).removals(), key),
    {
        self.remove_from_removals(&key);
        self.updates.insert(key, value);
    }

    /// Stages the removal of `key`, dropping a staged write.
    pub fn remove(&mut self, key: &K)
        ensures
            final(self).updates() == old(self).updates().remove(*key),
            final(self).removals() == if old(self).removals().contains(*key) {
                old(self).removals()
            } else {
                old(self).removals().push(*key)
            },
    {
        self.updates.remove(key);
        if !self.has_removal(key) {
            self.removals.push(*key);
        }
    }

    /// Whether the removal of `key` is staged.
    pub fn has_removal(&self, key: &K) -> (b: bool)
        ensures
            b == self.removals().contains(*key),
    {
        list_contains(&self.removals, key)
    }

    /// Drops a staged removal of `key`, keeping the others in order.
    pub fn remove_from_removals(&mut self, key: &K)
        ensures
            final(self).updates() == old(self).updates(),
            final(self).removals() == without(old(self).removals(), *key),
    {
        self.removals = list_without(&self.removals, key);
    }

    /// The storage operations a commit performs: the staged removals, then
    /// the staged writes, each key once.
    pub fn commit(&self) -> (r: (Vec<K>, Vec<(K, V)>))
        ensures
            r.0@ == self.removals(),
            keys_unique(r.1@),
            entries_map(r.1@) == self.updates(),
    {
        (crate::keymap::copy_list(&self.removals), self.updates.to_entries())
    }
}

/// Reading back through the cache gives what was last staged: a write's
/// value, or nothing after a removal; other keys read as before.
pub proof fn law_cache_reads_back<K, V>(
    updates: Map<K, V>,
    removals: Seq<K>,
    key: K,
    value: V,
    other: K,
    stored: Option<V>,
)
    requires
        other != key,
    ensures
        cache_read(updates.insert(key, value), without(removals, key), key, stored) == Some(value),
        cache_read(updates.remove(key), removals.push(key), key, stored) is None,
        cache_read(updates.insert(key, value), without(removals, key), other, stored)
            == cache_read(updates, removals, other, stored),
        cache_read(updates.remove(key), removals.push(key), other, stored) == cache_read(
            updates,
            removals,
            other,
            stored,
        ),
{
    let pred = |y: K| y != key;
    let w = without(removals, key);
    assert(w == removals.filter(pred));
    assert(!w.contains(key)) by {
        if w.contains(key) {
            let j = choose|j: int| 0 <= j < w.len() && w[j] == key;
            removals.lemma_filter_pred(pred, j);
        }
    }
    assert(w.contains(other) == removals.contains(other)) by {
        if removals.contains(other) {
            let i = choose|i: int| 0 <= i < removals.len() && removals[i] == other;
            removals.lemma_filter_contains(pred, i);
        }
        if w.contains(other) {
            removals.lemma_filter_contains_rev(pred, other);
        }
    }
    assert(removals.push(key).contains(key)) by {
        assert(removals.push(key)[removals.len() as int] == key);
    }
    assert(removals.push(key).contains(other) == removals.contains(other)) by {
        if removals.contains(other) {
            let i = choose|i: int| 0 <= i < removals.len() && removals[i] == other;
            assert(removals.push(key)[i] == other);
        }
    }
}

} // verus!
