//! Initialization, the pause switch and configuration setters.
use super::{ext_ok, holds, outcome, publish, refuse, weight_threshold_of, Config, ContractView, Outcome, VeroContract};
use crate::events::{Effect, Event};
use crate::limits::MAX_FEE_BPS;
use crate::types::{Address, ContractError, Role, RoleKey};
use crate::validation::{
    lock_threshold_result, validate_lock_threshold, validate_weight_threshold,
    weight_threshold_result,
};
use vstd::prelude::*;

verus! {

/// `initialize`: installs the admin (granting it `Admin`), the lock token
/// and the lock threshold, once.
pub open spec fn step_initialize(v: ContractView, admin: Address, token: Address, lock_threshold: i128) -> (
    ContractView,
    Outcome,
) {
    if !ext_ok(v, admin) || !ext_ok(v, token) {
        refuse(v, ContractError::InvalidAddress)
    } else if let Err(e) = lock_threshold_result(lock_threshold) {
        refuse(v, e)
    } else if v.config.initialized {
        refuse(v, ContractError::AlreadyInitialized)
    } else {
        (
            ContractView {
                config: Config {
                    initialized: true,
                    admin: Some(admin),
                    token: Some(token),
                    lock_threshold,
                    paused: false,
                    storage_version: crate::contract::migrate::CURRENT_VERSION,
                    ..v.config
                },
                roles: v.roles.insert(RoleKey { address: admin, role: Role::Admin }),
                ..v
            },
            Ok(publish(Event::ContractInitialized { admin })),
        )
    }
}

/// Setting the pause flag by an `EmergencyManager`, with the event it
/// publishes.
pub open spec fn step_set_paused(v: ContractView, admin: Address, paused: bool) -> (
    ContractView,
    Outcome,
) {
    if !ext_ok(v, admin) {
        refuse(v, ContractError::InvalidAddress)
    } else if !holds(v, admin, Role::EmergencyManager) {
        refuse(v, ContractError::NotAuthorized)
    } else {
        (
            ContractView { config: Config { paused, ..v.config }, ..v },
            Ok(publish(Event::PauseToggled { paused })),
        )
    }
}

/// `toggle_pause`: flips the pause flag.
pub open spec fn step_toggle_pause(v: ContractView, admin: Address) -> (ContractView, Outcome) {
    step_set_paused(v, admin, !v.config.paused)
}

/// The checks shared by the `ConfigManager` setters: valid admin, not
/// paused, role held.
pub open spec fn config_gate(v: ContractView, admin: Address) -> Option<ContractError> {
    if !ext_ok(v, admin) {
        Some(ContractError::InvalidAddress)
    } else if v.config.paused {
        Some(ContractError::ContractPaused)
    } else if !holds(v, admin, Role::ConfigManager) {
        Some(ContractError::NotAuthorized)
    } else {
        None
    }
}

/// `set_weight_threshold`: threshold in `1..=MAX_WEIGHT_THRESHOLD`.
pub open spec fn step_set_weight_threshold(v: ContractView, admin: Address, threshold: u64) -> (
    ContractView,
    Outcome,
) {
    if let Some(e) = config_gate(v, admin) {
        refuse(v, e)
    } else if let Err(e) = weight_threshold_result(threshold) {
        refuse(v, e)
    } else {
        (
            ContractView { config: Config { weight_threshold: Some(threshold), ..v.config }, ..v },
            Ok(publish(Event::ThresholdSet { admin, threshold })),
        )
    }
}

/// `set_vault_address`.
pub open spec fn step_set_vault_address(v: ContractView, admin: Address, vault: Address) -> (
    ContractView,
    Outcome,
) {
    if !ext_ok(v, admin) || !ext_ok(v, vault) {
        refuse(v, ContractError::InvalidAddress)
    } else if let Some(e) = config_gate(v, admin) {
        refuse(v, e)
    } else {
        (
            ContractView { config: Config { vault: Some(vault), ..v.config }, ..v },
            Ok(publish(Event::VaultSet { admin, vault })),
        )
    }
}

/// `set_fee_bps`: at most `MAX_FEE_BPS`; publishes nothing.
pub open spec fn step_set_fee_bps(v: ContractView, admin: Address, bps: u32) -> (
    ContractView,
    Outcome,
) {
    if let Some(e) = config_gate(v, admin) {
        refuse(v, e)
    } else if bps > MAX_FEE_BPS {
        refuse(v, ContractError::InvalidConfig)
    } else {
        (ContractView { config: Config { fee_bps: Some(bps), ..v.config }, ..v }, Ok(Seq::empty()))
    }
}

/// `set_treasury_address`: publishes nothing.
pub open spec fn step_set_treasury_address(v: ContractView, admin: Address, treasury: Address) -> (
    ContractView,
    Outcome,
) {
    if !ext_ok(v, admin) || !ext_ok(v, treasury) {
        refuse(v, ContractError::InvalidAddress)
    } else if let Some(e) = config_gate(v, admin) {
        refuse(v, e)
    } else {
        (
            ContractView { config: Config { treasury: Some(treasury), ..v.config }, ..v },
            Ok(Seq::empty()),
        )
    }
}

impl VeroContract {
    /// Initializes the contract: `admin` becomes administrator (with the
    /// `Admin` role), `token` the lock token, `lock_threshold` the stake a
    /// guardian must exceed to vote. Runs once.
    pub fn initialize(&mut self, admin: Address, token: Address, lock_threshold: i128) -> (r: Result<
        Vec<Effect>,
        ContractError,
    >)
        requires
            old(self).wf(),
        ensures
            final(self).wf(),
            step_initialize(old(self)@, admin, token, lock_threshold) == (final(self)@, outcome(r)),
    {
        self.check_external(&admin)?;
        self.check_external(&token)?;
        validate_lock_threshold(lock_threshold)?;
        if self.config.initialized {
            return Err(ContractError::AlreadyInitialized);
        }
        self.config.initialized = true;
        self.config.admin = Some(admin);
        self.config.token = Some(token);
        self.config.lock_threshold = lock_threshold;
        self.config.paused = false;
        self.config.storage_version = crate::contract::migrate::CURRENT_VERSION;
        self.roles.insert(RoleKey { address: admin, role: Role::Admin }, ());
        let mut fx: Vec<Effect> = Vec::new();
        fx.push(Effect::Publish(Event::ContractInitialized { admin }));
        proof {
            assert(self@.roles =~= old(self)@.roles.insert(RoleKey { address: admin, role: Role::Admin }));
        }
        Ok(fx)
    }

    /// The administrator installed by `initialize`.
    pub fn get_admin(&self) -> (a: Option<Address>)
        ensures
            a == self@.config.admin,
    {
        self.config.admin
    }

    /// Whether the contract is paused.
    pub fn is_paused(&self) -> (b: bool)
        ensures
            b == self@.config.paused,
    {
        self.config.paused
    }

    fn set_paused(&mut self, admin: Address, paused: bool) -> (r: Result<Vec<Effect>, ContractError>)
        requires
            old(self).wf(),
        ensures
            final(self).wf(),
            step_set_paused(old(self)@, admin, paused) == (final(self)@, outcome(r)),
    {
        self.check_external(&admin)?;
        self.check_role(&admin, Role::EmergencyManager)?;
        self.config.paused = paused;
        let mut fx: Vec<Effect> = Vec::new();
        fx.push(Effect::Publish(Event::PauseToggled { paused }));
        Ok(fx)
    }

    /// Flips the pause flag. Requires `EmergencyManager`.
    pub fn toggle_pause(&mut self, admin: Address) -> (r: Result<Vec<Effect>, ContractError>)
        requires
            old(self).wf(),
        ensures
            final(self).wf(),
            step_toggle_pause(old(self)@, admin) == (final(self)@, outcome(r)),
    {
        let now_paused = !self.config.paused;
        self.set_paused(admin, now_paused)
    }

    /// Pauses the contract. Requires `EmergencyManager`.
    pub fn pause(&mut self, admin: Address) -> (r: Result<Vec<Effect>, ContractError>)
        requires
            old(self).wf(),
        ensures
            final(self).wf(),
            step_set_paused(old(self)@, admin, true) == (final(self)@, outcome(r)),
    {
        self.set_paused(admin, true)
    }

    /// Resumes the contract. Requires `EmergencyManager`.
    pub fn unpause(&mut self, admin: Address) -> (r: Result<Vec<Effect>, ContractError>)
        requires
            old(self).wf(),
        ensures
            final(self).wf(),
            step_set_paused(old(self)@, admin, false) == (final(self)@, outcome(r)),
    {
        self.set_paused(admin, false)
    }

    fn config_gate(&self, admin: &Address) -> (r: Result<(), ContractError>)
        ensures
            r == (match config_gate(self@, *admin) {
                Some(e) => Err(e),
                None => Ok(()),
            }),
    {
        self.check_external(admin)?;
        self.require_not_paused()?;
        self.check_role(admin, Role::ConfigManager)
    }

    /// Sets the weight a task needs to resolve. Requires `ConfigManager`;
    /// the threshold must lie in `1..=MAX_WEIGHT_THRESHOLD`.
    pub fn set_weight_threshold(&mut self, admin: Address, threshold: u64) -> (r: Result<
        Vec<Effect>,
        ContractError,
    >)
        requires
            old(self).wf(),
        ensures
            final(self).wf(),
            step_set_weight_threshold(old(self)@, admin, threshold) == (final(self)@, outcome(r)),
    {
        self.config_gate(&admin)?;
        validate_weight_threshold(threshold)?;
        self.config.weight_threshold = Some(threshold);
        let mut fx: Vec<Effect> = Vec::new();
        fx.push(Effect::Publish(Event::ThresholdSet { admin, threshold }));
        Ok(fx)
    }

    /// The weight threshold in force (300 until one is set).
    pub fn get_weight_threshold(&self) -> (t: u64)
        ensures
            t == weight_threshold_of(self@),
    {
        match self.config.weight_threshold {
            Some(t) => t,
            None => crate::DEFAULT_WEIGHT_THRESHOLD,
        }
    }

    /// Sets the escrow vault. Requires `ConfigManager`.
    pub fn set_vault_address(&mut self, admin: Address, vault: Address) -> (r: Result<
        Vec<Effect>,
        ContractError,
    >)
        requires
            old(self).wf(),
        ensures
            final(self).wf(),
            step_set_vault_address(old(self)@, admin, vault) == (final(self)@, outcome(r)),
    {
        self.check_external(&admin)?;
        self.check_external(&vault)?;
        self.config_gate(&admin)?;
        self.config.vault = Some(vault);
        let mut fx: Vec<Effect> = Vec::new();
        fx.push(Effect::Publish(Event::VaultSet { admin, vault }));
        Ok(fx)
    }

    /// Sets the protocol fee in basis points (at most 1000). Requires
    /// `ConfigManager`.
    pub fn set_fee_bps(&mut self, admin: Address, bps: u32) -> (r: Result<Vec<Effect>, ContractError>)
        requires
            old(self).wf(),
        ensures
            final(self).wf(),
            step_set_fee_bps(old(self)@, admin, bps) == (final(self)@, outcome(r)),
    {
        self.config_gate(&admin)?;
        if bps > MAX_FEE_BPS {
            return Err(ContractError::InvalidConfig);
        }
        self.config.fee_bps = Some(bps);
        Ok(Vec::new())
    }

    /// Sets the fee recipient. Requires `ConfigManager`.
    pub fn set_treasury_address(&mut self, admin: Address, treasury: Address) -> (r: Result<
        Vec<Effect>,
        ContractError,
    >)
        requires
            old(self).wf(),
        ensures
            final(self).wf(),
            step_set_treasury_address(old(self)@, admin, treasury) == (final(self)@, outcome(r)),
    {
        self.check_external(&admin)?;
        self.check_external(&treasury)?;
        self.config_gate(&admin)?;
        self.config.treasury = Some(treasury);
        Ok(Vec::new())
    }
}

} // verus!
