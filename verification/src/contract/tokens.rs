//! Token escrow: locking, the withdrawal timelock, unlocking, resignation
//! and emergency recovery.
//!
//! Every movement of tokens is an outward `Transfer` effect; a transfer the
//! token contract refuses aborts the whole invocation. When a fee rate and
//! a treasury are set, the protocol fee (`amount * fee_bps / 10000`,
//! truncated) goes to the treasury on the way in and on the way out.
use super::guardians::deregistered;
use super::voting::locked_balance;
use super::{ext_ok, holds, outcome, publish, refuse, ContractView, Outcome, VeroContract};
use crate::events::{Effect, Event};
use crate::limits::WITHDRAWAL_DELAY_SECONDS;
use crate::types::{Address, ContractError, Role};
use crate::validation::{token_amount_result, validate_token_amount};
use vstd::prelude::*;

verus! {

/// The fee rate in force (none set counts as zero).
pub open spec fn fee_bps_of(v: ContractView) -> u32 {
    match v.config.fee_bps {
        Some(b) => b,
        None => 0,
    }
}

/// `amount * fee_bps` fits in an `i128` wherever it is computed.
pub open spec fn fee_fits(v: ContractView, amount: i128) -> bool {
    fee_bps_of(v) == 0 || i128::MIN <= amount * fee_bps_of(v) <= i128::MAX
}

/// The fee taken from `amount`: positive only when a rate and a treasury
/// are set and the truncated quotient is positive.
pub open spec fn fee_on(v: ContractView, amount: i128) -> int {
    let product = amount * fee_bps_of(v);
    if fee_bps_of(v) > 0 && v.config.treasury is Some && product >= 10000 {
        product / 10000
    } else {
        0
    }
}

/// The transfers that move `amount` of `token` from `from` to `to`, the fee
/// going to the treasury first.
pub open spec fn fee_split(v: ContractView, token: Address, from: Address, to: Address, amount: i128) -> Seq<
    Effect,
> {
    let fee = fee_on(v, amount);
    let fee_fx = match v.config.treasury {
        Some(treasury) => if fee > 0 {
            seq![Effect::Transfer { token, from, to: treasury, amount: fee as i128 }]
        } else {
            Seq::empty()
        },
        None => Seq::empty(),
    };
    fee_fx.push(Effect::Transfer { token, from, to, amount: (amount - fee) as i128 })
}

/// The checks of `lock_tokens`.
pub open spec fn lock_gate(v: ContractView, guardian: Address) -> Option<ContractError> {
    if !ext_ok(v, guardian) {
        Some(ContractError::InvalidAddress)
    } else if v.config.paused {
        Some(ContractError::ContractPaused)
    } else if v.config.token is None {
        Some(ContractError::NotInitialized)
    } else {
        None
    }
}

/// `lock_tokens` overflows `i128` computing the fee or the new balance,
/// which aborts the invocation.
pub open spec fn lock_aborts(v: ContractView, guardian: Address, amount: i128) -> bool {
    lock_gate(v, guardian) is None && (!fee_fits(v, amount) || !(i128::MIN <= locked_balance(
        v,
        guardian,
    ) + amount - fee_on(v, amount) <= i128::MAX))
}

/// `lock_tokens`: escrows `amount` less the fee.
pub open spec fn step_lock_tokens(v: ContractView, guardian: Address, amount: i128) -> (
    ContractView,
    Outcome,
) {
    if let Some(e) = lock_gate(v, guardian) {
        refuse(v, e)
    } else {
        let token = v.config.token->0;
        let net = amount - fee_on(v, amount);
        (
            ContractView {
                balances: v.balances.insert(guardian, (locked_balance(v, guardian) + net) as i128),
                ..v
            },
            Ok(
                fee_split(v, token, guardian, v.self_address, amount).push(
                    Effect::Publish(Event::TokensLocked { guardian, amount }),
                ),
            ),
        )
    }
}

/// `request_unlock`: starts the withdrawal timelock at `now`.
pub open spec fn step_request_unlock(v: ContractView, guardian: Address, now: u64) -> (
    ContractView,
    Outcome,
) {
    if !ext_ok(v, guardian) {
        refuse(v, ContractError::InvalidAddress)
    } else if v.config.paused {
        refuse(v, ContractError::ContractPaused)
    } else {
        (
            ContractView { timelocks: v.timelocks.insert(guardian, now), ..v },
            Ok(publish(Event::TimelockStarted { guardian })),
        )
    }
}

/// The withdrawal delay requested by `guardian` has run out at `now`.
pub open spec fn timelock_expired(v: ContractView, guardian: Address, now: u64) -> bool {
    v.timelocks.contains_key(guardian) && now >= v.timelocks[guardian] && now
        - v.timelocks[guardian] >= WITHDRAWAL_DELAY_SECONDS
}

/// The checks of `unlock_tokens`.
pub open spec fn unlock_gate(v: ContractView, guardian: Address, now: u64) -> Option<ContractError> {
    if !ext_ok(v, guardian) {
        Some(ContractError::InvalidAddress)
    } else if v.config.paused {
        Some(ContractError::ContractPaused)
    } else if v.guardians.contains(guardian) {
        Some(ContractError::StillGuardian)
    } else if !timelock_expired(v, guardian, now) {
        Some(ContractError::WithdrawalTimelockActive)
    } else {
        None
    }
}

/// The checks of `resign_guardian`.
pub open spec fn resign_gate(v: ContractView, guardian: Address, now: u64) -> Option<ContractError> {
    if !ext_ok(v, guardian) {
        Some(ContractError::InvalidAddress)
    } else if v.config.paused {
        Some(ContractError::ContractPaused)
    } else if !v.guardians.contains(guardian) {
        Some(ContractError::NotGuardian)
    } else if !timelock_expired(v, guardian, now) {
        Some(ContractError::WithdrawalTimelockActive)
    } else {
        None
    }
}

/// A withdrawal of the guardian's whole escrow overflows computing the fee.
pub open spec fn payout_aborts(v: ContractView, guardian: Address) -> bool {
    locked_balance(v, guardian) > 0 && v.config.token is Some && !fee_fits(
        v,
        locked_balance(v, guardian),
    )
}

/// Pays the guardian's escrow out (less the fee), clears its balance and
/// timelock, in state `base`; then publishes `done`.
pub open spec fn withdraw(v: ContractView, base: ContractView, guardian: Address, done: Event) -> (
    ContractView,
    Outcome,
) {
    let amount = locked_balance(v, guardian);
    if amount > 0 {
        match v.config.token {
            None => refuse(v, ContractError::NotInitialized),
            Some(token) => (
                ContractView {
                    balances: base.balances.insert(guardian, 0),
                    timelocks: base.timelocks.remove(guardian),
                    ..base
                },
                Ok(fee_split(v, token, v.self_address, guardian, amount).push(Effect::Publish(done))),
            ),
        }
    } else {
        (ContractView { timelocks: base.timelocks.remove(guardian), ..base }, Ok(publish(done)))
    }
}

/// `unlock_tokens`: a non-guardian whose timelock ran out withdraws.
pub open spec fn step_unlock_tokens(v: ContractView, guardian: Address, now: u64) -> (
    ContractView,
    Outcome,
) {
    if let Some(e) = unlock_gate(v, guardian, now) {
        refuse(v, e)
    } else {
        withdraw(
            v,
            v,
            guardian,
            Event::TokensUnlocked { guardian, amount: locked_balance(v, guardian) },
        )
    }
}

/// `resign_guardian`: a guardian whose timelock ran out leaves the registry
/// (its reputation stays) and withdraws.
pub open spec fn step_resign_guardian(v: ContractView, guardian: Address, now: u64) -> (
    ContractView,
    Outcome,
) {
    if let Some(e) = resign_gate(v, guardian, now) {
        refuse(v, e)
    } else {
        withdraw(v, deregistered(v, guardian), guardian, Event::GuardianResigned { guardian })
    }
}

/// `emergency_recover`: moves escrowed tokens out, paused or not.
pub open spec fn step_emergency_recover(
    v: ContractView,
    admin: Address,
    recipient: Address,
    amount: i128,
) -> (ContractView, Outcome) {
    if !ext_ok(v, admin) || !ext_ok(v, recipient) {
        refuse(v, ContractError::InvalidAddress)
    } else if !holds(v, admin, Role::EmergencyManager) {
        refuse(v, ContractError::NotAuthorized)
    } else if let Err(e) = token_amount_result(amount) {
        refuse(v, e)
    } else {
        match v.config.token {
            None => refuse(v, ContractError::NotInitialized),
            Some(token) => (
                v,
                Ok(
                    seq![
                        Effect::Transfer { token, from: v.self_address, to: recipient, amount },
                        Effect::Publish(Event::EmergencyRecovery { admin, recipient, amount }),
                    ],
                ),
            ),
        }
    }
}

impl VeroContract {
    fn fee_rate(&self) -> (b: u32)
        ensures
            b == fee_bps_of(self@),
    {
        match self.config.fee_bps {
            Some(b) => b,
            None => 0,
        }
    }

    /// Whether computing the fee on `amount` overflows `i128`.
    fn fee_overflows(&self, amount: i128) -> (b: bool)
        ensures
            b == !fee_fits(self@, amount),
    {
        let bps = self.fee_rate();
        bps != 0 && amount.checked_mul(bps as i128).is_none()
    }

    fn fee_on(&self, amount: i128) -> (f: i128)
        requires
            fee_fits(self@, amount),
        ensures
            f == fee_on(self@, amount),
            0 <= f <= i128::MAX / 10000,
            f > 0 ==> amount > 0,
    {
        let bps = self.fee_rate();
        if bps == 0 || self.config.treasury.is_none() {
            return 0;
        }
        let product = amount * (bps as i128);
        if product < 10000 {
            return 0;
        }
        assert(amount > 0) by (nonlinear_arith)
            requires
                product == amount * bps,
                product >= 10000,
                bps >= 0,
        ;
        let q = (product as u128) / 10000;
        assert(q == product / 10000);
        q as i128
    }

    fn fee_split(&self, token: Address, from: Address, to: Address, amount: i128) -> (fx: Vec<Effect>)
        requires
            fee_fits(self@, amount),
            i128::MIN <= amount - fee_on(self@, amount),
        ensures
            fx@ == fee_split(self@, token, from, to, amount),
    {
        let fee = self.fee_on(amount);
        let mut fx: Vec<Effect> = Vec::new();
        if fee > 0 {
            match self.config.treasury {
                Some(treasury) => fx.push(Effect::Transfer { token, from, to: treasury, amount: fee }),
                None => {},
            }
        }
        fx.push(Effect::Transfer { token, from, to, amount: amount - fee });
        proof {
            if fee > 0 {
                assert(fx@ =~= fee_split(self@, token, from, to, amount));
            } else {
                assert(fx@ =~= fee_split(self@, token, from, to, amount));
            }
        }
        fx
    }

    fn balance_of(&self, a: &Address) -> (b: i128)
        ensures
            b == locked_balance(self@, *a),
    {
        match self.balances.get(a) {
            Some(b) => *b,
            None => 0,
        }
    }

    /// Whether `lock_tokens` would overflow, which aborts the invocation.
    pub fn lock_tokens_aborts(&self, guardian: Address, amount: i128) -> (b: bool)
        ensures
            b == lock_aborts(self@, guardian, amount),
    {
        if self.check_external(&guardian).is_err() || self.config.paused || self.config.token.is_none() {
            return false;
        }
        if self.fee_overflows(amount) {
            return true;
        }
        let fee = self.fee_on(amount);
        let net = amount - fee;
        self.balance_of(&guardian).checked_add(net).is_none()
    }

    /// Locks `amount` of the contract's token from `guardian`, less the
    /// protocol fee.
    pub fn lock_tokens(&mut self, guardian: Address, amount: i128) -> (r: Result<
        Vec<Effect>,
        ContractError,
    >)
        requires
            old(self).wf(),
            !lock_aborts(old(self)@, guardian, amount),
        ensures
            final(self).wf(),
            step_lock_tokens(old(self)@, guardian, amount) == (final(self)@, outcome(r)),
    {
        self.check_external(&guardian)?;
        self.require_not_paused()?;
        let token = match self.config.token {
            Some(t) => t,
            None => return Err(ContractError::NotInitialized),
        };
        let fee = self.fee_on(amount);
        let net = amount - fee;
        let prev = self.balance_of(&guardian);
        let ghost v = self@;
        let mut fx = self.fee_split(token, guardian, self.self_address, amount);
        self.balances.insert(guardian, prev + net);
        fx.push(Effect::Publish(Event::TokensLocked { guardian, amount }));
        assert(self@ == ContractView {
            balances: v.balances.insert(guardian, (locked_balance(v, guardian) + net) as i128),
            ..v
        });
        Ok(fx)
    }

    /// Starts the withdrawal timelock of `guardian` at ledger time `now`.
    pub fn request_unlock(&mut self, guardian: Address, now: u64) -> (r: Result<
        Vec<Effect>,
        ContractError,
    >)
        requires
            old(self).wf(),
        ensures
            final(self).wf(),
            step_request_unlock(old(self)@, guardian, now) == (final(self)@, outcome(r)),
    {
        self.check_external(&guardian)?;
        self.require_not_paused()?;
        let ghost v = self@;
        self.timelocks.insert(guardian, now);
        let mut fx: Vec<Effect> = Vec::new();
        fx.push(Effect::Publish(Event::TimelockStarted { guardian }));
        assert(fx@ =~= publish(Event::TimelockStarted { guardian }));
        assert(self@ == ContractView { timelocks: v.timelocks.insert(guardian, now), ..v });
        Ok(fx)
    }

    fn timelock_expired(&self, guardian: &Address, now: u64) -> (b: bool)
        ensures
            b == timelock_expired(self@, *guardian, now),
    {
        match self.timelocks.get(guardian) {
            Some(t) => now >= *t && now - *t >= WITHDRAWAL_DELAY_SECONDS,
            None => false,
        }
    }

    /// Pays out the escrow of `guardian` and clears its balance and timelock.
    fn withdraw(&mut self, guardian: Address, done: Event, Ghost(v): Ghost<ContractView>) -> (r: Result<
        Vec<Effect>,
        ContractError,
    >)
        requires
            old(self).wf(),
            !payout_aborts(v, guardian),
            old(self)@.config == v.config,
            old(self)@.self_address == v.self_address,
            locked_balance(old(self)@, guardian) == locked_balance(v, guardian),
        ensures
            r is Ok ==> final(self).wf(),
            r is Err ==> *final(self) == *old(self),
            withdraw(v, old(self)@, guardian, done).1 == outcome(r),
            r is Ok ==> withdraw(v, old(self)@, guardian, done).0 == final(self)@,
    {
        let amount = self.balance_of(&guardian);
        let mut fx: Vec<Effect> = Vec::new();
        if amount > 0 {
            let token = match self.config.token {
                Some(t) => t,
                None => return Err(ContractError::NotInitialized),
            };
            fx = self.fee_split(token, self.self_address, guardian, amount);
            self.balances.insert(guardian, 0);
        }
        self.timelocks.remove(&guardian);
        fx.push(Effect::Publish(done));
        proof {
            if amount <= 0 {
                assert(fx@ =~= publish(done));
            }
        }
        Ok(fx)
    }

    /// Whether `unlock_tokens` would overflow computing the fee, which aborts
    /// the invocation.
    pub fn unlock_tokens_aborts(&self, guardian: Address, now: u64) -> (b: bool)
        ensures
            b == (unlock_gate(self@, guardian, now) is None && payout_aborts(self@, guardian)),
    {
        if self.check_external(&guardian).is_err() || self.config.paused || self.is_guardian(guardian)
            || !self.timelock_expired(&guardian, now) {
            return false;
        }
        let amount = self.balance_of(&guardian);
        amount > 0 && self.config.token.is_some() && self.fee_overflows(amount)
    }

    /// Withdraws the escrow of a former guardian whose timelock ran out,
    /// less the protocol fee.
    pub fn unlock_tokens(&mut self, guardian: Address, now: u64) -> (r: Result<
        Vec<Effect>,
        ContractError,
    >)
        requires
            old(self).wf(),
            !(unlock_gate(old(self)@, guardian, now) is None && payout_aborts(old(self)@, guardian)),
        ensures
            final(self).wf(),
            step_unlock_tokens(old(self)@, guardian, now) == (final(self)@, outcome(r)),
    {
        self.check_external(&guardian)?;
        self.require_not_paused()?;
        if self.is_guardian(guardian) {
            return Err(ContractError::StillGuardian);
        }
        if !self.timelock_expired(&guardian, now) {
            return Err(ContractError::WithdrawalTimelockActive);
        }
        let ghost v = self@;
        let amount = self.balance_of(&guardian);
        self.withdraw(guardian, Event::TokensUnlocked { guardian, amount }, Ghost(v))
    }

    /// Whether `resign_guardian` would overflow computing the fee, which
    /// aborts the invocation.
    pub fn resign_guardian_aborts(&self, guardian: Address, now: u64) -> (b: bool)
        ensures
            b == (resign_gate(self@, guardian, now) is None && payout_aborts(self@, guardian)),
    {
        if self.check_external(&guardian).is_err() || self.config.paused || !self.is_guardian(guardian)
            || !self.timelock_expired(&guardian, now) {
            return false;
        }
        let amount = self.balance_of(&guardian);
        amount > 0 && self.config.token.is_some() && self.fee_overflows(amount)
    }

    /// A guardian whose timelock ran out leaves the registry and withdraws
    /// its escrow, less the protocol fee.
    pub fn resign_guardian(&mut self, guardian: Address, now: u64) -> (r: Result<
        Vec<Effect>,
        ContractError,
    >)
        requires
            old(self).wf(),
            !(resign_gate(old(self)@, guardian, now) is None && payout_aborts(old(self)@, guardian)),
        ensures
            final(self).wf(),
            step_resign_guardian(old(self)@, guardian, now) == (final(self)@, outcome(r)),
    {
        self.check_external(&guardian)?;
        self.require_not_paused()?;
        if !self.is_guardian(guardian) {
            return Err(ContractError::NotGuardian);
        }
        if !self.timelock_expired(&guardian, now) {
            return Err(ContractError::WithdrawalTimelockActive);
        }
        let ghost v = self@;
        if self.balance_of(&guardian) > 0 && self.config.token.is_none() {
            return Err(ContractError::NotInitialized);
        }
        self.deregister_guardian(guardian)?;
        self.withdraw(guardian, Event::GuardianResigned { guardian }, Ghost(v))
    }

    /// Moves `amount` of escrowed tokens to `recipient`; works while paused.
    /// Requires `EmergencyManager`.
    pub fn emergency_recover(&self, admin: Address, recipient: Address, amount: i128) -> (r: Result<
        Vec<Effect>,
        ContractError,
    >)
        ensures
            step_emergency_recover(self@, admin, recipient, amount) == (self@, outcome(r)),
    {
        self.check_external(&admin)?;
        self.check_external(&recipient)?;
        self.check_role(&admin, Role::EmergencyManager)?;
        validate_token_amount(amount)?;
        let token = match self.config.token {
            Some(t) => t,
            None => return Err(ContractError::NotInitialized),
        };
        let mut fx: Vec<Effect> = Vec::new();
        fx.push(Effect::Transfer { token, from: self.self_address, to: recipient, amount });
        fx.push(Effect::Publish(Event::EmergencyRecovery { admin, recipient, amount }));
        assert(fx@ =~= seq![
            Effect::Transfer { token, from: self.self_address, to: recipient, amount },
            Effect::Publish(Event::EmergencyRecovery { admin, recipient, amount }),
        ]);
        Ok(fx)
    }

    /// When `guardian` requested an unlock, if it did.
    pub fn get_withdrawal_timelock(&self, guardian: Address) -> (r: Option<u64>)
        ensures
            r == (if self@.timelocks.contains_key(guardian) {
                Some(self@.timelocks[guardian])
            } else {
                None
            }),
    {
        match self.timelocks.get(&guardian) {
            Some(t) => Some(*t),
            None => None,
        }
    }
}

} // verus!
