//! What the contract publishes and asks the ledger to do.
//!
//! Entry points return their outward effects in order: events to publish,
//! token transfers, the vault release call and code upgrades. The caller
//! carries them out on the ledger.
use crate::types::{Address, Role, WasmHash};
use vstd::prelude::*;

verus! {

/// A contract event.
#[allow(inconsistent_fields)]
#[derive(Clone, Copy, Debug, PartialEq, Eq, Structural)]
pub enum Event {
    /// A task reached consensus (topic `resolved`), full `u64` values.
    TaskResolved { task_id: u64, total_weight: u64 },
    /// A guardian cast a weighted vote (topic `wt_vote`).
    WeightedVote { guardian: Address, task_id: u64, weight: u64 },
    /// The pause flag changed (topic `paused`).
    PauseToggled { paused: bool },
    RewardStreamStarted { task_id: u64, contributor: Address },
    RewardStreamFailed { task_id: u64, contributor: Address },
    /// The circuit breaker paused the contract (topic `cb_trip`).
    CircuitBreakerTriggered { failure_count: u32 },
    /// A failure report was accepted (topic `cb_report`).
    FailureReported { reporter: Address, failure_count: u32 },
    /// Trusted-reporters-only mode was set (topic `cb_trust`).
    TrustedReportersOnlySet { admin: Address, enabled: bool },
    RoleGranted { caller: Address, target: Address, role: Role },
    RoleRevoked { caller: Address, target: Address, role: Role },
    TaskCancelled { task_id: u64 },
    TaskPurged { task_id: u64 },
    ContractInitialized { admin: Address },
    GuardianAdded { admin: Address, guardian: Address },
    GuardianRemoved { admin: Address, guardian: Address },
    ReputationSet { admin: Address, guardian: Address, score: u64 },
    TokensLocked { guardian: Address, amount: i128 },
    TimelockStarted { guardian: Address },
    TokensUnlocked { guardian: Address, amount: i128 },
    EmergencyRecovery { admin: Address, recipient: Address, amount: i128 },
    GuardianResigned { guardian: Address },
    ThresholdSet { admin: Address, threshold: u64 },
    VaultSet { admin: Address, vault: Address },
    TaskRegistered { admin: Address, task_id: u64 },
    TaskArchived { task_id: u64 },
    CircuitBreakerReset { admin: Address },
    ContractUpgraded { admin: Address, wasm_hash: WasmHash },
    UpgradeSignersSet { signer_count: u32, threshold: u32 },
    UpgradeProposed { signer: Address },
    UpgradeApproved { signer: Address, count: u32, threshold: u32 },
    UpgradeExecuted,
    UpgradeCancelled,
    SnapshotRecorded { timestamp: u64 },
    /// The vault accepted a release request.
    VaultReleaseSucceeded { task_id: u64 },
    /// The vault rejected a release request; resolution stands regardless.
    VaultReleaseFailed { task_id: u64 },
}

/// An outward effect of an entry point.
#[derive(Clone, Copy, Debug, PartialEq, Eq, Structural)]
pub enum Effect {
    /// Publish an event.
    Publish(Event),
    /// Move `amount` of `token` from `from` to `to`; a failed transfer
    /// aborts the whole invocation.
    Transfer { token: Address, from: Address, to: Address, amount: i128 },
    /// Ask the vault to release escrowed funds for a resolved task; its
    /// failure does not abort the invocation and is reported with
    /// `VaultReleaseSucceeded` or `VaultReleaseFailed`.
    ReleaseVault { vault: Address, task_id: u64 },
    /// Replace the contract's code with the given WASM.
    UpdateWasm { wasm_hash: WasmHash },
}

} // verus!
