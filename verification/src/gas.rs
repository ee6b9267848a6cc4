//! Instruction-cost estimates for the contract's write operations.
//!
//! Figures follow the metering model: about 500k instructions per
//! invocation, 50k per storage read, 150k per storage write, 30k per event
//! and 500k per cross-contract call; a WASM replacement costs about 2M.
use crate::types::Operation;
use vstd::prelude::*;

verus! {

pub const COST_REGISTER_TASK: u64 = 1_300_000;
pub const COST_VOTE: u64 = 3_200_000;
pub const COST_VOTE_BATCH: u64 = 10_000_000;
pub const COST_ADD_GUARDIAN: u64 = 700_000;
pub const COST_REMOVE_GUARDIAN: u64 = 1_800_000;
pub const COST_SET_REPUTATION: u64 = 700_000;
pub const COST_LOCK_TOKENS: u64 = 5_000_000;
pub const COST_REQUEST_UNLOCK: u64 = 750_000;
pub const COST_UNLOCK_TOKENS: u64 = 5_000_000;
pub const COST_RESIGN_GUARDIAN: u64 = 5_000_000;
pub const COST_SET_WEIGHT_THRESHOLD: u64 = 650_000;
pub const COST_SET_VAULT_ADDRESS: u64 = 800_000;
pub const COST_START_REWARD_STREAM: u64 = 1_500_000;
pub const COST_TOGGLE_PAUSE: u64 = 800_000;
pub const COST_PAUSE: u64 = 750_000;
pub const COST_UNPAUSE: u64 = 750_000;
pub const COST_RECORD_FAILURE: u64 = 1_510_000;
pub const COST_RESET_CIRCUIT_BREAKER: u64 = 2_000_000;
pub const COST_UPGRADE_CONTRACT: u64 = 2_600_000;
pub const COST_RECORD_SNAPSHOT: u64 = 20_000_000;
pub const COST_PURGE_TASK: u64 = 2_000_000;
pub const COST_SET_UPGRADE_SIGNERS: u64 = 1_000_000;
pub const COST_PROPOSE_UPGRADE: u64 = 900_000;
pub const COST_APPROVE_UPGRADE: u64 = 900_000;
pub const COST_EXECUTE_UPGRADE: u64 = 2_700_000;
pub const COST_CANCEL_UPGRADE: u64 = 800_000;
pub const COST_EMERGENCY_RECOVER: u64 = 1_500_000;
pub const COST_SET_FEE_BPS: u64 = 700_000;
pub const COST_SET_TREASURY_ADDRESS: u64 = 700_000;
pub const COST_CANCEL_TASK: u64 = 900_000;

/// Largest summed estimate a single `batch_execute` may carry.
pub const MAX_BATCH_EXECUTE_COST: u64 = 100_000_000;

/// The cost estimate of each operation.
pub open spec fn cost_of(op: Operation) -> u64 {
    match op {
        Operation::RegisterTask => COST_REGISTER_TASK,
        Operation::Vote => COST_VOTE,
        Operation::AddGuardian => COST_ADD_GUARDIAN,
        Operation::SetReputation => COST_SET_REPUTATION,
        Operation::LockTokens => COST_LOCK_TOKENS,
        Operation::UnlockTokens => COST_UNLOCK_TOKENS,
        Operation::ResignGuardian => COST_RESIGN_GUARDIAN,
        Operation::SetWeightThreshold => COST_SET_WEIGHT_THRESHOLD,
        Operation::StartRewardStream => COST_START_REWARD_STREAM,
        Operation::TogglePause => COST_TOGGLE_PAUSE,
        Operation::RecordFailure => COST_RECORD_FAILURE,
        Operation::ResetCircuitBreaker => COST_RESET_CIRCUIT_BREAKER,
        Operation::UpgradeContract => COST_UPGRADE_CONTRACT,
        Operation::RecordSnapshot => COST_RECORD_SNAPSHOT,
        Operation::PurgeTask => COST_PURGE_TASK,
        Operation::VoteBatch => COST_VOTE_BATCH,
        Operation::SetUpgradeSigners => COST_SET_UPGRADE_SIGNERS,
        Operation::ProposeUpgrade => COST_PROPOSE_UPGRADE,
        Operation::ApproveUpgrade => COST_APPROVE_UPGRADE,
        Operation::ExecuteUpgrade => COST_EXECUTE_UPGRADE,
        Operation::CancelUpgrade => COST_CANCEL_UPGRADE,
        Operation::EmergencyRecover => COST_EMERGENCY_RECOVER,
        Operation::SetFeeBps => COST_SET_FEE_BPS,
        Operation::SetTreasuryAddress => COST_SET_TREASURY_ADDRESS,
        Operation::CancelTask => COST_CANCEL_TASK,
        Operation::RemoveGuardian => COST_REMOVE_GUARDIAN,
        Operation::RequestUnlock => COST_REQUEST_UNLOCK,
        Operation::SetVaultAddress => COST_SET_VAULT_ADDRESS,
        Operation::Pause => COST_PAUSE,
        Operation::Unpause => COST_UNPAUSE,
    }
}

/// Returns the estimated instruction cost of an operation.
pub fn get_estimated_cost(op: Operation) -> (c: u64)
    ensures
        c == cost_of(op),
{
    match op {
        Operation::RegisterTask => COST_REGISTER_TASK,
        Operation::Vote => COST_VOTE,
        Operation::AddGuardian => COST_ADD_GUARDIAN,
        Operation::SetReputation => COST_SET_REPUTATION,
        Operation::LockTokens => COST_LOCK_TOKENS,
        Operation::UnlockTokens => COST_UNLOCK_TOKENS,
        Operation::ResignGuardian => COST_RESIGN_GUARDIAN,
        Operation::SetWeightThreshold => COST_SET_WEIGHT_THRESHOLD,
        Operation::StartRewardStream => COST_START_REWARD_STREAM,
        Operation::TogglePause => COST_TOGGLE_PAUSE,
        Operation::RecordFailure => COST_RECORD_FAILURE,
        Operation::ResetCircuitBreaker => COST_RESET_CIRCUIT_BREAKER,
        Operation::UpgradeContract => COST_UPGRADE_CONTRACT,
        Operation::RecordSnapshot => COST_RECORD_SNAPSHOT,
        Operation::PurgeTask => COST_PURGE_TASK,
        Operation::VoteBatch => COST_VOTE_BATCH,
        Operation::SetUpgradeSigners => COST_SET_UPGRADE_SIGNERS,
        Operation::ProposeUpgrade => COST_PROPOSE_UPGRADE,
        Operation::ApproveUpgrade => COST_APPROVE_UPGRADE,
        Operation::ExecuteUpgrade => COST_EXECUTE_UPGRADE,
        Operation::CancelUpgrade => COST_CANCEL_UPGRADE,
        Operation::EmergencyRecover => COST_EMERGENCY_RECOVER,
        Operation::SetFeeBps => COST_SET_FEE_BPS,
        Operation::SetTreasuryAddress => COST_SET_TREASURY_ADDRESS,
        Operation::CancelTask => COST_CANCEL_TASK,
        Operation::RemoveGuardian => COST_REMOVE_GUARDIAN,
        Operation::RequestUnlock => COST_REQUEST_UNLOCK,
        Operation::SetVaultAddress => COST_SET_VAULT_ADDRESS,
        Operation::Pause => COST_PAUSE,
        Operation::Unpause => COST_UNPAUSE,
    }
}

} // verus!
