//! Plain data types of the contract: addresses, roles, errors, tasks,
//! reward streams, snapshots and the batchable call set.
use crate::keymap::KeyEq;
use vstd::prelude::*;

verus! {

/// A Stellar address: an account (ed25519 public key) or a contract (hash),
/// with its 32 key bytes held big-endian in two halves.
///
/// Addresses order first by kind (accounts before contracts) and then by
/// their key bytes, which is how the ledger orders `ScAddress` values.
#[derive(Clone, Copy, Debug, PartialEq, Eq, Hash, Structural)]
pub struct Address {
    pub contract: bool,
    pub hi: u128,
    pub lo: u128,
}

impl KeyEq for Address {
    fn key_eq(&self, other: &Self) -> (b: bool) {
        *self == *other
    }
}

impl Address {
    /// The account address whose public key is all zero bytes.
    pub open spec fn spec_is_zero(&self) -> bool {
        !self.contract && self.hi == 0 && self.lo == 0
    }

    #[verifier::when_used_as_spec(spec_is_zero)]
    pub fn is_zero(&self) -> (b: bool)
        ensures
            b == self.spec_is_zero(),
    {
        !self.contract && self.hi == 0 && self.lo == 0
    }

    /// An account address with the given key halves.
    pub fn account(hi: u128, lo: u128) -> (a: Address)
        ensures
            a == (Address { contract: false, hi, lo }),
    {
        Address { contract: false, hi, lo }
    }

    /// A contract address with the given hash halves.
    pub fn contract(hi: u128, lo: u128) -> (a: Address)
        ensures
            a == (Address { contract: true, hi, lo }),
    {
        Address { contract: true, hi, lo }
    }

    /// The zero account address, `ZERO_ADDRESS_STR` in strkey form.
    pub fn zero() -> (a: Address)
        ensures
            a.spec_is_zero(),
    {
        Address { contract: false, hi: 0, lo: 0 }
    }
}

/// Strict address order: kind first, then key bytes.
pub open spec fn addr_lt(a: Address, b: Address) -> bool {
    ||| (!a.contract && b.contract)
    ||| (a.contract == b.contract && a.hi < b.hi)
    ||| (a.contract == b.contract && a.hi == b.hi && a.lo < b.lo)
}

/// Executable form of [`addr_lt`].
pub fn addr_less(a: &Address, b: &Address) -> (r: bool)
    ensures
        r == addr_lt(*a, *b),
{
    if a.contract != b.contract {
        !a.contract
    } else if a.hi != b.hi {
        a.hi < b.hi
    } else {
        a.lo < b.lo
    }
}

/// A 32-byte WASM code hash, big-endian in two halves.
#[derive(Clone, Copy, Debug, PartialEq, Eq, Hash, Structural)]
pub struct WasmHash {
    pub hi: u128,
    pub lo: u128,
}

/// Role identifiers used by contract-level access control.
#[derive(Clone, Copy, Debug, PartialEq, Eq, PartialOrd, Ord, Hash, Structural)]
pub enum Role {
    Admin,
    GuardianManager,
    TaskManager,
    ConfigManager,
    EmergencyManager,
    TreasuryManager,
}

impl Role {
    /// The numeric code of the role on the ledger.
    pub open spec fn spec_code(&self) -> u32 {
        match self {
            Role::Admin => 1,
            Role::GuardianManager => 2,
            Role::TaskManager => 3,
            Role::ConfigManager => 4,
            Role::EmergencyManager => 5,
            Role::TreasuryManager => 6,
        }
    }

    #[verifier::when_used_as_spec(spec_code)]
    pub fn code(&self) -> (c: u32)
        ensures
            c == self.spec_code(),
    {
        match self {
            Role::Admin => 1,
            Role::GuardianManager => 2,
            Role::TaskManager => 3,
            Role::ConfigManager => 4,
            Role::EmergencyManager => 5,
            Role::TreasuryManager => 6,
        }
    }
}

/// Key of a role assignment: the address holding the role.
#[derive(Clone, Copy, Debug, PartialEq, Eq, Hash, Structural)]
pub struct RoleKey {
    pub address: Address,
    pub role: Role,
}

impl KeyEq for RoleKey {
    fn key_eq(&self, other: &Self) -> (b: bool) {
        *self == *other
    }
}

/// Key of a recorded vote: which guardian voted on which task.
#[derive(Clone, Copy, Debug, PartialEq, Eq, Hash, Structural)]
pub struct VoteKey {
    pub task_id: u64,
    pub guardian: Address,
}

impl KeyEq for VoteKey {
    fn key_eq(&self, other: &Self) -> (b: bool) {
        *self == *other
    }
}

/// Standard contract error codes of the first protocol version.
#[derive(Clone, Copy, Debug, PartialEq, Eq, PartialOrd, Ord, Hash, Structural)]
pub enum Error {
    /// Action requires admin authorization.
    NotAdmin,
    /// Action requires guardian authorization.
    NotGuardian,
    /// The task has already been resolved.
    TaskAlreadyResolved,
    /// A second vote by one guardian on one task.
    DuplicateVote,
}

impl Error {
    pub open spec fn spec_code(&self) -> u32 {
        match self {
            Error::NotAdmin => 1,
            Error::NotGuardian => 2,
            Error::TaskAlreadyResolved => 3,
            Error::DuplicateVote => 4,
        }
    }

    /// The numeric code of the error on the ledger.
    #[verifier::when_used_as_spec(spec_code)]
    pub fn code(&self) -> (c: u32)
        ensures
            c == self.spec_code(),
    {
        match self {
            Error::NotAdmin => 1,
            Error::NotGuardian => 2,
            Error::TaskAlreadyResolved => 3,
            Error::DuplicateVote => 4,
        }
    }
}

/// A request to withdraw locked tokens.
#[derive(Clone, Copy, Debug, PartialEq, Eq, Structural)]
pub struct WithdrawalRequest {
    /// Unique identifier for the withdrawal request.
    pub id: u64,
    /// The recipient address of the withdrawn tokens.
    pub recipient: Address,
    /// The amount of tokens to withdraw.
    pub amount: i128,
    /// The ledger sequence number at which the withdrawal was requested.
    pub requested_at_ledger: u32,
    /// Whether the withdrawal has been executed.
    pub is_executed: bool,
    /// Whether the withdrawal has been cancelled.
    pub is_cancelled: bool,
}

/// A voting task to be resolved by guardians.
#[derive(Clone, Copy, Debug, PartialEq, Eq, Structural)]
pub struct Task {
    /// Unique identifier for the task.
    pub id: u64,
    /// Total number of votes cast.
    pub votes: u32,
    /// Whether the task has been resolved.
    pub is_done: bool,
    /// Timestamp when the task was resolved.
    pub resolved_at: u64,
    /// Cumulative voting weight accrued from guardian votes.
    pub total_weight_accrued: u64,
    /// Whether the task was cancelled.
    pub is_cancelled: bool,
    /// Minimum number of votes before the task may resolve.
    pub min_votes_required: u32,
}

/// A stream set up to distribute rewards for completing a task.
#[derive(Clone, Copy, Debug, PartialEq, Eq, Structural)]
pub struct RewardStream {
    /// The associated task identifier.
    pub task_id: u64,
    /// The contributor address receiving the rewards.
    pub contributor: Address,
    /// The address of the Drips contract.
    pub drips_contract: Address,
    /// Whether the reward stream is active.
    pub active: bool,
}

/// Constant-size snapshot header, with the sizes of the tracked collections.
#[derive(Clone, Copy, Debug, PartialEq, Eq)]
pub struct SnapshotMeta {
    /// Timestamp when the snapshot header was read.
    pub timestamp: u64,
    /// Whether the contract was paused.
    pub paused: bool,
    /// Number of failures recorded in the circuit breaker.
    pub failure_count: u32,
    /// The weight threshold required to resolve a task.
    pub weight_threshold: u64,
    /// The admin address, if set.
    pub admin: Option<Address>,
    /// The vault address, if set.
    pub vault_address: Option<Address>,
    /// The drips contract address, if set.
    pub drips_address: Option<Address>,
    /// Total number of registered guardians.
    pub guardian_count: u32,
    /// Total number of tracked tasks.
    pub task_count: u32,
    /// Total number of tracked reward streams.
    pub reward_stream_count: u32,
}

/// A single page entry returned by `get_guardians_page`.
#[derive(Clone, Copy, Debug, PartialEq, Eq)]
pub struct GuardianEntry {
    /// The guardian's address.
    pub address: Address,
    /// Whether the address is currently a registered guardian.
    pub is_guardian: bool,
    /// The guardian's reputation score, if one has been set.
    pub reputation: Option<u64>,
}

/// A snapshot of the contract state at a point in time. Each map of the
/// ledger representation is held as a list of entries with distinct keys.
#[derive(Clone, Debug)]
pub struct Snapshot {
    /// Timestamp when the snapshot was recorded.
    pub timestamp: u64,
    /// Whether the contract was paused.
    pub paused: bool,
    /// Number of failures recorded in the circuit breaker.
    pub failure_count: u32,
    /// The weight threshold required to resolve a task.
    pub weight_threshold: u64,
    /// The admin address, if set.
    pub admin: Option<Address>,
    /// The vault address, if set.
    pub vault_address: Option<Address>,
    /// The drips contract address, if set.
    pub drips_address: Option<Address>,
    /// Registered guardian addresses with their guardian flag.
    pub guardians: Vec<(Address, bool)>,
    /// Guardian reputation scores.
    pub reputations: Vec<(Address, u64)>,
    /// Task records by id.
    pub tasks: Vec<(u64, Task)>,
    /// Recorded votes as (task id, guardian) pairs.
    pub votes: Vec<VoteKey>,
    /// Reward streams by task id.
    pub reward_streams: Vec<(u64, RewardStream)>,
}

/// Every public write operation of the contract.
#[derive(Clone, Copy, Debug, PartialEq, Eq, Hash, Structural)]
pub enum Operation {
    RegisterTask,
    Vote,
    AddGuardian,
    SetReputation,
    LockTokens,
    UnlockTokens,
    ResignGuardian,
    SetWeightThreshold,
    StartRewardStream,
    TogglePause,
    RecordFailure,
    ResetCircuitBreaker,
    UpgradeContract,
    RecordSnapshot,
    PurgeTask,
    /// `vote_batch` — vote on multiple tasks in one transaction.
    VoteBatch,
    /// `set_upgrade_signers` — configure multi-sig upgrade signers.
    SetUpgradeSigners,
    /// `propose_upgrade` — propose a new upgrade WASM hash.
    ProposeUpgrade,
    /// `approve_upgrade` — approve a pending upgrade.
    ApproveUpgrade,
    /// `execute_upgrade` — execute upgrade once threshold met.
    ExecuteUpgrade,
    /// `cancel_upgrade` — cancel a pending upgrade.
    CancelUpgrade,
    /// `emergency_recover` — emergency token recovery while normal flows are unavailable.
    EmergencyRecover,
    SetFeeBps,
    SetTreasuryAddress,
    /// `cancel_task` — cancel an active task.
    CancelTask,
    /// `remove_guardian` — remove a guardian and its reputation/index entries.
    RemoveGuardian,
    /// `request_unlock` — initiate a timelocked token unlock.
    RequestUnlock,
    /// `set_vault_address` — point the contract at its vault.
    SetVaultAddress,
    /// `pause` — pause the contract.
    Pause,
    /// `unpause` — resume the contract.
    Unpause,
}

/// A single call within a `batch_execute` transaction: the batchable subset
/// of [`Operation`].
#[derive(Clone, Debug)]
pub enum BatchCall {
    RegisterTask(Address, u64, u32),
    CancelTask(Address, u64),
    Vote(Address, u64),
    AddGuardian(Address, Address),
    RemoveGuardian(Address, Address),
    SetReputation(Address, Address, u64),
    LockTokens(Address, i128),
    RequestUnlock(Address),
    UnlockTokens(Address),
    ResignGuardian(Address),
    SetWeightThreshold(Address, u64),
    SetVaultAddress(Address, Address),
    StartRewardStream(Address, Address, Address, u64),
    TogglePause(Address),
    Pause(Address),
    Unpause(Address),
    RecordFailure(Address),
    ResetCircuitBreaker(Address),
    EmergencyRecover(Address, Address, i128),
    /// Set multi-sig upgrade signers and threshold.
    SetUpgradeSigners(Address, Vec<Address>, u32),
    /// Propose a new upgrade WASM hash.
    ProposeUpgrade(Address, WasmHash),
    /// Approve a pending upgrade.
    ApproveUpgrade(Address),
    /// Execute the upgrade once threshold is met.
    ExecuteUpgrade(Address),
    /// Cancel a pending upgrade.
    CancelUpgrade(Address),
    SetFeeBps(Address, u32),
    SetTreasuryAddress(Address, Address),
}

/// The [`Operation`] that a batchable call performs.
pub open spec fn operation_of(call: BatchCall) -> Operation {
    match call {
        BatchCall::RegisterTask(..) => Operation::RegisterTask,
        BatchCall::CancelTask(..) => Operation::CancelTask,
        BatchCall::Vote(..) => Operation::Vote,
        BatchCall::AddGuardian(..) => Operation::AddGuardian,
        BatchCall::RemoveGuardian(..) => Operation::RemoveGuardian,
        BatchCall::SetReputation(..) => Operation::SetReputation,
        BatchCall::LockTokens(..) => Operation::LockTokens,
        BatchCall::RequestUnlock(..) => Operation::RequestUnlock,
        BatchCall::UnlockTokens(..) => Operation::UnlockTokens,
        BatchCall::ResignGuardian(..) => Operation::ResignGuardian,
        BatchCall::SetWeightThreshold(..) => Operation::SetWeightThreshold,
        BatchCall::SetVaultAddress(..) => Operation::SetVaultAddress,
        BatchCall::StartRewardStream(..) => Operation::StartRewardStream,
        BatchCall::TogglePause(..) => Operation::TogglePause,
        BatchCall::Pause(..) => Operation::Pause,
        BatchCall::Unpause(..) => Operation::Unpause,
        BatchCall::RecordFailure(..) => Operation::RecordFailure,
        BatchCall::ResetCircuitBreaker(..) => Operation::ResetCircuitBreaker,
        BatchCall::EmergencyRecover(..) => Operation::EmergencyRecover,
        BatchCall::SetUpgradeSigners(..) => Operation::SetUpgradeSigners,
        BatchCall::ProposeUpgrade(..) => Operation::ProposeUpgrade,
        BatchCall::ApproveUpgrade(..) => Operation::ApproveUpgrade,
        BatchCall::ExecuteUpgrade(..) => Operation::ExecuteUpgrade,
        BatchCall::CancelUpgrade(..) => Operation::CancelUpgrade,
        BatchCall::SetFeeBps(..) => Operation::SetFeeBps,
        BatchCall::SetTreasuryAddress(..) => Operation::SetTreasuryAddress,
    }
}

impl BatchCall {
    /// Returns the [`Operation`] identifier for this batchable call.
    pub fn operation(&self) -> (op: Operation)
        ensures
            op == operation_of(*self),
    {
        match self {
            BatchCall::RegisterTask(..) => Operation::RegisterTask,
            BatchCall::CancelTask(..) => Operation::CancelTask,
            BatchCall::Vote(..) => Operation::Vote,
            BatchCall::AddGuardian(..) => Operation::AddGuardian,
            BatchCall::RemoveGuardian(..) => Operation::RemoveGuardian,
            BatchCall::SetReputation(..) => Operation::SetReputation,
            BatchCall::LockTokens(..) => Operation::LockTokens,
            BatchCall::RequestUnlock(..) => Operation::RequestUnlock,
            BatchCall::UnlockTokens(..) => Operation::UnlockTokens,
            BatchCall::ResignGuardian(..) => Operation::ResignGuardian,
            BatchCall::SetWeightThreshold(..) => Operation::SetWeightThreshold,
            BatchCall::SetVaultAddress(..) => Operation::SetVaultAddress,
            BatchCall::StartRewardStream(..) => Operation::StartRewardStream,
            BatchCall::TogglePause(..) => Operation::TogglePause,
            BatchCall::Pause(..) => Operation::Pause,
            BatchCall::Unpause(..) => Operation::Unpause,
            BatchCall::RecordFailure(..) => Operation::RecordFailure,
            BatchCall::ResetCircuitBreaker(..) => Operation::ResetCircuitBreaker,
            BatchCall::EmergencyRecover(..) => Operation::EmergencyRecover,
            BatchCall::SetUpgradeSigners(..) => Operation::SetUpgradeSigners,
            BatchCall::ProposeUpgrade(..) => Operation::ProposeUpgrade,
            BatchCall::ApproveUpgrade(..) => Operation::ApproveUpgrade,
            BatchCall::ExecuteUpgrade(..) => Operation::ExecuteUpgrade,
            BatchCall::CancelUpgrade(..) => Operation::CancelUpgrade,
            BatchCall::SetFeeBps(..) => Operation::SetFeeBps,
            BatchCall::SetTreasuryAddress(..) => Operation::SetTreasuryAddress,
        }
    }
}

/// Contract error codes returned by entry points.
#[derive(Clone, Copy, Debug, PartialEq, Eq, Hash, Structural)]
pub enum ContractError {
    NotAuthorized,
    DuplicateVote,
    TaskNotVerified,
    StreamAlreadyActive,
    DripsCallFailed,
    Locked,
    AlreadyInitialized,
    NotInitialized,
    InsufficientLockedBalance,
    StillGuardian,
    NotGuardian,
    NoReputationScore,
    ZeroWeightVote,
    WeightOverflow,
    ContractPaused,
    EscrowUnavailable,
    TaskCancelled,
    InvalidAddress,
    InvalidAmount,
    InvalidConfig,
    InvalidRange,
    BatchTooLarge,
    TaskNotFound,
    TaskAlreadyArchived,
    TaskNotStale,
    SnapshotNotFound,
    WithdrawalTimelockActive,
    TaskNotTerminal,
    InsufficientReputation,
    /// Caller is not authorized as a multi-sig upgrade signer.
    NotUpgradeSigner,
    /// Not enough upgrade approvals collected yet.
    UpgradeThresholdNotMet,
    /// No pending upgrade proposal to act on.
    NoPendingUpgrade,
    /// Signer has already approved this upgrade proposal.
    AlreadyApproved,
    /// Invalid multi-sig upgrade configuration (threshold > signers or zero).
    InvalidUpgradeConfig,
    /// Cannot revoke the last remaining Admin role holder (would cause lockout).
    LastAdminRemovalBlocked,
    /// Attempted to add a guardian that is already registered.
    DuplicateGuardian,
    /// Storage version mismatch during pre-flight checks.
    InvalidVersion,
    /// A tracked collection is too large for an atomic snapshot.
    SnapshotTooLarge,
    /// The reporter already reported within the cooldown window.
    ReportRateLimited,
    /// The reporter has used up its reports for the current breaker window.
    ReporterQuotaExceeded,
    /// Trusted-reporters-only mode is on and the reporter is not trusted.
    UnauthorizedReporter,
}

impl ContractError {
    pub open spec fn spec_code(&self) -> u32 {
        match self {
            ContractError::NotAuthorized => 1,
            ContractError::DuplicateVote => 2,
            ContractError::TaskNotVerified => 3,
            ContractError::StreamAlreadyActive => 4,
            ContractError::DripsCallFailed => 5,
            ContractError::Locked => 6,
            ContractError::AlreadyInitialized => 7,
            ContractError::NotInitialized => 8,
            ContractError::InsufficientLockedBalance => 9,
            ContractError::StillGuardian => 10,
            ContractError::NotGuardian => 11,
            ContractError::NoReputationScore => 12,
            ContractError::ZeroWeightVote => 13,
            ContractError::WeightOverflow => 14,
            ContractError::ContractPaused => 15,
            ContractError::EscrowUnavailable => 16,
            ContractError::TaskCancelled => 17,
            ContractError::InvalidAddress => 18,
            ContractError::InvalidAmount => 19,
            ContractError::InvalidConfig => 20,
            ContractError::InvalidRange => 21,
            ContractError::BatchTooLarge => 22,
            ContractError::TaskNotFound => 23,
            ContractError::TaskAlreadyArchived => 24,
            ContractError::TaskNotStale => 25,
            ContractError::SnapshotNotFound => 26,
            ContractError::WithdrawalTimelockActive => 27,
            ContractError::TaskNotTerminal => 28,
            ContractError::InsufficientReputation => 29,
            ContractError::NotUpgradeSigner => 30,
            ContractError::UpgradeThresholdNotMet => 31,
            ContractError::NoPendingUpgrade => 32,
            ContractError::AlreadyApproved => 33,
            ContractError::InvalidUpgradeConfig => 34,
            ContractError::LastAdminRemovalBlocked => 35,
            ContractError::DuplicateGuardian => 36,
            ContractError::InvalidVersion => 37,
            ContractError::SnapshotTooLarge => 38,
            ContractError::ReportRateLimited => 39,
            ContractError::ReporterQuotaExceeded => 40,
            ContractError::UnauthorizedReporter => 41,
        }
    }

    /// The numeric code of the error on the ledger.
    #[verifier::when_used_as_spec(spec_code)]
    pub fn code(&self) -> (c: u32)
        ensures
            c == self.spec_code(),
    {
        match self {
            ContractError::NotAuthorized => 1,
            ContractError::DuplicateVote => 2,
            ContractError::TaskNotVerified => 3,
            ContractError::StreamAlreadyActive => 4,
            ContractError::DripsCallFailed => 5,
            ContractError::Locked => 6,
            ContractError::AlreadyInitialized => 7,
            ContractError::NotInitialized => 8,
            ContractError::InsufficientLockedBalance => 9,
            ContractError::StillGuardian => 10,
            ContractError::NotGuardian => 11,
            ContractError::NoReputationScore => 12,
            ContractError::ZeroWeightVote => 13,
            ContractError::WeightOverflow => 14,
            ContractError::ContractPaused => 15,
            ContractError::EscrowUnavailable => 16,
            ContractError::TaskCancelled => 17,
            ContractError::InvalidAddress => 18,
            ContractError::InvalidAmount => 19,
            ContractError::InvalidConfig => 20,
            ContractError::InvalidRange => 21,
            ContractError::BatchTooLarge => 22,
            ContractError::TaskNotFound => 23,
            ContractError::TaskAlreadyArchived => 24,
            ContractError::TaskNotStale => 25,
            ContractError::SnapshotNotFound => 26,
            ContractError::WithdrawalTimelockActive => 27,
            ContractError::TaskNotTerminal => 28,
            ContractError::InsufficientReputation => 29,
            ContractError::NotUpgradeSigner => 30,
            ContractError::UpgradeThresholdNotMet => 31,
            ContractError::NoPendingUpgrade => 32,
            ContractError::AlreadyApproved => 33,
            ContractError::InvalidUpgradeConfig => 34,
            ContractError::LastAdminRemovalBlocked => 35,
            ContractError::DuplicateGuardian => 36,
            ContractError::InvalidVersion => 37,
            ContractError::SnapshotTooLarge => 38,
            ContractError::ReportRateLimited => 39,
            ContractError::ReporterQuotaExceeded => 40,
            ContractError::UnauthorizedReporter => 41,
        }
    }
}

} // verus!
