//! Vero core contracts: reputation-weighted guardian voting on registered
//! tasks, with role-based access control, token locking, reward streams,
//! a quorum-gated circuit breaker and multi-sig upgrades.
use vstd::prelude::*;

pub mod consensus;
pub mod contract;
pub mod events;
pub mod gas;
pub mod keymap;
pub mod limits;
pub mod types;
pub mod utils;
pub mod validation;

pub use contract::breaker::FAILURE_THRESHOLD;
pub use contract::VeroContract;
pub use limits::{ARCHIVE_AFTER_SECONDS, MAX_WEIGHT_THRESHOLD};
pub use types::{
    BatchCall, ContractError, GuardianEntry, Operation, RewardStream, Role, Snapshot, SnapshotMeta,
    Task,
};
pub use utils::address::ZERO_ADDRESS_STR;

verus! {

/// Default cumulative reputation weight a task needs before it resolves.
pub const DEFAULT_WEIGHT_THRESHOLD: u64 = 300;

/// The contract under its protocol name.
pub type VeroCore = VeroContract;

} // verus!
