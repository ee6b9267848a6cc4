//! Protocol size and range limits, all in one place.
use vstd::prelude::*;

verus! {

/// Maximum batch size for a single `register_tasks` call.
pub const MAX_REGISTER_TASK_BATCH_SIZE: u32 = 32;

/// Maximum number of entries an atomic snapshot reads from any one tracked
/// collection (guardians, tasks, reward streams).
pub const MAX_SNAPSHOT_COLLECTION_SIZE: u32 = 200;

/// Maximum number of entries any paginated view returns.
pub const MAX_PAGE_LIMIT: u32 = 50;

/// Maximum allowed task id: half of `u64::MAX`.
pub const MAX_TASK_ID: u64 = 9223372036854775807;

/// Upper bound for token amounts moved by the contract: half of `i128::MAX`.
pub const MAX_TOKEN_AMOUNT: i128 = 85070591730234615865843651857942052863;

/// Upper bound for the vote-lock threshold, one below `MAX_TOKEN_AMOUNT`.
pub const MAX_LOCK_THRESHOLD: i128 = 85070591730234615865843651857942052862;

/// Upper bound for a single guardian's reputation score.
pub const MAX_REPUTATION_SCORE: u64 = 1_000_000_000;

/// Upper bound for the cumulative weight required to resolve a task.
pub const MAX_WEIGHT_THRESHOLD: u64 = 1_000_000_000_000;

/// Largest protocol fee that `set_fee_bps` accepts, in basis points.
pub const MAX_FEE_BPS: u32 = 1000;

/// Basis points in a whole.
pub const BPS_DENOMINATOR: i128 = 10000;

/// Seconds a guardian waits between `request_unlock` and withdrawing.
pub const WITHDRAWAL_DELAY_SECONDS: u64 = 86400;

/// Seconds after resolution before a task may be archived.
pub const ARCHIVE_AFTER_SECONDS: u64 = 2_592_000;

} // verus!
