//! The contract's state and its entry points.
//!
//! `VeroContract` holds everything the contract keeps in instance storage.
//! Each entry point is specified by a step function over the abstract state
//! `ContractView`: the new state and the outcome (effects to carry out, or
//! the error that refused the call, in which case the state is unchanged).
//! Caller authentication and the ledger clock are supplied by the host
//! around these calls.
use crate::events::Effect;
use crate::keymap::{entries_map, KeyMap};
use crate::types::{
    Address, RewardStream, Role, RoleKey, Snapshot, Task, VoteKey, WasmHash,
};
use crate::validation::valid_external;
use vstd::prelude::*;

pub mod batch;
pub mod breaker;
pub mod config;
pub mod guardians;
pub mod laws;
pub mod migrate;
pub mod outcomes;
pub mod parts;
pub mod rbac;
pub mod rewards;
pub mod snapshot;
pub mod tasks;
pub mod tokens;
pub mod upgrade;
pub mod voting;

verus! {

/// Singleton configuration values of the contract.
#[derive(Clone, Copy, Debug, PartialEq, Eq)]
pub struct Config {
    /// Whether `initialize` has run.
    pub initialized: bool,
    /// The administrator installed by `initialize`.
    pub admin: Option<Address>,
    /// The token guardians lock.
    pub token: Option<Address>,
    /// A guardian's locked balance must exceed this to vote.
    pub lock_threshold: i128,
    /// Emergency halt flag.
    pub paused: bool,
    /// Weight needed to resolve a task, when set.
    pub weight_threshold: Option<u64>,
    /// Escrow vault released on task resolution.
    pub vault: Option<Address>,
    /// Drips protocol contract.
    pub drips: Option<Address>,
    /// Recipient of protocol fees.
    pub treasury: Option<Address>,
    /// Protocol fee in basis points, when set.
    pub fee_bps: Option<u32>,
    /// Storage schema version (0 before versioning).
    pub storage_version: u32,
}

impl Config {
    /// The configuration of a contract that was never initialized.
    pub open spec fn spec_empty() -> Config {
        Config {
            initialized: false,
            admin: None,
            token: None,
            lock_threshold: 0,
            paused: false,
            weight_threshold: None,
            vault: None,
            drips: None,
            treasury: None,
            fee_bps: None,
            storage_version: 0,
        }
    }
}

/// The abstract content of a recorded snapshot.
pub struct SnapshotView {
    pub timestamp: u64,
    pub paused: bool,
    pub failure_count: u32,
    pub weight_threshold: u64,
    pub admin: Option<Address>,
    pub vault_address: Option<Address>,
    pub drips_address: Option<Address>,
    pub guardians: Map<Address, bool>,
    pub reputations: Map<Address, u64>,
    pub tasks: Map<u64, Task>,
    pub votes: Set<VoteKey>,
    pub reward_streams: Map<u64, RewardStream>,
}

impl Snapshot {
    /// The maps this snapshot lists.
    pub open spec fn view(&self) -> SnapshotView {
        SnapshotView {
            timestamp: self.timestamp,
            paused: self.paused,
            failure_count: self.failure_count,
            weight_threshold: self.weight_threshold,
            admin: self.admin,
            vault_address: self.vault_address,
            drips_address: self.drips_address,
            guardians: entries_map(self.guardians@),
            reputations: entries_map(self.reputations@),
            tasks: entries_map(self.tasks@),
            votes: self.votes@.to_set(),
            reward_streams: entries_map(self.reward_streams@),
        }
    }
}

/// The abstract state of the contract: one field per storage domain.
pub struct ContractView {
    /// The contract's own address.
    pub self_address: Address,
    pub config: Config,
    /// Role assignments.
    pub roles: Set<RoleKey>,
    /// Registered guardians in registration order.
    pub guardians: Seq<Address>,
    /// Dense slot index of the registered guardians (swap-remove order).
    pub guardian_slots: Seq<Address>,
    pub reputations: Map<Address, u64>,
    /// Tokens locked per address.
    pub balances: Map<Address, i128>,
    /// When each address requested an unlock.
    pub timelocks: Map<Address, u64>,
    /// Live tasks.
    pub tasks: Map<u64, Task>,
    /// Archived tasks.
    pub archived: Map<u64, Task>,
    /// Ids of all tracked tasks (live or archived) in registration order.
    pub task_ids: Seq<u64>,
    /// Dense slot index of the tracked task ids (swap-remove order).
    pub task_slots: Seq<u64>,
    /// Recorded votes.
    pub votes: Set<VoteKey>,
    pub streams: Map<u64, RewardStream>,
    /// Ids of the tasks with a reward stream, in start order.
    pub stream_ids: Seq<u64>,
    pub snapshots: Map<u64, SnapshotView>,
    /// Timestamps of recorded snapshots, in recording order.
    pub snapshot_ids: Seq<u64>,
    /// Failure reports in the current breaker window.
    pub failure_count: u32,
    /// Distinct reporters of the current window, in first-report order.
    pub reporters: Seq<Address>,
    pub reporter_counts: Map<Address, u32>,
    /// Ledger sequence of each reporter's last accepted report.
    pub last_reports: Map<Address, u32>,
    pub trusted_reporters_only: bool,
    pub upgrade_signers: Option<Seq<Address>>,
    pub upgrade_threshold: Option<u32>,
    pub pending_wasm: Option<WasmHash>,
    pub pending_approvals: Option<Seq<Address>>,
}

/// What an entry point answers: the effects to carry out, or the error.
pub type Outcome = Result<Seq<Effect>, ContractError>;

use crate::types::ContractError;

/// The abstract view of an executable outcome.
pub open spec fn outcome(r: Result<Vec<Effect>, ContractError>) -> Outcome {
    match r {
        Ok(v) => Ok(v@),
        Err(e) => Err(e),
    }
}

/// A refused call: the state stays as it was.
pub open spec fn refuse(v: ContractView, e: ContractError) -> (ContractView, Outcome) {
    (v, Err(e))
}

/// A single event.
pub open spec fn publish(e: crate::events::Event) -> Seq<Effect> {
    seq![Effect::Publish(e)]
}

/// The address is acceptable as a caller-supplied address.
pub open spec fn ext_ok(v: ContractView, a: Address) -> bool {
    valid_external(v.self_address, a)
}

/// The address holds the role.
pub open spec fn holds(v: ContractView, a: Address, role: Role) -> bool {
    v.roles.contains(RoleKey { address: a, role })
}

/// The weight threshold in force.
pub open spec fn weight_threshold_of(v: ContractView) -> u64 {
    match v.config.weight_threshold {
        Some(t) => t,
        None => crate::DEFAULT_WEIGHT_THRESHOLD,
    }
}

/// The two lists hold the same elements.
pub open spec fn same_elements<T>(a: Seq<T>, b: Seq<T>) -> bool {
    forall|x: T| a.contains(x) <==> b.contains(x)
}

/// The invariant every reachable contract state satisfies.
pub open spec fn view_wf(v: ContractView) -> bool {
    &&& v.guardians.no_duplicates()
    &&& v.guardian_slots.no_duplicates()
    &&& same_elements(v.guardians, v.guardian_slots)
    &&& v.guardians.len() == v.guardian_slots.len()
    &&& v.guardians.len() <= u32::MAX
    &&& v.task_ids.no_duplicates()
    &&& v.task_slots.no_duplicates()
    &&& same_elements(v.task_ids, v.task_slots)
    &&& v.task_ids.len() == v.task_slots.len()
    &&& v.task_ids.len() <= u32::MAX
    &&& forall|id: u64| #[trigger]
        v.task_ids.contains(id) <==> (v.tasks.contains_key(id) || v.archived.contains_key(id))
    &&& forall|id: u64| !(#[trigger] v.tasks.contains_key(id) && v.archived.contains_key(id))
    &&& v.stream_ids.no_duplicates()
    &&& v.stream_ids.len() <= u32::MAX
    &&& v.snapshot_ids.len() <= u32::MAX
    &&& forall|id: u64| #[trigger] v.stream_ids.contains(id) <==> v.streams.contains_key(id)
    &&& v.reporters.no_duplicates()
    &&& v.reporters.len() <= crate::contract::breaker::MAX_TRACKED_REPORTERS
    &&& forall|a: Address| #[trigger]
        v.reporters.contains(a) <==> v.reporter_counts.contains_key(a)
    &&& forall|a: Address| #[trigger] v.reporters.contains(a) <==> v.last_reports.contains_key(a)
    &&& forall|a: Address| #[trigger]
        v.reporter_counts.contains_key(a) ==> v.reporter_counts[a]
            <= crate::contract::breaker::MAX_REPORTS_PER_REPORTER
    &&& v.failure_count <= crate::contract::breaker::reports_total(v.reporters, v.reporter_counts)
    &&& upgrade_wf(v)
}

/// The multi-sig upgrade state: a pending proposal comes with its approvals,
/// which are strictly ascending and all by configured signers.
pub open spec fn upgrade_wf(v: ContractView) -> bool {
    &&& (v.pending_wasm is Some <==> v.pending_approvals is Some)
    &&& (v.upgrade_signers matches Some(s) ==> s.len() <= u32::MAX)
    &&& (v.pending_approvals matches Some(a) ==> {
        &&& v.upgrade_signers is Some
        &&& crate::utils::address::strictly_sorted(a)
        &&& forall|x: Address| #[trigger] a.contains(x) ==> v.upgrade_signers->0.contains(x)
    })
}

/// The contract: everything it keeps in instance storage.
pub struct VeroContract {
    self_address: Address,
    config: Config,
    roles: KeyMap<RoleKey, ()>,
    guardians: Vec<Address>,
    guardian_slots: Vec<Address>,
    reputations: KeyMap<Address, u64>,
    balances: KeyMap<Address, i128>,
    timelocks: KeyMap<Address, u64>,
    tasks: KeyMap<u64, Task>,
    archived: KeyMap<u64, Task>,
    task_ids: Vec<u64>,
    task_slots: Vec<u64>,
    votes: KeyMap<VoteKey, ()>,
    streams: KeyMap<u64, RewardStream>,
    stream_ids: Vec<u64>,
    snapshots: KeyMap<u64, Snapshot>,
    snapshot_ids: Vec<u64>,
    failure_count: u32,
    reporters: Vec<Address>,
    reporter_counts: KeyMap<Address, u32>,
    last_reports: KeyMap<Address, u32>,
    trusted_reporters_only: bool,
    upgrade_signers: Option<Vec<Address>>,
    upgrade_threshold: Option<u32>,
    pending_wasm: Option<WasmHash>,
    pending_approvals: Option<Vec<Address>>,
}

/// The abstract view of an optional list.
pub open spec fn opt_seq(o: Option<Vec<Address>>) -> Option<Seq<Address>> {
    match o {
        Some(v) => Some(v@),
        None => None,
    }
}

impl VeroContract {
    /// The abstract state.
    pub closed spec fn view(&self) -> ContractView {
        ContractView {
            self_address: self.self_address,
            config: self.config,
            roles: self.roles@.dom(),
            guardians: self.guardians@,
            guardian_slots: self.guardian_slots@,
            reputations: self.reputations@,
            balances: self.balances@,
            timelocks: self.timelocks@,
            tasks: self.tasks@,
            archived: self.archived@,
            task_ids: self.task_ids@,
            task_slots: self.task_slots@,
            votes: self.votes@.dom(),
            streams: self.streams@,
            stream_ids: self.stream_ids@,
            snapshots: self.snapshots@.map_values(|s: Snapshot| s.view()),
            snapshot_ids: self.snapshot_ids@,
            failure_count: self.failure_count,
            reporters: self.reporters@,
            reporter_counts: self.reporter_counts@,
            last_reports: self.last_reports@,
            trusted_reporters_only: self.trusted_reporters_only,
            upgrade_signers: opt_seq(self.upgrade_signers),
            upgrade_threshold: self.upgrade_threshold,
            pending_wasm: self.pending_wasm,
            pending_approvals: opt_seq(self.pending_approvals),
        }
    }

    /// The state invariant.
    pub closed spec fn wf(&self) -> bool {
        view_wf(self@)
    }

    /// The state invariant is `view_wf` of the abstract state.
    pub proof fn lemma_wf_view(&self)
        ensures
            self.wf() <==> view_wf(self@),
    {
    }

    /// A fresh, uninitialized contract deployed at `self_address`.
    pub fn new(self_address: Address) -> (c: VeroContract)
        ensures
            c.wf(),
            c@ == empty_view(self_address),
    {
        let c = VeroContract {
            self_address,
            config: Config {
                initialized: false,
                admin: None,
                token: None,
                lock_threshold: 0,
                paused: false,
                weight_threshold: None,
                vault: None,
                drips: None,
                treasury: None,
                fee_bps: None,
                storage_version: 0,
            },
            roles: KeyMap::new(),
            guardians: Vec::new(),
            guardian_slots: Vec::new(),
            reputations: KeyMap::new(),
            balances: KeyMap::new(),
            timelocks: KeyMap::new(),
            tasks: KeyMap::new(),
            archived: KeyMap::new(),
            task_ids: Vec::new(),
            task_slots: Vec::new(),
            votes: KeyMap::new(),
            streams: KeyMap::new(),
            stream_ids: Vec::new(),
            snapshots: KeyMap::new(),
            snapshot_ids: Vec::new(),
            failure_count: 0,
            reporters: Vec::new(),
            reporter_counts: KeyMap::new(),
            last_reports: KeyMap::new(),
            trusted_reporters_only: false,
            upgrade_signers: None,
            upgrade_threshold: None,
            pending_wasm: None,
            pending_approvals: None,
        };
        assert(c@.roles =~= Set::<RoleKey>::empty());
        assert(c@.votes =~= Set::<VoteKey>::empty());
        assert(c@.snapshots =~= Map::<u64, SnapshotView>::empty());
        c
    }

    /// Rejects the zero address and the contract's own address.
    fn check_external(&self, a: &Address) -> (r: Result<(), ContractError>)
        ensures
            r == (if ext_ok(self@, *a) {
                Ok(())
            } else {
                Err(ContractError::InvalidAddress)
            }),
    {
        crate::validation::validate_external_address(&self.self_address, a)
    }

    /// Whether `a` holds `role`.
    fn holds_role(&self, a: &Address, role: Role) -> (b: bool)
        ensures
            b == holds(self@, *a, role),
    {
        self.roles.contains_key(&RoleKey { address: *a, role })
    }

    /// Rejects callers that do not hold `role` with `NotAuthorized`.
    fn check_role(&self, a: &Address, role: Role) -> (r: Result<(), ContractError>)
        ensures
            r == (if holds(self@, *a, role) {
                Ok(())
            } else {
                Err(ContractError::NotAuthorized)
            }),
    {
        if self.holds_role(a, role) {
            Ok(())
        } else {
            Err(ContractError::NotAuthorized)
        }
    }

    /// Returns `Err(ContractPaused)` while the contract is paused.
    pub fn require_not_paused(&self) -> (r: Result<(), ContractError>)
        ensures
            r == (if self@.config.paused {
                Err(ContractError::ContractPaused)
            } else {
                Ok(())
            }),
    {
        if self.config.paused {
            return Err(ContractError::ContractPaused);
        }
        Ok(())
    }

    /// The contract's own address.
    pub fn self_address(&self) -> (a: Address)
        ensures
            a == self@.self_address,
    {
        self.self_address
    }
}

/// The state of a freshly deployed contract.
pub open spec fn empty_view(self_address: Address) -> ContractView {
    ContractView {
        self_address,
        config: Config::spec_empty(),
        roles: Set::empty(),
        guardians: Seq::empty(),
        guardian_slots: Seq::empty(),
        reputations: Map::empty(),
        balances: Map::empty(),
        timelocks: Map::empty(),
        tasks: Map::empty(),
        archived: Map::empty(),
        task_ids: Seq::empty(),
        task_slots: Seq::empty(),
        votes: Set::empty(),
        streams: Map::empty(),
        stream_ids: Seq::empty(),
        snapshots: Map::empty(),
        snapshot_ids: Seq::empty(),
        failure_count: 0,
        reporters: Seq::empty(),
        reporter_counts: Map::empty(),
        last_reports: Map::empty(),
        trusted_reporters_only: false,
        upgrade_signers: None,
        upgrade_threshold: None,
        pending_wasm: None,
        pending_approvals: None,
    }
}

} // verus!
