//! End-to-end flows: tasks, voting, escrow, streams, snapshots, batches.
use std::collections::HashMap;
use vero_core_contracts::events::{Effect, Event};
use vero_core_contracts::types::{
    Address, BatchCall, ContractError, GuardianEntry, RewardStream, Role, Snapshot, SnapshotMeta,
    Task, WasmHash,
};
use vero_core_contracts::VeroContract;

/// A ledger around one contract instance: the clock, the token balances the
/// contract's transfers move, the Drips contracts that accept streams, and
/// the events published so far.
#[allow(dead_code)]
struct Ledger {
    c: VeroContract,
    me: Address,
    now: u64,
    seq: u32,
    next: u128,
    balances: HashMap<(Address, Address), i128>,
    drips: Vec<Address>,
    vault_ok: bool,
    events: Vec<Event>,
    upgraded_to: Option<WasmHash>,
}

type R = Result<(), ContractError>;

#[allow(dead_code)]
impl Ledger {
    fn new() -> Ledger {
        let me = Address::contract(7, 7);
        Ledger {
            c: VeroContract::new(me),
            me,
            now: 0,
            seq: 0,
            next: 100,
            balances: HashMap::new(),
            drips: Vec::new(),
            vault_ok: true,
            events: Vec::new(),
            upgraded_to: None,
        }
    }

    fn generate(&mut self) -> Address {
        self.next += 1;
        Address::account(0, self.next)
    }

    fn generate_contract(&mut self) -> Address {
        self.next += 1;
        Address::contract(0, self.next)
    }

    /// A contract that accepts `start_stream` calls.
    fn register_drips(&mut self) -> Address {
        let d = self.generate_contract();
        self.drips.push(d);
        d
    }

    fn mint(&mut self, token: &Address, to: &Address, amount: i128) {
        *self.balances.entry((*token, *to)).or_insert(0) += amount;
    }

    fn balance(&self, token: &Address, who: &Address) -> i128 {
        *self.balances.get(&(*token, *who)).unwrap_or(&0)
    }

    /// Carries out the effects of an accepted call; a transfer the token
    /// refuses aborts the invocation.
    fn run(&mut self, r: Result<Vec<Effect>, ContractError>) -> R {
        let fx = r?;
        for e in fx {
            match e {
                Effect::Publish(ev) => self.events.push(ev),
                Effect::Transfer { token, from, to, amount } => {
                    assert!(amount >= 0, "negative amount is not allowed");
                    let have = self.balance(&token, &from);
                    assert!(have >= amount, "balance is not sufficient to spend");
                    self.balances.insert((token, from), have - amount);
                    self.mint(&token, &to, amount);
                },
                Effect::ReleaseVault { task_id, .. } => {
                    if self.vault_ok {
                        self.events.push(Event::VaultReleaseSucceeded { task_id });
                    } else {
                        self.events.push(Event::VaultReleaseFailed { task_id });
                    }
                },
                Effect::UpdateWasm { wasm_hash } => self.upgraded_to = Some(wasm_hash),
            }
        }
        Ok(())
    }

    fn set_timestamp(&mut self, t: u64) {
        self.now = t;
    }

    fn set_sequence(&mut self, s: u32) {
        self.seq = s;
    }

    fn initialize(&mut self, admin: &Address, token: &Address, lock_threshold: i128) -> R {
        let r = self.c.initialize(*admin, *token, lock_threshold);
        self.run(r)
    }

    fn grant_role(&mut self, caller: &Address, target: &Address, role: Role) -> R {
        let r = self.c.grant_role(*caller, *target, role);
        self.run(r)
    }

    fn revoke_role(&mut self, caller: &Address, target: &Address, role: Role) -> R {
        let r = self.c.revoke_role(*caller, *target, role);
        self.run(r)
    }

    fn add_guardian(&mut self, admin: &Address, g: &Address) -> R {
        let r = self.c.add_guardian(*admin, *g);
        self.run(r)
    }

    fn remove_guardian(&mut self, admin: &Address, g: &Address) -> R {
        let r = self.c.remove_guardian(*admin, *g);
        self.run(r)
    }

    fn set_reputation(&mut self, admin: &Address, g: &Address, score: u64) -> R {
        let r = self.c.set_reputation(*admin, *g, score);
        self.run(r)
    }

    fn set_weight_threshold(&mut self, admin: &Address, t: u64) -> R {
        let r = self.c.set_weight_threshold(*admin, t);
        self.run(r)
    }

    fn set_vault_address(&mut self, admin: &Address, vault: &Address) -> R {
        let r = self.c.set_vault_address(*admin, *vault);
        self.run(r)
    }

    fn set_fee_bps(&mut self, admin: &Address, bps: u32) -> R {
        let r = self.c.set_fee_bps(*admin, bps);
        self.run(r)
    }

    fn set_treasury_address(&mut self, admin: &Address, treasury: &Address) -> R {
        let r = self.c.set_treasury_address(*admin, *treasury);
        self.run(r)
    }

    fn register_task(&mut self, admin: &Address, id: u64, min_votes: u32) -> R {
        let r = self.c.register_task(*admin, id, min_votes);
        self.run(r)
    }

    fn register_tasks(&mut self, admin: &Address, ids: &[u64], min_votes: u32) -> R {
        let r = self.c.register_tasks(*admin, &ids.to_vec(), min_votes);
        self.run(r)
    }

    fn cancel_task(&mut self, admin: &Address, id: u64) -> R {
        assert!(!self.c.cancel_task_aborts(*admin, id), "cancelling a resolved task aborts");
        let r = self.c.cancel_task(*admin, id);
        self.run(r)
    }

    fn purge_task(&mut self, admin: &Address, id: u64) -> R {
        let r = self.c.purge_task(*admin, id);
        self.run(r)
    }

    fn archive_task(&mut self, admin: &Address, id: u64) -> R {
        let now = self.now;
        let r = self.c.archive_task(*admin, id, now);
        self.run(r)
    }

    fn vote(&mut self, g: &Address, id: u64) -> R {
        let now = self.now;
        let r = self.c.vote(*g, id, now);
        self.run(r)
    }

    fn vote_batch(&mut self, g: &Address, ids: &[u64]) -> R {
        let now = self.now;
        let r = self.c.vote_batch(*g, &ids.to_vec(), now);
        self.run(r)
    }

    fn lock_tokens(&mut self, g: &Address, amount: i128) -> R {
        assert!(!self.c.lock_tokens_aborts(*g, amount), "arithmetic overflow");
        let r = self.c.lock_tokens(*g, amount);
        self.run(r)
    }

    fn request_unlock(&mut self, g: &Address) -> R {
        let now = self.now;
        let r = self.c.request_unlock(*g, now);
        self.run(r)
    }

    fn unlock_tokens(&mut self, g: &Address) -> R {
        let now = self.now;
        assert!(!self.c.unlock_tokens_aborts(*g, now), "arithmetic overflow");
        let r = self.c.unlock_tokens(*g, now);
        self.run(r)
    }

    fn resign_guardian(&mut self, g: &Address) -> R {
        let now = self.now;
        assert!(!self.c.resign_guardian_aborts(*g, now), "arithmetic overflow");
        let r = self.c.resign_guardian(*g, now);
        self.run(r)
    }

    fn emergency_recover(&mut self, admin: &Address, recipient: &Address, amount: i128) -> R {
        let r = self.c.emergency_recover(*admin, *recipient, amount);
        self.run(r)
    }

    fn pause(&mut self, admin: &Address) -> R {
        let r = self.c.pause(*admin);
        self.run(r)
    }

    fn unpause(&mut self, admin: &Address) -> R {
        let r = self.c.unpause(*admin);
        self.run(r)
    }

    fn toggle_pause(&mut self, admin: &Address) -> R {
        let r = self.c.toggle_pause(*admin);
        self.run(r)
    }

    fn record_failure(&mut self, reporter: &Address) -> R {
        let seq = self.seq;
        let r = self.c.record_failure(*reporter, seq);
        self.run(r)
    }

    fn set_trusted_reporters_only(&mut self, admin: &Address, enabled: bool) -> R {
        let r = self.c.set_trusted_reporters_only(*admin, enabled);
        self.run(r)
    }

    fn reset_circuit_breaker(&mut self, admin: &Address) -> R {
        let r = self.c.reset_circuit_breaker(*admin);
        self.run(r)
    }

    /// Runs the checks, makes the Drips call, and records the stream if the
    /// call went through.
    fn start_reward_stream(&mut self, admin: &Address, drips: &Address, contributor: &Address, id: u64) -> R {
        let call = self.c.reward_stream_call(*admin, *drips, *contributor, id)?;
        let ok = self.drips.contains(&call.drips);
        let r = self.c.start_reward_stream(*admin, *drips, *contributor, id, ok);
        self.run(r)
    }

    fn upgrade_contract(&mut self, admin: &Address, hash: WasmHash) -> R {
        let r = self.c.upgrade_contract(*admin, hash);
        self.run(r)
    }

    fn set_upgrade_signers(&mut self, admin: &Address, signers: &[Address], threshold: u32) -> R {
        let r = self.c.set_upgrade_signers(*admin, &signers.to_vec(), threshold);
        self.run(r)
    }

    fn propose_upgrade(&mut self, signer: &Address, hash: WasmHash) -> R {
        let r = self.c.propose_upgrade(*signer, hash);
        self.run(r)
    }

    fn approve_upgrade(&mut self, signer: &Address) -> R {
        let r = self.c.approve_upgrade(*signer);
        self.run(r)
    }

    fn execute_upgrade(&mut self) -> R {
        let r = self.c.execute_upgrade();
        self.run(r)
    }

    fn cancel_upgrade(&mut self, admin: &Address) -> R {
        let r = self.c.cancel_upgrade(*admin);
        self.run(r)
    }

    fn record_snapshot(&mut self) -> R {
        let now = self.now;
        let r = self.c.record_snapshot(now);
        self.run(r)
    }

    fn get_snapshot(&self) -> Result<Snapshot, ContractError> {
        self.c.get_snapshot(self.now)
    }

    fn get_snapshot_meta(&self) -> SnapshotMeta {
        self.c.get_snapshot_meta(self.now)
    }

    fn get_guardians_page(&self, offset: u32, limit: u32) -> Vec<GuardianEntry> {
        self.c.get_guardians_page(offset, limit)
    }

    fn get_tasks_page(&self, offset: u32, limit: u32) -> Vec<Task> {
        self.c.get_tasks_page(offset, limit)
    }

    fn get_reward_streams_page(&self, offset: u32, limit: u32) -> Vec<RewardStream> {
        self.c.get_reward_streams_page(offset, limit)
    }

    /// Replaces the live task record `t.id` as a storage write would.
    fn overwrite_task(&mut self, t: Task) {
        let mut p = self.c.to_parts();
        for e in p.tasks.iter_mut() {
            if e.0 == t.id {
                e.1 = t;
            }
        }
        self.c = VeroContract::from_parts(p).expect("state stays well formed");
    }

    /// Runs a batch: the cost bound, then each call in order; a refusal
    /// restores the state from before the batch.
    fn batch_execute(&mut self, calls: &[BatchCall]) -> R {
        let calls = calls.to_vec();
        vero_core_contracts::contract::batch::check_batch_cost(&calls)?;
        let saved = self.c.to_parts();
        let saved_balances = self.balances.clone();
        let saved_events = self.events.len();
        for call in calls.iter() {
            let now = self.now;
            let seq = self.seq;
            assert!(self.c.call_admissible(call, now), "the call aborts the invocation");
            let drips_ok = match call {
                BatchCall::StartRewardStream(admin, drips, contributor, id) => {
                    match self.c.reward_stream_call(*admin, *drips, *contributor, *id) {
                        Ok(c) => self.drips.contains(&c.drips),
                        Err(_) => false,
                    }
                },
                _ => false,
            };
            let r = self.c.execute_call(call, now, seq, drips_ok);
            if let Err(e) = self.run(r) {
                self.c = VeroContract::from_parts(saved).expect("saved state is well formed");
                self.balances = saved_balances;
                self.events.truncate(saved_events);
                return Err(e);
            }
        }
        Ok(())
    }
}

/// A test WASM hash with every byte equal to `b`.
#[allow(dead_code)]
fn wasm(b: u8) -> WasmHash {
    let h = u128::from_be_bytes([b; 16]);
    WasmHash { hi: h, lo: h }
}

use vero_core_contracts::ARCHIVE_AFTER_SECONDS;

fn init(lock_threshold: i128) -> (Ledger, Address, Address) {
    let mut env = Ledger::new();
    let admin = env.generate();
    let token = env.generate_contract();
    env.initialize(&admin, &token, lock_threshold).unwrap();
    (env, admin, token)
}

fn archive_setup() -> (Ledger, Address, Address) {
    let (mut env, admin, token) = init(100);
    env.grant_role(&admin, &admin, Role::GuardianManager).unwrap();
    env.grant_role(&admin, &admin, Role::TaskManager).unwrap();
    env.grant_role(&admin, &admin, Role::ConfigManager).unwrap();
    (env, admin, token)
}

fn resolve_for_archive(env: &mut Ledger, admin: &Address, token: &Address, id: u64) {
    let g = env.generate();
    env.add_guardian(admin, &g).unwrap();
    env.set_reputation(admin, &g, 100).unwrap();
    env.set_weight_threshold(admin, 1).unwrap();
    env.register_task(admin, id, 1).unwrap();
    env.mint(token, &g, 101);
    env.lock_tokens(&g, 101).unwrap();
    env.set_timestamp(1_000);
    env.vote(&g, id).unwrap();
    env.set_timestamp(1_000 + ARCHIVE_AFTER_SECONDS + 1);
}

#[test]
fn test_non_taskmanager_cannot_archive_task() {
    let (mut env, admin, token) = archive_setup();
    resolve_for_archive(&mut env, &admin, &token, 1);
    let stranger = env.generate();
    assert!(env.archive_task(&stranger, 1).is_err());
    assert!(env.c.get_task(1).is_some());
    assert!(env.c.get_archived_task(1).is_none());
}

#[test]
fn test_taskmanager_can_archive_task() {
    let (mut env, admin, token) = archive_setup();
    resolve_for_archive(&mut env, &admin, &token, 2);
    env.archive_task(&admin, 2).unwrap();
    assert!(env.c.get_task(2).is_none());
    assert!(env.c.get_archived_task(2).is_some());
}

#[test]
fn vote_uses_verified_consensus_boundaries() {
    let (mut env, admin, token) = init(0);
    env.grant_role(&admin, &admin, Role::GuardianManager).unwrap();
    env.grant_role(&admin, &admin, Role::TaskManager).unwrap();
    let guardian = env.generate();
    env.add_guardian(&admin, &guardian).unwrap();
    env.set_reputation(&admin, &guardian, 100).unwrap();
    env.mint(&token, &guardian, 1);
    env.lock_tokens(&guardian, 1).unwrap();

    env.register_task(&admin, 1, 1).unwrap();
    let mut task = env.c.get_task(1).unwrap();
    task.votes = u32::MAX;
    env.overwrite_task(task);
    env.vote(&guardian, 1).unwrap();
    assert_eq!(env.c.get_task(1).unwrap().votes, u32::MAX);

    env.register_task(&admin, 2, 1).unwrap();
    let mut task = env.c.get_task(2).unwrap();
    task.total_weight_accrued = u64::MAX;
    env.overwrite_task(task);
    assert!(env.vote(&guardian, 2).is_err());
    let task = env.c.get_task(2).unwrap();
    assert_eq!(task.total_weight_accrued, u64::MAX);
    assert_eq!(task.votes, 0);

    env.register_task(&admin, 3, 1).unwrap();
    let mut task = env.c.get_task(3).unwrap();
    task.total_weight_accrued = 300;
    task.is_done = true;
    env.overwrite_task(task);
    env.vote(&guardian, 3).unwrap();
    assert!(env.c.get_task(3).unwrap().is_done);
}

#[test]
fn test_fee_deduction() {
    let (mut env, admin, token) = init(100);
    env.grant_role(&admin, &admin, Role::GuardianManager).unwrap();
    env.grant_role(&admin, &admin, Role::ConfigManager).unwrap();
    let me = env.me;
    let guardian = env.generate();
    let treasury = env.generate();
    env.add_guardian(&admin, &guardian).unwrap();
    env.set_treasury_address(&admin, &treasury).unwrap();
    env.set_fee_bps(&admin, 1000).unwrap();
    env.mint(&token, &guardian, 1000);
    env.lock_tokens(&guardian, 1000).unwrap();
    assert_eq!(env.balance(&token, &treasury), 100);
    assert_eq!(env.balance(&token, &me), 900);
    assert_eq!(env.balance(&token, &guardian), 0);

    env.request_unlock(&guardian).unwrap();
    let t = env.now + 86401;
    env.set_timestamp(t);
    env.resign_guardian(&guardian).unwrap();
    assert_eq!(env.balance(&token, &treasury), 190);
    assert_eq!(env.balance(&token, &me), 0);
    assert_eq!(env.balance(&token, &guardian), 810);
}

#[test]
fn test_registry_starts_clean() {
    let mut env = Ledger::new();
    assert!(env.c.get_task(1).is_none());
    assert!(env.c.get_reward_stream(1).is_none());
    assert_eq!(env.c.get_weight_threshold(), 300);
    let stranger = env.generate();
    assert_eq!(env.c.calculate_voting_power(stranger), None);
    assert_eq!(env.c.get_reputation(stranger), None);
}

#[test]
fn test_reinitialize_reverts() {
    let (mut env, admin, token) = init(100);
    let result = env.initialize(&admin, &token, 100);
    assert!(result.is_err(), "second initialize() must revert");
    assert_eq!(result, Err(ContractError::AlreadyInitialized));
}

#[test]
fn test_admin_stored_on_initialize() {
    let (env, admin, _token) = init(100);
    assert_eq!(env.c.get_admin(), Some(admin));
}

#[test]
fn test_initialize_rejects_negative_lock_threshold() {
    let mut env = Ledger::new();
    let admin = env.generate();
    let token = env.generate_contract();
    assert!(env.initialize(&admin, &token, -1).is_err());
    env.initialize(&admin, &token, 0).unwrap();
    assert!(env.c.get_admin().is_some());
}

#[test]
fn test_end_to_end_happy_path() {
    let (mut env, admin, token) = init(100);
    assert_eq!(env.c.get_admin(), Some(admin));
    env.grant_role(&admin, &admin, Role::GuardianManager).unwrap();
    env.grant_role(&admin, &admin, Role::TaskManager).unwrap();
    env.grant_role(&admin, &admin, Role::TreasuryManager).unwrap();
    assert!(env.c.has_role(admin, Role::GuardianManager));
    assert!(env.c.has_role(admin, Role::TaskManager));
    assert!(env.c.has_role(admin, Role::TreasuryManager));

    let guardian = env.generate();
    env.add_guardian(&admin, &guardian).unwrap();
    assert!(env.c.is_guardian(guardian));
    env.set_reputation(&admin, &guardian, 300).unwrap();
    assert_eq!(env.c.get_reputation(guardian), Some(300));
    env.mint(&token, &guardian, 105);
    env.lock_tokens(&guardian, 105).unwrap();

    let task_id = 42u64;
    env.register_task(&admin, task_id, 1).unwrap();
    let task = env.c.get_task(task_id).unwrap();
    assert_eq!(task.id, task_id);
    assert_eq!(task.votes, 0);
    assert!(!task.is_done);

    env.vote(&guardian, task_id).unwrap();
    let after = env.c.get_task(task_id).unwrap();
    assert_eq!(after.votes, 1);
    assert_eq!(after.total_weight_accrued, 300);
    assert!(after.is_done);

    let contributor = env.generate();
    let drips = env.register_drips();
    env.start_reward_stream(&admin, &drips, &contributor, task_id).unwrap();
    let stream = env.c.get_reward_stream(task_id).unwrap();
    assert_eq!(stream.task_id, task_id);
    assert_eq!(stream.contributor, contributor);
    assert_eq!(stream.drips_contract, drips);
    assert!(stream.active);
}

fn deploy_instance(env: &mut Ledger, admin: &Address, token: &Address, lock_threshold: i128) {
    env.initialize(admin, token, lock_threshold).unwrap();
    env.grant_role(admin, admin, Role::GuardianManager).unwrap();
    env.grant_role(admin, admin, Role::TaskManager).unwrap();
}

/// Two instances at different addresses, each with its own admin.
fn two_instances() -> (Ledger, Ledger, Address, Address) {
    let mut a = Ledger::new();
    let mut b = Ledger::new();
    b.me = Address::contract(8, 8);
    b.c = VeroContract::new(b.me);
    b.next = 10_000;
    let admin_a = a.generate();
    let admin_b = b.generate();
    let token = a.generate_contract();
    deploy_instance(&mut a, &admin_a, &token, 1);
    deploy_instance(&mut b, &admin_b, &token, 1);
    (a, b, admin_a, admin_b)
}

#[test]
fn test_guardian_state_does_not_leak_between_instances() {
    let (mut a, b, admin_a, _admin_b) = two_instances();
    let g = a.generate();
    a.add_guardian(&admin_a, &g).unwrap();
    a.set_reputation(&admin_a, &g, 500).unwrap();
    a.register_task(&admin_a, 1, 1).unwrap();
    assert!(a.c.is_guardian(g));
    assert_eq!(a.c.get_reputation(g), Some(500));
    assert!(a.c.get_task(1).is_some());
    assert!(!b.c.is_guardian(g));
    assert_eq!(b.c.get_reputation(g), None);
    assert!(b.c.get_task(1).is_none());
}

#[test]
fn test_state_registered_in_b_does_not_appear_in_a() {
    let (a, mut b, _admin_a, admin_b) = two_instances();
    let g = b.generate();
    b.add_guardian(&admin_b, &g).unwrap();
    b.set_reputation(&admin_b, &g, 999).unwrap();
    b.register_task(&admin_b, 42, 1).unwrap();
    assert!(b.c.is_guardian(g));
    assert_eq!(b.c.get_reputation(g), Some(999));
    assert!(b.c.get_task(42).is_some());
    assert!(!a.c.is_guardian(g));
    assert_eq!(a.c.get_reputation(g), None);
    assert!(a.c.get_task(42).is_none());
}

#[test]
fn test_admin_state_is_isolated_per_instance() {
    let (a, b, admin_a, admin_b) = two_instances();
    assert_eq!(a.c.get_admin(), Some(admin_a));
    assert_eq!(b.c.get_admin(), Some(admin_b));
    assert_ne!(a.c.get_admin(), b.c.get_admin());
}

#[test]
fn test_overlapping_task_ids_are_isolated_per_instance() {
    let (mut a, mut b, admin_a, admin_b) = two_instances();
    a.register_task(&admin_a, 100, 1).unwrap();
    b.register_task(&admin_b, 100, 2).unwrap();
    let ta = a.c.get_task(100).unwrap();
    let tb = b.c.get_task(100).unwrap();
    assert_eq!(ta.min_votes_required, 1);
    assert_eq!(tb.min_votes_required, 2);
    assert_ne!(ta.min_votes_required, tb.min_votes_required);
    let g = a.generate();
    a.add_guardian(&admin_a, &g).unwrap();
    b.add_guardian(&admin_b, &g).unwrap();
    a.set_reputation(&admin_a, &g, 100).unwrap();
    b.set_reputation(&admin_b, &g, 200).unwrap();
    assert_eq!(a.c.get_reputation(g), Some(100));
    assert_eq!(b.c.get_reputation(g), Some(200));
}

#[test]
fn test_pause_state_is_isolated_per_instance() {
    let (mut a, b, admin_a, _admin_b) = two_instances();
    a.grant_role(&admin_a, &admin_a, Role::EmergencyManager).unwrap();
    assert!(!a.c.is_paused());
    assert!(!b.c.is_paused());
    a.pause(&admin_a).unwrap();
    assert!(a.c.is_paused());
    assert!(!b.c.is_paused());
}

fn stream_setup() -> (Ledger, Address, Address) {
    let (mut env, admin, token) = init(100);
    env.grant_role(&admin, &admin, Role::GuardianManager).unwrap();
    env.grant_role(&admin, &admin, Role::TaskManager).unwrap();
    env.grant_role(&admin, &admin, Role::ConfigManager).unwrap();
    env.grant_role(&admin, &admin, Role::TreasuryManager).unwrap();
    (env, admin, token)
}

fn resolve_task(env: &mut Ledger, admin: &Address, token: &Address, id: u64) {
    env.register_task(admin, id, 1).unwrap();
    let g = env.generate();
    env.add_guardian(admin, &g).unwrap();
    env.set_reputation(admin, &g, 300).unwrap();
    env.set_weight_threshold(admin, 1).unwrap();
    env.mint(token, &g, 101);
    env.lock_tokens(&g, 101).unwrap();
    env.vote(&g, id).unwrap();
    assert!(env.c.get_task(id).unwrap().is_done);
}

fn snapshot_has_stream(s: &Snapshot, id: u64) -> bool {
    s.reward_streams.iter().any(|(k, _)| *k == id)
}

#[test]
fn test_purge_task_removes_reward_stream_and_index_entry() {
    let (mut env, admin, token) = stream_setup();
    let contributor = env.generate();
    let drips = env.register_drips();
    resolve_task(&mut env, &admin, &token, 1);
    env.start_reward_stream(&admin, &drips, &contributor, 1).unwrap();
    assert!(env.c.get_reward_stream(1).is_some());
    assert!(snapshot_has_stream(&env.get_snapshot().unwrap(), 1));
    env.purge_task(&admin, 1).unwrap();
    assert!(env.c.get_task(1).is_none());
    assert!(env.c.get_reward_stream(1).is_none());
    assert!(!snapshot_has_stream(&env.get_snapshot().unwrap(), 1));
}

#[test]
fn test_purge_task_reward_stream_cleanup_preserves_other_streams() {
    let (mut env, admin, token) = stream_setup();
    let contributor = env.generate();
    let drips = env.register_drips();
    resolve_task(&mut env, &admin, &token, 1);
    resolve_task(&mut env, &admin, &token, 2);
    env.start_reward_stream(&admin, &drips, &contributor, 1).unwrap();
    env.start_reward_stream(&admin, &drips, &contributor, 2).unwrap();
    env.purge_task(&admin, 1).unwrap();
    assert!(env.c.get_reward_stream(1).is_none());
    assert!(env.c.get_reward_stream(2).is_some());
    let snapshot = env.get_snapshot().unwrap();
    assert!(!snapshot_has_stream(&snapshot, 1));
    assert!(snapshot_has_stream(&snapshot, 2));
}

#[test]
fn test_resigned_guardian_can_be_readded() {
    let (mut env, admin, token) = init(100);
    let g = env.generate();
    env.grant_role(&admin, &admin, Role::GuardianManager).unwrap();
    env.add_guardian(&admin, &g).unwrap();
    env.mint(&token, &g, 200);
    env.lock_tokens(&g, 200).unwrap();
    env.request_unlock(&g).unwrap();
    let timelock = env.c.get_withdrawal_timelock(g).unwrap();
    env.set_timestamp(timelock + 86401);
    env.resign_guardian(&g).unwrap();
    assert!(!env.c.is_guardian(g));
    assert_eq!(env.get_snapshot_meta().guardian_count, 0);
    assert_eq!(env.get_guardians_page(0, 50).len(), 0);
    env.add_guardian(&admin, &g).unwrap();
    assert!(env.c.is_guardian(g));
    assert_eq!(env.get_snapshot_meta().guardian_count, 1);
    assert_eq!(env.get_guardians_page(0, 50).len(), 1);
}

fn scaling_setup() -> (Ledger, Address) {
    let (mut env, admin, _token) = init(0);
    env.grant_role(&admin, &admin, Role::GuardianManager).unwrap();
    env.grant_role(&admin, &admin, Role::TaskManager).unwrap();
    (env, admin)
}

fn add_guardians(env: &mut Ledger, admin: &Address, count: u32) {
    for _ in 0..count {
        let g = env.generate();
        env.add_guardian(admin, &g).unwrap();
        env.set_reputation(admin, &g, 100).unwrap();
    }
}

fn add_tasks(env: &mut Ledger, admin: &Address, count: u32, start_id: u64) {
    for i in 0..count {
        env.register_task(admin, start_id + i as u64, 1).unwrap();
    }
}

#[test]
fn get_snapshot_rejects_oversized_guardian_collection() {
    let (mut env, admin) = scaling_setup();
    add_guardians(&mut env, &admin, 201);
    assert_eq!(env.get_snapshot().err(), Some(ContractError::SnapshotTooLarge));
    assert_eq!(env.record_snapshot(), Err(ContractError::SnapshotTooLarge));
}

#[test]
fn guardians_page_cost_stays_bounded_past_the_snapshot_cap() {
    for size in [50u32, 100u32, 1000u32] {
        let (mut env, admin) = scaling_setup();
        add_guardians(&mut env, &admin, size);
        assert_eq!(env.get_snapshot_meta().guardian_count, size);
        let page = env.get_guardians_page(0, 50);
        assert_eq!(page.len() as u32, size.min(50));
    }
    let (mut env, admin) = scaling_setup();
    add_guardians(&mut env, &admin, 1000);
    assert_eq!(env.get_snapshot().err(), Some(ContractError::SnapshotTooLarge));
    assert_eq!(env.get_guardians_page(500, 50).len(), 50);
}

#[test]
fn tasks_page_cost_stays_bounded_past_the_snapshot_cap() {
    for size in [50u32, 100u32, 1000u32] {
        let (mut env, admin) = scaling_setup();
        add_tasks(&mut env, &admin, size, 1);
        let page = env.get_tasks_page(0, 50);
        assert_eq!(page.len() as u32, size.min(50));
    }
    let (mut env, admin) = scaling_setup();
    add_tasks(&mut env, &admin, 1000, 1);
    assert_eq!(env.get_snapshot().err(), Some(ContractError::SnapshotTooLarge));
    assert_eq!(env.get_tasks_page(500, 50).len(), 50);
}

#[test]
fn page_limit_is_capped_server_side() {
    let (mut env, admin) = scaling_setup();
    add_guardians(&mut env, &admin, 80);
    let page = env.get_guardians_page(0, 10_000);
    assert_eq!(page.len(), 50, "limit must be capped at MAX_PAGE_LIMIT");
}

#[test]
fn test_batch_execute_rejects_batch_over_budget() {
    let (mut env, admin, _token) = init(0);
    env.grant_role(&admin, &admin, Role::GuardianManager).unwrap();
    env.grant_role(&admin, &admin, Role::ConfigManager).unwrap();
    env.grant_role(&admin, &admin, Role::TaskManager).unwrap();
    let vault = env.generate();
    env.set_vault_address(&admin, &vault).unwrap();
    let calls: Vec<BatchCall> = (1..=80u64).map(|id| BatchCall::RegisterTask(admin, id, 1)).collect();
    assert_eq!(env.batch_execute(&calls), Err(ContractError::BatchTooLarge));
    assert!(env.c.get_task(1).is_none());
    assert!(env.c.get_task(80).is_none());
}
