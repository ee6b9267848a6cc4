//! Sweeps over boundary inputs.
use std::collections::HashMap;
use vero_core_contracts::events::{Effect, Event};
use vero_core_contracts::types::{
    Address, BatchCall, ContractError, GuardianEntry, RewardStream, Role, Snapshot, SnapshotMeta,
    Task, WasmHash,
};
use vero_core_contracts::limits::{MAX_REPUTATION_SCORE, MAX_TASK_ID};
use vero_core_contracts::VeroContract;
use vero_core_contracts::MAX_WEIGHT_THRESHOLD;

/// A ledger around one contract instance: the clock, the token balances the
/// contract's transfers move, the Drips contracts that accept streams, and
/// the events published so far.
#[allow(dead_code)]
struct Ledger {
    c: VeroContract,
    me: Address,
    now: u64,
    seq: u32,
    next: u128,
    balances: HashMap<(Address, Address), i128>,
    drips: Vec<Address>,
    vault_ok: bool,
    events: Vec<Event>,
    upgraded_to: Option<WasmHash>,
}

type R = Result<(), ContractError>;

#[allow(dead_code)]
impl Ledger {
    fn new() -> Ledger {
        let me = Address::contract(7, 7);
        Ledger {
            c: VeroContract::new(me),
            me,
            now: 0,
            seq: 0,
            next: 100,
            balances: HashMap::new(),
            drips: Vec::new(),
            vault_ok: true,
            events: Vec::new(),
            upgraded_to: None,
        }
    }

    fn generate(&mut self) -> Address {
        self.next += 1;
        Address::account(0, self.next)
    }

    fn generate_contract(&mut self) -> Address {
        self.next += 1;
        Address::contract(0, self.next)
    }

    /// A contract that accepts `start_stream` calls.
    fn register_drips(&mut self) -> Address {
        let d = self.generate_contract();
        self.drips.push(d);
        d
    }

    fn mint(&mut self, token: &Address, to: &Address, amount: i128) {
        *self.balances.entry((*token, *to)).or_insert(0) += amount;
    }

    fn balance(&self, token: &Address, who: &Address) -> i128 {
        *self.balances.get(&(*token, *who)).unwrap_or(&0)
    }

    /// Carries out the effects of an accepted call; a transfer the token
    /// refuses aborts the invocation.
    fn run(&mut self, r: Result<Vec<Effect>, ContractError>) -> R {
        let fx = r?;
        for e in fx {
            match e {
                Effect::Publish(ev) => self.events.push(ev),
                Effect::Transfer { token, from, to, amount } => {
                    assert!(amount >= 0, "negative amount is not allowed");
                    let have = self.balance(&token, &from);
                    assert!(have >= amount, "balance is not sufficient to spend");
                    self.balances.insert((token, from), have - amount);
                    self.mint(&token, &to, amount);
                },
                Effect::ReleaseVault { task_id, .. } => {
                    if self.vault_ok {
                        self.events.push(Event::VaultReleaseSucceeded { task_id });
                    } else {
                        self.events.push(Event::VaultReleaseFailed { task_id });
                    }
                },
                Effect::UpdateWasm { wasm_hash } => self.upgraded_to = Some(wasm_hash),
            }
        }
        Ok(())
    }

    fn set_timestamp(&mut self, t: u64) {
        self.now = t;
    }

    fn set_sequence(&mut self, s: u32) {
        self.seq = s;
    }

    fn initialize(&mut self, admin: &Address, token: &Address, lock_threshold: i128) -> R {
        let r = self.c.initialize(*admin, *token, lock_threshold);
        self.run(r)
    }

    fn grant_role(&mut self, caller: &Address, target: &Address, role: Role) -> R {
        let r = self.c.grant_role(*caller, *target, role);
        self.run(r)
    }

    fn revoke_role(&mut self, caller: &Address, target: &Address, role: Role) -> R {
        let r = self.c.revoke_role(*caller, *target, role);
        self.run(r)
    }

    fn add_guardian(&mut self, admin: &Address, g: &Address) -> R {
        let r = self.c.add_guardian(*admin, *g);
        self.run(r)
    }

    fn remove_guardian(&mut self, admin: &Address, g: &Address) -> R {
        let r = self.c.remove_guardian(*admin, *g);
        self.run(r)
    }

    fn set_reputation(&mut self, admin: &Address, g: &Address, score: u64) -> R {
        let r = self.c.set_reputation(*admin, *g, score);
        self.run(r)
    }

    fn set_weight_threshold(&mut self, admin: &Address, t: u64) -> R {
        let r = self.c.set_weight_threshold(*admin, t);
        self.run(r)
    }

    fn set_vault_address(&mut self, admin: &Address, vault: &Address) -> R {
        let r = self.c.set_vault_address(*admin, *vault);
        self.run(r)
    }

    fn set_fee_bps(&mut self, admin: &Address, bps: u32) -> R {
        let r = self.c.set_fee_bps(*admin, bps);
        self.run(r)
    }

    fn set_treasury_address(&mut self, admin: &Address, treasury: &Address) -> R {
        let r = self.c.set_treasury_address(*admin, *treasury);
        self.run(r)
    }

    fn register_task(&mut self, admin: &Address, id: u64, min_votes: u32) -> R {
        let r = self.c.register_task(*admin, id, min_votes);
        self.run(r)
    }

    fn register_tasks(&mut self, admin: &Address, ids: &[u64], min_votes: u32) -> R {
        let r = self.c.register_tasks(*admin, &ids.to_vec(), min_votes);
        self.run(r)
    }

    fn cancel_task(&mut self, admin: &Address, id: u64) -> R {
        assert!(!self.c.cancel_task_aborts(*admin, id), "cancelling a resolved task aborts");
        let r = self.c.cancel_task(*admin, id);
        self.run(r)
    }

    fn purge_task(&mut self, admin: &Address, id: u64) -> R {
        let r = self.c.purge_task(*admin, id);
        self.run(r)
    }

    fn archive_task(&mut self, admin: &Address, id: u64) -> R {
        let now = self.now;
        let r = self.c.archive_task(*admin, id, now);
        self.run(r)
    }

    fn vote(&mut self, g: &Address, id: u64) -> R {
        let now = self.now;
        let r = self.c.vote(*g, id, now);
        self.run(r)
    }

    fn vote_batch(&mut self, g: &Address, ids: &[u64]) -> R {
        let now = self.now;
        let r = self.c.vote_batch(*g, &ids.to_vec(), now);
        self.run(r)
    }

    fn lock_tokens(&mut self, g: &Address, amount: i128) -> R {
        assert!(!self.c.lock_tokens_aborts(*g, amount), "arithmetic overflow");
        let r = self.c.lock_tokens(*g, amount);
        self.run(r)
    }

    fn request_unlock(&mut self, g: &Address) -> R {
        let now = self.now;
        let r = self.c.request_unlock(*g, now);
        self.run(r)
    }

    fn unlock_tokens(&mut self, g: &Address) -> R {
        let now = self.now;
        assert!(!self.c.unlock_tokens_aborts(*g, now), "arithmetic overflow");
        let r = self.c.unlock_tokens(*g, now);
        self.run(r)
    }

    fn resign_guardian(&mut self, g: &Address) -> R {
        let now = self.now;
        assert!(!self.c.resign_guardian_aborts(*g, now), "arithmetic overflow");
        let r = self.c.resign_guardian(*g, now);
        self.run(r)
    }

    fn emergency_recover(&mut self, admin: &Address, recipient: &Address, amount: i128) -> R {
        let r = self.c.emergency_recover(*admin, *recipient, amount);
        self.run(r)
    }

    fn pause(&mut self, admin: &Address) -> R {
        let r = self.c.pause(*admin);
        self.run(r)
    }

    fn unpause(&mut self, admin: &Address) -> R {
        let r = self.c.unpause(*admin);
        self.run(r)
    }

    fn toggle_pause(&mut self, admin: &Address) -> R {
        let r = self.c.toggle_pause(*admin);
        self.run(r)
    }

    fn record_failure(&mut self, reporter: &Address) -> R {
        let seq = self.seq;
        let r = self.c.record_failure(*reporter, seq);
        self.run(r)
    }

    fn set_trusted_reporters_only(&mut self, admin: &Address, enabled: bool) -> R {
        let r = self.c.set_trusted_reporters_only(*admin, enabled);
        self.run(r)
    }

    fn reset_circuit_breaker(&mut self, admin: &Address) -> R {
        let r = self.c.reset_circuit_breaker(*admin);
        self.run(r)
    }

    /// Runs the checks, makes the Drips call, and records the stream if the
    /// call went through.
    fn start_reward_stream(&mut self, admin: &Address, drips: &Address, contributor: &Address, id: u64) -> R {
        let call = self.c.reward_stream_call(*admin, *drips, *contributor, id)?;
        let ok = self.drips.contains(&call.drips);
        let r = self.c.start_reward_stream(*admin, *drips, *contributor, id, ok);
        self.run(r)
    }

    fn upgrade_contract(&mut self, admin: &Address, hash: WasmHash) -> R {
        let r = self.c.upgrade_contract(*admin, hash);
        self.run(r)
    }

    fn set_upgrade_signers(&mut self, admin: &Address, signers: &[Address], threshold: u32) -> R {
        let r = self.c.set_upgrade_signers(*admin, &signers.to_vec(), threshold);
        self.run(r)
    }

    fn propose_upgrade(&mut self, signer: &Address, hash: WasmHash) -> R {
        let r = self.c.propose_upgrade(*signer, hash);
        self.run(r)
    }

    fn approve_upgrade(&mut self, signer: &Address) -> R {
        let r = self.c.approve_upgrade(*signer);
        self.run(r)
    }

    fn execute_upgrade(&mut self) -> R {
        let r = self.c.execute_upgrade();
        self.run(r)
    }

    fn cancel_upgrade(&mut self, admin: &Address) -> R {
        let r = self.c.cancel_upgrade(*admin);
        self.run(r)
    }

    fn record_snapshot(&mut self) -> R {
        let now = self.now;
        let r = self.c.record_snapshot(now);
        self.run(r)
    }

    fn get_snapshot(&self) -> Result<Snapshot, ContractError> {
        self.c.get_snapshot(self.now)
    }

    fn get_snapshot_meta(&self) -> SnapshotMeta {
        self.c.get_snapshot_meta(self.now)
    }

    fn get_guardians_page(&self, offset: u32, limit: u32) -> Vec<GuardianEntry> {
        self.c.get_guardians_page(offset, limit)
    }

    fn get_tasks_page(&self, offset: u32, limit: u32) -> Vec<Task> {
        self.c.get_tasks_page(offset, limit)
    }

    fn get_reward_streams_page(&self, offset: u32, limit: u32) -> Vec<RewardStream> {
        self.c.get_reward_streams_page(offset, limit)
    }

    /// Replaces the live task record `t.id` as a storage write would.
    fn overwrite_task(&mut self, t: Task) {
        let mut p = self.c.to_parts();
        for e in p.tasks.iter_mut() {
            if e.0 == t.id {
                e.1 = t;
            }
        }
        self.c = VeroContract::from_parts(p).expect("state stays well formed");
    }

    /// Runs a batch: the cost bound, then each call in order; a refusal
    /// restores the state from before the batch.
    fn batch_execute(&mut self, calls: &[BatchCall]) -> R {
        let calls = calls.to_vec();
        vero_core_contracts::contract::batch::check_batch_cost(&calls)?;
        let saved = self.c.to_parts();
        let saved_balances = self.balances.clone();
        let saved_events = self.events.len();
        for call in calls.iter() {
            let now = self.now;
            let seq = self.seq;
            assert!(self.c.call_admissible(call, now), "the call aborts the invocation");
            let drips_ok = match call {
                BatchCall::StartRewardStream(admin, drips, contributor, id) => {
                    match self.c.reward_stream_call(*admin, *drips, *contributor, *id) {
                        Ok(c) => self.drips.contains(&c.drips),
                        Err(_) => false,
                    }
                },
                _ => false,
            };
            let r = self.c.execute_call(call, now, seq, drips_ok);
            if let Err(e) = self.run(r) {
                self.c = VeroContract::from_parts(saved).expect("saved state is well formed");
                self.balances = saved_balances;
                self.events.truncate(saved_events);
                return Err(e);
            }
        }
        Ok(())
    }
}

/// A test WASM hash with every byte equal to `b`.
#[allow(dead_code)]
fn wasm(b: u8) -> WasmHash {
    let h = u128::from_be_bytes([b; 16]);
    WasmHash { hi: h, lo: h }
}

/// An initialized contract whose admin holds every management role.
fn setup_fuzz_env() -> (Ledger, Address, Address) {
    let mut env = Ledger::new();
    let admin = env.generate();
    let token = env.generate_contract();
    env.initialize(&admin, &token, 0).unwrap();
    for role in [
        Role::GuardianManager,
        Role::TaskManager,
        Role::ConfigManager,
        Role::EmergencyManager,
        Role::TreasuryManager,
    ] {
        env.grant_role(&admin, &admin, role).unwrap();
    }
    (env, admin, token)
}

fn add_guardian(env: &mut Ledger, admin: &Address, score: u64) -> Address {
    let g = env.generate();
    env.add_guardian(admin, &g).unwrap();
    env.set_reputation(admin, &g, score).unwrap();
    g
}

fn lock_tokens(env: &mut Ledger, token: &Address, g: &Address, amount: i128) {
    env.mint(token, g, amount);
    env.lock_tokens(g, amount).unwrap();
}

#[test]
fn fuzz_reputation_boundaries() {
    let (mut env, admin, _token) = setup_fuzz_env();
    let guardian = env.generate();
    env.add_guardian(&admin, &guardian).unwrap();
    let scores: Vec<u64> = vec![1, 99, 100, 101, 299, 300, 301, 1000, 10000, u64::MAX / 2, u64::MAX - 100];
    for score in scores {
        if env.set_reputation(&admin, &guardian, score).is_ok() {
            assert_eq!(env.c.get_reputation(guardian), Some(score));
        }
    }
}

#[test]
fn fuzz_token_lock_amounts() {
    let amounts: Vec<i128> = vec![1, 2, 99, 100, 101, 1000, 1000000, 1000000000, i128::MAX / 2];
    for amount in amounts {
        let (mut env, admin, token) = setup_fuzz_env();
        let guardian = add_guardian(&mut env, &admin, 100);
        env.mint(&token, &guardian, amount);
        if env.lock_tokens(&guardian, amount).is_ok() && env.register_task(&admin, 1, 1).is_ok() {
            let _ = env.vote(&guardian, 1);
        }
    }
}

#[test]
fn fuzz_weight_threshold_combinations() {
    let thresholds: Vec<u64> = vec![1, 10, 50, 100, 200, 300, 500, 1000, 5000, 10000];
    let reputations: Vec<u64> = vec![1, 50, 100, 150, 200, 300, 500, 1000];
    for threshold in &thresholds {
        for reputation in &reputations {
            let (mut env, admin, token) = setup_fuzz_env();
            env.set_weight_threshold(&admin, *threshold).unwrap();
            let guardian = add_guardian(&mut env, &admin, *reputation);
            env.register_task(&admin, 1, 1).unwrap();
            lock_tokens(&mut env, &token, &guardian, 101);
            if env.vote(&guardian, 1).is_ok() {
                let task = env.c.get_task(1).unwrap();
                if *reputation >= *threshold {
                    assert!(task.is_done, "rep {} >= threshold {}", reputation, threshold);
                }
            }
        }
    }
}

#[test]
fn fuzz_multi_guardian_voting() {
    let scenarios: Vec<(usize, Vec<u64>)> = vec![
        (2, vec![100, 100]),
        (2, vec![150, 150]),
        (2, vec![200, 200]),
        (3, vec![100, 100, 100]),
        (3, vec![50, 100, 150]),
        (3, vec![100, 200, 300]),
        (5, vec![50, 60, 70, 80, 90]),
        (5, vec![100; 5]),
        (10, vec![30; 10]),
    ];
    for (count, reputations) in scenarios {
        let (mut env, admin, token) = setup_fuzz_env();
        env.set_weight_threshold(&admin, 300).unwrap();
        let mut guardians = Vec::new();
        for rep in &reputations {
            let g = add_guardian(&mut env, &admin, *rep);
            lock_tokens(&mut env, &token, &g, 101);
            guardians.push(g);
        }
        env.register_task(&admin, 1, 1).unwrap();
        let mut total_weight = 0u64;
        for (idx, g) in guardians.iter().enumerate() {
            if env.vote(g, 1).is_ok() {
                total_weight += reputations[idx];
            }
        }
        let task = env.c.get_task(1).unwrap();
        if total_weight >= 300 && total_weight > 0 {
            assert!(task.is_done, "total_weight {} from {} guardians", total_weight, count);
        }
    }
}

#[test]
fn fuzz_pause_transitions() {
    let (mut env, admin, _token) = setup_fuzz_env();
    for _ in 0..10 {
        env.toggle_pause(&admin).unwrap();
        assert!(env.c.is_paused());
        let g = env.generate();
        assert!(env.add_guardian(&admin, &g).is_err(), "Should reject operation while paused");
        env.toggle_pause(&admin).unwrap();
        assert!(!env.c.is_paused());
        assert!(env.add_guardian(&admin, &g).is_ok(), "Should accept operation while unpaused");
    }
}

#[test]
fn fuzz_batch_task_registration() {
    let (mut env, admin, _token) = setup_fuzz_env();
    for batch_size in [1usize, 2, 5, 10, 20, 50, 100] {
        let mut registered = 0;
        for i in 0..batch_size {
            let id = (batch_size * 1000 + i) as u64;
            if env.register_task(&admin, id, 1).is_ok() {
                registered += 1;
            }
        }
        assert!(registered > 0, "batch of {} should register at least one task", batch_size);
    }
}

#[test]
fn fuzz_state_consistency() {
    let (mut env, admin, token) = setup_fuzz_env();
    env.set_weight_threshold(&admin, 300).unwrap();
    let g1 = add_guardian(&mut env, &admin, 100);
    let g2 = add_guardian(&mut env, &admin, 100);
    let g3 = add_guardian(&mut env, &admin, 100);
    lock_tokens(&mut env, &token, &g1, 101);
    lock_tokens(&mut env, &token, &g2, 101);
    lock_tokens(&mut env, &token, &g3, 101);
    for id in 1..=5u64 {
        env.register_task(&admin, id, 1).unwrap();
    }
    env.vote(&g1, 1).unwrap();
    env.vote(&g2, 1).unwrap();
    env.vote(&g3, 1).unwrap();
    assert!(env.c.get_task(1).unwrap().is_done);
    env.vote(&g1, 2).unwrap();
    env.vote(&g2, 2).unwrap();
    assert!(!env.c.get_task(2).unwrap().is_done);
    env.vote(&g3, 2).unwrap();
    assert!(env.c.get_task(2).unwrap().is_done);
    assert_eq!(env.c.get_task(1).unwrap().votes, 3);
    assert_eq!(env.c.get_task(2).unwrap().votes, 3);
}

#[test]
fn fuzz_reward_stream_states() {
    let (mut env, admin, _token) = setup_fuzz_env();
    let contributor = env.generate();
    let drips = env.generate();
    assert!(env.start_reward_stream(&admin, &drips, &contributor, 999).is_err(), "non-existent task");
    env.register_task(&admin, 1, 1).unwrap();
    assert!(env.start_reward_stream(&admin, &drips, &contributor, 1).is_err(), "unresolved task");
}

#[test]
fn task_ids_at_range_edges() {
    let (mut env, admin, _token) = setup_fuzz_env();
    let ids: Vec<u64> = vec![
        1,
        2,
        255,
        256,
        65535,
        65536,
        16777215,
        16777216,
        4294967295,
        4294967296,
        u64::MAX / 2,
    ];
    for task_id in ids {
        assert!(task_id <= MAX_TASK_ID);
        assert!(env.register_task(&admin, task_id, 1).is_ok(), "task_id {} should be valid", task_id);
        assert!(env.c.get_task(task_id).is_some(), "task {} should exist", task_id);
    }
    assert_eq!(env.register_task(&admin, u64::MAX - 1, 1), Err(ContractError::InvalidConfig));
    assert!(env.c.get_task(u64::MAX - 1).is_none());
    assert_eq!(env.register_task(&admin, 0, 1), Err(ContractError::InvalidConfig));
}

#[test]
fn repeated_vote_refused_at_largest_weights() {
    let (mut env, admin, token) = setup_fuzz_env();
    assert_eq!(env.set_weight_threshold(&admin, u64::MAX), Err(ContractError::InvalidRange));
    env.set_weight_threshold(&admin, MAX_WEIGHT_THRESHOLD).unwrap();
    let guardian = add_guardian(&mut env, &admin, MAX_REPUTATION_SCORE);
    lock_tokens(&mut env, &token, &guardian, 1000);
    env.register_task(&admin, 1, 1).unwrap();
    assert!(env.vote(&guardian, 1).is_ok());
    assert_eq!(env.vote(&guardian, 1), Err(ContractError::DuplicateVote));
    let task = env.c.get_task(1).unwrap();
    assert_eq!(task.total_weight_accrued, MAX_REPUTATION_SCORE);
    assert!(!task.is_done);
}

#[test]
fn fuzz_numeric_boundary_inputs() {
    let (mut env, admin, _token) = setup_fuzz_env();
    let zero_result = env.set_weight_threshold(&admin, 0);
    assert!(zero_result.is_err(), "Zero threshold should be rejected");
    let _ = env.set_weight_threshold(&admin, u64::MAX);
    for _ in 0..5 {
        let guardian = env.generate();
        env.add_guardian(&admin, &guardian).unwrap();
        assert!(env.c.is_guardian(guardian));
    }
    let contract_addr = env.me;
    let self_result = env.add_guardian(&admin, &contract_addr);
    assert!(self_result.is_err(), "Contract address should not be a guardian");
}

#[test]
fn another_contract_may_be_a_guardian() {
    let (mut env, admin, _token) = setup_fuzz_env();
    let me = env.me;
    assert_eq!(env.add_guardian(&admin, &me), Err(ContractError::InvalidAddress));
    assert_eq!(env.set_weight_threshold(&admin, 0), Err(ContractError::InvalidAmount));
    let other_contract = env.generate_contract();
    assert!(env.add_guardian(&admin, &other_contract).is_ok());
    assert!(env.c.is_guardian(other_contract));
}
