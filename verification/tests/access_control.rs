//! Role-based access control and address validation of the entry points.
use std::collections::HashMap;
use vero_core_contracts::events::{Effect, Event};
use vero_core_contracts::types::{
    Address, BatchCall, ContractError, GuardianEntry, RewardStream, Role, Snapshot, SnapshotMeta,
    Task, WasmHash,
};
use vero_core_contracts::VeroContract;

/// A ledger around one contract instance: the clock, the token balances the
/// contract's transfers move, the Drips contracts that accept streams, and
/// the events published so far.
#[allow(dead_code)]
struct Ledger {
    c: VeroContract,
    me: Address,
    now: u64,
    seq: u32,
    next: u128,
    balances: HashMap<(Address, Address), i128>,
    drips: Vec<Address>,
    vault_ok: bool,
    events: Vec<Event>,
    upgraded_to: Option<WasmHash>,
}

type R = Result<(), ContractError>;

#[allow(dead_code)]
impl Ledger {
    fn new() -> Ledger {
        let me = Address::contract(7, 7);
        Ledger {
            c: VeroContract::new(me),
            me,
            now: 0,
            seq: 0,
            next: 100,
            balances: HashMap::new(),
            drips: Vec::new(),
            vault_ok: true,
            events: Vec::new(),
            upgraded_to: None,
        }
    }

    fn generate(&mut self) -> Address {
        self.next += 1;
        Address::account(0, self.next)
    }

    fn generate_contract(&mut self) -> Address {
        self.next += 1;
        Address::contract(0, self.next)
    }

    /// A contract that accepts `start_stream` calls.
    fn register_drips(&mut self) -> Address {
        let d = self.generate_contract();
        self.drips.push(d);
        d
    }

    fn mint(&mut self, token: &Address, to: &Address, amount: i128) {
        *self.balances.entry((*token, *to)).or_insert(0) += amount;
    }

    fn balance(&self, token: &Address, who: &Address) -> i128 {
        *self.balances.get(&(*token, *who)).unwrap_or(&0)
    }

    /// Carries out the effects of an accepted call; a transfer the token
    /// refuses aborts the invocation.
    fn run(&mut self, r: Result<Vec<Effect>, ContractError>) -> R {
        let fx = r?;
        for e in fx {
            match e {
                Effect::Publish(ev) => self.events.push(ev),
                Effect::Transfer { token, from, to, amount } => {
                    assert!(amount >= 0, "negative amount is not allowed");
                    let have = self.balance(&token, &from);
                    assert!(have >= amount, "balance is not sufficient to spend");
                    self.balances.insert((token, from), have - amount);
                    self.mint(&token, &to, amount);
                },
                Effect::ReleaseVault { task_id, .. } => {
                    if self.vault_ok {
                        self.events.push(Event::VaultReleaseSucceeded { task_id });
                    } else {
                        self.events.push(Event::VaultReleaseFailed { task_id });
                    }
                },
                Effect::UpdateWasm { wasm_hash } => self.upgraded_to = Some(wasm_hash),
            }
        }
        Ok(())
    }

    fn set_timestamp(&mut self, t: u64) {
        self.now = t;
    }

    fn set_sequence(&mut self, s: u32) {
        self.seq = s;
    }

    fn initialize(&mut self, admin: &Address, token: &Address, lock_threshold: i128) -> R {
        let r = self.c.initialize(*admin, *token, lock_threshold);
        self.run(r)
    }

    fn grant_role(&mut self, caller: &Address, target: &Address, role: Role) -> R {
        let r = self.c.grant_role(*caller, *target, role);
        self.run(r)
    }

    fn revoke_role(&mut self, caller: &Address, target: &Address, role: Role) -> R {
        let r = self.c.revoke_role(*caller, *target, role);
        self.run(r)
    }

    fn add_guardian(&mut self, admin: &Address, g: &Address) -> R {
        let r = self.c.add_guardian(*admin, *g);
        self.run(r)
    }

    fn remove_guardian(&mut self, admin: &Address, g: &Address) -> R {
        let r = self.c.remove_guardian(*admin, *g);
        self.run(r)
    }

    fn set_reputation(&mut self, admin: &Address, g: &Address, score: u64) -> R {
        let r = self.c.set_reputation(*admin, *g, score);
        self.run(r)
    }

    fn set_weight_threshold(&mut self, admin: &Address, t: u64) -> R {
        let r = self.c.set_weight_threshold(*admin, t);
        self.run(r)
    }

    fn set_vault_address(&mut self, admin: &Address, vault: &Address) -> R {
        let r = self.c.set_vault_address(*admin, *vault);
        self.run(r)
    }

    fn set_fee_bps(&mut self, admin: &Address, bps: u32) -> R {
        let r = self.c.set_fee_bps(*admin, bps);
        self.run(r)
    }

    fn set_treasury_address(&mut self, admin: &Address, treasury: &Address) -> R {
        let r = self.c.set_treasury_address(*admin, *treasury);
        self.run(r)
    }

    fn register_task(&mut self, admin: &Address, id: u64, min_votes: u32) -> R {
        let r = self.c.register_task(*admin, id, min_votes);
        self.run(r)
    }

    fn register_tasks(&mut self, admin: &Address, ids: &[u64], min_votes: u32) -> R {
        let r = self.c.register_tasks(*admin, &ids.to_vec(), min_votes);
        self.run(r)
    }

    fn cancel_task(&mut self, admin: &Address, id: u64) -> R {
        assert!(!self.c.cancel_task_aborts(*admin, id), "cancelling a resolved task aborts");
        let r = self.c.cancel_task(*admin, id);
        self.run(r)
    }

    fn purge_task(&mut self, admin: &Address, id: u64) -> R {
        let r = self.c.purge_task(*admin, id);
        self.run(r)
    }

    fn archive_task(&mut self, admin: &Address, id: u64) -> R {
        let now = self.now;
        let r = self.c.archive_task(*admin, id, now);
        self.run(r)
    }

    fn vote(&mut self, g: &Address, id: u64) -> R {
        let now = self.now;
        let r = self.c.vote(*g, id, now);
        self.run(r)
    }

    fn vote_batch(&mut self, g: &Address, ids: &[u64]) -> R {
        let now = self.now;
        let r = self.c.vote_batch(*g, &ids.to_vec(), now);
        self.run(r)
    }

    fn lock_tokens(&mut self, g: &Address, amount: i128) -> R {
        assert!(!self.c.lock_tokens_aborts(*g, amount), "arithmetic overflow");
        let r = self.c.lock_tokens(*g, amount);
        self.run(r)
    }

    fn request_unlock(&mut self, g: &Address) -> R {
        let now = self.now;
        let r = self.c.request_unlock(*g, now);
        self.run(r)
    }

    fn unlock_tokens(&mut self, g: &Address) -> R {
        let now = self.now;
        assert!(!self.c.unlock_tokens_aborts(*g, now), "arithmetic overflow");
        let r = self.c.unlock_tokens(*g, now);
        self.run(r)
    }

    fn resign_guardian(&mut self, g: &Address) -> R {
        let now = self.now;
        assert!(!self.c.resign_guardian_aborts(*g, now), "arithmetic overflow");
        let r = self.c.resign_guardian(*g, now);
        self.run(r)
    }

    fn emergency_recover(&mut self, admin: &Address, recipient: &Address, amount: i128) -> R {
        let r = self.c.emergency_recover(*admin, *recipient, amount);
        self.run(r)
    }

    fn pause(&mut self, admin: &Address) -> R {
        let r = self.c.pause(*admin);
        self.run(r)
    }

    fn unpause(&mut self, admin: &Address) -> R {
        let r = self.c.unpause(*admin);
        self.run(r)
    }

    fn toggle_pause(&mut self, admin: &Address) -> R {
        let r = self.c.toggle_pause(*admin);
        self.run(r)
    }

    fn record_failure(&mut self, reporter: &Address) -> R {
        let seq = self.seq;
        let r = self.c.record_failure(*reporter, seq);
        self.run(r)
    }

    fn set_trusted_reporters_only(&mut self, admin: &Address, enabled: bool) -> R {
        let r = self.c.set_trusted_reporters_only(*admin, enabled);
        self.run(r)
    }

    fn reset_circuit_breaker(&mut self, admin: &Address) -> R {
        let r = self.c.reset_circuit_breaker(*admin);
        self.run(r)
    }

    /// Runs the checks, makes the Drips call, and records the stream if the
    /// call went through.
    fn start_reward_stream(&mut self, admin: &Address, drips: &Address, contributor: &Address, id: u64) -> R {
        let call = self.c.reward_stream_call(*admin, *drips, *contributor, id)?;
        let ok = self.drips.contains(&call.drips);
        let r = self.c.start_reward_stream(*admin, *drips, *contributor, id, ok);
        self.run(r)
    }

    fn upgrade_contract(&mut self, admin: &Address, hash: WasmHash) -> R {
        let r = self.c.upgrade_contract(*admin, hash);
        self.run(r)
    }

    fn set_upgrade_signers(&mut self, admin: &Address, signers: &[Address], threshold: u32) -> R {
        let r = self.c.set_upgrade_signers(*admin, &signers.to_vec(), threshold);
        self.run(r)
    }

    fn propose_upgrade(&mut self, signer: &Address, hash: WasmHash) -> R {
        let r = self.c.propose_upgrade(*signer, hash);
        self.run(r)
    }

    fn approve_upgrade(&mut self, signer: &Address) -> R {
        let r = self.c.approve_upgrade(*signer);
        self.run(r)
    }

    fn execute_upgrade(&mut self) -> R {
        let r = self.c.execute_upgrade();
        self.run(r)
    }

    fn cancel_upgrade(&mut self, admin: &Address) -> R {
        let r = self.c.cancel_upgrade(*admin);
        self.run(r)
    }

    fn record_snapshot(&mut self) -> R {
        let now = self.now;
        let r = self.c.record_snapshot(now);
        self.run(r)
    }

    fn get_snapshot(&self) -> Result<Snapshot, ContractError> {
        self.c.get_snapshot(self.now)
    }

    fn get_snapshot_meta(&self) -> SnapshotMeta {
        self.c.get_snapshot_meta(self.now)
    }

    fn get_guardians_page(&self, offset: u32, limit: u32) -> Vec<GuardianEntry> {
        self.c.get_guardians_page(offset, limit)
    }

    fn get_tasks_page(&self, offset: u32, limit: u32) -> Vec<Task> {
        self.c.get_tasks_page(offset, limit)
    }

    fn get_reward_streams_page(&self, offset: u32, limit: u32) -> Vec<RewardStream> {
        self.c.get_reward_streams_page(offset, limit)
    }

    /// Replaces the live task record `t.id` as a storage write would.
    fn overwrite_task(&mut self, t: Task) {
        let mut p = self.c.to_parts();
        for e in p.tasks.iter_mut() {
            if e.0 == t.id {
                e.1 = t;
            }
        }
        self.c = VeroContract::from_parts(p).expect("state stays well formed");
    }

    /// Runs a batch: the cost bound, then each call in order; a refusal
    /// restores the state from before the batch.
    fn batch_execute(&mut self, calls: &[BatchCall]) -> R {
        let calls = calls.to_vec();
        vero_core_contracts::contract::batch::check_batch_cost(&calls)?;
        let saved = self.c.to_parts();
        let saved_balances = self.balances.clone();
        let saved_events = self.events.len();
        for call in calls.iter() {
            let now = self.now;
            let seq = self.seq;
            assert!(self.c.call_admissible(call, now), "the call aborts the invocation");
            let drips_ok = match call {
                BatchCall::StartRewardStream(admin, drips, contributor, id) => {
                    match self.c.reward_stream_call(*admin, *drips, *contributor, *id) {
                        Ok(c) => self.drips.contains(&c.drips),
                        Err(_) => false,
                    }
                },
                _ => false,
            };
            let r = self.c.execute_call(call, now, seq, drips_ok);
            if let Err(e) = self.run(r) {
                self.c = VeroContract::from_parts(saved).expect("saved state is well formed");
                self.balances = saved_balances;
                self.events.truncate(saved_events);
                return Err(e);
            }
        }
        Ok(())
    }
}

/// A test WASM hash with every byte equal to `b`.
#[allow(dead_code)]
fn wasm(b: u8) -> WasmHash {
    let h = u128::from_be_bytes([b; 16]);
    WasmHash { hi: h, lo: h }
}

const LOCK_THRESHOLD: i128 = 100;

fn setup() -> (Ledger, Address, Address) {
    let mut env = Ledger::new();
    let admin = env.generate();
    let token = env.generate_contract();
    env.initialize(&admin, &token, LOCK_THRESHOLD).unwrap();
    env.grant_role(&admin, &admin, Role::GuardianManager).unwrap();
    env.grant_role(&admin, &admin, Role::TaskManager).unwrap();
    env.grant_role(&admin, &admin, Role::ConfigManager).unwrap();
    env.grant_role(&admin, &admin, Role::EmergencyManager).unwrap();
    env.grant_role(&admin, &admin, Role::TreasuryManager).unwrap();
    (env, admin, token)
}

/// Trips the breaker the legitimate way: eleven distinct reporters, each
/// respecting the cooldown and the quota.
fn trip_circuit_breaker(env: &mut Ledger) {
    let reporters: Vec<Address> = (0..11).map(|_| env.generate()).collect();
    let mut recorded = 0;
    'outer: for round in 0..5u32 {
        let s = env.seq + 20 * (round + 1);
        env.set_sequence(s);
        for r in &reporters {
            if recorded > vero_core_contracts::FAILURE_THRESHOLD {
                break 'outer;
            }
            env.record_failure(r).unwrap();
            recorded += 1;
        }
    }
}

fn zero_address() -> Address {
    Address::zero()
}

#[test]
fn test_initialize_grants_admin_role_to_deployer() {
    let (env, admin, _token) = setup();
    assert!(env.c.has_role(admin, Role::Admin));
}

#[test]
fn test_admin_can_grant_guardian_manager_role() {
    let (mut env, admin, _token) = setup();
    let m = env.generate();
    env.grant_role(&admin, &m, Role::GuardianManager).unwrap();
    assert!(env.c.has_role(m, Role::GuardianManager));
}

#[test]
fn test_admin_can_grant_task_manager_role() {
    let (mut env, admin, _token) = setup();
    let m = env.generate();
    env.grant_role(&admin, &m, Role::TaskManager).unwrap();
    assert!(env.c.has_role(m, Role::TaskManager));
}

#[test]
fn test_admin_can_grant_config_manager_role() {
    let (mut env, admin, _token) = setup();
    let m = env.generate();
    env.grant_role(&admin, &m, Role::ConfigManager).unwrap();
    assert!(env.c.has_role(m, Role::ConfigManager));
}

#[test]
fn test_admin_can_grant_emergency_manager_role() {
    let (mut env, admin, _token) = setup();
    let m = env.generate();
    env.grant_role(&admin, &m, Role::EmergencyManager).unwrap();
    assert!(env.c.has_role(m, Role::EmergencyManager));
}

#[test]
fn test_admin_can_grant_treasury_manager_role() {
    let (mut env, admin, _token) = setup();
    let m = env.generate();
    env.grant_role(&admin, &m, Role::TreasuryManager).unwrap();
    assert!(env.c.has_role(m, Role::TreasuryManager));
}

#[test]
fn test_admin_can_grant_admin_role_to_another_address() {
    let (mut env, admin, _token) = setup();
    let m = env.generate();
    env.grant_role(&admin, &m, Role::Admin).unwrap();
    assert!(env.c.has_role(m, Role::Admin));
}

#[test]
fn test_admin_can_revoke_role() {
    let (mut env, admin, _token) = setup();
    let m = env.generate();
    env.grant_role(&admin, &m, Role::TaskManager).unwrap();
    assert!(env.c.has_role(m, Role::TaskManager));
    env.revoke_role(&admin, &m, Role::TaskManager).unwrap();
    assert!(!env.c.has_role(m, Role::TaskManager));
}

#[test]
fn test_revoking_one_role_does_not_affect_other_roles() {
    let (mut env, admin, _token) = setup();
    let m = env.generate();
    env.grant_role(&admin, &m, Role::TaskManager).unwrap();
    env.grant_role(&admin, &m, Role::ConfigManager).unwrap();
    env.revoke_role(&admin, &m, Role::TaskManager).unwrap();
    assert!(!env.c.has_role(m, Role::TaskManager));
    assert!(env.c.has_role(m, Role::ConfigManager));
}

#[test]
fn test_cannot_revoke_last_admin_role() {
    let (mut env, admin, _token) = setup();
    let result = env.revoke_role(&admin, &admin, Role::Admin);
    assert!(result.is_err());
    assert_eq!(result, Err(ContractError::LastAdminRemovalBlocked));
    assert!(env.c.has_role(admin, Role::Admin));
}

#[test]
fn test_can_revoke_admin_when_multiple_admins_exist() {
    let (mut env, admin, _token) = setup();
    let second = env.generate();
    env.add_guardian(&admin, &second).unwrap();
    env.grant_role(&admin, &second, Role::Admin).unwrap();
    let result = env.revoke_role(&admin, &admin, Role::Admin);
    assert!(result.is_ok());
    assert!(!env.c.has_role(admin, Role::Admin));
    assert!(env.c.has_role(second, Role::Admin));
}

#[test]
fn test_non_admin_cannot_grant_role() {
    let (mut env, _admin, _token) = setup();
    let stranger = env.generate();
    let target = env.generate();
    let result = env.grant_role(&stranger, &target, Role::TaskManager);
    assert!(result.is_err());
    assert!(!env.c.has_role(target, Role::TaskManager));
}

#[test]
fn test_non_admin_cannot_revoke_role() {
    let (mut env, admin, _token) = setup();
    let m = env.generate();
    let stranger = env.generate();
    env.grant_role(&admin, &m, Role::TaskManager).unwrap();
    let result = env.revoke_role(&stranger, &m, Role::TaskManager);
    assert!(result.is_err());
    assert!(env.c.has_role(m, Role::TaskManager));
}

#[test]
fn test_guardian_manager_can_add_guardian() {
    let (mut env, admin, _token) = setup();
    let m = env.generate();
    let g = env.generate();
    env.grant_role(&admin, &m, Role::GuardianManager).unwrap();
    assert!(env.add_guardian(&m, &g).is_ok());
    assert!(env.c.is_guardian(g));
}

#[test]
fn test_non_guardian_manager_cannot_add_guardian() {
    let (mut env, _admin, _token) = setup();
    let stranger = env.generate();
    let g = env.generate();
    assert!(env.add_guardian(&stranger, &g).is_err());
    assert!(!env.c.is_guardian(g));
}

#[test]
fn test_guardian_manager_can_remove_guardian() {
    let (mut env, admin, _token) = setup();
    let m = env.generate();
    let g = env.generate();
    env.grant_role(&admin, &m, Role::GuardianManager).unwrap();
    env.add_guardian(&m, &g).unwrap();
    assert!(env.remove_guardian(&m, &g).is_ok());
    assert!(!env.c.is_guardian(g));
}

#[test]
fn test_non_guardian_manager_cannot_remove_guardian() {
    let (mut env, admin, _token) = setup();
    let m = env.generate();
    let stranger = env.generate();
    let g = env.generate();
    env.grant_role(&admin, &m, Role::GuardianManager).unwrap();
    env.add_guardian(&m, &g).unwrap();
    assert!(env.remove_guardian(&stranger, &g).is_err());
    assert!(env.c.is_guardian(g));
}

#[test]
fn test_guardian_manager_can_set_reputation() {
    let (mut env, admin, _token) = setup();
    let m = env.generate();
    let g = env.generate();
    env.grant_role(&admin, &m, Role::GuardianManager).unwrap();
    env.add_guardian(&m, &g).unwrap();
    assert!(env.set_reputation(&m, &g, 300).is_ok());
    assert_eq!(env.c.get_reputation(g), Some(300));
}

#[test]
fn test_non_guardian_manager_cannot_set_reputation() {
    let (mut env, admin, _token) = setup();
    let m = env.generate();
    let stranger = env.generate();
    let g = env.generate();
    env.grant_role(&admin, &m, Role::GuardianManager).unwrap();
    env.add_guardian(&m, &g).unwrap();
    assert!(env.set_reputation(&stranger, &g, 300).is_err());
    assert_eq!(env.c.get_reputation(g), None);
}

#[test]
fn test_task_manager_can_register_task() {
    let (mut env, admin, _token) = setup();
    let m = env.generate();
    env.grant_role(&admin, &m, Role::TaskManager).unwrap();
    assert!(env.register_task(&m, 1, 1).is_ok());
    assert!(env.c.get_task(1).is_some());
}

#[test]
fn test_non_task_manager_cannot_register_task() {
    let (mut env, _admin, _token) = setup();
    let stranger = env.generate();
    assert!(env.register_task(&stranger, 1, 1).is_err());
    assert!(env.c.get_task(1).is_none());
}

#[test]
fn test_task_manager_can_cancel_task() {
    let (mut env, admin, _token) = setup();
    let m = env.generate();
    env.grant_role(&admin, &m, Role::TaskManager).unwrap();
    env.register_task(&m, 1, 1).unwrap();
    assert!(env.cancel_task(&m, 1).is_ok());
    assert!(env.c.get_task(1).unwrap().is_cancelled);
}

#[test]
fn test_non_task_manager_cannot_cancel_task() {
    let (mut env, admin, _token) = setup();
    let m = env.generate();
    let stranger = env.generate();
    env.grant_role(&admin, &m, Role::TaskManager).unwrap();
    env.register_task(&m, 1, 1).unwrap();
    assert!(env.cancel_task(&stranger, 1).is_err());
    assert!(!env.c.get_task(1).unwrap().is_cancelled);
}

#[test]
fn test_task_manager_can_purge_task() {
    let (mut env, admin, _token) = setup();
    let m = env.generate();
    env.grant_role(&admin, &m, Role::TaskManager).unwrap();
    env.register_task(&m, 1, 1).unwrap();
    env.cancel_task(&m, 1).unwrap();
    assert!(env.purge_task(&m, 1).is_ok());
    assert!(env.c.get_task(1).is_none());
}

#[test]
fn test_non_task_manager_cannot_purge_task() {
    let (mut env, admin, _token) = setup();
    let m = env.generate();
    let stranger = env.generate();
    env.grant_role(&admin, &m, Role::TaskManager).unwrap();
    env.register_task(&m, 1, 1).unwrap();
    env.cancel_task(&m, 1).unwrap();
    assert!(env.purge_task(&stranger, 1).is_err());
    assert!(env.c.get_task(1).is_some());
}

#[test]
fn test_config_manager_can_set_weight_threshold() {
    let (mut env, admin, _token) = setup();
    let m = env.generate();
    env.grant_role(&admin, &m, Role::ConfigManager).unwrap();
    assert!(env.set_weight_threshold(&m, 500).is_ok());
    assert_eq!(env.c.get_weight_threshold(), 500);
}

#[test]
fn test_non_config_manager_cannot_set_weight_threshold() {
    let (mut env, _admin, _token) = setup();
    let stranger = env.generate();
    assert!(env.set_weight_threshold(&stranger, 500).is_err());
    assert_eq!(env.c.get_weight_threshold(), 300);
}

#[test]
fn test_config_manager_can_set_vault_address() {
    let (mut env, admin, _token) = setup();
    let m = env.generate();
    let vault = env.generate();
    env.grant_role(&admin, &m, Role::ConfigManager).unwrap();
    env.set_vault_address(&m, &vault).unwrap();
    assert_eq!(env.get_snapshot().unwrap().vault_address, Some(vault));
}

#[test]
fn test_non_config_manager_cannot_set_vault_address() {
    let (mut env, _admin, _token) = setup();
    let stranger = env.generate();
    let vault = env.generate();
    let result = env.set_vault_address(&stranger, &vault);
    assert_eq!(result, Err(ContractError::NotAuthorized));
    assert_eq!(env.get_snapshot().unwrap().vault_address, None);
}

#[test]
fn test_set_vault_address_rejected_while_paused() {
    let (mut env, admin, _token) = setup();
    let vault = env.generate();
    env.pause(&admin).unwrap();
    assert!(env.c.is_paused());
    let result = env.set_vault_address(&admin, &vault);
    assert_eq!(result, Err(ContractError::ContractPaused));
    assert_eq!(env.get_snapshot().unwrap().vault_address, None);
}

#[test]
fn test_upgrade_contract_rejects_non_admin() {
    let (mut env, _admin, _token) = setup();
    let stranger = env.generate();
    let result = env.upgrade_contract(&stranger, wasm(1));
    assert_eq!(result, Err(ContractError::NotAuthorized));
}

#[test]
fn test_emergency_manager_can_pause() {
    let (mut env, admin, _token) = setup();
    let m = env.generate();
    env.grant_role(&admin, &m, Role::EmergencyManager).unwrap();
    assert!(env.pause(&m).is_ok());
    assert!(env.c.is_paused());
}

#[test]
fn test_non_emergency_manager_cannot_pause() {
    let (mut env, _admin, _token) = setup();
    let stranger = env.generate();
    assert!(env.pause(&stranger).is_err());
    assert!(!env.c.is_paused());
}

#[test]
fn test_emergency_manager_can_unpause() {
    let (mut env, admin, _token) = setup();
    let m = env.generate();
    env.grant_role(&admin, &m, Role::EmergencyManager).unwrap();
    env.pause(&m).unwrap();
    assert!(env.unpause(&m).is_ok());
    assert!(!env.c.is_paused());
}

#[test]
fn test_non_emergency_manager_cannot_unpause() {
    let (mut env, admin, _token) = setup();
    let m = env.generate();
    let stranger = env.generate();
    env.grant_role(&admin, &m, Role::EmergencyManager).unwrap();
    env.pause(&m).unwrap();
    assert!(env.unpause(&stranger).is_err());
    assert!(env.c.is_paused());
}

#[test]
fn test_emergency_manager_can_toggle_pause() {
    let (mut env, admin, _token) = setup();
    let m = env.generate();
    env.grant_role(&admin, &m, Role::EmergencyManager).unwrap();
    env.toggle_pause(&m).unwrap();
    assert!(env.c.is_paused());
    env.toggle_pause(&m).unwrap();
    assert!(!env.c.is_paused());
}

#[test]
fn test_emergency_manager_can_reset_circuit_breaker() {
    let (mut env, admin, _token) = setup();
    let m = env.generate();
    env.grant_role(&admin, &m, Role::EmergencyManager).unwrap();
    trip_circuit_breaker(&mut env);
    assert!(env.c.is_paused());
    env.reset_circuit_breaker(&m).unwrap();
    assert!(!env.c.is_paused());
}

#[test]
fn test_non_emergency_manager_cannot_reset_circuit_breaker() {
    let (mut env, _admin, _token) = setup();
    let stranger = env.generate();
    trip_circuit_breaker(&mut env);
    assert!(env.c.is_paused());
    assert!(env.reset_circuit_breaker(&stranger).is_err());
    assert!(env.c.is_paused());
}

#[test]
fn test_emergency_recover_bypasses_pause() {
    let (mut env, admin, token) = setup();
    let m = env.generate();
    let recipient = env.generate();
    env.grant_role(&admin, &m, Role::EmergencyManager).unwrap();
    let me = env.me;
    env.mint(&token, &me, 1000);
    env.pause(&m).unwrap();
    assert!(env.c.is_paused());
    assert!(env.emergency_recover(&m, &recipient, 500).is_ok());
    assert_eq!(env.balance(&token, &recipient), 500);
    assert_eq!(env.balance(&token, &me), 500);
}

#[test]
fn test_emergency_recover_bypasses_circuit_breaker_trip() {
    let (mut env, admin, token) = setup();
    let m = env.generate();
    let recipient = env.generate();
    env.grant_role(&admin, &m, Role::EmergencyManager).unwrap();
    let me = env.me;
    env.mint(&token, &me, 1000);
    trip_circuit_breaker(&mut env);
    assert!(env.c.is_paused());
    assert!(env.emergency_recover(&m, &recipient, 400).is_ok());
    assert_eq!(env.balance(&token, &recipient), 400);
}

fn resolve_task_one(env: &mut Ledger, admin: &Address, token: &Address, manager: &Address) {
    env.register_task(manager, 1, 1).unwrap();
    let g = env.generate();
    env.add_guardian(admin, &g).unwrap();
    env.set_reputation(admin, &g, 300).unwrap();
    env.set_weight_threshold(admin, 1).unwrap();
    env.mint(token, &g, 101);
    env.lock_tokens(&g, 101).unwrap();
    env.vote(&g, 1).unwrap();
}

#[test]
fn test_treasury_manager_role_required_for_reward_stream() {
    let (mut env, admin, token) = setup();
    let m = env.generate();
    let contributor = env.generate();
    let drips = env.generate();
    env.grant_role(&admin, &m, Role::TreasuryManager).unwrap();
    env.grant_role(&admin, &m, Role::TaskManager).unwrap();
    resolve_task_one(&mut env, &admin, &token, &m);
    let result = env.start_reward_stream(&m, &drips, &contributor, 1);
    assert!(result.is_err());
    assert_eq!(result, Err(ContractError::DripsCallFailed));
}

#[test]
fn test_non_treasury_manager_cannot_start_reward_stream() {
    let (mut env, admin, token) = setup();
    let stranger = env.generate();
    let contributor = env.generate();
    let drips = env.generate();
    resolve_task_one(&mut env, &admin, &token, &admin);
    let result = env.start_reward_stream(&stranger, &drips, &contributor, 1);
    assert!(result.is_err());
}

#[test]
fn test_admin_can_set_upgrade_signers() {
    let (mut env, admin, _token) = setup();
    let s = env.generate();
    assert!(env.set_upgrade_signers(&admin, &[s], 1).is_ok());
    assert_eq!(env.c.get_upgrade_threshold(), 1);
}

#[test]
fn test_non_admin_cannot_set_upgrade_signers() {
    let (mut env, _admin, _token) = setup();
    let stranger = env.generate();
    let s = env.generate();
    assert!(env.set_upgrade_signers(&stranger, &[s], 1).is_err());
    assert_eq!(env.c.get_upgrade_threshold(), 0);
}

#[test]
fn test_admin_can_cancel_upgrade() {
    let (mut env, admin, _token) = setup();
    let s = env.generate();
    env.set_upgrade_signers(&admin, &[s], 1).unwrap();
    env.propose_upgrade(&s, wasm(1)).unwrap();
    assert!(env.cancel_upgrade(&admin).is_ok());
}

#[test]
fn test_non_admin_cannot_cancel_upgrade() {
    let (mut env, admin, _token) = setup();
    let stranger = env.generate();
    let s = env.generate();
    env.set_upgrade_signers(&admin, &[s], 1).unwrap();
    env.propose_upgrade(&s, wasm(1)).unwrap();
    assert!(env.cancel_upgrade(&stranger).is_err());
}

#[test]
fn test_address_can_hold_multiple_roles() {
    let (mut env, admin, _token) = setup();
    let u = env.generate();
    env.grant_role(&admin, &u, Role::TaskManager).unwrap();
    env.grant_role(&admin, &u, Role::ConfigManager).unwrap();
    assert!(env.c.has_role(u, Role::TaskManager));
    assert!(env.c.has_role(u, Role::ConfigManager));
    env.register_task(&u, 1, 1).unwrap();
    env.set_weight_threshold(&u, 400).unwrap();
    assert!(env.c.get_task(1).is_some());
    assert_eq!(env.c.get_weight_threshold(), 400);
}

#[test]
fn test_backward_compatibility_admin_retains_all_powers() {
    let (mut env, admin, _token) = setup();
    let g = env.generate();
    let vault = env.generate();
    env.grant_role(&admin, &admin, Role::GuardianManager).unwrap();
    env.grant_role(&admin, &admin, Role::TaskManager).unwrap();
    env.grant_role(&admin, &admin, Role::ConfigManager).unwrap();
    env.grant_role(&admin, &admin, Role::EmergencyManager).unwrap();
    env.add_guardian(&admin, &g).unwrap();
    env.set_reputation(&admin, &g, 300).unwrap();
    env.register_task(&admin, 1, 1).unwrap();
    env.cancel_task(&admin, 1).unwrap();
    env.set_weight_threshold(&admin, 500).unwrap();
    env.set_vault_address(&admin, &vault).unwrap();
    env.pause(&admin).unwrap();
    env.unpause(&admin).unwrap();
    assert!(env.c.is_guardian(g));
    assert_eq!(env.c.get_reputation(g), Some(300));
    assert!(env.c.get_task(1).unwrap().is_cancelled);
    assert_eq!(env.c.get_weight_threshold(), 500);
}

#[test]
fn test_adding_duplicate_guardian_is_rejected() {
    let (mut env, admin, _token) = setup();
    let g = env.generate();
    env.add_guardian(&admin, &g).unwrap();
    assert!(env.c.is_guardian(g));
    let result = env.add_guardian(&admin, &g);
    assert!(result.is_err(), "duplicate guardian add must be rejected");
    assert_eq!(result, Err(ContractError::DuplicateGuardian));
}

#[test]
fn test_removed_guardian_can_be_re_added() {
    let (mut env, admin, _token) = setup();
    let g = env.generate();
    env.add_guardian(&admin, &g).unwrap();
    env.remove_guardian(&admin, &g).unwrap();
    assert!(!env.c.is_guardian(g));
    assert!(env.add_guardian(&admin, &g).is_ok(), "re-adding a removed guardian must succeed");
    assert!(env.c.is_guardian(g));
}

#[test]
fn test_guardian_rotation_preserves_other_guardians() {
    let (mut env, admin, _token) = setup();
    let g1 = env.generate();
    let g2 = env.generate();
    let g3 = env.generate();
    env.add_guardian(&admin, &g1).unwrap();
    env.add_guardian(&admin, &g2).unwrap();
    env.add_guardian(&admin, &g3).unwrap();
    env.remove_guardian(&admin, &g2).unwrap();
    assert!(env.c.is_guardian(g1));
    assert!(!env.c.is_guardian(g2));
    assert!(env.c.is_guardian(g3));
    assert!(env.add_guardian(&admin, &g2).is_ok());
    assert!(env.c.is_guardian(g2));
}

#[test]
fn test_grant_role_rejects_zero_target() {
    let (mut env, admin, _token) = setup();
    let zero = zero_address();
    assert_eq!(env.grant_role(&admin, &zero, Role::TaskManager), Err(ContractError::InvalidAddress));
    assert!(!env.c.has_role(zero, Role::TaskManager));
}

#[test]
fn test_revoke_role_rejects_zero_target() {
    let (mut env, admin, _token) = setup();
    let zero = zero_address();
    assert_eq!(env.revoke_role(&admin, &zero, Role::TaskManager), Err(ContractError::InvalidAddress));
}

#[test]
fn test_grant_role_rejects_zero_caller() {
    let (mut env, _admin, _token) = setup();
    let zero = zero_address();
    let target = env.generate();
    assert_eq!(env.grant_role(&zero, &target, Role::TaskManager), Err(ContractError::InvalidAddress));
    assert!(!env.c.has_role(target, Role::TaskManager));
}

#[test]
fn test_legitimate_role_assignment_still_works() {
    let (mut env, admin, _token) = setup();
    let target = env.generate();
    env.grant_role(&admin, &target, Role::TaskManager).unwrap();
    assert!(env.c.has_role(target, Role::TaskManager));
}

#[test]
fn test_add_guardian_rejects_zero_guardian() {
    let (mut env, admin, _token) = setup();
    let zero = zero_address();
    assert_eq!(env.add_guardian(&admin, &zero), Err(ContractError::InvalidAddress));
    assert!(!env.c.is_guardian(zero));
}

#[test]
fn test_remove_guardian_rejects_zero_guardian() {
    let (mut env, admin, _token) = setup();
    let zero = zero_address();
    assert_eq!(env.remove_guardian(&admin, &zero), Err(ContractError::InvalidAddress));
}

#[test]
fn test_set_reputation_rejects_zero_guardian() {
    let (mut env, admin, _token) = setup();
    let zero = zero_address();
    assert_eq!(env.set_reputation(&admin, &zero, 300), Err(ContractError::InvalidAddress));
}

#[test]
fn test_set_treasury_address_rejects_zero_treasury() {
    let (mut env, admin, _token) = setup();
    let zero = zero_address();
    assert_eq!(env.set_treasury_address(&admin, &zero), Err(ContractError::InvalidAddress));
}

#[test]
fn test_start_reward_stream_rejects_zero_contributor() {
    let (mut env, admin, _token) = setup();
    let zero = zero_address();
    let drips = env.generate();
    assert_eq!(env.start_reward_stream(&admin, &drips, &zero, 1), Err(ContractError::InvalidAddress));
}

#[test]
fn test_set_fee_bps_rejects_zero_admin() {
    let (mut env, _admin, _token) = setup();
    let zero = zero_address();
    assert_eq!(env.set_fee_bps(&zero, 100), Err(ContractError::InvalidAddress));
}

#[test]
fn test_register_task_rejects_zero_admin() {
    let (mut env, _admin, _token) = setup();
    let zero = zero_address();
    assert_eq!(env.register_task(&zero, 1, 1), Err(ContractError::InvalidAddress));
    assert!(env.c.get_task(1).is_none());
}

#[test]
fn test_cancel_task_rejects_zero_admin() {
    let (mut env, admin, _token) = setup();
    let zero = zero_address();
    env.register_task(&admin, 1, 1).unwrap();
    assert_eq!(env.cancel_task(&zero, 1), Err(ContractError::InvalidAddress));
    assert!(!env.c.get_task(1).unwrap().is_cancelled);
}

#[test]
fn test_vote_rejects_zero_guardian() {
    let (mut env, admin, _token) = setup();
    let zero = zero_address();
    env.register_task(&admin, 1, 1).unwrap();
    assert_eq!(env.vote(&zero, 1), Err(ContractError::InvalidAddress));
}

#[test]
fn test_lock_tokens_rejects_zero_guardian() {
    let (mut env, _admin, _token) = setup();
    let zero = zero_address();
    assert_eq!(env.lock_tokens(&zero, 100), Err(ContractError::InvalidAddress));
}

#[test]
fn test_set_upgrade_signers_rejects_zero_signer() {
    let (mut env, admin, _token) = setup();
    let zero = zero_address();
    let valid = env.generate();
    assert_eq!(env.set_upgrade_signers(&admin, &[valid, zero], 2), Err(ContractError::InvalidAddress));
}

#[test]
fn test_propose_upgrade_rejects_zero_signer() {
    let (mut env, _admin, _token) = setup();
    let zero = zero_address();
    assert_eq!(env.propose_upgrade(&zero, wasm(1)), Err(ContractError::InvalidAddress));
}
