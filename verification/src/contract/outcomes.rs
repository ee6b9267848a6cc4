//! What each accepted operation does, stated over the state before and
//! after it and the values it gives back.
use super::breaker::{
    step_record_failure, step_reset_circuit_breaker, FAILURE_THRESHOLD, MAX_REPORTS_PER_REPORTER,
    MIN_DISTINCT_REPORTERS, REPORT_COOLDOWN_LEDGERS,
};
use super::config::{
    step_initialize, step_set_fee_bps, step_set_paused, step_set_treasury_address,
    step_set_vault_address, step_set_weight_threshold, step_toggle_pause,
};
use super::guardians::{step_add_guardian, step_remove_guardian, step_set_reputation};
use super::migrate::{step_migrate_storage, CURRENT_VERSION};
use super::rbac::{step_grant_role, step_revoke_role};
use super::rewards::step_start_reward_stream;
use super::snapshot::{
    guardian_entry, live_tasks, meta_of, snapshot_of, step_record_snapshot, too_large, window,
};
use super::tokens::{
    fee_bps_of, fee_on, fee_split, lock_aborts, step_emergency_recover, step_lock_tokens,
    step_request_unlock, step_resign_guardian, step_unlock_tokens,
};
use super::voting::{lemma_cast_vote_frame, locked_balance, step_vote};
use super::tasks::{
    step_archive_task, step_cancel_task, step_purge_task, step_register_task, step_register_tasks,
};
use super::upgrade::{
    step_approve_upgrade, step_cancel_upgrade, step_execute_upgrade, step_propose_upgrade,
    step_set_upgrade_signers, step_upgrade_contract,
};
use super::{ext_ok, holds, view_wf, weight_threshold_of, Config, ContractView};
use crate::events::{Effect, Event};
use crate::keymap::lemma_remove_unique;
use crate::limits::{
    ARCHIVE_AFTER_SECONDS, MAX_FEE_BPS, MAX_PAGE_LIMIT, MAX_REPUTATION_SCORE, MAX_WEIGHT_THRESHOLD,
};
use crate::types::{Address, ContractError, RewardStream, Role, Task, VoteKey, WasmHash};
use vstd::prelude::*;

verus! {

/// A task as registered: no votes, no weight, neither resolved nor
/// cancelled.
pub open spec fn is_fresh_task(t: Task, id: u64, min_votes_required: u32) -> bool {
    &&& t.id == id
    &&& t.votes == 0
    &&& t.total_weight_accrued == 0
    &&& !t.is_done
    &&& t.resolved_at == 0
    &&& !t.is_cancelled
    &&& t.min_votes_required == min_votes_required
}

/// An accepted `register_task` adds one fresh task under an id that was
/// neither live nor archived, appends the id to the task list, and leaves
/// every other task and the archive as they were.
pub proof fn law_register_task_adds_fresh_task(v: ContractView, admin: Address, id: u64, min_votes: u32)
    requires
        step_register_task(v, admin, id, min_votes).1 is Ok,
    ensures
        ({
            let w = step_register_task(v, admin, id, min_votes).0;
            &&& !v.tasks.contains_key(id) && !v.archived.contains_key(id)
            &&& w.tasks.contains_key(id)
            &&& is_fresh_task(w.tasks[id], id, min_votes)
            &&& w.task_ids == v.task_ids.push(id)
            &&& w.archived == v.archived
            &&& forall|k: u64|
                k != id ==> (#[trigger] w.tasks.contains_key(k) == v.tasks.contains_key(k)) && (
                v.tasks.contains_key(k) ==> w.tasks[k] == v.tasks[k])
        }),
{
    let ids = seq![id];
    assert(ids[0] == id);
    assert(v.task_ids + ids =~= v.task_ids.push(id));
    assert forall|k: u64| k != id implies !ids.contains(k) by {}
}

/// An accepted `register_tasks` adds one fresh task per listed id, appends
/// the ids in order, and leaves every other task and the archive as they
/// were.
pub proof fn law_register_tasks_adds_fresh_tasks(
    v: ContractView,
    admin: Address,
    ids: Seq<u64>,
    min_votes: u32,
)
    requires
        step_register_tasks(v, admin, ids, min_votes).1 is Ok,
    ensures
        ({
            let w = step_register_tasks(v, admin, ids, min_votes).0;
            &&& 1 <= ids.len()
            &&& ids.no_duplicates()
            &&& w.task_ids == v.task_ids + ids
            &&& w.archived == v.archived
            &&& forall|i: int|
                0 <= i < ids.len() ==> !v.tasks.contains_key(#[trigger] ids[i]) && !v.archived.contains_key(
                    ids[i],
                ) && w.tasks.contains_key(ids[i]) && is_fresh_task(w.tasks[ids[i]], ids[i], min_votes)
            &&& forall|k: u64|
                !ids.contains(k) ==> (#[trigger] w.tasks.contains_key(k) == v.tasks.contains_key(k)) && (
                v.tasks.contains_key(k) ==> w.tasks[k] == v.tasks[k])
        }),
{
    let w = step_register_tasks(v, admin, ids, min_votes).0;
    assert forall|i: int| 0 <= i < ids.len() implies !v.tasks.contains_key(#[trigger] ids[i])
        && !v.archived.contains_key(ids[i]) && w.tasks.contains_key(ids[i]) && is_fresh_task(
        w.tasks[ids[i]],
        ids[i],
        min_votes,
    ) by {
        assert(ids.contains(ids[i]));
    }
}

/// An accepted `cancel_task` marks a live task cancelled and changes nothing
/// else about it or about any other task.
pub proof fn law_cancel_task_marks_cancelled(v: ContractView, admin: Address, id: u64)
    requires
        step_cancel_task(v, admin, id).1 is Ok,
    ensures
        ({
            let w = step_cancel_task(v, admin, id).0;
            let t = v.tasks[id];
            let u = w.tasks[id];
            &&& v.tasks.contains_key(id) && !t.is_cancelled
            &&& w.tasks.contains_key(id) && u.is_cancelled
            &&& u.id == t.id && u.votes == t.votes && u.is_done == t.is_done
            &&& u.resolved_at == t.resolved_at && u.total_weight_accrued == t.total_weight_accrued
            &&& u.min_votes_required == t.min_votes_required
            &&& w.tasks.dom() == v.tasks.dom()
            &&& forall|k: u64| k != id && #[trigger] v.tasks.contains_key(k) ==> w.tasks[k] == v.tasks[k]
            &&& w.archived == v.archived && w.votes == v.votes && w.task_ids == v.task_ids
        }),
{
    let w = step_cancel_task(v, admin, id).0;
    assert(w.tasks.dom() =~= v.tasks.dom());
}

/// An accepted `archive_task` moves a resolved task that has been resolved
/// for at least `ARCHIVE_AFTER_SECONDS` out of the live store and into the
/// archive unchanged (votes, weight and resolution time included); every
/// other task, the votes and the task list stay as they were.
pub proof fn law_archive_moves_task_unchanged(v: ContractView, admin: Address, id: u64, now: u64)
    requires
        view_wf(v),
        step_archive_task(v, admin, id, now).1 is Ok,
    ensures
        ({
            let w = step_archive_task(v, admin, id, now).0;
            &&& v.tasks.contains_key(id) && !v.archived.contains_key(id)
            &&& v.tasks[id].is_done
            &&& now >= v.tasks[id].resolved_at && now - v.tasks[id].resolved_at >= ARCHIVE_AFTER_SECONDS
            &&& w.archived.contains_key(id) && w.archived[id] == v.tasks[id]
            &&& !w.tasks.contains_key(id)
            &&& forall|k: u64|
                k != id ==> (#[trigger] w.tasks.contains_key(k) == v.tasks.contains_key(k)) && (
                v.tasks.contains_key(k) ==> w.tasks[k] == v.tasks[k]) && (w.archived.contains_key(k)
                == v.archived.contains_key(k)) && (v.archived.contains_key(k) ==> w.archived[k]
                == v.archived[k])
            &&& w.votes == v.votes && w.task_ids == v.task_ids && w.streams == v.streams
        }),
{
}

/// A snapshot is the state at the moment it is taken: its header is the
/// pause flag, failure count, vote threshold and configured addresses of
/// the state; it lists exactly the registered guardians with their
/// reputations, the live tasks, the votes on tracked tasks and the reward
/// streams.
pub proof fn law_snapshot_is_the_state(v: ContractView, now: u64)
    ensures
        ({
            let s = snapshot_of(v, now);
            &&& s.timestamp == now
            &&& s.paused == v.config.paused
            &&& s.failure_count == v.failure_count
            &&& s.weight_threshold == (match v.config.weight_threshold {
                Some(t) => t,
                None => crate::DEFAULT_WEIGHT_THRESHOLD,
            })
            &&& s.admin == v.config.admin
            &&& s.vault_address == v.config.vault
            &&& s.drips_address == v.config.drips
            &&& forall|g: Address| #[trigger]
                s.guardians.contains_key(g) <==> v.guardians.contains(g)
            &&& forall|g: Address| #[trigger] s.guardians.contains_key(g) ==> s.guardians[g]
            &&& forall|g: Address| #[trigger]
                s.reputations.contains_key(g) <==> (v.guardians.contains(g)
                    && v.reputations.contains_key(g))
            &&& forall|g: Address| #[trigger]
                s.reputations.contains_key(g) ==> s.reputations[g] == v.reputations[g]
            &&& s.tasks == v.tasks
            &&& forall|k: VoteKey| #[trigger]
                s.votes.contains(k) <==> (v.votes.contains(k) && v.task_ids.contains(k.task_id))
            &&& s.reward_streams == v.streams
        }),
{
}

/// The snapshot header agrees with the full snapshot taken at the same
/// time, and counts the registered guardians, tracked tasks and reward
/// streams.
pub proof fn law_meta_agrees_with_snapshot(v: ContractView, now: u64)
    requires
        view_wf(v),
    ensures
        ({
            let m = meta_of(v, now);
            let s = snapshot_of(v, now);
            &&& m.timestamp == s.timestamp && m.paused == s.paused
            &&& m.failure_count == s.failure_count && m.failure_count == v.failure_count
            &&& m.weight_threshold == s.weight_threshold
            &&& m.admin == s.admin && m.vault_address == s.vault_address
            &&& m.drips_address == s.drips_address
            &&& m.guardian_count == v.guardians.len()
            &&& m.task_count == v.task_ids.len()
            &&& m.reward_stream_count == v.stream_ids.len()
        }),
{
}

/// An accepted `record_snapshot` stores a snapshot whose failure count is
/// the contract's failure count at that moment.
pub proof fn law_recorded_snapshot_failure_count(v: ContractView, now: u64)
    requires
        step_record_snapshot(v, now).1 is Ok,
    ensures
        ({
            let w = step_record_snapshot(v, now).0;
            &&& !too_large(v)
            &&& w.snapshots[now].failure_count == v.failure_count
            &&& w.snapshots[now].paused == v.config.paused
            &&& w.snapshots[now].tasks == v.tasks
            &&& w.failure_count == v.failure_count
        }),
{
}

/// The positions of a page: from `offset`, at most `limit` (capped at
/// `MAX_PAGE_LIMIT`) of them, and none past the end.
pub open spec fn page_len(offset: u32, limit: u32, count: int) -> int {
    let lim = if limit > MAX_PAGE_LIMIT { MAX_PAGE_LIMIT as int } else { limit as int };
    if offset >= count {
        0
    } else if count - offset < lim {
        count - offset
    } else {
        lim
    }
}

/// A page of a list holds the list's elements from `offset` on, in order,
/// as many as `page_len` allows.
pub proof fn law_page_is_a_slice<T>(s: Seq<T>, offset: u32, limit: u32)
    ensures
        window(s, offset, limit).len() == page_len(offset, limit, s.len() as int),
        forall|i: int|
            0 <= i < window(s, offset, limit).len() ==> #[trigger] window(s, offset, limit)[i] == s[offset
                + i],
{
}

/// Each entry of a guardians page names the guardian in its slot, marks it
/// registered, and carries its reputation: `Some(score)` when one is set,
/// `None` otherwise (what `get_reputation` answers for that address).
pub proof fn law_guardians_page_entries(v: ContractView, offset: u32, limit: u32)
    requires
        view_wf(v),
    ensures
        ({
            let page = window(v.guardian_slots, offset, limit).map_values(
                |g: Address| guardian_entry(v, g),
            );
            &&& page.len() == page_len(offset, limit, v.guardian_slots.len() as int)
            &&& forall|i: int|
                0 <= i < page.len() ==> {
                    let e = #[trigger] page[i];
                    &&& e.address == v.guardian_slots[offset + i]
                    &&& e.is_guardian
                    &&& e.reputation == (if v.reputations.contains_key(e.address) {
                        Some(v.reputations[e.address])
                    } else {
                        None
                    })
                }
        }),
{
    let page = window(v.guardian_slots, offset, limit).map_values(|g: Address| guardian_entry(v, g));
    assert forall|i: int| 0 <= i < page.len() implies {
        let e = #[trigger] page[i];
        &&& e.address == v.guardian_slots[offset + i]
        &&& e.is_guardian
        &&& e.reputation == (if v.reputations.contains_key(e.address) {
            Some(v.reputations[e.address])
        } else {
            None
        })
    } by {
        let g = v.guardian_slots[offset + i];
        assert(v.guardian_slots.contains(g));
    }
}

/// Each entry of a reward streams page is the stream of the task in its
/// position of the stream list.
pub proof fn law_streams_page_entries(v: ContractView, offset: u32, limit: u32)
    ensures
        ({
            let page = window(v.stream_ids, offset, limit).map_values(|id: u64| v.streams[id]);
            &&& page.len() == page_len(offset, limit, v.stream_ids.len() as int)
            &&& forall|i: int|
                0 <= i < page.len() ==> #[trigger] page[i] == v.streams[v.stream_ids[offset + i]]
        }),
{
}

/// An accepted `cancel_upgrade` leaves no pending proposal: a following
/// `execute_upgrade` is refused with `NoPendingUpgrade`, and the signers
/// and quorum stay as they were.
pub proof fn law_cancel_upgrade_clears_proposal(v: ContractView, admin: Address)
    requires
        step_cancel_upgrade(v, admin).1 is Ok,
    ensures
        ({
            let w = step_cancel_upgrade(v, admin).0;
            &&& v.pending_wasm is Some
            &&& w.pending_wasm is None
            &&& w.pending_approvals is None
            &&& step_execute_upgrade(w) == (w, Err::<Seq<Effect>, ContractError>(
                ContractError::NoPendingUpgrade,
            ))
            &&& step_approve_upgrade(w, admin).1 is Err
            &&& w.upgrade_signers == v.upgrade_signers && w.upgrade_threshold == v.upgrade_threshold
        }),
{
}

/// An accepted `propose_upgrade` with nothing pending opens a proposal for
/// the hash with the proposer's approval alone; with the same hash pending
/// it adds the proposer's approval; another hash is never accepted while one
/// is pending.
pub proof fn law_propose_upgrade_opens_or_joins(v: ContractView, signer: Address, hash: WasmHash)
    requires
        view_wf(v),
        step_propose_upgrade(v, signer, hash).1 is Ok,
    ensures
        ({
            let w = step_propose_upgrade(v, signer, hash).0;
            &&& v.upgrade_signers is Some && v.upgrade_signers->0.contains(signer)
            &&& w.pending_wasm == Some(hash)
            &&& v.pending_wasm is None ==> w.pending_approvals == Some(seq![signer])
            &&& v.pending_wasm is Some ==> v.pending_wasm == Some(hash) && !v.pending_approvals->0.contains(
                signer,
            ) && w.pending_approvals == Some(v.pending_approvals->0.push(signer))
            &&& w.upgrade_signers == v.upgrade_signers && w.upgrade_threshold == v.upgrade_threshold
        }),
{
}

/// An accepted `set_upgrade_signers` installs the signers and a quorum
/// between one and their number, and drops any pending proposal.
pub proof fn law_set_upgrade_signers_installs(
    v: ContractView,
    admin: Address,
    signers: Seq<Address>,
    threshold: u32,
)
    requires
        step_set_upgrade_signers(v, admin, signers, threshold).1 is Ok,
    ensures
        ({
            let w = step_set_upgrade_signers(v, admin, signers, threshold).0;
            &&& w.upgrade_signers == Some(signers)
            &&& w.upgrade_threshold == Some(threshold)
            &&& 1 <= threshold <= signers.len()
            &&& w.pending_wasm is None && w.pending_approvals is None
        }),
{
}

/// An accepted `execute_upgrade` replaces the code with the pending hash
/// and leaves no proposal pending.
pub proof fn law_execute_upgrade_installs_pending(v: ContractView)
    requires
        step_execute_upgrade(v).1 is Ok,
    ensures
        ({
            let (w, r) = step_execute_upgrade(v);
            &&& v.pending_wasm is Some
            &&& r->Ok_0.contains(Effect::UpdateWasm { wasm_hash: v.pending_wasm->0 })
            &&& w.pending_wasm is None && w.pending_approvals is None
        }),
{
    let fx = step_execute_upgrade(v).1->Ok_0;
    assert(fx[1] == Effect::UpdateWasm { wasm_hash: v.pending_wasm->0 });
}

/// `t` is the live task of one of `ids`.
pub open spec fn task_of_some(v: ContractView, ids: Seq<u64>, t: Task) -> bool {
    exists|j: int| 0 <= j < ids.len() && v.tasks.contains_key(#[trigger] ids[j]) && t == v.tasks[ids[j]]
}

/// The live tasks among `ids` are tasks of those ids, and when every id is
/// live they are exactly those tasks, in order.
pub proof fn law_live_tasks_are_the_tasks(v: ContractView, ids: Seq<u64>)
    ensures
        ({
            let page = live_tasks(v, ids);
            &&& page.len() <= ids.len()
            &&& forall|i: int| 0 <= i < page.len() ==> task_of_some(v, ids, #[trigger] page[i])
            &&& (forall|j: int| 0 <= j < ids.len() ==> v.tasks.contains_key(#[trigger] ids[j])) ==> {
                &&& page.len() == ids.len()
                &&& forall|i: int| 0 <= i < ids.len() ==> #[trigger] page[i] == v.tasks[ids[i]]
            }
        }),
    decreases ids.len(),
{
    if ids.len() > 0 {
        let p = ids.drop_last();
        law_live_tasks_are_the_tasks(v, p);
        let rest = live_tasks(v, p);
        let page = live_tasks(v, ids);
        assert forall|i: int| 0 <= i < page.len() implies task_of_some(v, ids, #[trigger] page[i]) by {
            if i < rest.len() {
                assert(task_of_some(v, p, rest[i]));
                let j = choose|j: int|
                    0 <= j < p.len() && v.tasks.contains_key(#[trigger] p[j]) && rest[i] == v.tasks[p[j]];
                assert(ids[j] == p[j]);
            } else {
                assert(ids[ids.len() - 1] == ids.last());
            }
        }
        if forall|j: int| 0 <= j < ids.len() ==> v.tasks.contains_key(#[trigger] ids[j]) {
            assert forall|j: int| 0 <= j < p.len() implies v.tasks.contains_key(#[trigger] p[j]) by {
                assert(p[j] == ids[j]);
            }
            assert(v.tasks.contains_key(ids[ids.len() - 1]));
            assert forall|i: int| 0 <= i < ids.len() implies #[trigger] page[i] == v.tasks[ids[i]] by {
                if i < p.len() {
                    assert(p[i] == ids[i]);
                }
            }
        }
    }
}

/// The fee on `amount`: none without a treasury or a rate; otherwise the
/// rate's share in basis points, rounded down, which is at most `amount`
/// for a rate of at most 100%.
pub proof fn law_fee_is_the_rate_share(v: ContractView, amount: i128)
    requires
        amount >= 0,
    ensures
        fee_on(v, amount) >= 0,
        (v.config.treasury is None || fee_bps_of(v) == 0) ==> fee_on(v, amount) == 0,
        (v.config.treasury is Some && fee_bps_of(v) > 0) ==> fee_on(v, amount) * 10000 <= amount
            * fee_bps_of(v) < fee_on(v, amount) * 10000 + 10000,
        fee_bps_of(v) <= 10000 ==> fee_on(v, amount) <= amount,
{
    let bps = fee_bps_of(v);
    let product = amount * bps;
    assert(product >= 0) by (nonlinear_arith)
        requires
            product == amount * bps,
            amount >= 0,
            bps >= 0,
    ;
    if bps > 0 && v.config.treasury is Some && product >= 10000 {
        let f = product / 10000;
        assert(f * 10000 <= product < f * 10000 + 10000) by (nonlinear_arith)
            requires
                f == product / 10000,
                product >= 0,
        ;
        if bps <= 10000 {
            assert(f <= amount) by (nonlinear_arith)
                requires
                    f * 10000 <= product,
                    product == amount * bps,
                    bps <= 10000,
                    amount >= 0,
            ;
        }
    }
}

/// An accepted `initialize` installs the admin (holding `Admin`), the lock
/// token and the lock threshold on a contract that was not initialized,
/// unpaused and at the current storage version.
pub proof fn law_initialize_installs(v: ContractView, admin: Address, token: Address, threshold: i128)
    requires
        step_initialize(v, admin, token, threshold).1 is Ok,
    ensures
        ({
            let w = step_initialize(v, admin, token, threshold).0;
            &&& !v.config.initialized && w.config.initialized
            &&& w.config.admin == Some(admin) && w.config.token == Some(token)
            &&& w.config.lock_threshold == threshold && threshold >= 0
            &&& !w.config.paused
            &&& holds(w, admin, Role::Admin)
            &&& w.config.storage_version == CURRENT_VERSION
            &&& w.guardians == v.guardians && w.tasks == v.tasks
        }),
{
}

/// Pausing, unpausing and toggling set the pause flag as asked (toggling
/// flips it) and change no other setting.
pub proof fn law_pause_flag(v: ContractView, admin: Address, paused: bool)
    ensures
        step_set_paused(v, admin, paused).1 is Ok ==> {
            let w = step_set_paused(v, admin, paused).0;
            &&& w.config.paused == paused
            &&& w.config == (Config { paused, ..v.config })
            &&& w.guardians == v.guardians && w.tasks == v.tasks && w.roles == v.roles
        },
        step_toggle_pause(v, admin).1 is Ok ==> step_toggle_pause(v, admin).0.config.paused
            == !v.config.paused,
{
}

/// The configuration setters each store their one value, after which the
/// getter reads it back, and change no other setting.
pub proof fn law_config_setters_store(
    v: ContractView,
    admin: Address,
    threshold: u64,
    vault: Address,
    bps: u32,
    treasury: Address,
)
    ensures
        ({
            let w = step_set_weight_threshold(v, admin, threshold).0;
            step_set_weight_threshold(v, admin, threshold).1 is Ok ==> {
                &&& 1 <= threshold <= MAX_WEIGHT_THRESHOLD
                &&& w.config.weight_threshold == Some(threshold)
                &&& weight_threshold_of(w) == threshold
                &&& w.config == (Config { weight_threshold: Some(threshold), ..v.config })
            }
        }),
        ({
            let w = step_set_vault_address(v, admin, vault).0;
            step_set_vault_address(v, admin, vault).1 is Ok ==> w.config == (Config {
                vault: Some(vault),
                ..v.config
            })
        }),
        ({
            let w = step_set_fee_bps(v, admin, bps).0;
            step_set_fee_bps(v, admin, bps).1 is Ok ==> {
                &&& bps <= MAX_FEE_BPS
                &&& w.config == (Config { fee_bps: Some(bps), ..v.config })
                &&& fee_bps_of(w) == bps
            }
        }),
        ({
            let w = step_set_treasury_address(v, admin, treasury).0;
            step_set_treasury_address(v, admin, treasury).1 is Ok ==> w.config == (Config {
                treasury: Some(treasury),
                ..v.config
            })
        }),
{
}

/// An accepted `add_guardian` appends a new guardian to the registry and
/// keeps every reputation.
pub proof fn law_add_guardian_registers(v: ContractView, admin: Address, guardian: Address)
    requires
        step_add_guardian(v, admin, guardian).1 is Ok,
    ensures
        ({
            let w = step_add_guardian(v, admin, guardian).0;
            &&& !v.guardians.contains(guardian)
            &&& w.guardians == v.guardians.push(guardian)
            &&& w.guardians.contains(guardian)
            &&& w.reputations == v.reputations
        }),
{
    let w = step_add_guardian(v, admin, guardian).0;
    assert(w.guardians[v.guardians.len() as int] == guardian);
}

/// An accepted `remove_guardian` takes exactly that guardian out of the
/// registry and drops its reputation; every other guardian and reputation
/// stays.
pub proof fn law_remove_guardian_unregisters(v: ContractView, admin: Address, guardian: Address)
    requires
        view_wf(v),
        step_remove_guardian(v, admin, guardian).1 is Ok,
    ensures
        ({
            let w = step_remove_guardian(v, admin, guardian).0;
            &&& v.guardians.contains(guardian)
            &&& !w.guardians.contains(guardian)
            &&& w.guardians.len() == v.guardians.len() - 1
            &&& forall|x: Address| x != guardian ==> (#[trigger] w.guardians.contains(x)
                == v.guardians.contains(x))
            &&& !w.reputations.contains_key(guardian)
            &&& forall|x: Address| x != guardian ==> #[trigger] w.reputations.contains_key(x)
                == v.reputations.contains_key(x) && (v.reputations.contains_key(x)
                ==> w.reputations[x] == v.reputations[x])
        }),
{
    let p = v.guardians.index_of(guardian);
    lemma_remove_unique(v.guardians, p);
}

/// An accepted `set_reputation` gives the guardian the score, which lies in
/// `1..=MAX_REPUTATION_SCORE`, and changes no other reputation.
pub proof fn law_set_reputation_stores(v: ContractView, admin: Address, guardian: Address, score: u64)
    requires
        step_set_reputation(v, admin, guardian, score).1 is Ok,
    ensures
        ({
            let w = step_set_reputation(v, admin, guardian, score).0;
            &&& 1 <= score <= MAX_REPUTATION_SCORE
            &&& w.reputations.contains_key(guardian) && w.reputations[guardian] == score
            &&& forall|x: Address| x != guardian ==> #[trigger] w.reputations.contains_key(x)
                == v.reputations.contains_key(x) && (v.reputations.contains_key(x)
                ==> w.reputations[x] == v.reputations[x])
            &&& w.guardians == v.guardians
        }),
{
}

/// An accepted `lock_tokens` moves `amount` out of the guardian's account
/// (the fee to the treasury, the rest to the contract) and adds the rest to
/// the guardian's escrow; no other escrow changes.
pub proof fn law_lock_tokens_escrows(v: ContractView, guardian: Address, amount: i128)
    requires
        step_lock_tokens(v, guardian, amount).1 is Ok,
        !lock_aborts(v, guardian, amount),
    ensures
        ({
            let (w, r) = step_lock_tokens(v, guardian, amount);
            let net = amount - fee_on(v, amount);
            &&& locked_balance(w, guardian) == locked_balance(v, guardian) + net
            &&& r->Ok_0.contains(
                Effect::Transfer {
                    token: v.config.token->0,
                    from: guardian,
                    to: v.self_address,
                    amount: net as i128,
                },
            )
            &&& forall|x: Address| x != guardian ==> #[trigger] locked_balance(w, x) == locked_balance(
                v,
                x,
            )
        }),
{
    let (w, r) = step_lock_tokens(v, guardian, amount);
    let fx = fee_split(v, v.config.token->0, guardian, v.self_address, amount);
    assert(fx.contains(fx.last()));
    assert(r->Ok_0[fx.len() - 1] == fx.last());
}

/// An accepted `request_unlock` starts the guardian's timelock at `now` and
/// touches no other timelock.
pub proof fn law_request_unlock_starts_timelock(v: ContractView, guardian: Address, now: u64)
    requires
        step_request_unlock(v, guardian, now).1 is Ok,
    ensures
        ({
            let w = step_request_unlock(v, guardian, now).0;
            &&& w.timelocks.contains_key(guardian) && w.timelocks[guardian] == now
            &&& forall|x: Address| x != guardian ==> #[trigger] w.timelocks.contains_key(x)
                == v.timelocks.contains_key(x) && (v.timelocks.contains_key(x) ==> w.timelocks[x]
                == v.timelocks[x])
            &&& w.balances == v.balances
        }),
{
}

/// An accepted `unlock_tokens` or `resign_guardian` empties the guardian's
/// escrow and clears its timelock, sending the whole escrow out: the net to
/// the guardian, the fee to the treasury. Resigning also takes the guardian
/// out of the registry and keeps its reputation.
pub proof fn law_withdrawal_pays_out_escrow(v: ContractView, guardian: Address, now: u64)
    requires
        view_wf(v),
    ensures
        step_unlock_tokens(v, guardian, now).1 is Ok ==> {
            let (w, r) = step_unlock_tokens(v, guardian, now);
            &&& locked_balance(v, guardian) >= 0 ==> locked_balance(w, guardian) == 0
            &&& !w.timelocks.contains_key(guardian)
            &&& locked_balance(v, guardian) > 0 ==> r->Ok_0.contains(
                Effect::Transfer {
                    token: v.config.token->0,
                    from: v.self_address,
                    to: guardian,
                    amount: (locked_balance(v, guardian) - fee_on(v, locked_balance(v, guardian))) as i128,
                },
            )
        },
        step_resign_guardian(v, guardian, now).1 is Ok ==> {
            let (w, r) = step_resign_guardian(v, guardian, now);
            &&& locked_balance(v, guardian) >= 0 ==> locked_balance(w, guardian) == 0
            &&& !w.timelocks.contains_key(guardian)
            &&& v.guardians.contains(guardian) && !w.guardians.contains(guardian)
            &&& w.reputations == v.reputations
            &&& locked_balance(v, guardian) > 0 ==> r->Ok_0.contains(
                Effect::Transfer {
                    token: v.config.token->0,
                    from: v.self_address,
                    to: guardian,
                    amount: (locked_balance(v, guardian) - fee_on(v, locked_balance(v, guardian))) as i128,
                },
            )
        },
{
    let amount = locked_balance(v, guardian);
    if step_unlock_tokens(v, guardian, now).1 is Ok && amount > 0 {
        let fx = fee_split(v, v.config.token->0, v.self_address, guardian, amount);
        let r = step_unlock_tokens(v, guardian, now).1->Ok_0;
        assert(r[fx.len() - 1] == fx.last());
    }
    if step_resign_guardian(v, guardian, now).1 is Ok {
        let p = v.guardians.index_of(guardian);
        lemma_remove_unique(v.guardians, p);
        if amount > 0 {
            let fx = fee_split(v, v.config.token->0, v.self_address, guardian, amount);
            let r = step_resign_guardian(v, guardian, now).1->Ok_0;
            assert(r[fx.len() - 1] == fx.last());
        }
    }
}

/// An accepted `emergency_recover` sends `amount` (positive) of the lock
/// token from the contract to the recipient and changes no state.
pub proof fn law_emergency_recover_sends(v: ContractView, admin: Address, recipient: Address, amount: i128)
    requires
        step_emergency_recover(v, admin, recipient, amount).1 is Ok,
    ensures
        ({
            let (w, r) = step_emergency_recover(v, admin, recipient, amount);
            &&& w == v
            &&& amount > 0
            &&& r->Ok_0.contains(
                Effect::Transfer { token: v.config.token->0, from: v.self_address, to: recipient, amount },
            )
        }),
{
    let r = step_emergency_recover(v, admin, recipient, amount).1->Ok_0;
    assert(r[0] == Effect::Transfer { token: v.config.token->0, from: v.self_address, to: recipient, amount });
}

/// A reward stream is recorded only when the Drips call succeeded, for a
/// resolved task that had none; it names the contributor and the Drips
/// contract, is active, and is appended to the stream list.
pub proof fn law_reward_stream_recorded(
    v: ContractView,
    admin: Address,
    drips: Address,
    contributor: Address,
    task_id: u64,
    call_succeeded: bool,
)
    ensures
        step_start_reward_stream(v, admin, drips, contributor, task_id, call_succeeded).1 is Ok ==> {
            let w = step_start_reward_stream(v, admin, drips, contributor, task_id, call_succeeded).0;
            &&& call_succeeded
            &&& v.tasks.contains_key(task_id) && v.tasks[task_id].is_done
            &&& !v.streams.contains_key(task_id)
            &&& w.streams.contains_key(task_id)
            &&& w.streams[task_id] == RewardStream {
                task_id,
                contributor,
                drips_contract: drips,
                active: true,
            }
            &&& w.stream_ids == v.stream_ids.push(task_id)
            &&& w.tasks == v.tasks
        },
        !call_succeeded ==> step_start_reward_stream(v, admin, drips, contributor, task_id, call_succeeded).1 is Err,
{
}

/// An accepted failure report counts one more failure (saturating), records
/// the reporter's ledger and report count, and pauses the contract exactly
/// when the count passes the threshold with enough distinct reporters.
pub proof fn law_record_failure_counts(v: ContractView, reporter: Address, sequence: u32)
    requires
        step_record_failure(v, reporter, sequence).1 is Ok,
    ensures
        ({
            let w = step_record_failure(v, reporter, sequence).0;
            let before = if v.reporter_counts.contains_key(reporter) {
                v.reporter_counts[reporter] as int
            } else {
                0
            };
            &&& w.failure_count == (if v.failure_count == u32::MAX {
                u32::MAX as int
            } else {
                v.failure_count + 1
            })
            &&& w.reporters.contains(reporter)
            &&& w.last_reports.contains_key(reporter) && w.last_reports[reporter] == sequence
            &&& w.reporter_counts.contains_key(reporter) && w.reporter_counts[reporter] == before + 1
            &&& w.config.paused == (v.config.paused || (w.failure_count > FAILURE_THRESHOLD
                && w.reporters.len() >= MIN_DISTINCT_REPORTERS))
        }),
{
    let w = step_record_failure(v, reporter, sequence).0;
    if !v.reporters.contains(reporter) {
        assert(w.reporters[v.reporters.len() as int] == reporter);
    }
}

/// An accepted reset clears the failure count and the reporters and lifts
/// the pause.
pub proof fn law_reset_clears_breaker(v: ContractView, admin: Address)
    requires
        step_reset_circuit_breaker(v, admin).1 is Ok,
    ensures
        ({
            let w = step_reset_circuit_breaker(v, admin).0;
            &&& w.failure_count == 0
            &&& w.reporters.len() == 0
            &&& w.reporter_counts == Map::<Address, u32>::empty()
            &&& !w.config.paused
            &&& w.guardians == v.guardians && w.tasks == v.tasks
        }),
{
}

/// An accepted grant gives the target the role; an accepted revoke takes
/// it away; no other address's roles change.
pub proof fn law_roles_granted_and_revoked(v: ContractView, caller: Address, target: Address, role: Role)
    ensures
        step_grant_role(v, caller, target, role).1 is Ok ==> {
            let w = step_grant_role(v, caller, target, role).0;
            &&& holds(v, caller, Role::Admin)
            &&& holds(w, target, role)
            &&& forall|a: Address, q: Role| (a != target || q != role) ==> #[trigger] holds(w, a, q)
                == holds(v, a, q)
        },
        step_revoke_role(v, caller, target, role).1 is Ok ==> {
            let w = step_revoke_role(v, caller, target, role).0;
            &&& holds(v, caller, Role::Admin)
            &&& !holds(w, target, role)
            &&& forall|a: Address, q: Role| (a != target || q != role) ==> #[trigger] holds(w, a, q)
                == holds(v, a, q)
        },
{
}

/// An accepted migration leaves the storage at the current version or
/// later, bumping an older one to exactly the current version.
pub proof fn law_migration_reaches_current_version(v: ContractView, admin: Address)
    requires
        step_migrate_storage(v, admin).1 is Ok,
    ensures
        ({
            let w = step_migrate_storage(v, admin).0;
            &&& w.config.storage_version >= CURRENT_VERSION
            &&& v.config.storage_version < CURRENT_VERSION ==> w.config.storage_version == CURRENT_VERSION
            &&& v.config.storage_version >= CURRENT_VERSION ==> w == v
        }),
{
}

/// An accepted vote that resolves its task asks the configured vault to
/// release the task's funds, and one that does not resolve it asks nothing
/// of the vault; either way it publishes the guardian's weighted vote.
pub proof fn law_vote_releases_vault_on_resolution(v: ContractView, guardian: Address, task_id: u64, now: u64)
    requires
        step_vote(v, guardian, task_id, now).1 is Ok,
    ensures
        ({
            let (w, r) = step_vote(v, guardian, task_id, now);
            let fx = r->Ok_0;
            let newly = w.tasks[task_id].is_done && !v.tasks[task_id].is_done;
            &&& fx.contains(
                Effect::Publish(
                    Event::WeightedVote { guardian, task_id, weight: v.reputations[guardian] },
                ),
            )
            &&& (newly && v.config.vault is Some) ==> fx.contains(
                Effect::ReleaseVault { vault: v.config.vault->0, task_id },
            )
            &&& !newly ==> forall|i: int| 0 <= i < fx.len() ==> !(#[trigger] fx[i] is ReleaseVault)
        }),
{
    let (w, r) = step_vote(v, guardian, task_id, now);
    let fx = r->Ok_0;
    assert(fx[fx.len() - 1] == Effect::Publish(
        Event::WeightedVote { guardian, task_id, weight: v.reputations[guardian] },
    ));
    if w.tasks[task_id].is_done && !v.tasks[task_id].is_done && v.config.vault is Some {
        assert(fx[1] == Effect::ReleaseVault { vault: v.config.vault->0, task_id });
    }
}

/// An accepted vote comes from an unpaused contract's registered guardian
/// with more than the lock threshold in escrow and a positive reputation,
/// on a live, uncancelled task it had not voted on. It changes only that
/// task's tally and resolution (its id, required votes and cancellation
/// stay; a task already resolved keeps its resolution time) and records the
/// vote; nothing else changes.
pub proof fn law_vote_checks_and_scope(v: ContractView, guardian: Address, task_id: u64, now: u64)
    requires
        step_vote(v, guardian, task_id, now).1 is Ok,
    ensures
        ({
            let w = step_vote(v, guardian, task_id, now).0;
            let t = v.tasks[task_id];
            let u = w.tasks[task_id];
            &&& !v.config.paused
            &&& v.guardians.contains(guardian)
            &&& locked_balance(v, guardian) > v.config.lock_threshold
            &&& v.reputations.contains_key(guardian) && v.reputations[guardian] > 0
            &&& v.tasks.contains_key(task_id) && !t.is_cancelled
            &&& !v.votes.contains(VoteKey { task_id, guardian })
            &&& u.id == t.id && u.min_votes_required == t.min_votes_required && !u.is_cancelled
            &&& t.is_done ==> u.is_done && u.resolved_at == t.resolved_at
            &&& w.tasks.dom() == v.tasks.dom()
            &&& forall|k: u64| k != task_id && #[trigger] v.tasks.contains_key(k) ==> w.tasks[k] == v.tasks[k]
            &&& w == ContractView { tasks: w.tasks, votes: w.votes, ..v }
        }),
{
    lemma_cast_vote_frame(v, guardian, task_id, v.reputations[guardian], now);
}

/// An accepted `purge_task` removes a resolved or cancelled task only:
/// every other task, archived task, vote and reward stream stays.
pub proof fn law_purge_touches_only_the_task(v: ContractView, admin: Address, task_id: u64)
    requires
        step_purge_task(v, admin, task_id).1 is Ok,
    ensures
        ({
            let w = step_purge_task(v, admin, task_id).0;
            let t = if v.tasks.contains_key(task_id) { v.tasks[task_id] } else { v.archived[task_id] };
            &&& v.tasks.contains_key(task_id) || v.archived.contains_key(task_id)
            &&& t.is_done || t.is_cancelled
            &&& forall|k: u64|
                k != task_id ==> (#[trigger] w.tasks.contains_key(k) == v.tasks.contains_key(k)) && (
                v.tasks.contains_key(k) ==> w.tasks[k] == v.tasks[k])
            &&& forall|k: u64|
                k != task_id ==> (#[trigger] w.archived.contains_key(k) == v.archived.contains_key(k))
                    && (v.archived.contains_key(k) ==> w.archived[k] == v.archived[k])
            &&& forall|k: VoteKey| k.task_id != task_id ==> (#[trigger] w.votes.contains(k) == v.votes.contains(k))
            &&& forall|k: u64|
                k != task_id ==> (#[trigger] w.streams.contains_key(k) == v.streams.contains_key(k))
                    && (v.streams.contains_key(k) ==> w.streams[k] == v.streams[k])
            &&& w.guardians == v.guardians && w.reputations == v.reputations && w.balances == v.balances
        }),
{
}

/// An accepted `upgrade_contract` by an `Admin` replaces the code with the
/// given hash and changes no state.
pub proof fn law_upgrade_contract_replaces_code(v: ContractView, admin: Address, hash: WasmHash)
    requires
        step_upgrade_contract(v, admin, hash).1 is Ok,
    ensures
        ({
            let (w, r) = step_upgrade_contract(v, admin, hash);
            &&& holds(v, admin, Role::Admin)
            &&& w == v
            &&& r->Ok_0.contains(Effect::UpdateWasm { wasm_hash: hash })
        }),
{
    let r = step_upgrade_contract(v, admin, hash).1->Ok_0;
    assert(r[0] == Effect::UpdateWasm { wasm_hash: hash });
}

/// Moving `amount` with a fee: the fee goes to the treasury (when there is
/// one to take), the rest to the recipient, and no other transfer is made.
pub proof fn law_fee_split_destinations(v: ContractView, token: Address, from: Address, to: Address, amount: i128)
    ensures
        ({
            let fx = fee_split(v, token, from, to, amount);
            let fee = fee_on(v, amount);
            &&& fx.contains(Effect::Transfer { token, from, to, amount: (amount - fee) as i128 })
            &&& fee > 0 ==> v.config.treasury is Some && fx.contains(
                Effect::Transfer { token, from, to: v.config.treasury->0, amount: fee as i128 },
            )
            &&& forall|i: int|
                0 <= i < fx.len() ==> (#[trigger] fx[i] is Transfer) && fx[i]->Transfer_token == token
                    && fx[i]->Transfer_from == from && (fx[i]->Transfer_to == to || (fee > 0
                    && fx[i]->Transfer_to == v.config.treasury->0))
            &&& fx.len() == (if fee > 0 { 2int } else { 1int })
        }),
{
    let fx = fee_split(v, token, from, to, amount);
    let fee = fee_on(v, amount);
    assert(fx[fx.len() - 1] == Effect::Transfer { token, from, to, amount: (amount - fee) as i128 });
    if fee > 0 {
        assert(fx[0] == Effect::Transfer { token, from, to: v.config.treasury->0, amount: fee as i128 });
    }
}

/// An accepted failure report comes from an acceptable address (a trusted
/// one while only trusted reporters may report), at least
/// `REPORT_COOLDOWN_LEDGERS` ledgers after that reporter's previous
/// report, with fewer than `MAX_REPORTS_PER_REPORTER` reports before it.
pub proof fn law_record_failure_admits(v: ContractView, reporter: Address, sequence: u32)
    requires
        step_record_failure(v, reporter, sequence).1 is Ok,
    ensures
        ext_ok(v, reporter),
        v.trusted_reporters_only ==> v.guardians.contains(reporter) || holds(
            v,
            reporter,
            Role::EmergencyManager,
        ) || holds(v, reporter, Role::Admin),
        v.last_reports.contains_key(reporter) ==> sequence >= v.last_reports[reporter] && sequence
            - v.last_reports[reporter] >= REPORT_COOLDOWN_LEDGERS,
        v.reporter_counts.contains_key(reporter) ==> v.reporter_counts[reporter] < MAX_REPORTS_PER_REPORTER,
{
}

/// What the accepted task and registry operations publish: one event naming
/// the task or guardian acted on (one `TaskRegistered` per id, in order,
/// for a registration batch).
pub proof fn law_published_events(
    v: ContractView,
    admin: Address,
    guardian: Address,
    task_id: u64,
    ids: Seq<u64>,
    min_votes: u32,
    score: u64,
    now: u64,
)
    ensures
        step_register_tasks(v, admin, ids, min_votes).1 is Ok ==> {
            let fx = step_register_tasks(v, admin, ids, min_votes).1->Ok_0;
            &&& fx.len() == ids.len()
            &&& forall|i: int|
                0 <= i < ids.len() ==> #[trigger] fx[i] == Effect::Publish(
                    Event::TaskRegistered { admin, task_id: ids[i] },
                )
        },
        step_cancel_task(v, admin, task_id).1 is Ok ==> step_cancel_task(v, admin, task_id).1
            == Ok::<Seq<Effect>, ContractError>(seq![Effect::Publish(Event::TaskCancelled { task_id })]),
        step_archive_task(v, admin, task_id, now).1 is Ok ==> step_archive_task(v, admin, task_id, now).1
            == Ok::<Seq<Effect>, ContractError>(seq![Effect::Publish(Event::TaskArchived { task_id })]),
        step_purge_task(v, admin, task_id).1 is Ok ==> step_purge_task(v, admin, task_id).1 == Ok::<
            Seq<Effect>,
            ContractError,
        >(seq![Effect::Publish(Event::TaskPurged { task_id })]),
        step_add_guardian(v, admin, guardian).1 is Ok ==> step_add_guardian(v, admin, guardian).1
            == Ok::<Seq<Effect>, ContractError>(seq![Effect::Publish(Event::GuardianAdded { admin, guardian })]),
        step_remove_guardian(v, admin, guardian).1 is Ok ==> step_remove_guardian(v, admin, guardian).1
            == Ok::<Seq<Effect>, ContractError>(
            seq![Effect::Publish(Event::GuardianRemoved { admin, guardian })],
        ),
        step_set_reputation(v, admin, guardian, score).1 is Ok ==> step_set_reputation(
            v,
            admin,
            guardian,
            score,
        ).1 == Ok::<Seq<Effect>, ContractError>(
            seq![Effect::Publish(Event::ReputationSet { admin, guardian, score })],
        ),
{
}

} // verus!
