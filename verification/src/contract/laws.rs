//! Properties of the contract as a whole, over its entry points' steps.
use super::batch::step_call;
use super::breaker::{
    lemma_total_bound, lemma_total_increment, lemma_total_new_reporter, reports_total,
    step_record_failure, FAILURE_THRESHOLD, MAX_REPORTS_PER_REPORTER, MIN_DISTINCT_REPORTERS,
};
use super::config::step_initialize;
use super::guardians::{step_add_guardian, step_remove_guardian, step_set_reputation, voting_power};
use super::migrate::{migration_check, opt_addr_ok, CURRENT_VERSION, MAX_MIGRATION_FEE_BPS};
use super::rbac::{holder_count, step_revoke_role};
use super::snapshot::{snapshot_of, step_record_snapshot, too_large};
use super::tasks::step_purge_task;
use super::tokens::{fee_on, fee_split, step_resign_guardian, step_unlock_tokens};
use super::upgrade::step_execute_upgrade;
use super::voting::{
    lemma_cast_vote_frame, step_vote, step_vote_batch, vote_weight, votes_cast, voter_check,
};
use super::{holds, view_wf, weight_threshold_of, Config, ContractView};
use crate::events::Effect;
use crate::keymap::{lemma_index_of_unique, lemma_push_unique, lemma_remove_unique, lemma_swap_remove_unique};
use crate::limits::WITHDRAWAL_DELAY_SECONDS;
use crate::types::{Address, BatchCall, ContractError, Role, VoteKey};
use crate::validation::weight_threshold_result;
use vstd::prelude::*;

verus! {

/// A refused batched call leaves the state exactly as it was.
pub proof fn law_refusal_keeps_state(v: ContractView, call: BatchCall, now: u64, sequence: u32, drips_ok: bool)
    ensures
        step_call(v, call, now, sequence, drips_ok).1 is Err ==> step_call(
            v,
            call,
            now,
            sequence,
            drips_ok,
        ).0 == v,
{
}

/// The calls that a paused contract refuses.
pub open spec fn pause_gated(call: BatchCall) -> bool {
    match call {
        BatchCall::RegisterTask(..) | BatchCall::CancelTask(..) | BatchCall::Vote(..)
        | BatchCall::AddGuardian(..) | BatchCall::RemoveGuardian(..) | BatchCall::SetReputation(..)
        | BatchCall::LockTokens(..) | BatchCall::RequestUnlock(..) | BatchCall::UnlockTokens(..)
        | BatchCall::ResignGuardian(..) | BatchCall::SetWeightThreshold(..)
        | BatchCall::SetVaultAddress(..) | BatchCall::StartRewardStream(..)
        | BatchCall::SetFeeBps(..) | BatchCall::SetTreasuryAddress(..) => true,
        _ => false,
    }
}

/// While paused, every pause-gated call is refused (with `ContractPaused`,
/// or `InvalidAddress` for an unacceptable address) and changes nothing.
pub proof fn law_pause_blocks_writes(v: ContractView, call: BatchCall, now: u64, sequence: u32, drips_ok: bool)
    requires
        v.config.paused,
        pause_gated(call),
    ensures
        ({
            let (w, r) = step_call(v, call, now, sequence, drips_ok);
            &&& w == v
            &&& (r == Err::<Seq<Effect>, ContractError>(ContractError::ContractPaused) || r == Err::<
                Seq<Effect>,
                ContractError,
            >(ContractError::InvalidAddress))
        }),
{
}

/// An accepted vote adds the guardian's reputation to the task's weight,
/// counts once (saturating), and the task is resolved afterwards exactly
/// when it was before, or its weight reached the threshold in force and it
/// has the votes it requires; a newly resolved task records `now`.
pub proof fn law_vote_resolution(v: ContractView, guardian: Address, task_id: u64, now: u64)
    requires
        step_vote(v, guardian, task_id, now).1 is Ok,
    ensures
        ({
            let w = step_vote(v, guardian, task_id, now).0;
            let t = v.tasks[task_id];
            let t2 = w.tasks[task_id];
            &&& v.tasks.contains_key(task_id) && w.tasks.contains_key(task_id)
            &&& t2.total_weight_accrued == t.total_weight_accrued + v.reputations[guardian]
            &&& t2.votes == (if t.votes < u32::MAX {
                t.votes + 1
            } else {
                t.votes as int
            })
            &&& t2.is_done == (t.is_done || (t2.total_weight_accrued >= weight_threshold_of(v)
                && t2.votes >= t.min_votes_required))
            &&& (t2.is_done && !t.is_done ==> t2.resolved_at == now)
            &&& w.votes == v.votes.insert(VoteKey { task_id, guardian })
        }),
{
}

/// A guardian's second vote on the same task is refused with
/// `DuplicateVote`, whenever it comes.
pub proof fn law_duplicate_vote_refused(v: ContractView, guardian: Address, task_id: u64, now: u64, later: u64)
    requires
        step_vote(v, guardian, task_id, now).1 is Ok,
    ensures
        ({
            let w = step_vote(v, guardian, task_id, now).0;
            step_vote(w, guardian, task_id, later) == (w, Err::<Seq<Effect>, ContractError>(
                ContractError::DuplicateVote,
            ))
        }),
{
    let w = step_vote(v, guardian, task_id, now).0;
    assert(w.votes.contains(VoteKey { task_id, guardian }));
    assert(voter_check(w, guardian) == voter_check(v, guardian));
}

/// Archived and cancelled tasks take no votes.
pub proof fn law_closed_tasks_refuse_votes(v: ContractView, guardian: Address, task_id: u64, now: u64)
    requires
        view_wf(v),
        v.archived.contains_key(task_id) || (v.tasks.contains_key(task_id)
            && v.tasks[task_id].is_cancelled),
    ensures
        step_vote(v, guardian, task_id, now).1 is Err,
        step_vote(v, guardian, task_id, now).0 == v,
{
    assert(!(v.tasks.contains_key(task_id) && v.archived.contains_key(task_id)));
}

/// Every vote the batch casts lands; the earlier votes stay.
proof fn lemma_votes_cast_records(v: ContractView, guardian: Address, ids: Seq<u64>, weight: u64, now: u64)
    requires
        votes_cast(v, guardian, ids, weight, now) is Ok,
    ensures
        ({
            let w = votes_cast(v, guardian, ids, weight, now)->Ok_0.0;
            &&& forall|k: VoteKey| v.votes.contains(k) ==> #[trigger] w.votes.contains(k)
            &&& forall|i: int|
                0 <= i < ids.len() ==> w.votes.contains(VoteKey { task_id: #[trigger] ids[i], guardian })
        }),
    decreases ids.len(),
{
    if ids.len() > 0 {
        let p = ids.drop_last();
        lemma_votes_cast_records(v, guardian, p, weight, now);
        let w1 = votes_cast(v, guardian, p, weight, now)->Ok_0.0;
        let w = votes_cast(v, guardian, ids, weight, now)->Ok_0.0;
        assert forall|i: int| 0 <= i < ids.len() implies w.votes.contains(
            VoteKey { task_id: #[trigger] ids[i], guardian },
        ) by {
            if i < ids.len() - 1 {
                assert(ids[i] == p[i]);
                assert(w1.votes.contains(VoteKey { task_id: p[i], guardian }));
            }
        }
    }
}

/// `vote_batch` is all or nothing: refused, it changes nothing; accepted,
/// every listed task holds the guardian's vote.
pub proof fn law_vote_batch_atomic(v: ContractView, guardian: Address, ids: Seq<u64>, now: u64)
    ensures
        ({
            let (w, r) = step_vote_batch(v, guardian, ids, now);
            &&& r is Err ==> w == v
            &&& r is Ok ==> forall|i: int|
                0 <= i < ids.len() ==> w.votes.contains(
                    VoteKey { task_id: #[trigger] ids[i], guardian },
                )
        }),
{
    if voter_check(v, guardian) is None && vote_weight(v, guardian) is Ok {
        let weight = vote_weight(v, guardian)->Ok_0;
        if votes_cast(v, guardian, ids, weight, now) is Ok {
            lemma_votes_cast_records(v, guardian, ids, weight, now);
        }
    }
}

/// An accepted run of votes lists every task once; each listed task had no
/// vote of the guardian before and gains exactly the vote's weight; the
/// other tasks stay as they were.
proof fn lemma_votes_cast_each(v: ContractView, guardian: Address, ids: Seq<u64>, weight: u64, now: u64)
    requires
        votes_cast(v, guardian, ids, weight, now) is Ok,
    ensures
        ({
            let w = votes_cast(v, guardian, ids, weight, now)->Ok_0.0;
            &&& ids.no_duplicates()
            &&& w.tasks.dom() == v.tasks.dom()
            &&& forall|t: u64|
                !ids.contains(t) && v.tasks.contains_key(t) ==> #[trigger] w.tasks[t] == v.tasks[t]
            &&& forall|i: int|
                0 <= i < ids.len() ==> {
                    &&& v.tasks.contains_key(#[trigger] ids[i])
                    &&& !v.votes.contains(VoteKey { task_id: ids[i], guardian })
                    &&& w.tasks[ids[i]].total_weight_accrued == v.tasks[ids[i]].total_weight_accrued
                        + weight
                }
        }),
    decreases ids.len(),
{
    if ids.len() > 0 {
        let p = ids.drop_last();
        let last = ids.last();
        lemma_votes_cast_each(v, guardian, p, weight, now);
        lemma_votes_cast_records(v, guardian, p, weight, now);
        let w1 = votes_cast(v, guardian, p, weight, now)->Ok_0.0;
        let w = votes_cast(v, guardian, ids, weight, now)->Ok_0.0;
        let key = VoteKey { task_id: last, guardian };
        assert(!w1.votes.contains(key));
        assert(w1.tasks.contains_key(last));
        lemma_cast_vote_frame(w1, guardian, last, weight, now);
        assert(!p.contains(last)) by {
            if p.contains(last) {
                let i = choose|i: int| 0 <= i < p.len() && p[i] == last;
                assert(w1.votes.contains(VoteKey { task_id: p[i], guardian }));
            }
        }
        assert(w1.tasks[last] == v.tasks[last]);
        assert(ids.no_duplicates()) by {
            assert forall|i: int, j: int| 0 <= i < ids.len() && 0 <= j < ids.len() && i != j implies ids[i]
                != ids[j] by {
                if i < ids.len() - 1 && j < ids.len() - 1 {
                    assert(ids[i] == p[i] && ids[j] == p[j]);
                } else if i == ids.len() - 1 {
                    assert(ids[j] == p[j]);
                } else {
                    assert(ids[i] == p[i]);
                }
            }
        }
        assert forall|t: u64| !ids.contains(t) && v.tasks.contains_key(t) implies #[trigger] w.tasks[t]
            == v.tasks[t] by {
            assert(t != last);
            if p.contains(t) {
                let i = choose|i: int| 0 <= i < p.len() && p[i] == t;
                assert(ids[i] == t);
            }
        }
        assert forall|i: int| 0 <= i < ids.len() implies {
            &&& v.tasks.contains_key(#[trigger] ids[i])
            &&& !v.votes.contains(VoteKey { task_id: ids[i], guardian })
            &&& w.tasks[ids[i]].total_weight_accrued == v.tasks[ids[i]].total_weight_accrued + weight
        } by {
            if i < ids.len() - 1 {
                assert(ids[i] == p[i]);
                assert(ids[i] != last);
            } else {
                assert(ids[i] == last);
            }
        }
    }
}

/// `vote_batch` casts one vote per listed task: a list that repeats a task
/// is refused and changes nothing; an accepted batch lists each task once,
/// none of which held the guardian's vote, and adds the guardian's weight to
/// each listed task exactly once, leaving the other tasks as they were.
pub proof fn law_vote_batch_one_vote_each(v: ContractView, guardian: Address, ids: Seq<u64>, now: u64)
    ensures
        ({
            let (w, r) = step_vote_batch(v, guardian, ids, now);
            &&& !ids.no_duplicates() ==> r is Err && w == v
            &&& r is Ok ==> {
                let weight = vote_weight(v, guardian)->Ok_0;
                &&& ids.no_duplicates()
                &&& forall|t: u64|
                    !ids.contains(t) && v.tasks.contains_key(t) ==> #[trigger] w.tasks[t] == v.tasks[t]
                &&& forall|i: int|
                    0 <= i < ids.len() ==> {
                        &&& !v.votes.contains(VoteKey { task_id: #[trigger] ids[i], guardian })
                        &&& w.votes.contains(VoteKey { task_id: ids[i], guardian })
                        &&& w.tasks[ids[i]].total_weight_accrued == v.tasks[ids[i]].total_weight_accrued
                            + weight
                    }
            }
        }),
{
    if voter_check(v, guardian) is None && vote_weight(v, guardian) is Ok {
        let weight = vote_weight(v, guardian)->Ok_0;
        if votes_cast(v, guardian, ids, weight, now) is Ok {
            lemma_votes_cast_each(v, guardian, ids, weight, now);
            lemma_votes_cast_records(v, guardian, ids, weight, now);
        }
    }
}

/// `initialize` succeeds at most once.
pub proof fn law_initialize_once(
    v: ContractView,
    admin: Address,
    token: Address,
    lock_threshold: i128,
    admin2: Address,
    token2: Address,
    lock_threshold2: i128,
)
    requires
        step_initialize(v, admin, token, lock_threshold).1 is Ok,
    ensures
        step_initialize(step_initialize(v, admin, token, lock_threshold).0, admin2, token2, lock_threshold2).1 is Err,
{
}

/// Registering a guardian and removing it again restores both registry
/// lists.
pub proof fn law_add_remove_guardian(v: ContractView, admin: Address, guardian: Address)
    requires
        view_wf(v),
        step_add_guardian(v, admin, guardian).1 is Ok,
    ensures
        ({
            let w = step_add_guardian(v, admin, guardian).0;
            let (u, r) = step_remove_guardian(w, admin, guardian);
            &&& r is Ok
            &&& u.guardians == v.guardians
            &&& u.guardian_slots == v.guardian_slots
        }),
{
    let w = step_add_guardian(v, admin, guardian).0;
    lemma_push_unique(v.guardians, guardian);
    assert(!v.guardian_slots.contains(guardian));
    lemma_push_unique(v.guardian_slots, guardian);
    assert(w.guardians[v.guardians.len() as int] == guardian);
    lemma_index_of_unique(w.guardians, v.guardians.len() as int);
    assert(w.guardian_slots[v.guardian_slots.len() as int] == guardian);
    lemma_index_of_unique(w.guardian_slots, v.guardian_slots.len() as int);
    assert(w.guardians.remove(v.guardians.len() as int) =~= v.guardians);
    assert(w.guardian_slots.update(v.guardian_slots.len() as int, w.guardian_slots.last()).drop_last()
        =~= v.guardian_slots);
}

/// A guardian's reputation, once set, is its voting weight.
pub proof fn law_reputation_is_voting_power(v: ContractView, admin: Address, guardian: Address, score: u64)
    requires
        v.guardians.contains(guardian),
        step_set_reputation(v, admin, guardian, score).1 is Ok,
    ensures
        voting_power(step_set_reputation(v, admin, guardian, score).0, guardian) == Some(score),
{
}

/// Tokens leave the escrow only after the withdrawal delay since the
/// unlock request has passed.
pub proof fn law_withdrawal_waits_for_timelock(v: ContractView, guardian: Address, now: u64)
    requires
        step_unlock_tokens(v, guardian, now).1 is Ok || step_resign_guardian(v, guardian, now).1 is Ok,
    ensures
        v.timelocks.contains_key(guardian),
        v.timelocks[guardian] <= now,
        now - v.timelocks[guardian] >= WITHDRAWAL_DELAY_SECONDS,
{
}

/// Sum of the amounts of the transfers among the effects.
pub open spec fn transferred(fx: Seq<Effect>) -> int
    decreases fx.len(),
{
    if fx.len() == 0 {
        0
    } else {
        transferred(fx.drop_last()) + match fx.last() {
            Effect::Transfer { amount, .. } => amount as int,
            _ => 0,
        }
    }
}

/// The fee is non-negative, and the fee transfer and the net transfer
/// together move exactly `amount`.
pub proof fn law_fee_conserves_amount(v: ContractView, token: Address, from: Address, to: Address, amount: i128)
    requires
        i128::MIN <= amount - fee_on(v, amount) <= i128::MAX,
        fee_on(v, amount) <= i128::MAX,
    ensures
        fee_on(v, amount) >= 0,
        transferred(fee_split(v, token, from, to, amount)) == amount,
{
    let fx = fee_split(v, token, from, to, amount);
    let fee = fee_on(v, amount);
    let net = Effect::Transfer { token, from, to, amount: (amount - fee) as i128 };
    match v.config.treasury {
        Some(treasury) => {
            if fee > 0 {
                let head = seq![Effect::Transfer { token, from, to: treasury, amount: fee as i128 }];
                assert(fx == head.push(net));
                assert(fx.drop_last() =~= head);
                assert(head.drop_last() =~= Seq::<Effect>::empty());
                assert(transferred(head.drop_last()) == 0);
                assert(head.last() == Effect::Transfer { token, from, to: treasury, amount: fee as i128 });
                assert((fee as i128) as int == fee);
                assert(transferred(head) == fee);
            } else {
                assert(fx.drop_last() =~= Seq::<Effect>::empty());
                assert(transferred(fx.drop_last()) == 0);
            }
        },
        None => {
            assert(fx.drop_last() =~= Seq::<Effect>::empty());
            assert(transferred(fx.drop_last()) == 0);
        },
    }
}

/// Purging a task leaves no trace of it: no live or archived copy, no index
/// entry, no reward stream and no vote on it.
pub proof fn law_purge_leaves_no_trace(v: ContractView, admin: Address, task_id: u64, guardian: Address)
    requires
        view_wf(v),
        step_purge_task(v, admin, task_id).1 is Ok,
    ensures
        ({
            let w = step_purge_task(v, admin, task_id).0;
            &&& !w.tasks.contains_key(task_id)
            &&& !w.archived.contains_key(task_id)
            &&& !w.task_ids.contains(task_id)
            &&& !w.task_slots.contains(task_id)
            &&& !w.streams.contains_key(task_id)
            &&& !w.stream_ids.contains(task_id)
            &&& !w.votes.contains(VoteKey { task_id, guardian })
        }),
{
    assert(v.task_ids.contains(task_id));
    assert(v.task_slots.contains(task_id));
    let p = v.task_ids.index_of(task_id);
    let q = v.task_slots.index_of(task_id);
    lemma_remove_unique(v.task_ids, p);
    lemma_swap_remove_unique(v.task_slots, q);
    if v.stream_ids.contains(task_id) {
        lemma_remove_unique(v.stream_ids, v.stream_ids.index_of(task_id));
    }
}

/// The migration pre-flight check accepts exactly the weight thresholds
/// that `set_weight_threshold` accepts, and refuses the others with the
/// same error.
pub proof fn law_migration_threshold_agrees(current: Address, c: Config, threshold: u64)
    requires
        c.storage_version == CURRENT_VERSION,
        opt_addr_ok(current, c.admin),
        opt_addr_ok(current, c.token),
        opt_addr_ok(current, c.vault),
        opt_addr_ok(current, c.drips),
        c.fee_bps matches Some(b) ==> b <= MAX_MIGRATION_FEE_BPS,
    ensures
        migration_check(current, Config { weight_threshold: Some(threshold), ..c })
            == weight_threshold_result(threshold),
{
}

/// An upgrade executes only with at least `threshold` approvals, all by
/// distinct configured signers.
pub proof fn law_upgrade_needs_quorum(v: ContractView)
    requires
        view_wf(v),
        step_execute_upgrade(v).1 is Ok,
    ensures
        ({
            let a = v.pending_approvals->0;
            &&& a.no_duplicates()
            &&& a.len() >= v.upgrade_threshold->0
            &&& forall|x: Address| #[trigger] a.contains(x) ==> v.upgrade_signers->0.contains(x)
        }),
{
    crate::utils::address::lemma_sorted_no_duplicates(v.pending_approvals->0);
}

/// A filtered duplicate-free list with two kept elements, or with one kept
/// element and no `t` at all, keeps an element other than `t`.
proof fn lemma_filter_other(s: Seq<Address>, p: spec_fn(Address) -> bool, t: Address)
    requires
        s.no_duplicates(),
        s.filter(p).len() >= 2 || (s.filter(p).len() >= 1 && !s.contains(t)),
    ensures
        exists|x: Address| s.contains(x) && p(x) && x != t,
    decreases s.len(),
{
    let q = s.drop_last();
    let l = s.last();
    assert(s.len() > 0);
    assert(s.contains(l)) by {
        assert(s[s.len() - 1] == l);
    }
    assert(q.no_duplicates()) by {
        assert forall|i: int, j: int| 0 <= i < q.len() && 0 <= j < q.len() && i != j implies q[i]
            != q[j] by {
            assert(q[i] == s[i] && q[j] == s[j]);
        }
    }
    assert forall|x: Address| q.contains(x) implies s.contains(x) by {
        let i = choose|i: int| 0 <= i < q.len() && q[i] == x;
        assert(s[i] == x);
    }
    reveal(Seq::filter);
    assert(s.filter(p) == (if p(l) {
        q.filter(p).push(l)
    } else {
        q.filter(p)
    }));
    if p(l) && l != t {
    } else if p(l) {
        assert(!q.contains(t)) by {
            if q.contains(t) {
                let i = choose|i: int| 0 <= i < q.len() && q[i] == t;
                assert(s[i] == s[s.len() - 1]);
            }
        }
        lemma_filter_other(q, p, t);
    } else {
        lemma_filter_other(q, p, t);
    }
}

/// Revoking `Admin` never leaves the contract without an admin, when the
/// installed admin is not also a registered guardian (otherwise it is
/// counted twice by the lockout check).
pub proof fn law_admin_survives_revoke(v: ContractView, caller: Address, target: Address)
    requires
        view_wf(v),
        v.config.admin matches Some(a) ==> !v.guardians.contains(a),
        step_revoke_role(v, caller, target, Role::Admin).1 is Ok,
    ensures
        exists|x: Address| holds(step_revoke_role(v, caller, target, Role::Admin).0, x, Role::Admin),
{
    let w = step_revoke_role(v, caller, target, Role::Admin).0;
    let p = |g: Address| holds(v, g, Role::Admin);
    assert(holder_count(v, Role::Admin) >= 2);
    if v.config.admin is Some && holds(v, v.config.admin->0, Role::Admin) && v.config.admin->0 != target {
        assert(holds(w, v.config.admin->0, Role::Admin));
    } else {
        if v.config.admin is Some && holds(v, v.config.admin->0, Role::Admin) {
            lemma_filter_other(v.guardians, p, target);
        } else {
            lemma_filter_other(v.guardians, p, target);
        }
        let x = choose|x: Address| v.guardians.contains(x) && p(x) && x != target;
        assert(holds(w, x, Role::Admin));
    }
}

/// Recording a snapshot at time `now`: while paused it is refused with
/// `ContractPaused`; with a collection over the snapshot cap it is refused
/// with `SnapshotTooLarge`; either refusal leaves history and snapshots as
/// they were. Otherwise `now` is appended to the history and the snapshot
/// stored under it reads back as the snapshot of the state it was taken of.
pub proof fn law_snapshot_reads_back(v: ContractView, now: u64)
    ensures
        ({
            let (w, r) = step_record_snapshot(v, now);
            &&& v.config.paused ==> r == Err::<Seq<Effect>, ContractError>(ContractError::ContractPaused)
                && w == v
            &&& !v.config.paused && too_large(v) ==> r == Err::<Seq<Effect>, ContractError>(
                ContractError::SnapshotTooLarge,
            ) && w == v
            &&& !v.config.paused && !too_large(v) ==> {
                &&& r is Ok
                &&& w.snapshot_ids == v.snapshot_ids.push(now)
                &&& w.snapshots.contains_key(now)
                &&& w.snapshots[now] == snapshot_of(v, now)
                &&& w.snapshots[now].timestamp == now
            }
        }),
{
}

/// In every well-formed state a reporter has at most
/// `MAX_REPORTS_PER_REPORTER` reports in the window, so the window holds at
/// most that many per distinct reporter.
pub proof fn law_reports_bounded(v: ContractView)
    requires
        view_wf(v),
    ensures
        v.failure_count <= MAX_REPORTS_PER_REPORTER * v.reporters.len(),
        forall|a: Address| #[trigger] v.reporter_counts.contains_key(a) ==> v.reporter_counts[a]
            <= MAX_REPORTS_PER_REPORTER,
{
    assert forall|a: Address| v.reporters.contains(a) implies v.reporter_counts[a]
        <= MAX_REPORTS_PER_REPORTER by {
        assert(v.reporter_counts.contains_key(a));
    }
    lemma_total_bound(v.reporters, v.reporter_counts);
}

/// The breaker trips only on more than `FAILURE_THRESHOLD` reports from at
/// least `MIN_DISTINCT_REPORTERS` reporters; with the per-reporter quota,
/// that takes more than `FAILURE_THRESHOLD / MAX_REPORTS_PER_REPORTER`
/// distinct reporters, so no small coalition can pause the contract.
pub proof fn law_breaker_needs_quorum(v: ContractView, reporter: Address, sequence: u32)
    requires
        view_wf(v),
        !v.config.paused,
        step_record_failure(v, reporter, sequence).0.config.paused,
    ensures
        ({
            let w = step_record_failure(v, reporter, sequence).0;
            &&& w.failure_count > FAILURE_THRESHOLD
            &&& w.reporters.len() >= MIN_DISTINCT_REPORTERS
            &&& w.reporters.len() * MAX_REPORTS_PER_REPORTER > FAILURE_THRESHOLD
        }),
{
    let w = step_record_failure(v, reporter, sequence).0;
    let count = if v.reporter_counts.contains_key(reporter) {
        v.reporter_counts[reporter]
    } else {
        0
    };
    assert(count < MAX_REPORTS_PER_REPORTER);
    if v.reporters.contains(reporter) {
        lemma_total_increment(v.reporters, v.reporter_counts, reporter, (count + 1) as u32);
    } else {
        assert(!v.reporter_counts.contains_key(reporter));
        lemma_total_new_reporter(v.reporters, v.reporter_counts, reporter);
    }
    assert forall|a: Address| w.reporters.contains(a) implies w.reporter_counts[a]
        <= MAX_REPORTS_PER_REPORTER by {
        if a != reporter {
            if v.reporters.contains(a) {
                assert(v.reporter_counts.contains_key(a));
            } else {
                assert(w.reporters =~= v.reporters.push(reporter));
                let j = choose|j: int| 0 <= j < w.reporters.len() && w.reporters[j] == a;
                assert(j < v.reporters.len());
                assert(v.reporters[j] == a);
            }
        }
    }
    lemma_total_bound(w.reporters, w.reporter_counts);
}

} // verus!
