//! Batched calls: the cost bound that admits a batch, and the dispatch of
//! one call to its entry point.
//!
//! A batch runs its calls in order and stops at the first refusal, which
//! undoes the whole batch; the caller keeps the state from before the batch
//! in that case. A `StartRewardStream` call needs the outcome of its Drips
//! call, obtained through `reward_stream_call` on the state the call sees.
use super::breaker::{
    ledgers_since, step_record_failure, trusted_reporter, MAX_REPORTS_PER_REPORTER,
    REPORT_COOLDOWN_LEDGERS,
};
use super::config::{
    step_set_fee_bps, step_set_paused, step_set_treasury_address, step_set_vault_address,
    step_set_weight_threshold, step_toggle_pause,
};
use super::guardians::{step_add_guardian, step_remove_guardian, step_set_reputation};
use super::rewards::step_start_reward_stream;
use super::tasks::{cancel_task_aborts, step_cancel_task, step_register_task};
use super::tokens::{
    lock_aborts, payout_aborts, resign_gate, step_emergency_recover, step_lock_tokens,
    step_request_unlock, step_resign_guardian, step_unlock_tokens, unlock_gate,
};
use super::upgrade::{
    step_approve_upgrade, step_cancel_upgrade, step_execute_upgrade, step_propose_upgrade,
    step_set_upgrade_signers,
};
use super::voting::step_vote;
use super::breaker::step_reset_circuit_breaker;
use super::parts::{parts_unique, parts_view};
use super::laws::law_refusal_keeps_state;
use super::{ext_ok, outcome, view_wf, ContractView, Outcome, VeroContract};
use crate::events::Effect;
use crate::gas::{cost_of, get_estimated_cost, MAX_BATCH_EXECUTE_COST};
use crate::types::{operation_of, Address, BatchCall, ContractError};
use vstd::prelude::*;

verus! {

/// The summed cost estimate of the calls.
pub open spec fn batch_cost(calls: Seq<BatchCall>) -> int
    decreases calls.len(),
{
    if calls.len() == 0 {
        0
    } else {
        batch_cost(calls.drop_last()) + cost_of(operation_of(calls.last()))
    }
}

/// Admits a batch whose summed cost estimate is at most
/// `MAX_BATCH_EXECUTE_COST`; refuses it with `BatchTooLarge` otherwise.
pub fn check_batch_cost(calls: &Vec<BatchCall>) -> (r: Result<(), ContractError>)
    ensures
        r is Ok <==> batch_cost(calls@) <= MAX_BATCH_EXECUTE_COST,
        r is Err ==> r == Err::<(), ContractError>(ContractError::BatchTooLarge),
{
    let mut total: u64 = 0;
    let mut i: usize = 0;
    while i < calls.len()
        invariant
            i <= calls@.len(),
            total == batch_cost(calls@.subrange(0, i as int)),
            total <= MAX_BATCH_EXECUTE_COST,
        decreases calls@.len() - i,
    {
        proof {
            let next = calls@.subrange(0, i as int + 1);
            assert(next.drop_last() =~= calls@.subrange(0, i as int));
        }
        total = total.saturating_add(get_estimated_cost(calls[i].operation()));
        if total > MAX_BATCH_EXECUTE_COST {
            proof {
                lemma_batch_cost_grows(calls@, i as int + 1);
            }
            return Err(ContractError::BatchTooLarge);
        }
        i += 1;
    }
    assert(calls@.subrange(0, calls@.len() as int) =~= calls@);
    Ok(())
}

/// A batch costs at least as much as any of its prefixes.
proof fn lemma_batch_cost_grows(calls: Seq<BatchCall>, k: int)
    requires
        0 <= k <= calls.len(),
    ensures
        batch_cost(calls.subrange(0, k)) <= batch_cost(calls),
    decreases calls.len() - k,
{
    if k < calls.len() {
        lemma_batch_cost_grows(calls, k + 1);
        let next = calls.subrange(0, k + 1);
        assert(next.drop_last() =~= calls.subrange(0, k));
    } else {
        assert(calls.subrange(0, k) =~= calls);
    }
}

/// One batched call on state `v` at ledger time `now` and sequence
/// `sequence`; `drips_ok` is the outcome of a reward stream's Drips call.
pub open spec fn step_call(v: ContractView, call: BatchCall, now: u64, sequence: u32, drips_ok: bool) -> (
    ContractView,
    Outcome,
) {
    match call {
        BatchCall::RegisterTask(admin, task_id, min_votes) => step_register_task(v, admin, task_id, min_votes),
        BatchCall::CancelTask(admin, task_id) => step_cancel_task(v, admin, task_id),
        BatchCall::Vote(guardian, task_id) => step_vote(v, guardian, task_id, now),
        BatchCall::AddGuardian(admin, guardian) => step_add_guardian(v, admin, guardian),
        BatchCall::RemoveGuardian(admin, guardian) => step_remove_guardian(v, admin, guardian),
        BatchCall::SetReputation(admin, guardian, score) => step_set_reputation(v, admin, guardian, score),
        BatchCall::LockTokens(guardian, amount) => step_lock_tokens(v, guardian, amount),
        BatchCall::RequestUnlock(guardian) => step_request_unlock(v, guardian, now),
        BatchCall::UnlockTokens(guardian) => step_unlock_tokens(v, guardian, now),
        BatchCall::ResignGuardian(guardian) => step_resign_guardian(v, guardian, now),
        BatchCall::SetWeightThreshold(admin, t) => step_set_weight_threshold(v, admin, t),
        BatchCall::SetVaultAddress(admin, vault) => step_set_vault_address(v, admin, vault),
        BatchCall::StartRewardStream(admin, drips, contributor, task_id) => step_start_reward_stream(
            v,
            admin,
            drips,
            contributor,
            task_id,
            drips_ok,
        ),
        BatchCall::TogglePause(admin) => step_toggle_pause(v, admin),
        BatchCall::Pause(admin) => step_set_paused(v, admin, true),
        BatchCall::Unpause(admin) => step_set_paused(v, admin, false),
        BatchCall::RecordFailure(reporter) => step_record_failure(v, reporter, sequence),
        BatchCall::ResetCircuitBreaker(admin) => step_reset_circuit_breaker(v, admin),
        BatchCall::EmergencyRecover(admin, recipient, amount) => step_emergency_recover(
            v,
            admin,
            recipient,
            amount,
        ),
        BatchCall::SetUpgradeSigners(admin, signers, t) => step_set_upgrade_signers(v, admin, signers@, t),
        BatchCall::ProposeUpgrade(signer, hash) => step_propose_upgrade(v, signer, hash),
        BatchCall::ApproveUpgrade(signer) => step_approve_upgrade(v, signer),
        BatchCall::ExecuteUpgrade(_) => step_execute_upgrade(v),
        BatchCall::CancelUpgrade(admin) => step_cancel_upgrade(v, admin),
        BatchCall::SetFeeBps(admin, bps) => step_set_fee_bps(v, admin, bps),
        BatchCall::SetTreasuryAddress(admin, treasury) => step_set_treasury_address(v, admin, treasury),
    }
}

/// The call does not abort the invocation (an arithmetic overflow, a
/// resolved task cancelled, or a collection past its `u32` index).
pub open spec fn call_admissible(v: ContractView, call: BatchCall, now: u64) -> bool {
    match call {
        BatchCall::RegisterTask(..) => v.task_ids.len() < u32::MAX,
        BatchCall::CancelTask(admin, task_id) => !cancel_task_aborts(v, admin, task_id),
        BatchCall::AddGuardian(..) => v.guardians.len() < u32::MAX,
        BatchCall::LockTokens(guardian, amount) => !lock_aborts(v, guardian, amount),
        BatchCall::UnlockTokens(guardian) => !(unlock_gate(v, guardian, now) is None && payout_aborts(
            v,
            guardian,
        )),
        BatchCall::ResignGuardian(guardian) => !(resign_gate(v, guardian, now) is None
            && payout_aborts(v, guardian)),
        BatchCall::StartRewardStream(..) => v.stream_ids.len() < u32::MAX,
        BatchCall::SetUpgradeSigners(_, signers, _) => signers@.len() <= u32::MAX,
        _ => true,
    }
}

/// Effects `fx` in front of an outcome's effects.
pub open spec fn prepend(fx: Seq<Effect>, run: (ContractView, Outcome)) -> (ContractView, Outcome) {
    match run.1 {
        Ok(more) => (run.0, Ok(fx + more)),
        Err(e) => (run.0, Err(e)),
    }
}

/// The calls run in order, each on the state the one before it left; the
/// first refusal stops the run and is its outcome. `drips[i]` is the outcome
/// of call `i`'s Drips call.
pub open spec fn run_calls(
    v: ContractView,
    calls: Seq<BatchCall>,
    now: u64,
    sequence: u32,
    drips: Seq<bool>,
) -> (ContractView, Outcome)
    decreases calls.len(),
{
    if calls.len() == 0 {
        (v, Ok(Seq::empty()))
    } else {
        let (w, r) = step_call(v, calls[0], now, sequence, drips[0]);
        match r {
            Err(e) => (w, Err(e)),
            Ok(fx) => prepend(fx, run_calls(w, calls.drop_first(), now, sequence, drips.drop_first())),
        }
    }
}

/// `batch_execute`: a batch over the cost bound is refused with
/// `BatchTooLarge` before any call runs; otherwise its calls run in order,
/// and a refusal undoes the whole batch.
pub open spec fn step_batch(
    v: ContractView,
    calls: Seq<BatchCall>,
    now: u64,
    sequence: u32,
    drips: Seq<bool>,
) -> (ContractView, Outcome) {
    if batch_cost(calls) > MAX_BATCH_EXECUTE_COST {
        (v, Err(ContractError::BatchTooLarge))
    } else {
        let (w, r) = run_calls(v, calls, now, sequence, drips);
        match r {
            Ok(fx) => (w, Ok(fx)),
            Err(e) => (v, Err(e)),
        }
    }
}

/// Every call the batch reaches can run without aborting the invocation.
pub open spec fn batch_admissible(
    v: ContractView,
    calls: Seq<BatchCall>,
    now: u64,
    sequence: u32,
    drips: Seq<bool>,
) -> bool
    decreases calls.len(),
{
    calls.len() == 0 || (call_admissible(v, calls[0], now) && {
        let (w, r) = step_call(v, calls[0], now, sequence, drips[0]);
        r is Ok ==> batch_admissible(w, calls.drop_first(), now, sequence, drips.drop_first())
    })
}

/// A refused batch leaves the state exactly as it was before the batch.
pub proof fn law_batch_all_or_nothing(
    v: ContractView,
    calls: Seq<BatchCall>,
    now: u64,
    sequence: u32,
    drips: Seq<bool>,
)
    ensures
        step_batch(v, calls, now, sequence, drips).1 is Err ==> step_batch(
            v,
            calls,
            now,
            sequence,
            drips,
        ).0 == v,
{
}

/// A batch within the cost bound whose first call is refused answers with
/// that refusal and runs nothing else; one whose first call is accepted
/// continues from the state that call left, after that call's effects.
pub proof fn law_batch_runs_in_order(
    v: ContractView,
    calls: Seq<BatchCall>,
    now: u64,
    sequence: u32,
    drips: Seq<bool>,
)
    requires
        calls.len() > 0,
        batch_cost(calls) <= MAX_BATCH_EXECUTE_COST,
    ensures
        ({
            let (w, r) = step_call(v, calls[0], now, sequence, drips[0]);
            let rest = run_calls(w, calls.drop_first(), now, sequence, drips.drop_first());
            &&& r matches Err(e) ==> step_batch(v, calls, now, sequence, drips) == (
                v,
                Err::<Seq<Effect>, ContractError>(e),
            )
            &&& r matches Ok(fx) ==> (rest.1 matches Ok(more) ==> step_batch(
                v,
                calls,
                now,
                sequence,
                drips,
            ) == (rest.0, Ok::<Seq<Effect>, ContractError>(fx + more)))
            &&& (r is Ok && rest.1 is Err) ==> step_batch(v, calls, now, sequence, drips) == (
                v,
                rest.1,
            )
        }),
{
}

/// A batch of one call within the cost bound is that call.
pub proof fn law_batch_of_one(v: ContractView, call: BatchCall, now: u64, sequence: u32, drips_ok: bool)
    requires
        cost_of(operation_of(call)) <= MAX_BATCH_EXECUTE_COST,
    ensures
        step_batch(v, seq![call], now, sequence, seq![drips_ok]) == step_call(
            v,
            call,
            now,
            sequence,
            drips_ok,
        ),
{
    let calls = seq![call];
    let drips = seq![drips_ok];
    assert(calls.drop_last() =~= Seq::<BatchCall>::empty());
    assert(calls.last() == call);
    assert(batch_cost(Seq::<BatchCall>::empty()) == 0);
    assert(batch_cost(calls) == cost_of(operation_of(call)));
    assert(calls.drop_first() =~= Seq::<BatchCall>::empty());
    assert(calls[0] == call && drips[0] == drips_ok);
    let (w, r) = step_call(v, call, now, sequence, drips_ok);
    law_refusal_keeps_state(v, call, now, sequence, drips_ok);
    let rest = run_calls(w, calls.drop_first(), now, sequence, drips.drop_first());
    assert(rest == (w, Ok::<Seq<Effect>, ContractError>(Seq::empty())));
    if let Ok(fx) = r {
        assert(fx + Seq::<Effect>::empty() =~= fx);
    }
}

/// A batched failure report is checked exactly as a direct one: within its
/// cooldown it is refused with `ReportRateLimited`, past its quota with
/// `ReporterQuotaExceeded`, and either refusal leaves the failure count and
/// the rest of the state as they were.
pub proof fn law_batched_report_checked_as_direct(
    v: ContractView,
    reporter: Address,
    now: u64,
    sequence: u32,
    drips_ok: bool,
)
    ensures
        ({
            let (w, r) = step_batch(
                v,
                seq![BatchCall::RecordFailure(reporter)],
                now,
                sequence,
                seq![drips_ok],
            );
            let allowed = ext_ok(v, reporter) && !(v.trusted_reporters_only && !trusted_reporter(
                v,
                reporter,
            ));
            let cooling = v.last_reports.contains_key(reporter) && ledgers_since(
                sequence,
                v.last_reports[reporter],
            ) < REPORT_COOLDOWN_LEDGERS;
            &&& (w, r) == step_record_failure(v, reporter, sequence)
            &&& allowed && cooling ==> r == Err::<Seq<Effect>, ContractError>(
                ContractError::ReportRateLimited,
            ) && w == v
            &&& allowed && !cooling && v.reporter_counts.contains_key(reporter)
                && v.reporter_counts[reporter] >= MAX_REPORTS_PER_REPORTER ==> r == Err::<
                Seq<Effect>,
                ContractError,
            >(ContractError::ReporterQuotaExceeded) && w == v
            &&& r is Err ==> w.failure_count == v.failure_count
        }),
{
    law_batch_of_one(v, BatchCall::RecordFailure(reporter), now, sequence, drips_ok);
}

/// The effects of a run after `acc` already happened, by associativity.
proof fn lemma_prepend_twice(acc: Seq<Effect>, fx: Seq<Effect>, run: (ContractView, Outcome))
    ensures
        prepend(acc, prepend(fx, run)) == prepend(acc + fx, run),
{
    if let Ok(more) = run.1 {
        assert(acc + (fx + more) =~= (acc + fx) + more);
    }
}

impl VeroContract {
    /// Whether the call can run without aborting the invocation.
    pub fn call_admissible(&self, call: &BatchCall, now: u64) -> (b: bool)
        ensures
            b == call_admissible(self@, *call, now),
    {
        match call {
            BatchCall::RegisterTask(..) => self.task_ids.len() < u32::MAX as usize,
            BatchCall::CancelTask(admin, task_id) => !self.cancel_task_aborts(*admin, *task_id),
            BatchCall::AddGuardian(..) => {
                self.guardians.len() < u32::MAX as usize
            },
            BatchCall::LockTokens(guardian, amount) => !self.lock_tokens_aborts(*guardian, *amount),
            BatchCall::UnlockTokens(guardian) => !self.unlock_tokens_aborts(*guardian, now),
            BatchCall::ResignGuardian(guardian) => !self.resign_guardian_aborts(*guardian, now),
            BatchCall::StartRewardStream(..) => self.stream_ids.len() < u32::MAX as usize,
            BatchCall::SetUpgradeSigners(_, signers, _) => signers.len() <= u32::MAX as usize,
            _ => true,
        }
    }

    /// Runs one batched call at ledger time `now` and ledger sequence
    /// `ledger_sequence`; `drips_call_succeeded` is the outcome of the Drips
    /// call of a `StartRewardStream` (ignored for other calls).
    pub fn execute_call(
        &mut self,
        call: &BatchCall,
        now: u64,
        ledger_sequence: u32,
        drips_call_succeeded: bool,
    ) -> (r: Result<Vec<Effect>, ContractError>)
        requires
            old(self).wf(),
            call_admissible(old(self)@, *call, now),
        ensures
            final(self).wf(),
            step_call(old(self)@, *call, now, ledger_sequence, drips_call_succeeded) == (
                final(self)@,
                outcome(r),
            ),
    {
        match call {
            BatchCall::RegisterTask(admin, task_id, min_votes) => self.register_task(
                *admin,
                *task_id,
                *min_votes,
            ),
            BatchCall::CancelTask(admin, task_id) => self.cancel_task(*admin, *task_id),
            BatchCall::Vote(guardian, task_id) => self.vote(*guardian, *task_id, now),
            BatchCall::AddGuardian(admin, guardian) => self.add_guardian(*admin, *guardian),
            BatchCall::RemoveGuardian(admin, guardian) => self.remove_guardian(*admin, *guardian),
            BatchCall::SetReputation(admin, guardian, score) => self.set_reputation(
                *admin,
                *guardian,
                *score,
            ),
            BatchCall::LockTokens(guardian, amount) => self.lock_tokens(*guardian, *amount),
            BatchCall::RequestUnlock(guardian) => self.request_unlock(*guardian, now),
            BatchCall::UnlockTokens(guardian) => self.unlock_tokens(*guardian, now),
            BatchCall::ResignGuardian(guardian) => self.resign_guardian(*guardian, now),
            BatchCall::SetWeightThreshold(admin, t) => self.set_weight_threshold(*admin, *t),
            BatchCall::SetVaultAddress(admin, vault) => self.set_vault_address(*admin, *vault),
            BatchCall::StartRewardStream(admin, drips, contributor, task_id) => self.start_reward_stream(
                *admin,
                *drips,
                *contributor,
                *task_id,
                drips_call_succeeded,
            ),
            BatchCall::TogglePause(admin) => self.toggle_pause(*admin),
            BatchCall::Pause(admin) => self.pause(*admin),
            BatchCall::Unpause(admin) => self.unpause(*admin),
            BatchCall::RecordFailure(reporter) => self.record_failure(*reporter, ledger_sequence),
            BatchCall::ResetCircuitBreaker(admin) => self.reset_circuit_breaker(*admin),
            BatchCall::EmergencyRecover(admin, recipient, amount) => self.emergency_recover(
                *admin,
                *recipient,
                *amount,
            ),
            BatchCall::SetUpgradeSigners(admin, signers, t) => self.set_upgrade_signers(
                *admin,
                signers,
                *t,
            ),
            BatchCall::ProposeUpgrade(signer, hash) => self.propose_upgrade(*signer, *hash),
            BatchCall::ApproveUpgrade(signer) => self.approve_upgrade(*signer),
            BatchCall::ExecuteUpgrade(_) => self.execute_upgrade(),
            BatchCall::CancelUpgrade(admin) => self.cancel_upgrade(*admin),
            BatchCall::SetFeeBps(admin, bps) => self.set_fee_bps(*admin, *bps),
            BatchCall::SetTreasuryAddress(admin, treasury) => self.set_treasury_address(
                *admin,
                *treasury,
            ),
        }
    }

    /// Runs a batch at ledger time `now` and sequence `ledger_sequence`:
    /// refused with `BatchTooLarge` over the cost bound, otherwise the calls
    /// in order until the first refusal, which restores the state from before
    /// the batch. `drips_outcomes[i]` is the outcome of call `i`'s Drips call.
    pub fn batch_execute(
        &mut self,
        calls: &Vec<BatchCall>,
        now: u64,
        ledger_sequence: u32,
        drips_outcomes: &Vec<bool>,
    ) -> (r: Result<Vec<Effect>, ContractError>)
        requires
            old(self).wf(),
            drips_outcomes@.len() == calls@.len(),
            batch_cost(calls@) <= MAX_BATCH_EXECUTE_COST ==> batch_admissible(
                old(self)@,
                calls@,
                now,
                ledger_sequence,
                drips_outcomes@,
            ),
        ensures
            final(self).wf(),
            step_batch(old(self)@, calls@, now, ledger_sequence, drips_outcomes@) == (
                final(self)@,
                outcome(r),
            ),
    {
        check_batch_cost(calls)?;
        let ghost v = self@;
        let ghost whole = run_calls(v, calls@, now, ledger_sequence, drips_outcomes@);
        let saved = self.to_parts();
        let mut fx: Vec<Effect> = Vec::new();
        let mut i: usize = 0;
        proof {
            assert(calls@.skip(0) =~= calls@);
            assert(drips_outcomes@.skip(0) =~= drips_outcomes@);
            if let Ok(all) = whole.1 {
                assert(fx@ + all =~= all);
            }
        }
        while i < calls.len()
            invariant
                i <= calls@.len(),
                drips_outcomes@.len() == calls@.len(),
                batch_cost(calls@) <= MAX_BATCH_EXECUTE_COST,
                self.wf(),
                parts_unique(saved),
                parts_view(saved) == v,
                v == old(self)@,
                view_wf(v),
                whole == run_calls(v, calls@, now, ledger_sequence, drips_outcomes@),
                whole == prepend(
                    fx@,
                    run_calls(
                        self@,
                        calls@.skip(i as int),
                        now,
                        ledger_sequence,
                        drips_outcomes@.skip(i as int),
                    ),
                ),
                batch_admissible(
                    self@,
                    calls@.skip(i as int),
                    now,
                    ledger_sequence,
                    drips_outcomes@.skip(i as int),
                ),
            decreases calls@.len() - i,
        {
            let ghost before = self@;
            let ghost rest = calls@.skip(i as int);
            let ghost drest = drips_outcomes@.skip(i as int);
            proof {
                assert(rest[0] == calls@[i as int]);
                assert(drest[0] == drips_outcomes@[i as int]);
                assert(rest.drop_first() =~= calls@.skip(i as int + 1));
                assert(drest.drop_first() =~= drips_outcomes@.skip(i as int + 1));
            }
            let r = self.execute_call(&calls[i], now, ledger_sequence, drips_outcomes[i]);
            match r {
                Ok(more) => {
                    proof {
                        lemma_prepend_twice(
                            fx@,
                            more@,
                            run_calls(
                                self@,
                                calls@.skip(i as int + 1),
                                now,
                                ledger_sequence,
                                drips_outcomes@.skip(i as int + 1),
                            ),
                        );
                    }
                    let mut more = more;
                    fx.append(&mut more);
                },
                Err(e) => {
                    assert(run_calls(before, rest, now, ledger_sequence, drest) == (
                        self@,
                        Err::<Seq<Effect>, ContractError>(e),
                    ));
                    match VeroContract::from_parts(saved) {
                        Some(c) => {
                            *self = c;
                        },
                        None => {},
                    }
                    return Err(e);
                },
            }
            i += 1;
        }
        proof {
            assert(calls@.skip(i as int) =~= Seq::<BatchCall>::empty());
            assert(fx@ + Seq::<Effect>::empty() =~= fx@);
        }
        Ok(fx)
    }
}

} // verus!
