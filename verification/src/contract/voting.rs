//! Guardian votes: single votes and atomic batches.
//!
//! A vote passes the guardian-level checks (registered, locked balance above
//! the threshold, a positive reputation weight), then the per-task checks,
//! and adds the guardian's weight to the task's tally. A task resolves once
//! its tally is done and it has the votes it requires; resolution asks the
//! vault, when one is set, to release the escrowed funds.
use super::{ext_ok, outcome, refuse, weight_threshold_of, ContractView, Outcome, VeroContract};
use crate::consensus::{apply_vote, vote_outcome, ConsensusError, ConsensusState};
use crate::events::{Effect, Event};
use crate::types::{Address, ContractError, Task, VoteKey};
use vstd::prelude::*;

verus! {

/// Tokens `a` has locked (none recorded counts as zero).
pub open spec fn locked_balance(v: ContractView, a: Address) -> i128 {
    if v.balances.contains_key(a) {
        v.balances[a]
    } else {
        0
    }
}

/// The guardian-level checks shared by `vote` and `vote_batch`.
pub open spec fn voter_check(v: ContractView, guardian: Address) -> Option<ContractError> {
    if !ext_ok(v, guardian) {
        Some(ContractError::InvalidAddress)
    } else if v.config.paused {
        Some(ContractError::ContractPaused)
    } else if !v.guardians.contains(guardian) {
        Some(ContractError::NotAuthorized)
    } else if v.config.token is None {
        Some(ContractError::NotInitialized)
    } else if locked_balance(v, guardian) <= v.config.lock_threshold {
        Some(ContractError::InsufficientLockedBalance)
    } else {
        None
    }
}

/// The weight a guardian's vote carries: its reputation, which must be set
/// and positive.
pub open spec fn vote_weight(v: ContractView, guardian: Address) -> Result<u64, ContractError> {
    if !v.reputations.contains_key(guardian) {
        Err(ContractError::NoReputationScore)
    } else if v.reputations[guardian] == 0 {
        Err(ContractError::ZeroWeightVote)
    } else {
        Ok(v.reputations[guardian])
    }
}

/// The tally part of a task.
pub open spec fn tally(t: Task) -> ConsensusState {
    ConsensusState {
        total_weight_accrued: t.total_weight_accrued,
        votes: t.votes,
        is_done: t.is_done,
    }
}

/// A vote that reached consensus and the required vote count resolves a
/// task that was not resolved before.
pub open spec fn resolves(t: Task, n: ConsensusState) -> bool {
    n.is_done && n.votes >= t.min_votes_required && !t.is_done
}

/// The task after an accepted vote with tally `n`, at time `now`.
pub open spec fn voted_task(t: Task, n: ConsensusState, now: u64) -> Task {
    if resolves(t, n) {
        Task {
            total_weight_accrued: n.total_weight_accrued,
            votes: n.votes,
            is_done: true,
            resolved_at: now,
            ..t
        }
    } else {
        Task { total_weight_accrued: n.total_weight_accrued, votes: n.votes, ..t }
    }
}

/// What an accepted vote publishes and requests: the resolution and the
/// vault release (when it resolves), then the weighted vote.
pub open spec fn vote_effects(
    v: ContractView,
    guardian: Address,
    task_id: u64,
    weight: u64,
    t: Task,
    n: ConsensusState,
) -> Seq<Effect> {
    let resolution = if resolves(t, n) {
        seq![
            Effect::Publish(
                Event::TaskResolved { task_id, total_weight: n.total_weight_accrued },
            ),
        ] + match v.config.vault {
            Some(vault) => seq![Effect::ReleaseVault { vault, task_id }],
            None => Seq::empty(),
        }
    } else {
        Seq::empty()
    };
    resolution.push(Effect::Publish(Event::WeightedVote { guardian, task_id, weight }))
}

/// One vote of `weight` by `guardian` on `task_id` at time `now`, after the
/// guardian-level checks.
pub open spec fn cast_vote(v: ContractView, guardian: Address, task_id: u64, weight: u64, now: u64) -> (
    ContractView,
    Outcome,
) {
    let key = VoteKey { task_id, guardian };
    if v.votes.contains(key) {
        refuse(v, ContractError::DuplicateVote)
    } else if !v.tasks.contains_key(task_id) {
        refuse(v, ContractError::TaskNotFound)
    } else if v.tasks[task_id].is_cancelled {
        refuse(v, ContractError::TaskCancelled)
    } else {
        let t = v.tasks[task_id];
        match vote_outcome(tally(t), weight, weight_threshold_of(v)) {
            Err(ConsensusError::WeightOverflow) => refuse(v, ContractError::WeightOverflow),
            Err(ConsensusError::ZeroWeight) => refuse(v, ContractError::ZeroWeightVote),
            Ok(n) => (
                ContractView {
                    votes: v.votes.insert(key),
                    tasks: v.tasks.insert(task_id, voted_task(t, n, now)),
                    ..v
                },
                Ok(vote_effects(v, guardian, task_id, weight, t, n)),
            ),
        }
    }
}

/// `vote`.
pub open spec fn step_vote(v: ContractView, guardian: Address, task_id: u64, now: u64) -> (
    ContractView,
    Outcome,
) {
    if let Some(e) = voter_check(v, guardian) {
        refuse(v, e)
    } else if v.votes.contains(VoteKey { task_id, guardian }) {
        refuse(v, ContractError::DuplicateVote)
    } else {
        match vote_weight(v, guardian) {
            Err(e) => refuse(v, e),
            Ok(w) => cast_vote(v, guardian, task_id, w, now),
        }
    }
}

/// The votes on `ids`, in order, each on the state the previous one left:
/// the final state and all effects, or the first refusal.
pub open spec fn votes_cast(v: ContractView, guardian: Address, ids: Seq<u64>, weight: u64, now: u64) -> Result<
    (ContractView, Seq<Effect>),
    ContractError,
>
    decreases ids.len(),
{
    if ids.len() == 0 {
        Ok((v, Seq::empty()))
    } else {
        match votes_cast(v, guardian, ids.drop_last(), weight, now) {
            Err(e) => Err(e),
            Ok((w, fx)) => match cast_vote(w, guardian, ids.last(), weight, now) {
                (w2, Ok(more)) => Ok((w2, fx + more)),
                (_, Err(e)) => Err(e),
            },
        }
    }
}

/// `vote_batch`: all votes are cast, or none.
pub open spec fn step_vote_batch(v: ContractView, guardian: Address, ids: Seq<u64>, now: u64) -> (
    ContractView,
    Outcome,
) {
    if let Some(e) = voter_check(v, guardian) {
        refuse(v, e)
    } else {
        match vote_weight(v, guardian) {
            Err(e) => refuse(v, e),
            Ok(w) => match votes_cast(v, guardian, ids, w, now) {
                Ok((w2, fx)) => (w2, Ok(fx)),
                Err(e) => refuse(v, e),
            },
        }
    }
}

/// A cast vote changes nothing but the votes and the voted task.
pub proof fn lemma_cast_vote_frame(v: ContractView, guardian: Address, task_id: u64, weight: u64, now: u64)
    ensures
        ({
            let w = cast_vote(v, guardian, task_id, weight, now).0;
            &&& w == ContractView { votes: w.votes, tasks: w.tasks, ..v }
            &&& w.tasks.dom() =~= v.tasks.dom()
        }),
{
}

impl VeroContract {
    fn voter_check(&self, guardian: &Address) -> (r: Result<(), ContractError>)
        ensures
            r == (match voter_check(self@, *guardian) {
                Some(e) => Err(e),
                None => Ok(()),
            }),
    {
        self.check_external(guardian)?;
        self.require_not_paused()?;
        if !self.is_guardian(*guardian) {
            return Err(ContractError::NotAuthorized);
        }
        if self.config.token.is_none() {
            return Err(ContractError::NotInitialized);
        }
        let balance: i128 = match self.balances.get(guardian) {
            Some(b) => *b,
            None => 0,
        };
        if balance <= self.config.lock_threshold {
            return Err(ContractError::InsufficientLockedBalance);
        }
        Ok(())
    }

    fn vote_weight(&self, guardian: &Address) -> (r: Result<u64, ContractError>)
        ensures
            r == vote_weight(self@, *guardian),
    {
        match self.reputations.get(guardian) {
            None => Err(ContractError::NoReputationScore),
            Some(w) => {
                if *w == 0 {
                    Err(ContractError::ZeroWeightVote)
                } else {
                    Ok(*w)
                }
            },
        }
    }

    fn weight_threshold(&self) -> (t: u64)
        ensures
            t == weight_threshold_of(self@),
    {
        match self.config.weight_threshold {
            Some(t) => t,
            None => crate::DEFAULT_WEIGHT_THRESHOLD,
        }
    }

    /// One vote after the guardian-level checks: per-task checks, the tally
    /// update and the resolution.
    fn vote_inner(&mut self, guardian: Address, task_id: u64, weight: u64, now: u64) -> (r: Result<
        Vec<Effect>,
        ContractError,
    >)
        requires
            old(self).wf(),
        ensures
            final(self).wf(),
            cast_vote(old(self)@, guardian, task_id, weight, now) == (final(self)@, outcome(r)),
    {
        let ghost v = self@;
        let key = VoteKey { task_id, guardian };
        if self.votes.contains_key(&key) {
            return Err(ContractError::DuplicateVote);
        }
        let t = match self.tasks.get(&task_id) {
            Some(t) => *t,
            None => return Err(ContractError::TaskNotFound),
        };
        if t.is_cancelled {
            return Err(ContractError::TaskCancelled);
        }
        let threshold = self.weight_threshold();
        let mut state = ConsensusState {
            total_weight_accrued: t.total_weight_accrued,
            votes: t.votes,
            is_done: t.is_done,
        };
        match apply_vote(&mut state, weight, threshold) {
            Err(ConsensusError::WeightOverflow) => return Err(ContractError::WeightOverflow),
            Err(ConsensusError::ZeroWeight) => return Err(ContractError::ZeroWeightVote),
            Ok(()) => {},
        }
        let mut fx: Vec<Effect> = Vec::new();
        let mut next = Task {
            total_weight_accrued: state.total_weight_accrued,
            votes: state.votes,
            ..t
        };
        if state.is_done && state.votes >= t.min_votes_required && !t.is_done {
            next.is_done = true;
            next.resolved_at = now;
            fx.push(
                Effect::Publish(
                    Event::TaskResolved { task_id, total_weight: state.total_weight_accrued },
                ),
            );
            match self.config.vault {
                Some(vault) => fx.push(Effect::ReleaseVault { vault, task_id }),
                None => {},
            }
        }
        self.votes.insert(key, ());
        self.tasks.insert(task_id, next);
        fx.push(Effect::Publish(Event::WeightedVote { guardian, task_id, weight }));
        proof {
            let w = self@;
            assert(w.votes =~= v.votes.insert(key));
            assert(fx@ =~= vote_effects(v, guardian, task_id, weight, t, state));
            assert forall|x: u64| #[trigger] w.task_ids.contains(x) <==> (w.tasks.contains_key(x)
                || w.archived.contains_key(x)) by {
                assert(v.task_ids.contains(x) <==> (v.tasks.contains_key(x) || v.archived.contains_key(x)));
            }
            assert forall|x: u64| !(#[trigger] w.tasks.contains_key(x) && w.archived.contains_key(x)) by {
                assert(!(v.tasks.contains_key(x) && v.archived.contains_key(x)));
            }
        }
        Ok(fx)
    }

    /// A guardian's weighted vote on a live task at ledger time `now`.
    pub fn vote(&mut self, guardian: Address, task_id: u64, now: u64) -> (r: Result<
        Vec<Effect>,
        ContractError,
    >)
        requires
            old(self).wf(),
        ensures
            final(self).wf(),
            step_vote(old(self)@, guardian, task_id, now) == (final(self)@, outcome(r)),
    {
        self.voter_check(&guardian)?;
        if self.votes.contains_key(&VoteKey { task_id, guardian }) {
            return Err(ContractError::DuplicateVote);
        }
        let weight = self.vote_weight(&guardian)?;
        self.vote_inner(guardian, task_id, weight, now)
    }

    /// Votes on every task of `task_ids`, in order, at ledger time `now`.
    /// The guardian-level checks run once; if any vote is refused, none is
    /// kept.
    pub fn vote_batch(&mut self, guardian: Address, task_ids: &Vec<u64>, now: u64) -> (r: Result<
        Vec<Effect>,
        ContractError,
    >)
        requires
            old(self).wf(),
        ensures
            final(self).wf(),
            step_vote_batch(old(self)@, guardian, task_ids@, now) == (final(self)@, outcome(r)),
    {
        let ghost v = self@;
        self.voter_check(&guardian)?;
        let weight = self.vote_weight(&guardian)?;
        let saved_tasks = self.tasks.duplicate();
        let saved_votes = self.votes.duplicate();
        let mut fx: Vec<Effect> = Vec::new();
        let mut i: usize = 0;
        assert(task_ids@.subrange(0, 0) =~= Seq::<u64>::empty());
        while i < task_ids.len()
            invariant
                old(self)@ == v,
                self.wf(),
                super::view_wf(v),
                voter_check(v, guardian) is None,
                vote_weight(v, guardian) == Ok::<u64, ContractError>(weight),
                i <= task_ids@.len(),
                saved_tasks@ == v.tasks,
                saved_votes@.dom() == v.votes,
                self@ == (ContractView { votes: self@.votes, tasks: self@.tasks, ..v }),
                votes_cast(v, guardian, task_ids@.subrange(0, i as int), weight, now) == Ok::<
                    (ContractView, Seq<Effect>),
                    ContractError,
                >((self@, fx@)),
            decreases task_ids@.len() - i,
        {
            let id = task_ids[i];
            let ghost before = self@;
            let ghost pre = task_ids@.subrange(0, i as int);
            proof {
                lemma_cast_vote_frame(before, guardian, id, weight, now);
                let post = task_ids@.subrange(0, i as int + 1);
                assert(post.drop_last() =~= pre);
                assert(post.last() == id);
            }
            match self.vote_inner(guardian, id, weight, now) {
                Ok(mut more) => {
                    fx.append(&mut more);
                },
                Err(e) => {
                    proof {
                        assert(votes_cast(v, guardian, task_ids@.subrange(0, i as int + 1), weight, now)
                            == Err::<(ContractView, Seq<Effect>), ContractError>(e));
                        lemma_batch_refusal_stops(v, guardian, task_ids@, i as int + 1, weight, now, e);
                    }
                    self.tasks = saved_tasks;
                    self.votes = saved_votes;
                    proof {
                        assert(self@ == v);
                    }
                    return Err(e);
                },
            }
            i += 1;
        }
        assert(task_ids@.subrange(0, task_ids@.len() as int) =~= task_ids@);
        Ok(fx)
    }
}

/// Once a prefix of the batch is refused, the whole batch is refused with
/// the same error.
proof fn lemma_batch_refusal_stops(
    v: ContractView,
    guardian: Address,
    ids: Seq<u64>,
    k: int,
    weight: u64,
    now: u64,
    e: ContractError,
)
    requires
        0 < k <= ids.len(),
        votes_cast(v, guardian, ids.subrange(0, k), weight, now) == Err::<
            (ContractView, Seq<Effect>),
            ContractError,
        >(e),
    ensures
        votes_cast(v, guardian, ids, weight, now) == Err::<(ContractView, Seq<Effect>), ContractError>(
            e,
        ),
    decreases ids.len() - k,
{
    if k < ids.len() {
        let next = ids.subrange(0, k + 1);
        assert(next.drop_last() =~= ids.subrange(0, k));
        lemma_batch_refusal_stops(v, guardian, ids, k + 1, weight, now, e);
    } else {
        assert(ids.subrange(0, k) =~= ids);
    }
}

} // verus!
