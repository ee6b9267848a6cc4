//! Weighted consensus: how one guardian vote changes a task's tally.
use vstd::prelude::*;

verus! {

/// The consensus-relevant part of a task.
#[derive(Clone, Copy, Debug, PartialEq, Eq, Structural)]
pub struct ConsensusState {
    /// Cumulative reputation weight of the accepted votes.
    pub total_weight_accrued: u64,
    /// Number of accepted votes, saturating at `u32::MAX`.
    pub votes: u32,
    /// Whether the weight threshold has been reached.
    pub is_done: bool,
}

/// Why a vote was rejected.
#[derive(Clone, Copy, Debug, PartialEq, Eq, Structural)]
pub enum ConsensusError {
    /// Adding the weight would overflow `u64`.
    WeightOverflow,
    /// A vote must carry a positive weight.
    ZeroWeight,
}

impl ConsensusState {
    /// A fresh tally: no votes, no weight, not done.
    pub fn new() -> (s: ConsensusState)
        ensures
            s == (ConsensusState { total_weight_accrued: 0, votes: 0, is_done: false }),
    {
        ConsensusState { total_weight_accrued: 0, votes: 0, is_done: false }
    }
}

/// The tally after a vote of `weight` against `threshold`, or why the vote
/// is rejected.
pub open spec fn vote_outcome(s: ConsensusState, weight: u64, threshold: u64) -> Result<
    ConsensusState,
    ConsensusError,
> {
    if weight == 0 {
        Err(ConsensusError::ZeroWeight)
    } else if s.total_weight_accrued + weight > u64::MAX {
        Err(ConsensusError::WeightOverflow)
    } else {
        let total = (s.total_weight_accrued + weight) as u64;
        Ok(
            ConsensusState {
                total_weight_accrued: total,
                votes: if s.votes == u32::MAX {
                    u32::MAX
                } else {
                    (s.votes + 1) as u32
                },
                is_done: s.is_done || total >= threshold,
            },
        )
    }
}

/// Applies one vote to the tally. On rejection the tally is left untouched.
pub fn apply_vote(state: &mut ConsensusState, weight: u64, threshold: u64) -> (r: Result<
    (),
    ConsensusError,
>)
    ensures
        match vote_outcome(*old(state), weight, threshold) {
            Ok(next) => r is Ok && *final(state) == next,
            Err(e) => r == Err::<(), ConsensusError>(e) && *final(state) == *old(state),
        },
{
    if weight == 0 {
        return Err(ConsensusError::ZeroWeight);
    }
    let total = match state.total_weight_accrued.checked_add(weight) {
        Some(t) => t,
        None => return Err(ConsensusError::WeightOverflow),
    };
    state.total_weight_accrued = total;
    state.votes = state.votes.saturating_add(1);
    if total >= threshold {
        state.is_done = true;
    }
    Ok(())
}

/// A tally marked done has reached the threshold.
pub open spec fn resolution_holds(s: ConsensusState, threshold: u64) -> bool {
    s.is_done ==> s.total_weight_accrued >= threshold
}

/// Whether a done tally has actually reached `threshold`.
pub fn resolution_invariant_holds(state: &ConsensusState, threshold: u64) -> (b: bool)
    ensures
        b == resolution_holds(*state, threshold),
{
    !state.is_done || state.total_weight_accrued >= threshold
}

/// Accepted votes keep "done implies threshold reached".
pub proof fn lemma_vote_keeps_resolution(s: ConsensusState, weight: u64, threshold: u64)
    requires
        resolution_holds(s, threshold),
    ensures
        vote_outcome(s, weight, threshold) matches Ok(n) ==> resolution_holds(n, threshold),
{
}

/// Once done, a tally stays done, whatever vote comes next.
pub proof fn lemma_done_is_monotone(s: ConsensusState, weight: u64, threshold: u64)
    requires
        s.is_done,
    ensures
        vote_outcome(s, weight, threshold) matches Ok(n) ==> n.is_done,
{
}

/// An accepted vote adds exactly its weight, counts once (saturating), and a
/// tally reaching the threshold is done.
pub proof fn lemma_vote_accumulates(s: ConsensusState, weight: u64, threshold: u64)
    ensures
        vote_outcome(s, weight, threshold) is Ok <==> (weight > 0 && s.total_weight_accrued
            + weight <= u64::MAX),
        vote_outcome(s, weight, threshold) matches Ok(n) ==> {
            &&& n.total_weight_accrued == s.total_weight_accrued + weight
            &&& n.votes == (if s.votes < u32::MAX {
                s.votes + 1
            } else {
                s.votes as int
            })
            &&& n.total_weight_accrued >= threshold ==> n.is_done
        },
{
}

} // verus!
