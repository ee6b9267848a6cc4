//! Reward streams through the Drips protocol.
//!
//! Starting a stream is a cross-contract call whose outcome the contract
//! cannot predict: `reward_stream_call` runs every check and says which
//! call to make; `start_reward_stream` records the stream when that call
//! succeeded and is refused with `DripsCallFailed` when it did not.
use super::{ext_ok, holds, outcome, publish, refuse, ContractView, Outcome, VeroContract};
use crate::events::{Effect, Event};
use crate::keymap::{copy_list, lemma_push_unique};
use crate::types::{Address, ContractError, RewardStream, Role};
use crate::validation::{reward_stream_config_result, validate_reward_stream_config};
use vstd::prelude::*;

verus! {

/// The resolution status the contract reports to Drips: the task resolved.
pub const RESOLVED_STATUS: u32 = 1;

/// A call of `start_stream(contributor, task_id, resolution_status)` on the
/// Drips contract at `drips`.
#[derive(Clone, Copy, Debug, PartialEq, Eq, Structural)]
pub struct StreamCall {
    pub drips: Address,
    pub contributor: Address,
    pub task_id: u64,
    pub resolution_status: u32,
}

/// The checks of `start_reward_stream` that precede the Drips call.
pub open spec fn reward_stream_check(
    v: ContractView,
    admin: Address,
    drips: Address,
    contributor: Address,
    task_id: u64,
) -> Option<ContractError> {
    if !ext_ok(v, admin) || !ext_ok(v, drips) || !ext_ok(v, contributor) {
        Some(ContractError::InvalidAddress)
    } else if v.config.paused {
        Some(ContractError::ContractPaused)
    } else if !holds(v, admin, Role::TreasuryManager) {
        Some(ContractError::NotAuthorized)
    } else if let Err(e) = reward_stream_config_result(v.self_address, drips, contributor, task_id) {
        Some(e)
    } else if !v.tasks.contains_key(task_id) {
        Some(ContractError::TaskNotFound)
    } else if !v.tasks[task_id].is_done {
        Some(ContractError::TaskNotVerified)
    } else if v.streams.contains_key(task_id) {
        Some(ContractError::StreamAlreadyActive)
    } else {
        None
    }
}

/// The stream recorded for a task.
pub open spec fn new_stream(task_id: u64, contributor: Address, drips: Address) -> RewardStream {
    RewardStream { task_id, contributor, drips_contract: drips, active: true }
}

/// `start_reward_stream`, given whether the Drips call succeeded.
pub open spec fn step_start_reward_stream(
    v: ContractView,
    admin: Address,
    drips: Address,
    contributor: Address,
    task_id: u64,
    call_succeeded: bool,
) -> (ContractView, Outcome) {
    if let Some(e) = reward_stream_check(v, admin, drips, contributor, task_id) {
        refuse(v, e)
    } else if !call_succeeded {
        refuse(v, ContractError::DripsCallFailed)
    } else {
        (
            ContractView {
                streams: v.streams.insert(task_id, new_stream(task_id, contributor, drips)),
                stream_ids: v.stream_ids.push(task_id),
                ..v
            },
            Ok(publish(Event::RewardStreamStarted { task_id, contributor })),
        )
    }
}

impl VeroContract {
    /// Runs the checks of `start_reward_stream` and, when they pass, gives
    /// the Drips call to make. Requires `TreasuryManager`.
    pub fn reward_stream_call(
        &self,
        admin: Address,
        drips: Address,
        contributor: Address,
        task_id: u64,
    ) -> (r: Result<StreamCall, ContractError>)
        ensures
            r == (match reward_stream_check(self@, admin, drips, contributor, task_id) {
                Some(e) => Err(e),
                None => Ok(
                    StreamCall { drips, contributor, task_id, resolution_status: RESOLVED_STATUS },
                ),
            }),
    {
        self.check_external(&admin)?;
        self.check_external(&drips)?;
        self.check_external(&contributor)?;
        self.require_not_paused()?;
        self.check_role(&admin, Role::TreasuryManager)?;
        validate_reward_stream_config(&self.self_address, &drips, &contributor, task_id)?;
        match self.tasks.get(&task_id) {
            None => return Err(ContractError::TaskNotFound),
            Some(t) => {
                if !t.is_done {
                    return Err(ContractError::TaskNotVerified);
                }
            },
        }
        if self.streams.contains_key(&task_id) {
            return Err(ContractError::StreamAlreadyActive);
        }
        Ok(StreamCall { drips, contributor, task_id, resolution_status: RESOLVED_STATUS })
    }

    /// Records the reward stream of a resolved task once the Drips call
    /// given by `reward_stream_call` succeeded; refused with
    /// `DripsCallFailed` when it did not.
    pub fn start_reward_stream(
        &mut self,
        admin: Address,
        drips: Address,
        contributor: Address,
        task_id: u64,
        call_succeeded: bool,
    ) -> (r: Result<Vec<Effect>, ContractError>)
        requires
            old(self).wf(),
            old(self)@.stream_ids.len() < u32::MAX,
        ensures
            final(self).wf(),
            step_start_reward_stream(old(self)@, admin, drips, contributor, task_id, call_succeeded)
                == (final(self)@, outcome(r)),
    {
        self.reward_stream_call(admin, drips, contributor, task_id)?;
        if !call_succeeded {
            return Err(ContractError::DripsCallFailed);
        }
        let ghost v = self@;
        proof {
            assert(!v.stream_ids.contains(task_id));
            lemma_push_unique(v.stream_ids, task_id);
        }
        self.streams.insert(
            task_id,
            RewardStream { task_id, contributor, drips_contract: drips, active: true },
        );
        self.stream_ids.push(task_id);
        let mut fx: Vec<Effect> = Vec::new();
        fx.push(Effect::Publish(Event::RewardStreamStarted { task_id, contributor }));
        proof {
            let w = self@;
            assert forall|x: u64| #[trigger] w.stream_ids.contains(x) <==> w.streams.contains_key(x) by {
                assert(v.stream_ids.contains(x) <==> v.streams.contains_key(x));
                if x == task_id {
                    assert(w.stream_ids[w.stream_ids.len() - 1] == x);
                }
                if w.stream_ids.contains(x) && x != task_id {
                    let j = choose|j: int| 0 <= j < w.stream_ids.len() && w.stream_ids[j] == x;
                    assert(v.stream_ids[j] == x);
                }
            }
        }
        Ok(fx)
    }

    /// The reward stream of `task_id`, if one was started.
    pub fn get_reward_stream(&self, task_id: u64) -> (r: Option<RewardStream>)
        ensures
            r == (if self@.streams.contains_key(task_id) {
                Some(self@.streams[task_id])
            } else {
                None
            }),
    {
        match self.streams.get(&task_id) {
            Some(s) => Some(s.clone()),
            None => None,
        }
    }

    /// Ids of the tasks with a reward stream, in start order.
    pub fn get_all_reward_streams(&self) -> (r: Vec<u64>)
        ensures
            r@ == self@.stream_ids,
    {
        copy_list(&self.stream_ids)
    }
}

} // verus!
