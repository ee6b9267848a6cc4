//! Task registration, cancellation, archiving and purging.
//!
//! Tracked task ids are kept in registration order and in a dense slot index
//! (compacted by swap-remove) that the paginated view reads. A task lives in
//! the live store until archived; purging removes every trace of it.
use super::{ext_ok, holds, outcome, publish, refuse, ContractView, Outcome, VeroContract};
use crate::events::{Effect, Event};
use crate::keymap::{
    copy_list, lemma_index_of_unique, lemma_remove_unique, lemma_swap_remove_unique, list_contains,
    list_position, swap_removed,
};
use crate::limits::{ARCHIVE_AFTER_SECONDS, MAX_REGISTER_TASK_BATCH_SIZE};
use crate::types::{Address, ContractError, Role, Task, VoteKey};
use crate::validation::{task_id_valid, validate_task_id};
use vstd::prelude::*;

verus! {

/// A freshly registered task.
pub open spec fn new_task(id: u64, min_votes_required: u32) -> Task {
    Task {
        id,
        votes: 0,
        is_done: false,
        resolved_at: 0,
        total_weight_accrued: 0,
        is_cancelled: false,
        min_votes_required,
    }
}

/// Resolved or cancelled.
pub open spec fn terminal(task: Task) -> bool {
    task.is_done || task.is_cancelled
}

/// A task is terminal once resolved or cancelled; only terminal tasks may
/// be purged.
pub fn is_terminal(task: &Task) -> (b: bool)
    ensures
        b == terminal(*task),
{
    task.is_done || task.is_cancelled
}

/// The checks of the `TaskManager` entry points.
pub open spec fn task_gate(v: ContractView, admin: Address) -> Option<ContractError> {
    if !ext_ok(v, admin) {
        Some(ContractError::InvalidAddress)
    } else if v.config.paused {
        Some(ContractError::ContractPaused)
    } else if !holds(v, admin, Role::TaskManager) {
        Some(ContractError::NotAuthorized)
    } else {
        None
    }
}

/// Every id of the batch is valid, fresh, and listed once.
pub open spec fn batch_ids_ok(v: ContractView, ids: Seq<u64>) -> bool {
    &&& ids.no_duplicates()
    &&& forall|i: int|
        0 <= i < ids.len() ==> task_id_valid(#[trigger] ids[i]) && !v.tasks.contains_key(ids[i])
            && !v.archived.contains_key(ids[i])
}

/// The state with the given ids registered as fresh tasks.
pub open spec fn registered(v: ContractView, ids: Seq<u64>, min_votes_required: u32) -> ContractView {
    ContractView {
        tasks: Map::new(
            |k: u64| v.tasks.contains_key(k) || ids.contains(k),
            |k: u64|
                if ids.contains(k) {
                    new_task(k, min_votes_required)
                } else {
                    v.tasks[k]
                },
        ),
        task_ids: v.task_ids + ids,
        task_slots: v.task_slots + ids,
        ..v
    }
}

/// One `TaskRegistered` event per id, in order.
pub open spec fn registration_events(admin: Address, ids: Seq<u64>) -> Seq<Effect> {
    ids.map_values(|id: u64| Effect::Publish(Event::TaskRegistered { admin, task_id: id }))
}

/// `register_tasks`: 1 to 32 fresh, valid, distinct ids.
pub open spec fn step_register_tasks(
    v: ContractView,
    admin: Address,
    ids: Seq<u64>,
    min_votes_required: u32,
) -> (ContractView, Outcome) {
    if ids.len() == 0 || ids.len() > MAX_REGISTER_TASK_BATCH_SIZE {
        refuse(v, ContractError::BatchTooLarge)
    } else if !batch_ids_ok(v, ids) {
        refuse(v, ContractError::InvalidConfig)
    } else {
        (registered(v, ids, min_votes_required), Ok(registration_events(admin, ids)))
    }
}

/// `register_task`: one task, by a `TaskManager`.
pub open spec fn step_register_task(
    v: ContractView,
    admin: Address,
    task_id: u64,
    min_votes_required: u32,
) -> (ContractView, Outcome) {
    if let Some(e) = task_gate(v, admin) {
        refuse(v, e)
    } else {
        step_register_tasks(v, admin, seq![task_id], min_votes_required)
    }
}

/// `cancel_task` reaches a resolved task, which aborts the invocation.
pub open spec fn cancel_task_aborts(v: ContractView, admin: Address, task_id: u64) -> bool {
    task_gate(v, admin) is None && task_id_valid(task_id) && v.tasks.contains_key(task_id)
        && v.tasks[task_id].is_done
}

/// `cancel_task`: marks a live, unresolved task cancelled.
pub open spec fn step_cancel_task(v: ContractView, admin: Address, task_id: u64) -> (
    ContractView,
    Outcome,
) {
    if let Some(e) = task_gate(v, admin) {
        refuse(v, e)
    } else if !task_id_valid(task_id) {
        refuse(v, ContractError::InvalidConfig)
    } else if !v.tasks.contains_key(task_id) {
        refuse(v, ContractError::TaskNotFound)
    } else if v.tasks[task_id].is_cancelled {
        refuse(v, ContractError::TaskCancelled)
    } else {
        (
            ContractView {
                tasks: v.tasks.insert(task_id, Task { is_cancelled: true, ..v.tasks[task_id] }),
                ..v
            },
            Ok(publish(Event::TaskCancelled { task_id })),
        )
    }
}

/// The stored copy of a task, live or archived.
pub open spec fn stored_task(v: ContractView, task_id: u64) -> Task {
    if v.tasks.contains_key(task_id) {
        v.tasks[task_id]
    } else {
        v.archived[task_id]
    }
}

/// The list without `x`, if it held it.
pub open spec fn drop_id(s: Seq<u64>, x: u64) -> Seq<u64> {
    if s.contains(x) {
        s.remove(s.index_of(x))
    } else {
        s
    }
}

/// The state with every trace of a task removed: its live and archived
/// copies, its votes, its index entries and its reward stream.
pub open spec fn purged(v: ContractView, task_id: u64) -> ContractView {
    ContractView {
        votes: Set::new(|k: VoteKey| v.votes.contains(k) && k.task_id != task_id),
        tasks: v.tasks.remove(task_id),
        archived: v.archived.remove(task_id),
        task_ids: v.task_ids.remove(v.task_ids.index_of(task_id)),
        task_slots: swap_removed(v.task_slots, v.task_slots.index_of(task_id)),
        streams: v.streams.remove(task_id),
        stream_ids: drop_id(v.stream_ids, task_id),
        ..v
    }
}

/// `purge_task`: removes a resolved or cancelled task, live or archived.
pub open spec fn step_purge_task(v: ContractView, admin: Address, task_id: u64) -> (
    ContractView,
    Outcome,
) {
    if let Some(e) = task_gate(v, admin) {
        refuse(v, e)
    } else if !v.tasks.contains_key(task_id) && !v.archived.contains_key(task_id) {
        refuse(v, ContractError::TaskNotFound)
    } else if !terminal(stored_task(v, task_id)) {
        refuse(v, ContractError::TaskNotTerminal)
    } else {
        (purged(v, task_id), Ok(publish(Event::TaskPurged { task_id })))
    }
}

/// The task was resolved at least `ARCHIVE_AFTER_SECONDS` before `now`.
pub open spec fn is_stale(task: Task, now: u64) -> bool {
    now >= task.resolved_at && now - task.resolved_at >= ARCHIVE_AFTER_SECONDS
}

/// `archive_task`: moves a resolved, stale task to the archive.
pub open spec fn step_archive_task(v: ContractView, admin: Address, task_id: u64, now: u64) -> (
    ContractView,
    Outcome,
) {
    if let Some(e) = task_gate(v, admin) {
        refuse(v, e)
    } else if !v.tasks.contains_key(task_id) {
        refuse(
            v,
            if v.archived.contains_key(task_id) {
                ContractError::TaskAlreadyArchived
            } else {
                ContractError::TaskNotFound
            },
        )
    } else if !v.tasks[task_id].is_done {
        refuse(v, ContractError::TaskNotVerified)
    } else if !is_stale(v.tasks[task_id], now) {
        refuse(v, ContractError::TaskNotStale)
    } else {
        (
            ContractView {
                tasks: v.tasks.remove(task_id),
                archived: v.archived.insert(task_id, v.tasks[task_id]),
                ..v
            },
            Ok(publish(Event::TaskArchived { task_id })),
        )
    }
}

impl VeroContract {
    fn task_gate(&self, admin: &Address) -> (r: Result<(), ContractError>)
        ensures
            r == (match task_gate(self@, *admin) {
                Some(e) => Err(e),
                None => Ok(()),
            }),
    {
        self.check_external(admin)?;
        self.require_not_paused()?;
        self.check_role(admin, Role::TaskManager)
    }

    /// Registers a batch of 1 to 32 fresh tasks requiring `min_votes_required`
    /// votes each. The caller is responsible for authorization.
    pub fn register_tasks(&mut self, admin: Address, task_ids: &Vec<u64>, min_votes_required: u32) -> (r:
        Result<Vec<Effect>, ContractError>)
        requires
            old(self).wf(),
            old(self)@.task_ids.len() + task_ids@.len() <= u32::MAX,
        ensures
            final(self).wf(),
            step_register_tasks(old(self)@, admin, task_ids@, min_votes_required) == (
                final(self)@,
                outcome(r),
            ),
    {
        let ghost v = self@;
        let ghost ids = task_ids@;
        if task_ids.len() == 0 || task_ids.len() > MAX_REGISTER_TASK_BATCH_SIZE as usize {
            return Err(ContractError::BatchTooLarge);
        }
        let mut seen: Vec<u64> = Vec::new();
        let mut i: usize = 0;
        while i < task_ids.len()
            invariant
                v == self@,
                self.wf(),
                ids == task_ids@,
                0 < ids.len() <= MAX_REGISTER_TASK_BATCH_SIZE,
                i <= ids.len(),
                seen@ == ids.subrange(0, i as int),
                seen@.no_duplicates(),
                forall|j: int|
                    0 <= j < i ==> task_id_valid(#[trigger] ids[j]) && !v.tasks.contains_key(ids[j])
                        && !v.archived.contains_key(ids[j]),
            decreases ids.len() - i,
        {
            let id = task_ids[i];
            let dup = list_contains(&seen, &id);
            if validate_task_id(id).is_err() || dup || self.tasks.contains_key(&id)
                || self.archived.contains_key(&id) {
                proof {
                    if dup {
                        let j = choose|j: int| 0 <= j < seen@.len() && seen@[j] == id;
                        assert(ids[j] == ids[i as int]);
                    }
                    assert(!batch_ids_ok(v, ids));
                }
                return Err(ContractError::InvalidConfig);
            }
            proof {
                assert forall|a: int, b: int|
                    0 <= a < i + 1 && 0 <= b < i + 1 && a != b implies ids[a] != ids[b] by {
                    if a == i {
                        assert(seen@[b] == ids[b]);
                    }
                    if b == i {
                        assert(seen@[a] == ids[a]);
                    }
                    if a < i && b < i {
                        assert(seen@[a] == ids[a] && seen@[b] == ids[b]);
                    }
                }
            }
            seen.push(id);
            i += 1;
        }
        assert(ids.subrange(0, ids.len() as int) =~= ids);
        let mut fx: Vec<Effect> = Vec::new();
        let mut k: usize = 0;
        assert(registered(v, ids.subrange(0, 0), min_votes_required) == v) by {
            let e = ids.subrange(0, 0);
            assert(v.task_ids + e =~= v.task_ids);
            assert(v.task_slots + e =~= v.task_slots);
            assert(registered(v, e, min_votes_required).tasks =~= v.tasks);
        }
        while k < task_ids.len()
            invariant
                ids == task_ids@,
                batch_ids_ok(v, ids),
                k <= ids.len(),
                self@ == registered(v, ids.subrange(0, k as int), min_votes_required),
                fx@ == registration_events(admin, ids.subrange(0, k as int)),
            decreases ids.len() - k,
        {
            let id = task_ids[k];
            let task = Task {
                id,
                votes: 0,
                is_done: false,
                resolved_at: 0,
                total_weight_accrued: 0,
                is_cancelled: false,
                min_votes_required,
            };
            self.tasks.insert(id, task);
            self.task_ids.push(id);
            self.task_slots.push(id);
            fx.push(Effect::Publish(Event::TaskRegistered { admin, task_id: id }));
            proof {
                let pre = ids.subrange(0, k as int);
                let post = ids.subrange(0, k as int + 1);
                assert(post =~= pre.push(id));
                assert forall|x: u64| #[trigger] post.contains(x) <==> (pre.contains(x) || x == id) by {
                    if post.contains(x) && x != id {
                        let j = choose|j: int| 0 <= j < post.len() && post[j] == x;
                        assert(j < pre.len());
                        assert(pre[j] == x);
                    }
                    if pre.contains(x) {
                        let j = choose|j: int| 0 <= j < pre.len() && pre[j] == x;
                        assert(post[j] == x);
                    }
                    if x == id {
                        assert(post[k as int] == x);
                    }
                }
                assert(!pre.contains(id)) by {
                    if pre.contains(id) {
                        let j = choose|j: int| 0 <= j < pre.len() && pre[j] == id;
                        assert(ids[j] == ids[k as int]);
                    }
                }
                assert(self@.tasks =~= registered(v, post, min_votes_required).tasks);
                assert(self@.task_ids =~= v.task_ids + post);
                assert(self@.task_slots =~= v.task_slots + post);
                assert(fx@ =~= registration_events(admin, post));
            }
            k += 1;
        }
        proof {
            assert(ids.subrange(0, ids.len() as int) =~= ids);
            let w = self@;
            assert forall|x: u64| #[trigger] w.task_ids.contains(x) <==> (v.task_ids.contains(x) || ids.contains(x)) by {
                if w.task_ids.contains(x) {
                    let j = choose|j: int| 0 <= j < w.task_ids.len() && w.task_ids[j] == x;
                    if j < v.task_ids.len() {
                        assert(v.task_ids[j] == x);
                    } else {
                        assert(ids[j - v.task_ids.len()] == x);
                    }
                }
                if v.task_ids.contains(x) {
                    let j = choose|j: int| 0 <= j < v.task_ids.len() && v.task_ids[j] == x;
                    assert(w.task_ids[j] == x);
                }
                if ids.contains(x) {
                    let j = choose|j: int| 0 <= j < ids.len() && ids[j] == x;
                    assert(w.task_ids[v.task_ids.len() + j] == x);
                }
            }
            assert forall|x: u64| #[trigger] w.task_slots.contains(x) <==> (v.task_slots.contains(x) || ids.contains(x)) by {
                if w.task_slots.contains(x) {
                    let j = choose|j: int| 0 <= j < w.task_slots.len() && w.task_slots[j] == x;
                    if j < v.task_slots.len() {
                        assert(v.task_slots[j] == x);
                    } else {
                        assert(ids[j - v.task_slots.len()] == x);
                    }
                }
                if v.task_slots.contains(x) {
                    let j = choose|j: int| 0 <= j < v.task_slots.len() && v.task_slots[j] == x;
                    assert(w.task_slots[j] == x);
                }
                if ids.contains(x) {
                    let j = choose|j: int| 0 <= j < ids.len() && ids[j] == x;
                    assert(w.task_slots[v.task_slots.len() + j] == x);
                }
            }
            assert forall|a: int, b: int|
                0 <= a < w.task_ids.len() && 0 <= b < w.task_ids.len() && a != b implies w.task_ids[a]
                != w.task_ids[b] by {
                let n = v.task_ids.len() as int;
                if a < n && b < n {
                    assert(w.task_ids[a] == v.task_ids[a] && w.task_ids[b] == v.task_ids[b]);
                } else if a >= n && b >= n {
                    assert(w.task_ids[a] == ids[a - n] && w.task_ids[b] == ids[b - n]);
                } else if a < n {
                    assert(w.task_ids[a] == v.task_ids[a] && w.task_ids[b] == ids[b - n]);
                    assert(v.task_ids.contains(v.task_ids[a]));
                } else {
                    assert(w.task_ids[b] == v.task_ids[b] && w.task_ids[a] == ids[a - n]);
                    assert(v.task_ids.contains(v.task_ids[b]));
                }
            }
            assert forall|a: int, b: int|
                0 <= a < w.task_slots.len() && 0 <= b < w.task_slots.len() && a != b implies w.task_slots[a]
                != w.task_slots[b] by {
                let n = v.task_slots.len() as int;
                if a < n && b < n {
                    assert(w.task_slots[a] == v.task_slots[a] && w.task_slots[b] == v.task_slots[b]);
                } else if a >= n && b >= n {
                    assert(w.task_slots[a] == ids[a - n] && w.task_slots[b] == ids[b - n]);
                } else if a < n {
                    assert(w.task_slots[a] == v.task_slots[a] && w.task_slots[b] == ids[b - n]);
                    assert(v.task_slots.contains(v.task_slots[a]));
                    assert(v.task_ids.contains(v.task_slots[a]));
                } else {
                    assert(w.task_slots[b] == v.task_slots[b] && w.task_slots[a] == ids[a - n]);
                    assert(v.task_slots.contains(v.task_slots[b]));
                    assert(v.task_ids.contains(v.task_slots[b]));
                }
            }
            assert forall|x: u64| #[trigger] w.task_ids.contains(x) <==> (w.tasks.contains_key(x) || w.archived.contains_key(x)) by {
                assert(v.task_ids.contains(x) <==> (v.tasks.contains_key(x) || v.archived.contains_key(x)));
            }
            assert forall|x: u64| !(#[trigger] w.tasks.contains_key(x) && w.archived.contains_key(x)) by {
                if ids.contains(x) {
                    let j = choose|j: int| 0 <= j < ids.len() && ids[j] == x;
                    assert(!v.archived.contains_key(ids[j]));
                }
                assert(!(v.tasks.contains_key(x) && v.archived.contains_key(x)));
            }
        }
        Ok(fx)
    }

    /// Registers one task. Requires `TaskManager`.
    pub fn register_task(&mut self, admin: Address, task_id: u64, min_votes_required: u32) -> (r:
        Result<Vec<Effect>, ContractError>)
        requires
            old(self).wf(),
            old(self)@.task_ids.len() < u32::MAX,
        ensures
            final(self).wf(),
            step_register_task(old(self)@, admin, task_id, min_votes_required) == (
                final(self)@,
                outcome(r),
            ),
    {
        self.task_gate(&admin)?;
        let mut ids: Vec<u64> = Vec::new();
        ids.push(task_id);
        assert(ids@ =~= seq![task_id]);
        self.register_tasks(admin, &ids, min_votes_required)
    }

    /// Whether `cancel_task` would reach a resolved task, which aborts the
    /// invocation.
    pub fn cancel_task_aborts(&self, admin: Address, task_id: u64) -> (b: bool)
        ensures
            b == cancel_task_aborts(self@, admin, task_id),
    {
        if self.task_gate(&admin).is_err() || validate_task_id(task_id).is_err() {
            return false;
        }
        match self.tasks.get(&task_id) {
            Some(t) => t.is_done,
            None => false,
        }
    }

    /// Cancels a live, unresolved task. Requires `TaskManager`.
    pub fn cancel_task(&mut self, admin: Address, task_id: u64) -> (r: Result<Vec<Effect>, ContractError>)
        requires
            old(self).wf(),
            !cancel_task_aborts(old(self)@, admin, task_id),
        ensures
            final(self).wf(),
            step_cancel_task(old(self)@, admin, task_id) == (final(self)@, outcome(r)),
    {
        self.task_gate(&admin)?;
        validate_task_id(task_id)?;
        let task = match self.tasks.get(&task_id) {
            Some(t) => *t,
            None => return Err(ContractError::TaskNotFound),
        };
        if task.is_cancelled {
            return Err(ContractError::TaskCancelled);
        }
        self.tasks.insert(task_id, Task { is_cancelled: true, ..task });
        let mut fx: Vec<Effect> = Vec::new();
        fx.push(Effect::Publish(Event::TaskCancelled { task_id }));
        Ok(fx)
    }

    /// The live task `task_id`, if any.
    pub fn get_task(&self, task_id: u64) -> (r: Option<Task>)
        ensures
            r == (if self@.tasks.contains_key(task_id) {
                Some(self@.tasks[task_id])
            } else {
                None
            }),
    {
        match self.tasks.get(&task_id) {
            Some(t) => Some(*t),
            None => None,
        }
    }

    /// The archived task `task_id`, if any.
    pub fn get_archived_task(&self, task_id: u64) -> (r: Option<Task>)
        ensures
            r == (if self@.archived.contains_key(task_id) {
                Some(self@.archived[task_id])
            } else {
                None
            }),
    {
        match self.archived.get(&task_id) {
            Some(t) => Some(*t),
            None => None,
        }
    }

    /// Ids of every tracked task, in registration order.
    pub fn get_all_tasks(&self) -> (r: Vec<u64>)
        ensures
            r@ == self@.task_ids,
    {
        copy_list(&self.task_ids)
    }

    /// Archives a resolved task once `ARCHIVE_AFTER_SECONDS` have passed
    /// since its resolution. Requires `TaskManager`.
    pub fn archive_task(&mut self, admin: Address, task_id: u64, now: u64) -> (r: Result<
        Vec<Effect>,
        ContractError,
    >)
        requires
            old(self).wf(),
        ensures
            final(self).wf(),
            step_archive_task(old(self)@, admin, task_id, now) == (final(self)@, outcome(r)),
    {
        self.task_gate(&admin)?;
        let task = match self.tasks.get(&task_id) {
            Some(t) => *t,
            None => {
                if self.archived.contains_key(&task_id) {
                    return Err(ContractError::TaskAlreadyArchived);
                }
                return Err(ContractError::TaskNotFound);
            },
        };
        if !task.is_done {
            return Err(ContractError::TaskNotVerified);
        }
        if now < task.resolved_at || now - task.resolved_at < ARCHIVE_AFTER_SECONDS {
            return Err(ContractError::TaskNotStale);
        }
        let ghost v = self@;
        self.tasks.remove(&task_id);
        self.archived.insert(task_id, task);
        let mut fx: Vec<Effect> = Vec::new();
        fx.push(Effect::Publish(Event::TaskArchived { task_id }));
        proof {
            let w = self@;
            assert forall|x: u64| #[trigger] w.task_ids.contains(x) <==> (w.tasks.contains_key(x)
                || w.archived.contains_key(x)) by {
                assert(v.task_ids.contains(x) <==> (v.tasks.contains_key(x) || v.archived.contains_key(x)));
            }
            assert forall|x: u64| !(#[trigger] w.tasks.contains_key(x) && w.archived.contains_key(x)) by {
                assert(!(v.tasks.contains_key(x) && v.archived.contains_key(x)));
            }
        }
        Ok(fx)
    }

    /// Purges a resolved or cancelled task, live or archived, with its
    /// votes, index entries and reward stream. Requires `TaskManager`.
    pub fn purge_task(&mut self, admin: Address, task_id: u64) -> (r: Result<Vec<Effect>, ContractError>)
        requires
            old(self).wf(),
        ensures
            final(self).wf(),
            step_purge_task(old(self)@, admin, task_id) == (final(self)@, outcome(r)),
    {
        self.task_gate(&admin)?;
        let task = match self.tasks.get(&task_id) {
            Some(t) => *t,
            None => match self.archived.get(&task_id) {
                Some(t) => *t,
                None => return Err(ContractError::TaskNotFound),
            },
        };
        if !is_terminal(&task) {
            return Err(ContractError::TaskNotTerminal);
        }
        let ghost v = self@;
        let pos = match list_position(&self.task_ids, &task_id) {
            Some(p) => p,
            None => {
                return Err(ContractError::TaskNotFound);
            },
        };
        let slot = match list_position(&self.task_slots, &task_id) {
            Some(p) => p,
            None => {
                proof {
                    assert(v.task_slots.contains(task_id));
                }
                return Err(ContractError::TaskNotFound);
            },
        };
        proof {
            lemma_index_of_unique(v.task_ids, pos as int);
            lemma_index_of_unique(v.task_slots, slot as int);
            lemma_remove_unique(v.task_ids, pos as int);
            lemma_swap_remove_unique(v.task_slots, slot as int);
        }
        self.votes.remove_task(task_id);
        self.tasks.remove(&task_id);
        self.archived.remove(&task_id);
        self.task_ids.remove(pos);
        self.task_slots.swap_remove(slot);
        self.streams.remove(&task_id);
        match list_position(&self.stream_ids, &task_id) {
            Some(p) => {
                proof {
                    lemma_index_of_unique(v.stream_ids, p as int);
                    lemma_remove_unique(v.stream_ids, p as int);
                }
                self.stream_ids.remove(p);
            },
            None => {},
        }
        let mut fx: Vec<Effect> = Vec::new();
        fx.push(Effect::Publish(Event::TaskPurged { task_id }));
        proof {
            let w = self@;
            assert(w.votes =~= Set::new(|k: VoteKey| v.votes.contains(k) && k.task_id != task_id));
            assert forall|x: u64| #[trigger] w.task_ids.contains(x) <==> w.task_slots.contains(x) by {
                assert(v.task_ids.contains(x) <==> v.task_slots.contains(x));
            }
            assert forall|x: u64| #[trigger] w.task_ids.contains(x) <==> (w.tasks.contains_key(x)
                || w.archived.contains_key(x)) by {
                assert(v.task_ids.contains(x) <==> (v.tasks.contains_key(x) || v.archived.contains_key(x)));
            }
            assert forall|x: u64| #[trigger] w.stream_ids.contains(x) <==> w.streams.contains_key(x) by {
                assert(v.stream_ids.contains(x) <==> v.streams.contains_key(x));
            }
            assert(w == purged(v, task_id));
        }
        Ok(fx)
    }
}

} // verus!
