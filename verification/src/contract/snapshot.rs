//! Read-only views of the state: the atomic snapshot, its constant-size
//! header, recorded snapshots, and bounded pages of the tracked collections.
use super::{outcome, publish, refuse, weight_threshold_of, ContractView, Outcome, SnapshotView, VeroContract};
use crate::events::{Effect, Event};
use crate::keymap::{copy_list, keys_unique, list_contains, restricted};
use crate::limits::{MAX_PAGE_LIMIT, MAX_SNAPSHOT_COLLECTION_SIZE};
use crate::types::{Address, ContractError, GuardianEntry, RewardStream, Snapshot, SnapshotMeta, Task, VoteKey};
use vstd::prelude::*;

verus! {

/// Some tracked collection is too large for an atomic snapshot.
pub open spec fn too_large(v: ContractView) -> bool {
    v.guardians.len() > MAX_SNAPSHOT_COLLECTION_SIZE || v.task_ids.len()
        > MAX_SNAPSHOT_COLLECTION_SIZE || v.stream_ids.len() > MAX_SNAPSHOT_COLLECTION_SIZE
}

/// The snapshot of state `v` taken at time `now`.
pub open spec fn snapshot_of(v: ContractView, now: u64) -> SnapshotView {
    SnapshotView {
        timestamp: now,
        paused: v.config.paused,
        failure_count: v.failure_count,
        weight_threshold: weight_threshold_of(v),
        admin: v.config.admin,
        vault_address: v.config.vault,
        drips_address: v.config.drips,
        guardians: Map::new(|g: Address| v.guardians.contains(g), |g: Address| true),
        reputations: restricted(v.reputations, v.guardians),
        tasks: v.tasks,
        votes: Set::new(|k: VoteKey| v.votes.contains(k) && v.task_ids.contains(k.task_id)),
        reward_streams: v.streams,
    }
}

/// Each entry list of the snapshot holds a key at most once.
pub open spec fn lists_unique(s: Snapshot) -> bool {
    &&& keys_unique(s.guardians@)
    &&& keys_unique(s.reputations@)
    &&& keys_unique(s.tasks@)
    &&& s.votes@.no_duplicates()
    &&& keys_unique(s.reward_streams@)
}

/// `record_snapshot`: stores the snapshot of `now` under its timestamp.
pub open spec fn step_record_snapshot(v: ContractView, now: u64) -> (ContractView, Outcome) {
    if v.config.paused {
        refuse(v, ContractError::ContractPaused)
    } else if too_large(v) {
        refuse(v, ContractError::SnapshotTooLarge)
    } else {
        (
            ContractView {
                snapshots: v.snapshots.insert(now, snapshot_of(v, now)),
                snapshot_ids: v.snapshot_ids.push(now),
                ..v
            },
            Ok(publish(Event::SnapshotRecorded { timestamp: now })),
        )
    }
}

/// The header of state `v` at time `now`.
pub open spec fn meta_of(v: ContractView, now: u64) -> SnapshotMeta {
    SnapshotMeta {
        timestamp: now,
        paused: v.config.paused,
        failure_count: v.failure_count,
        weight_threshold: weight_threshold_of(v),
        admin: v.config.admin,
        vault_address: v.config.vault,
        drips_address: v.config.drips,
        guardian_count: v.guardian_slots.len() as u32,
        task_count: v.task_slots.len() as u32,
        reward_stream_count: v.stream_ids.len() as u32,
    }
}

/// One past the last position a page starting at `offset` covers, with
/// `limit` capped at `MAX_PAGE_LIMIT`.
pub open spec fn page_end(offset: u32, limit: u32, count: int) -> int {
    let lim = if limit < MAX_PAGE_LIMIT {
        limit
    } else {
        MAX_PAGE_LIMIT
    };
    if offset + lim < count {
        offset + lim
    } else {
        count
    }
}

/// The part of `s` a page starting at `offset` covers.
pub open spec fn window<T>(s: Seq<T>, offset: u32, limit: u32) -> Seq<T> {
    let end = page_end(offset, limit, s.len() as int);
    if offset < end {
        s.subrange(offset as int, end)
    } else {
        Seq::empty()
    }
}

/// A guardian's page entry.
pub open spec fn guardian_entry(v: ContractView, g: Address) -> GuardianEntry {
    GuardianEntry {
        address: g,
        is_guardian: v.guardians.contains(g),
        reputation: if v.reputations.contains_key(g) {
            Some(v.reputations[g])
        } else {
            None
        },
    }
}

/// The live tasks among `ids`, in order.
pub open spec fn live_tasks(v: ContractView, ids: Seq<u64>) -> Seq<Task>
    decreases ids.len(),
{
    if ids.len() == 0 {
        Seq::empty()
    } else {
        let rest = live_tasks(v, ids.drop_last());
        if v.tasks.contains_key(ids.last()) {
            rest.push(v.tasks[ids.last()])
        } else {
            rest
        }
    }
}

/// Skipping the ids of archived tasks never lengthens a page.
pub proof fn lemma_live_tasks_len(v: ContractView, ids: Seq<u64>)
    ensures
        live_tasks(v, ids).len() <= ids.len(),
    decreases ids.len(),
{
    if ids.len() > 0 {
        lemma_live_tasks_len(v, ids.drop_last());
    }
}

/// A page covers at most `MAX_PAGE_LIMIT` positions.
pub proof fn lemma_window_len<T>(s: Seq<T>, offset: u32, limit: u32)
    ensures
        window(s, offset, limit).len() <= MAX_PAGE_LIMIT,
{
}

impl VeroContract {
    fn too_large(&self) -> (b: bool)
        ensures
            b == too_large(self@),
    {
        self.guardians.len() > MAX_SNAPSHOT_COLLECTION_SIZE as usize || self.task_ids.len()
            > MAX_SNAPSHOT_COLLECTION_SIZE as usize || self.stream_ids.len()
            > MAX_SNAPSHOT_COLLECTION_SIZE as usize
    }

    fn weight_threshold_value(&self) -> (t: u64)
        ensures
            t == weight_threshold_of(self@),
    {
        match self.config.weight_threshold {
            Some(t) => t,
            None => crate::DEFAULT_WEIGHT_THRESHOLD,
        }
    }

    fn guardian_flags(&self) -> (r: Vec<(Address, bool)>)
        requires
            self.wf(),
        ensures
            keys_unique(r@),
            crate::keymap::entries_map(r@) == Map::new(
                |g: Address| self@.guardians.contains(g),
                |g: Address| true,
            ),
    {
        let ghost gs = self@.guardians;
        let mut out: Vec<(Address, bool)> = Vec::new();
        let mut i: usize = 0;
        assert(crate::keymap::entries_map(out@) =~= Map::new(
            |g: Address| gs.subrange(0, 0).contains(g),
            |g: Address| true,
        ));
        while i < self.guardians.len()
            invariant
                gs == self.guardians@,
                gs.no_duplicates(),
                i <= gs.len(),
                keys_unique(out@),
                crate::keymap::entries_map(out@) == Map::new(
                    |g: Address| gs.subrange(0, i as int).contains(g),
                    |g: Address| true,
                ),
            decreases gs.len() - i,
        {
            let g = self.guardians[i];
            let ghost pre = gs.subrange(0, i as int);
            let ghost post = gs.subrange(0, i as int + 1);
            proof {
                assert(!pre.contains(g)) by {
                    if pre.contains(g) {
                        let j = choose|j: int| 0 <= j < pre.len() && pre[j] == g;
                        assert(gs[j] == gs[i as int]);
                    }
                }
                assert(!crate::keymap::has_key(out@, g)) by {
                    if crate::keymap::has_key(out@, g) {
                        let j = choose|j: int| 0 <= j < out@.len() && out@[j].0 == g;
                        crate::keymap::lemma_entry(out@, j);
                    }
                }
                crate::keymap::lemma_push(out@, g, true);
                assert forall|x: Address| #[trigger] post.contains(x) <==> (pre.contains(x) || x == g) by {
                    if post.contains(x) && x != g {
                        let j = choose|j: int| 0 <= j < post.len() && post[j] == x;
                        assert(pre[j] == x);
                    }
                    if pre.contains(x) {
                        let j = choose|j: int| 0 <= j < pre.len() && pre[j] == x;
                        assert(post[j] == x);
                    }
                    if x == g {
                        assert(post[i as int] == x);
                    }
                }
            }
            out.push((g, true));
            proof {
                assert(crate::keymap::entries_map(out@) =~= Map::new(
                    |x: Address| post.contains(x),
                    |x: Address| true,
                ));
            }
            i += 1;
        }
        assert(gs.subrange(0, gs.len() as int) =~= gs);
        out
    }

    fn tracked_votes(&self) -> (r: Vec<VoteKey>)
        ensures
            r@.no_duplicates(),
            r@.to_set() == Set::new(
                |k: VoteKey| self@.votes.contains(k) && self@.task_ids.contains(k.task_id),
            ),
    {
        let keys = self.votes.keys();
        let mut out: Vec<VoteKey> = Vec::new();
        let mut i: usize = 0;
        while i < keys.len()
            invariant
                i <= keys@.len(),
                keys@.no_duplicates(),
                forall|k: VoteKey| #[trigger] keys@.contains(k) <==> self@.votes.contains(k),
                out@.no_duplicates(),
                forall|k: VoteKey| #[trigger]
                    out@.contains(k) <==> (keys@.subrange(0, i as int).contains(k)
                        && self@.task_ids.contains(k.task_id)),
            decreases keys@.len() - i,
        {
            let k = keys[i];
            let ghost pre = keys@.subrange(0, i as int);
            let ghost post = keys@.subrange(0, i as int + 1);
            proof {
                assert(!pre.contains(k)) by {
                    if pre.contains(k) {
                        let j = choose|j: int| 0 <= j < pre.len() && pre[j] == k;
                        assert(keys@[j] == keys@[i as int]);
                    }
                }
                assert forall|x: VoteKey| #[trigger] post.contains(x) <==> (pre.contains(x) || x == k) by {
                    if post.contains(x) && x != k {
                        let j = choose|j: int| 0 <= j < post.len() && post[j] == x;
                        assert(pre[j] == x);
                    }
                    if pre.contains(x) {
                        let j = choose|j: int| 0 <= j < pre.len() && pre[j] == x;
                        assert(post[j] == x);
                    }
                    if x == k {
                        assert(post[i as int] == x);
                    }
                }
            }
            if list_contains(&self.task_ids, &k.task_id) {
                proof {
                    crate::keymap::lemma_push_unique(out@, k);
                }
                out.push(k);
                proof {
                    assert forall|x: VoteKey| #[trigger] out@.contains(x) <==> (post.contains(x)
                        && self@.task_ids.contains(x.task_id)) by {
                        let o = out@.drop_last();
                        assert(o.contains(x) ==> out@.contains(x)) by {
                            if o.contains(x) {
                                let j = choose|j: int| 0 <= j < o.len() && o[j] == x;
                                assert(out@[j] == x);
                            }
                        }
                        if out@.contains(x) && x != k {
                            let j = choose|j: int| 0 <= j < out@.len() && out@[j] == x;
                            assert(o[j] == x);
                        }
                        if x == k {
                            assert(out@[out@.len() - 1] == x);
                        }
                    }
                }
            }
            i += 1;
        }
        proof {
            assert(keys@.subrange(0, keys@.len() as int) =~= keys@);
            assert(out@.to_set() =~= Set::new(
                |k: VoteKey| self@.votes.contains(k) && self@.task_ids.contains(k.task_id),
            ));
        }
        out
    }

    /// The atomic snapshot of the state at ledger time `now`; refused with
    /// `SnapshotTooLarge` once a tracked collection holds more than
    /// `MAX_SNAPSHOT_COLLECTION_SIZE` entries.
    pub fn get_snapshot(&self, now: u64) -> (r: Result<Snapshot, ContractError>)
        requires
            self.wf(),
        ensures
            r is Err <==> too_large(self@),
            r is Err ==> r == Err::<Snapshot, ContractError>(ContractError::SnapshotTooLarge),
            r matches Ok(s) ==> s.view() == snapshot_of(self@, now) && lists_unique(s),
    {
        if self.too_large() {
            return Err(ContractError::SnapshotTooLarge);
        }
        let guardians = self.guardian_flags();
        let reputations = self.reputations.entries_for(&self.guardians);
        let tasks = self.tasks.entries_for(&self.task_ids);
        let votes = self.tracked_votes();
        let reward_streams = self.streams.entries_for(&self.stream_ids);
        let s = Snapshot {
            timestamp: now,
            paused: self.config.paused,
            failure_count: self.failure_count,
            weight_threshold: self.weight_threshold_value(),
            admin: self.config.admin,
            vault_address: self.config.vault,
            drips_address: self.config.drips,
            guardians,
            reputations,
            tasks,
            votes,
            reward_streams,
        };
        proof {
            let v = self@;
            assert(crate::keymap::entries_map(s.tasks@) =~= v.tasks) by {
                assert forall|k: u64| #[trigger] v.tasks.contains_key(k) implies v.task_ids.contains(k) by {
                    assert(v.task_ids.contains(k) <==> (v.tasks.contains_key(k) || v.archived.contains_key(k)));
                }
            }
            assert(crate::keymap::entries_map(s.reward_streams@) =~= v.streams) by {
                assert forall|k: u64| #[trigger] v.streams.contains_key(k) implies v.stream_ids.contains(k) by {
                    assert(v.stream_ids.contains(k) <==> v.streams.contains_key(k));
                }
            }
        }
        Ok(s)
    }

    /// Stores the snapshot of ledger time `now` under its timestamp.
    pub fn record_snapshot(&mut self, now: u64) -> (r: Result<Vec<Effect>, ContractError>)
        requires
            old(self).wf(),
            old(self)@.snapshot_ids.len() < u32::MAX,
        ensures
            final(self).wf(),
            step_record_snapshot(old(self)@, now) == (final(self)@, outcome(r)),
    {
        self.require_not_paused()?;
        let snap = self.get_snapshot(now)?;
        let ghost v = self@;
        self.snapshots.insert(now, snap);
        self.snapshot_ids.push(now);
        let mut fx: Vec<Effect> = Vec::new();
        fx.push(Effect::Publish(Event::SnapshotRecorded { timestamp: now }));
        proof {
            assert(self@.snapshots =~= v.snapshots.insert(now, snapshot_of(v, now)));
        }
        Ok(fx)
    }

    /// The constant-size header of the state at ledger time `now`.
    pub fn get_snapshot_meta(&self, now: u64) -> (m: SnapshotMeta)
        requires
            self.wf(),
        ensures
            m == meta_of(self@, now),
    {
        SnapshotMeta {
            timestamp: now,
            paused: self.config.paused,
            failure_count: self.failure_count,
            weight_threshold: self.weight_threshold_value(),
            admin: self.config.admin,
            vault_address: self.config.vault,
            drips_address: self.config.drips,
            guardian_count: self.guardian_slots.len() as u32,
            task_count: self.task_slots.len() as u32,
            reward_stream_count: self.stream_ids.len() as u32,
        }
    }

    fn page_bounds(offset: u32, limit: u32, count: usize) -> (e: usize)
        requires
            count <= u32::MAX,
        ensures
            e == page_end(offset, limit, count as int),
    {
        let lim: u32 = if limit < MAX_PAGE_LIMIT {
            limit
        } else {
            MAX_PAGE_LIMIT
        };
        let end = offset.saturating_add(lim);
        if (end as usize) < count {
            end as usize
        } else {
            count
        }
    }

    /// Up to `limit` (at most `MAX_PAGE_LIMIT`) guardians from slot
    /// `offset` of the slot index, with their status and reputation.
    pub fn get_guardians_page(&self, offset: u32, limit: u32) -> (r: Vec<GuardianEntry>)
        requires
            self.wf(),
        ensures
            r@ == window(self@.guardian_slots, offset, limit).map_values(
                |g: Address| guardian_entry(self@, g),
            ),
            r@.len() <= MAX_PAGE_LIMIT,
    {
        let end = Self::page_bounds(offset, limit, self.guardian_slots.len());
        let ghost w = window(self@.guardian_slots, offset, limit);
        let mut page: Vec<GuardianEntry> = Vec::new();
        let start = offset as usize;
        if start >= end {
            assert(page@ =~= w.map_values(|g: Address| guardian_entry(self@, g)));
            return page;
        }
        let mut i: usize = start;
        while i < end
            invariant
                end == page_end(offset, limit, self@.guardian_slots.len() as int),
                end <= self@.guardian_slots.len(),
                start == offset,
                start <= i <= end,
                page@ == self@.guardian_slots.subrange(offset as int, i as int).map_values(
                    |g: Address| guardian_entry(self@, g),
                ),
            decreases end - i,
        {
            let g = self.guardian_slots[i];
            let reputation = match self.reputations.get(&g) {
                Some(s) => Some(*s),
                None => None,
            };
            page.push(GuardianEntry { address: g, is_guardian: self.is_guardian(g), reputation });
            proof {
                assert(page@ =~= self@.guardian_slots.subrange(offset as int, i as int + 1).map_values(
                    |g: Address| guardian_entry(self@, g),
                ));
            }
            i += 1;
        }
        assert(page@ =~= w.map_values(|g: Address| guardian_entry(self@, g)));
        page
    }

    /// The live tasks among up to `limit` (at most `MAX_PAGE_LIMIT`) slots
    /// of the task slot index from `offset`; archived tasks are skipped.
    pub fn get_tasks_page(&self, offset: u32, limit: u32) -> (r: Vec<Task>)
        requires
            self.wf(),
        ensures
            r@ == live_tasks(self@, window(self@.task_slots, offset, limit)),
            r@.len() <= MAX_PAGE_LIMIT,
    {
        let end = Self::page_bounds(offset, limit, self.task_slots.len());
        let ghost w = window(self@.task_slots, offset, limit);
        let mut page: Vec<Task> = Vec::new();
        let start = offset as usize;
        if start >= end {
            assert(page@ =~= live_tasks(self@, w));
            return page;
        }
        let mut i: usize = start;
        assert(self@.task_slots.subrange(offset as int, i as int) =~= Seq::<u64>::empty());
        while i < end
            invariant
                end == page_end(offset, limit, self@.task_slots.len() as int),
                end <= self@.task_slots.len(),
                start == offset,
                start <= i <= end,
                page@ == live_tasks(self@, self@.task_slots.subrange(offset as int, i as int)),
            decreases end - i,
        {
            let id = self.task_slots[i];
            proof {
                let next = self@.task_slots.subrange(offset as int, i as int + 1);
                assert(next.drop_last() =~= self@.task_slots.subrange(offset as int, i as int));
                assert(next.last() == id);
            }
            match self.tasks.get(&id) {
                Some(t) => page.push(*t),
                None => {},
            }
            i += 1;
        }
        proof {
            assert(self@.task_slots.subrange(offset as int, i as int) =~= w);
            lemma_live_tasks_len(self@, w);
        }
        page
    }

    /// Up to `limit` (at most `MAX_PAGE_LIMIT`) reward streams from position
    /// `offset` of the stream index.
    pub fn get_reward_streams_page(&self, offset: u32, limit: u32) -> (r: Vec<RewardStream>)
        requires
            self.wf(),
        ensures
            r@ == window(self@.stream_ids, offset, limit).map_values(|id: u64| self@.streams[id]),
            r@.len() <= MAX_PAGE_LIMIT,
    {
        let end = Self::page_bounds(offset, limit, self.stream_ids.len());
        let ghost w = window(self@.stream_ids, offset, limit);
        let mut page: Vec<RewardStream> = Vec::new();
        let start = offset as usize;
        if start >= end {
            assert(page@ =~= w.map_values(|id: u64| self@.streams[id]));
            return page;
        }
        let mut i: usize = start;
        while i < end
            invariant
                self.wf(),
                end == page_end(offset, limit, self@.stream_ids.len() as int),
                end <= self@.stream_ids.len(),
                start == offset,
                start <= i <= end,
                page@ == self@.stream_ids.subrange(offset as int, i as int).map_values(
                    |id: u64| self@.streams[id],
                ),
            decreases end - i,
        {
            let id = self.stream_ids[i];
            proof {
                assert(self@.stream_ids.contains(id));
            }
            match self.streams.get(&id) {
                Some(s) => page.push(*s),
                None => {},
            }
            proof {
                assert(page@ =~= self@.stream_ids.subrange(offset as int, i as int + 1).map_values(
                    |id: u64| self@.streams[id],
                ));
            }
            i += 1;
        }
        assert(page@ =~= w.map_values(|id: u64| self@.streams[id]));
        page
    }

    /// Timestamps of the recorded snapshots, in recording order.
    pub fn get_snapshot_history(&self) -> (r: Vec<u64>)
        ensures
            r@ == self@.snapshot_ids,
    {
        copy_list(&self.snapshot_ids)
    }

    /// The snapshot recorded at `timestamp`; `SnapshotNotFound` if none was.
    pub fn get_snapshot_at(&self, timestamp: u64) -> (r: Result<&Snapshot, ContractError>)
        ensures
            self@.snapshots.contains_key(timestamp) <==> r is Ok,
            r matches Ok(s) ==> s.view() == self@.snapshots[timestamp],
            r is Err ==> r == Err::<&Snapshot, ContractError>(ContractError::SnapshotNotFound),
    {
        match self.snapshots.get(&timestamp) {
            Some(s) => Ok(s),
            None => Err(ContractError::SnapshotNotFound),
        }
    }
}

} // verus!
