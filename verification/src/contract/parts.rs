//! The contract's state as plain lists, for storage: exported with
//! `to_parts` and read back, checked, with `from_parts`.
use super::{opt_seq, view_wf, upgrade_wf, Config, ContractView, VeroContract};
use crate::contract::breaker::{reports_total, MAX_REPORTS_PER_REPORTER, MAX_TRACKED_REPORTERS};
use crate::keymap::{
    all_listed, copy_list, entries_map, has_no_duplicates, keys_unique, lemma_push_contains,
    list_contains, KeyEq, KeyMap,
};
use crate::types::{Address, RewardStream, RoleKey, Snapshot, Task, VoteKey, WasmHash};
use crate::utils::address::is_strictly_sorted_addresses;
use vstd::prelude::*;

verus! {

/// Every stored value of the contract, each map as a list of entries.
pub struct ContractParts {
    pub self_address: Address,
    pub config: Config,
    pub roles: Vec<RoleKey>,
    pub guardians: Vec<Address>,
    pub guardian_slots: Vec<Address>,
    pub reputations: Vec<(Address, u64)>,
    pub balances: Vec<(Address, i128)>,
    pub timelocks: Vec<(Address, u64)>,
    pub tasks: Vec<(u64, Task)>,
    pub archived: Vec<(u64, Task)>,
    pub task_ids: Vec<u64>,
    pub task_slots: Vec<u64>,
    pub votes: Vec<VoteKey>,
    pub streams: Vec<(u64, RewardStream)>,
    pub stream_ids: Vec<u64>,
    pub snapshots: Vec<(u64, Snapshot)>,
    pub snapshot_ids: Vec<u64>,
    pub failure_count: u32,
    pub reporters: Vec<Address>,
    pub reporter_counts: Vec<(Address, u32)>,
    pub last_reports: Vec<(Address, u32)>,
    pub trusted_reporters_only: bool,
    pub upgrade_signers: Option<Vec<Address>>,
    pub upgrade_threshold: Option<u32>,
    pub pending_wasm: Option<WasmHash>,
    pub pending_approvals: Option<Vec<Address>>,
}

/// The state the lists stand for.
pub open spec fn parts_view(p: ContractParts) -> ContractView {
    ContractView {
        self_address: p.self_address,
        config: p.config,
        roles: p.roles@.to_set(),
        guardians: p.guardians@,
        guardian_slots: p.guardian_slots@,
        reputations: entries_map(p.reputations@),
        balances: entries_map(p.balances@),
        timelocks: entries_map(p.timelocks@),
        tasks: entries_map(p.tasks@),
        archived: entries_map(p.archived@),
        task_ids: p.task_ids@,
        task_slots: p.task_slots@,
        votes: p.votes@.to_set(),
        streams: entries_map(p.streams@),
        stream_ids: p.stream_ids@,
        snapshots: entries_map(p.snapshots@).map_values(|s: Snapshot| s.view()),
        snapshot_ids: p.snapshot_ids@,
        failure_count: p.failure_count,
        reporters: p.reporters@,
        reporter_counts: entries_map(p.reporter_counts@),
        last_reports: entries_map(p.last_reports@),
        trusted_reporters_only: p.trusted_reporters_only,
        upgrade_signers: opt_seq(p.upgrade_signers),
        upgrade_threshold: p.upgrade_threshold,
        pending_wasm: p.pending_wasm,
        pending_approvals: opt_seq(p.pending_approvals),
    }
}

/// No key repeats within a map's list, and no role or vote is listed twice.
pub open spec fn parts_unique(p: ContractParts) -> bool {
    &&& p.roles@.no_duplicates()
    &&& keys_unique(p.reputations@)
    &&& keys_unique(p.balances@)
    &&& keys_unique(p.timelocks@)
    &&& keys_unique(p.tasks@)
    &&& keys_unique(p.archived@)
    &&& p.votes@.no_duplicates()
    &&& keys_unique(p.streams@)
    &&& keys_unique(p.snapshots@)
    &&& keys_unique(p.reporter_counts@)
    &&& keys_unique(p.last_reports@)
}

impl Snapshot {
    /// An independent copy of the snapshot.
    pub fn duplicate(&self) -> (r: Snapshot)
        ensures
            r.view() == self.view(),
            r.guardians@ == self.guardians@,
            r.reputations@ == self.reputations@,
            r.tasks@ == self.tasks@,
            r.votes@ == self.votes@,
            r.reward_streams@ == self.reward_streams@,
    {
        Snapshot {
            timestamp: self.timestamp,
            paused: self.paused,
            failure_count: self.failure_count,
            weight_threshold: self.weight_threshold,
            admin: self.admin,
            vault_address: self.vault_address,
            drips_address: self.drips_address,
            guardians: copy_list(&self.guardians),
            reputations: copy_list(&self.reputations),
            tasks: copy_list(&self.tasks),
            votes: copy_list(&self.votes),
            reward_streams: copy_list(&self.reward_streams),
        }
    }
}

fn copy_opt_list(o: &Option<Vec<Address>>) -> (r: Option<Vec<Address>>)
    ensures
        opt_seq(r) == opt_seq(*o),
{
    match o {
        Some(v) => Some(copy_list(v)),
        None => None,
    }
}

/// Every listed element is a key of `m`.
fn all_keys_in<K: KeyEq, V>(l: &Vec<K>, m: &KeyMap<K, V>) -> (b: bool)
    ensures
        b == (forall|x: K| #[trigger] l@.contains(x) ==> m@.contains_key(x)),
{
    let mut i: usize = 0;
    while i < l.len()
        invariant
            i <= l@.len(),
            forall|j: int| 0 <= j < i ==> m@.contains_key(#[trigger] l@[j]),
        decreases l@.len() - i,
    {
        if !m.contains_key(&l[i]) {
            assert(l@.contains(l@[i as int]));
            return false;
        }
        i += 1;
    }
    assert forall|x: K| #[trigger] l@.contains(x) implies m@.contains_key(x) by {
        let j = choose|j: int| 0 <= j < l@.len() && l@[j] == x;
    }
    true
}

/// Every key of `m` is listed.
fn keys_listed<K: KeyEq + Copy, V>(m: &KeyMap<K, V>, l: &Vec<K>) -> (b: bool)
    ensures
        b == (forall|x: K| #[trigger] m@.contains_key(x) ==> l@.contains(x)),
{
    let keys = m.keys();
    let r = all_listed(&keys, l);
    assert(r == (forall|x: K| #[trigger] m@.contains_key(x) ==> l@.contains(x))) by {
        if r {
            assert forall|x: K| #[trigger] m@.contains_key(x) implies l@.contains(x) by {
                assert(keys@.contains(x));
            }
        } else {
            let x = choose|x: K| #[trigger] keys@.contains(x) && !l@.contains(x);
            assert(m@.contains_key(x));
        }
    }
    r
}

/// No key of `a` is a key of `b`.
fn disjoint_keys<K: KeyEq + Copy, V, W>(a: &KeyMap<K, V>, b: &KeyMap<K, W>) -> (r: bool)
    ensures
        r == (forall|x: K| !(#[trigger] a@.contains_key(x) && b@.contains_key(x))),
{
    let keys = a.keys();
    let mut i: usize = 0;
    while i < keys.len()
        invariant
            i <= keys@.len(),
            forall|x: K| #[trigger] keys@.contains(x) <==> a@.contains_key(x),
            forall|j: int| 0 <= j < i ==> !b@.contains_key(#[trigger] keys@[j]),
        decreases keys@.len() - i,
    {
        if b.contains_key(&keys[i]) {
            assert(keys@.contains(keys@[i as int]));
            return false;
        }
        i += 1;
    }
    assert forall|x: K| !(#[trigger] a@.contains_key(x) && b@.contains_key(x)) by {
        if a@.contains_key(x) {
            assert(keys@.contains(x));
            let j = choose|j: int| 0 <= j < keys@.len() && keys@[j] == x;
        }
    }
    true
}

impl VeroContract {
    fn counts_within_quota(&self) -> (b: bool)
        ensures
            b == (forall|a: Address| #[trigger] self@.reporter_counts.contains_key(a)
                ==> self@.reporter_counts[a] <= MAX_REPORTS_PER_REPORTER),
    {
        let keys = self.reporter_counts.keys();
        let mut i: usize = 0;
        while i < keys.len()
            invariant
                i <= keys@.len(),
                forall|x: Address| #[trigger] keys@.contains(x) <==> self@.reporter_counts.contains_key(x),
                forall|j: int|
                    0 <= j < i ==> self@.reporter_counts[#[trigger] keys@[j]] <= MAX_REPORTS_PER_REPORTER,
            decreases keys@.len() - i,
        {
            let c = match self.reporter_counts.get(&keys[i]) {
                Some(c) => *c,
                None => {
                    assert(keys@.contains(keys@[i as int]));
                    return false;
                },
            };
            if c > MAX_REPORTS_PER_REPORTER {
                assert(keys@.contains(keys@[i as int]));
                return false;
            }
            i += 1;
        }
        assert forall|a: Address| #[trigger] self@.reporter_counts.contains_key(a) implies self@.reporter_counts[a]
            <= MAX_REPORTS_PER_REPORTER by {
            assert(keys@.contains(a));
            let j = choose|j: int| 0 <= j < keys@.len() && keys@[j] == a;
        }
        true
    }

    /// The window's reports summed over its reporters.
    fn reports_sum(&self) -> (t: u64)
        requires
            self@.reporters.len() <= MAX_TRACKED_REPORTERS,
            forall|a: Address| #[trigger] self@.reporter_counts.contains_key(a)
                ==> self@.reporter_counts[a] <= MAX_REPORTS_PER_REPORTER,
            forall|a: Address| #[trigger] self@.reporters.contains(a) ==> self@.reporter_counts.contains_key(a),
        ensures
            t == reports_total(self@.reporters, self@.reporter_counts),
    {
        let mut total: u64 = 0;
        let mut i: usize = 0;
        while i < self.reporters.len()
            invariant
                i <= self@.reporters.len(),
                self@.reporters.len() <= MAX_TRACKED_REPORTERS,
                forall|a: Address| #[trigger] self@.reporter_counts.contains_key(a)
                    ==> self@.reporter_counts[a] <= MAX_REPORTS_PER_REPORTER,
                forall|a: Address| #[trigger] self@.reporters.contains(a) ==> self@.reporter_counts.contains_key(a),
                total == reports_total(self@.reporters.subrange(0, i as int), self@.reporter_counts),
                total <= MAX_REPORTS_PER_REPORTER * i,
            decreases self@.reporters.len() - i,
        {
            let r = self.reporters[i];
            proof {
                let next = self@.reporters.subrange(0, i as int + 1);
                assert(next.drop_last() =~= self@.reporters.subrange(0, i as int));
                assert(next.last() == r);
                assert(self@.reporters.contains(r));
            }
            let c = match self.reporter_counts.get(&r) {
                Some(c) => *c,
                None => 0,
            };
            total = total + c as u64;
            i += 1;
        }
        assert(self@.reporters.subrange(0, self@.reporters.len() as int) =~= self@.reporters);
        total
    }

    fn upgrade_state_ok(&self) -> (b: bool)
        ensures
            b == upgrade_wf(self@),
    {
        if self.pending_wasm.is_some() != self.pending_approvals.is_some() {
            return false;
        }
        if let Some(s) = &self.upgrade_signers {
            if s.len() > u32::MAX as usize {
                return false;
            }
        }
        match &self.pending_approvals {
            None => true,
            Some(a) => match &self.upgrade_signers {
                None => false,
                Some(s) => is_strictly_sorted_addresses(a) && all_listed(a, s),
            },
        }
    }

    /// Whether the state satisfies the contract's invariant.
    pub fn is_well_formed(&self) -> (b: bool)
        ensures
            b == self.wf(),
    {
        let g = &self.guardians;
        let gs = &self.guardian_slots;
        if !has_no_duplicates(g) || !has_no_duplicates(gs) || !all_listed(g, gs) || !all_listed(gs, g)
            || g.len() != gs.len() || g.len() > u32::MAX as usize {
            return false;
        }
        let t = &self.task_ids;
        let ts = &self.task_slots;
        if !has_no_duplicates(t) || !has_no_duplicates(ts) || !all_listed(t, ts) || !all_listed(ts, t)
            || t.len() != ts.len() || t.len() > u32::MAX as usize {
            return false;
        }
        let mut i: usize = 0;
        while i < t.len()
            invariant
                t@ == self@.task_ids,
                i <= t@.len(),
                forall|j: int|
                    0 <= j < i ==> self@.tasks.contains_key(#[trigger] t@[j]) || self@.archived.contains_key(
                        t@[j],
                    ),
            decreases t@.len() - i,
        {
            if !self.tasks.contains_key(&t[i]) && !self.archived.contains_key(&t[i]) {
                proof {
                    assert(t@.contains(t@[i as int]));
                    assert(!view_wf(self@));
                }
                return false;
            }
            i += 1;
        }
        proof {
            assert forall|x: u64| #[trigger] t@.contains(x) implies self@.tasks.contains_key(x)
                || self@.archived.contains_key(x) by {
                let j = choose|j: int| 0 <= j < t@.len() && t@[j] == x;
            }
        }
        if !keys_listed(&self.tasks, t) {
            proof {
                let x = choose|x: u64| self@.tasks.contains_key(x) && !t@.contains(x);
                assert(!self@.task_ids.contains(x));
            }
            return false;
        }
        if !keys_listed(&self.archived, t) {
            proof {
                let x = choose|x: u64| self@.archived.contains_key(x) && !t@.contains(x);
                assert(!self@.task_ids.contains(x));
            }
            return false;
        }
        if !disjoint_keys(&self.tasks, &self.archived) {
            proof {
                let x = choose|x: u64| self@.tasks.contains_key(x) && self@.archived.contains_key(x);
                assert(self@.tasks.contains_key(x));
            }
            return false;
        }
        let sids = &self.stream_ids;
        if !has_no_duplicates(sids) || sids.len() > u32::MAX as usize || self.snapshot_ids.len()
            > u32::MAX as usize || !all_keys_in(sids, &self.streams) || !keys_listed(
            &self.streams,
            sids,
        ) {
            return false;
        }
        let rs = &self.reporters;
        if !has_no_duplicates(rs) || rs.len() > MAX_TRACKED_REPORTERS as usize || !all_keys_in(
            rs,
            &self.reporter_counts,
        ) || !keys_listed(&self.reporter_counts, rs) || !all_keys_in(rs, &self.last_reports)
            || !keys_listed(&self.last_reports, rs) || !self.counts_within_quota() {
            return false;
        }
        if self.failure_count as u64 > self.reports_sum() {
            return false;
        }
        self.upgrade_state_ok()
    }

    /// The state as plain lists.
    pub fn to_parts(&self) -> (p: ContractParts)
        ensures
            parts_unique(p),
            parts_view(p) == self@,
    {
        let roles = self.roles.keys();
        let votes = self.votes.keys();
        let keys = self.snapshots.keys();
        let mut snapshots: Vec<(u64, Snapshot)> = Vec::new();
        let mut i: usize = 0;
        while i < keys.len()
            invariant
                i <= keys@.len(),
                keys@.no_duplicates(),
                forall|k: u64| #[trigger] keys@.contains(k) <==> self.snapshots@.contains_key(k),
                keys_unique(snapshots@),
                snapshots@.len() == i,
                forall|j: int| 0 <= j < i ==> (#[trigger] snapshots@[j]).0 == keys@[j],
                forall|j: int|
                    0 <= j < i ==> (#[trigger] snapshots@[j]).1.view() == self.snapshots@[keys@[j]].view(),
            decreases keys@.len() - i,
        {
            let k = keys[i];
            proof {
                assert(keys@.contains(k));
            }
            let s = self.snapshots.get(&k).unwrap().duplicate();
            snapshots.push((k, s));
            i += 1;
        }
        let p = ContractParts {
            self_address: self.self_address,
            config: self.config,
            roles,
            guardians: copy_list(&self.guardians),
            guardian_slots: copy_list(&self.guardian_slots),
            reputations: self.reputations.to_entries(),
            balances: self.balances.to_entries(),
            timelocks: self.timelocks.to_entries(),
            tasks: self.tasks.to_entries(),
            archived: self.archived.to_entries(),
            task_ids: copy_list(&self.task_ids),
            task_slots: copy_list(&self.task_slots),
            votes,
            streams: self.streams.to_entries(),
            stream_ids: copy_list(&self.stream_ids),
            snapshots,
            snapshot_ids: copy_list(&self.snapshot_ids),
            failure_count: self.failure_count,
            reporters: copy_list(&self.reporters),
            reporter_counts: self.reporter_counts.to_entries(),
            last_reports: self.last_reports.to_entries(),
            trusted_reporters_only: self.trusted_reporters_only,
            upgrade_signers: copy_opt_list(&self.upgrade_signers),
            upgrade_threshold: self.upgrade_threshold,
            pending_wasm: self.pending_wasm,
            pending_approvals: copy_opt_list(&self.pending_approvals),
        };
        proof {
            assert(p.roles@.to_set() =~= self.roles@.dom());
            assert(p.votes@.to_set() =~= self.votes@.dom());
            assert forall|k: u64| #[trigger] crate::keymap::has_key(p.snapshots@, k) <==> self.snapshots@.contains_key(k) by {
                if crate::keymap::has_key(p.snapshots@, k) {
                    let j = choose|j: int| 0 <= j < p.snapshots@.len() && p.snapshots@[j].0 == k;
                    assert(keys@.contains(keys@[j]));
                }
                if self.snapshots@.contains_key(k) {
                    assert(keys@.contains(k));
                    let j = choose|j: int| 0 <= j < keys@.len() && keys@[j] == k;
                    assert(p.snapshots@[j].0 == k);
                }
            }
            assert forall|k: u64| #[trigger] entries_map(p.snapshots@).contains_key(k) implies entries_map(
                p.snapshots@,
            )[k].view() == self.snapshots@[k].view() by {
                let j = choose|j: int| 0 <= j < p.snapshots@.len() && p.snapshots@[j].0 == k;
                crate::keymap::lemma_entry(p.snapshots@, j);
            }
            assert(entries_map(p.snapshots@).map_values(|s: Snapshot| s.view()) =~= self.snapshots@.map_values(
                |s: Snapshot| s.view(),
            ));
        }
        p
    }

    /// The contract holding the listed state, when the lists are consistent
    /// and the state satisfies the invariant; `None` otherwise.
    pub fn from_parts(p: ContractParts) -> (r: Option<VeroContract>)
        ensures
            r is Some <==> (parts_unique(p) && view_wf(parts_view(p))),
            r matches Some(c) ==> c.wf() && c@ == parts_view(p),
    {
        let ghost pv = parts_view(p);
        let ghost pu = parts_unique(p);
        let roles = match KeyMap::from_keys(&p.roles) {
            Some(m) => m,
            None => return None,
        };
        let votes = match KeyMap::from_keys(&p.votes) {
            Some(m) => m,
            None => return None,
        };
        let reputations = match KeyMap::from_entries(p.reputations) {
            Some(m) => m,
            None => return None,
        };
        let balances = match KeyMap::from_entries(p.balances) {
            Some(m) => m,
            None => return None,
        };
        let timelocks = match KeyMap::from_entries(p.timelocks) {
            Some(m) => m,
            None => return None,
        };
        let tasks = match KeyMap::from_entries(p.tasks) {
            Some(m) => m,
            None => return None,
        };
        let archived = match KeyMap::from_entries(p.archived) {
            Some(m) => m,
            None => return None,
        };
        let streams = match KeyMap::from_entries(p.streams) {
            Some(m) => m,
            None => return None,
        };
        let snapshots = match KeyMap::from_entries(p.snapshots) {
            Some(m) => m,
            None => return None,
        };
        let reporter_counts = match KeyMap::from_entries(p.reporter_counts) {
            Some(m) => m,
            None => return None,
        };
        let last_reports = match KeyMap::from_entries(p.last_reports) {
            Some(m) => m,
            None => return None,
        };
        let c = VeroContract {
            self_address: p.self_address,
            config: p.config,
            roles,
            guardians: p.guardians,
            guardian_slots: p.guardian_slots,
            reputations,
            balances,
            timelocks,
            tasks,
            archived,
            task_ids: p.task_ids,
            task_slots: p.task_slots,
            votes,
            streams,
            stream_ids: p.stream_ids,
            snapshots,
            snapshot_ids: p.snapshot_ids,
            failure_count: p.failure_count,
            reporters: p.reporters,
            reporter_counts,
            last_reports,
            trusted_reporters_only: p.trusted_reporters_only,
            upgrade_signers: p.upgrade_signers,
            upgrade_threshold: p.upgrade_threshold,
            pending_wasm: p.pending_wasm,
            pending_approvals: p.pending_approvals,
        };
        assert(c@ == pv);
        if c.is_well_formed() {
            Some(c)
        } else {
            None
        }
    }
}

} // verus!
