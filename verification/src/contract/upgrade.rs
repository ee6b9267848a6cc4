//! Contract upgrades: the immediate admin upgrade and the multi-sig flow
//! (configure signers and quorum, propose, approve, execute, cancel).
//!
//! Approvals are kept strictly ascending, which makes each signer count at
//! most once; an upgrade executes only with at least `threshold` of them.
use super::{ext_ok, holds, outcome, publish, refuse, ContractView, Outcome, VeroContract};
use crate::events::{Effect, Event};
use crate::keymap::{copy_list, list_contains};
use crate::types::{addr_less, addr_lt, Address, ContractError, Role, WasmHash};
use crate::utils::address::{is_strictly_sorted_addresses, strictly_sorted};
use vstd::prelude::*;

verus! {

/// `upgrade_contract`: an admin replaces the code at once.
pub open spec fn step_upgrade_contract(v: ContractView, admin: Address, wasm_hash: WasmHash) -> (
    ContractView,
    Outcome,
) {
    if !ext_ok(v, admin) {
        refuse(v, ContractError::InvalidAddress)
    } else if !holds(v, admin, Role::Admin) {
        refuse(v, ContractError::NotAuthorized)
    } else {
        (
            v,
            Ok(
                seq![
                    Effect::UpdateWasm { wasm_hash },
                    Effect::Publish(Event::ContractUpgraded { admin, wasm_hash }),
                ],
            ),
        )
    }
}

/// `set_upgrade_signers`: a strictly ascending signer list and a quorum in
/// `1..=signers.len()`; any pending proposal is dropped.
pub open spec fn step_set_upgrade_signers(
    v: ContractView,
    admin: Address,
    signers: Seq<Address>,
    threshold: u32,
) -> (ContractView, Outcome) {
    if !ext_ok(v, admin) || exists|i: int| 0 <= i < signers.len() && !ext_ok(v, #[trigger] signers[i]) {
        refuse(v, ContractError::InvalidAddress)
    } else if !holds(v, admin, Role::Admin) {
        refuse(v, ContractError::NotAuthorized)
    } else if threshold == 0 || threshold > signers.len() || !strictly_sorted(signers) {
        refuse(v, ContractError::InvalidUpgradeConfig)
    } else {
        (
            ContractView {
                upgrade_signers: Some(signers),
                upgrade_threshold: Some(threshold),
                pending_wasm: None,
                pending_approvals: None,
                ..v
            },
            Ok(
                publish(
                    Event::UpgradeSignersSet { signer_count: signers.len() as u32, threshold },
                ),
            ),
        )
    }
}

/// The quorum in force (zero before one is configured).
pub open spec fn threshold_of(v: ContractView) -> u32 {
    match v.upgrade_threshold {
        Some(t) => t,
        None => 0,
    }
}

/// The approvals collected so far.
pub open spec fn approvals_of(v: ContractView) -> Seq<Address> {
    match v.pending_approvals {
        Some(a) => a,
        None => Seq::empty(),
    }
}

/// `signer` is a configured upgrade signer.
pub open spec fn is_signer(v: ContractView, signer: Address) -> bool {
    v.upgrade_signers matches Some(s) && s.contains(signer)
}

/// Adds `signer`'s approval to the pending proposal: it must not have
/// approved yet and must come after the last approval.
pub open spec fn add_approval(v: ContractView, signer: Address) -> (ContractView, Outcome) {
    let a = approvals_of(v);
    if a.contains(signer) {
        refuse(v, ContractError::AlreadyApproved)
    } else if a.len() > 0 && !addr_lt(a.last(), signer) {
        refuse(v, ContractError::InvalidUpgradeConfig)
    } else {
        (
            ContractView { pending_approvals: Some(a.push(signer)), ..v },
            Ok(
                publish(
                    Event::UpgradeApproved {
                        signer,
                        count: (a.len() + 1) as u32,
                        threshold: threshold_of(v),
                    },
                ),
            ),
        )
    }
}

/// `propose_upgrade`: opens a proposal with the proposer's approval, or
/// approves the pending one when the hash is the same.
pub open spec fn step_propose_upgrade(v: ContractView, signer: Address, wasm_hash: WasmHash) -> (
    ContractView,
    Outcome,
) {
    if !ext_ok(v, signer) {
        refuse(v, ContractError::InvalidAddress)
    } else if !is_signer(v, signer) {
        refuse(v, ContractError::NotUpgradeSigner)
    } else {
        match v.pending_wasm {
            Some(h) => if h != wasm_hash {
                refuse(v, ContractError::InvalidUpgradeConfig)
            } else {
                add_approval(v, signer)
            },
            None => (
                ContractView {
                    pending_wasm: Some(wasm_hash),
                    pending_approvals: Some(seq![signer]),
                    ..v
                },
                Ok(
                    seq![
                        Effect::Publish(Event::UpgradeProposed { signer }),
                        Effect::Publish(
                            Event::UpgradeApproved { signer, count: 1, threshold: threshold_of(v) },
                        ),
                    ],
                ),
            ),
        }
    }
}

/// `approve_upgrade`.
pub open spec fn step_approve_upgrade(v: ContractView, signer: Address) -> (ContractView, Outcome) {
    if !ext_ok(v, signer) {
        refuse(v, ContractError::InvalidAddress)
    } else if !is_signer(v, signer) {
        refuse(v, ContractError::NotUpgradeSigner)
    } else if v.pending_wasm is None {
        refuse(v, ContractError::NoPendingUpgrade)
    } else {
        add_approval(v, signer)
    }
}

/// `execute_upgrade`: anyone may run it once the quorum is met.
pub open spec fn step_execute_upgrade(v: ContractView) -> (ContractView, Outcome) {
    match (v.pending_wasm, v.pending_approvals) {
        (Some(wasm_hash), Some(a)) => match v.upgrade_threshold {
            None => refuse(v, ContractError::InvalidUpgradeConfig),
            Some(t) => if a.len() < t {
                refuse(v, ContractError::UpgradeThresholdNotMet)
            } else {
                (
                    ContractView { pending_wasm: None, pending_approvals: None, ..v },
                    Ok(
                        seq![
                            Effect::Publish(Event::UpgradeExecuted),
                            Effect::UpdateWasm { wasm_hash },
                        ],
                    ),
                )
            },
        },
        _ => refuse(v, ContractError::NoPendingUpgrade),
    }
}

/// `cancel_upgrade`: an admin drops the pending proposal.
pub open spec fn step_cancel_upgrade(v: ContractView, admin: Address) -> (ContractView, Outcome) {
    if !ext_ok(v, admin) {
        refuse(v, ContractError::InvalidAddress)
    } else if !holds(v, admin, Role::Admin) {
        refuse(v, ContractError::NotAuthorized)
    } else if v.pending_wasm is None {
        refuse(v, ContractError::NoPendingUpgrade)
    } else {
        (
            ContractView { pending_wasm: None, pending_approvals: None, ..v },
            Ok(publish(Event::UpgradeCancelled)),
        )
    }
}

/// A duplicate-free list inside another list, missing one of its elements,
/// is strictly shorter.
proof fn lemma_fresh_subset_len(a: Seq<Address>, b: Seq<Address>, x: Address)
    requires
        a.no_duplicates(),
        forall|y: Address| #[trigger] a.contains(y) ==> b.contains(y),
        b.contains(x),
        !a.contains(x),
    ensures
        a.len() < b.len(),
{
    broadcast use vstd::set::group_set_axioms, vstd::seq_lib::seq_to_set_is_finite;

    a.unique_seq_to_set();
    b.lemma_cardinality_of_set();
    let sa = a.to_set().insert(x);
    assert(sa.subset_of(b.to_set()));
    vstd::set_lib::lemma_len_subset(sa, b.to_set());
}

/// A duplicate-free list inside another list is no longer than it.
proof fn lemma_subset_len(a: Seq<Address>, b: Seq<Address>)
    requires
        a.no_duplicates(),
        forall|y: Address| #[trigger] a.contains(y) ==> b.contains(y),
    ensures
        a.len() <= b.len(),
{
    broadcast use vstd::set::group_set_axioms, vstd::seq_lib::seq_to_set_is_finite;

    a.unique_seq_to_set();
    b.lemma_cardinality_of_set();
    assert(a.to_set().subset_of(b.to_set()));
    vstd::set_lib::lemma_len_subset(a.to_set(), b.to_set());
}

/// A pending proposal never holds more approvals than there are configured
/// upgrade signers.
pub proof fn law_approvals_bounded(v: ContractView)
    requires
        super::view_wf(v),
        v.pending_approvals is Some,
    ensures
        v.upgrade_signers is Some,
        approvals_of(v).len() <= v.upgrade_signers->0.len(),
{
    let a = approvals_of(v);
    crate::utils::address::lemma_sorted_no_duplicates(a);
    lemma_subset_len(a, v.upgrade_signers->0);
}

/// `approve_upgrade` keeps the upgrade invariant: an accepted approval
/// appends the signer to the approvals, which stay strictly ascending, made
/// by configured signers, and no more than the signers; a refusal changes
/// nothing.
pub proof fn law_approve_upgrade_keeps_invariant(v: ContractView, signer: Address)
    requires
        super::view_wf(v),
    ensures
        ({
            let (w, r) = step_approve_upgrade(v, signer);
            &&& super::view_wf(w)
            &&& r is Err ==> w == v
            &&& r is Ok ==> {
                &&& is_signer(v, signer)
                &&& v.pending_wasm is Some
                &&& w == ContractView { pending_approvals: Some(approvals_of(v).push(signer)), ..v }
                &&& approvals_of(w).len() <= w.upgrade_signers->0.len()
            }
        }),
{
    let (w, r) = step_approve_upgrade(v, signer);
    if r is Ok {
        let a = approvals_of(v);
        let s = v.upgrade_signers->0;
        assert(v.pending_approvals is Some);
        crate::utils::address::lemma_sorted_no_duplicates(a);
        lemma_sorted_push(a, signer);
        assert forall|x: Address| #[trigger] a.push(signer).contains(x) implies s.contains(x) by {
            if x != signer {
                assert(a.contains(x));
            }
        }
        assert(super::upgrade_wf(w));
        assert(super::view_wf(w));
        law_approvals_bounded(w);
    }
}

/// Appending an address above the last one keeps a list strictly sorted.
proof fn lemma_sorted_push(a: Seq<Address>, x: Address)
    requires
        strictly_sorted(a),
        a.len() > 0 ==> addr_lt(a.last(), x),
    ensures
        strictly_sorted(a.push(x)),
{
    let b = a.push(x);
    assert forall|i: int| 1 <= i < b.len() implies addr_lt(b[i - 1], #[trigger] b[i]) by {
        if i < a.len() {
            assert(b[i - 1] == a[i - 1] && b[i] == a[i]);
        }
    }
}

impl VeroContract {
    /// Replaces the contract's code at once. Requires `Admin`.
    pub fn upgrade_contract(&self, admin: Address, new_wasm_hash: WasmHash) -> (r: Result<
        Vec<Effect>,
        ContractError,
    >)
        ensures
            step_upgrade_contract(self@, admin, new_wasm_hash) == (self@, outcome(r)),
    {
        self.check_external(&admin)?;
        self.check_role(&admin, Role::Admin)?;
        let mut fx: Vec<Effect> = Vec::new();
        fx.push(Effect::UpdateWasm { wasm_hash: new_wasm_hash });
        fx.push(Effect::Publish(Event::ContractUpgraded { admin, wasm_hash: new_wasm_hash }));
        assert(fx@ =~= seq![
            Effect::UpdateWasm { wasm_hash: new_wasm_hash },
            Effect::Publish(Event::ContractUpgraded { admin, wasm_hash: new_wasm_hash }),
        ]);
        Ok(fx)
    }

    /// Configures the upgrade signers (strictly ascending) and the quorum,
    /// dropping any pending proposal. Requires `Admin`.
    pub fn set_upgrade_signers(&mut self, admin: Address, signers: &Vec<Address>, threshold: u32) -> (r:
        Result<Vec<Effect>, ContractError>)
        requires
            old(self).wf(),
            signers@.len() <= u32::MAX,
        ensures
            final(self).wf(),
            step_set_upgrade_signers(old(self)@, admin, signers@, threshold) == (
                final(self)@,
                outcome(r),
            ),
    {
        let ghost v = self@;
        self.check_external(&admin)?;
        let mut i: usize = 0;
        while i < signers.len()
            invariant
                self@ == v,
                super::view_wf(v),
                i <= signers@.len(),
                forall|j: int| 0 <= j < i ==> ext_ok(v, #[trigger] signers@[j]),
            decreases signers@.len() - i,
        {
            if self.check_external(&signers[i]).is_err() {
                assert(!ext_ok(v, signers@[i as int]));
                return Err(ContractError::InvalidAddress);
            }
            i += 1;
        }
        self.check_role(&admin, Role::Admin)?;
        if threshold == 0 || threshold as usize > signers.len() || !is_strictly_sorted_addresses(
            signers,
        ) {
            return Err(ContractError::InvalidUpgradeConfig);
        }
        self.pending_wasm = None;
        self.pending_approvals = None;
        self.upgrade_signers = Some(copy_list(signers));
        self.upgrade_threshold = Some(threshold);
        let mut fx: Vec<Effect> = Vec::new();
        fx.push(
            Effect::Publish(
                Event::UpgradeSignersSet { signer_count: signers.len() as u32, threshold },
            ),
        );
        Ok(fx)
    }

    /// The configured upgrade signers (empty before configuration).
    pub fn get_upgrade_signers(&self) -> (r: Vec<Address>)
        ensures
            r@ == (match self@.upgrade_signers {
                Some(s) => s,
                None => Seq::empty(),
            }),
    {
        match &self.upgrade_signers {
            Some(s) => copy_list(s),
            None => Vec::new(),
        }
    }

    /// The approval quorum (zero before configuration).
    pub fn get_upgrade_threshold(&self) -> (t: u32)
        ensures
            t == threshold_of(self@),
    {
        match self.upgrade_threshold {
            Some(t) => t,
            None => 0,
        }
    }

    fn is_signer(&self, signer: &Address) -> (b: bool)
        ensures
            b == is_signer(self@, *signer),
    {
        match &self.upgrade_signers {
            Some(s) => list_contains(s, signer),
            None => false,
        }
    }

    fn add_approval(&mut self, signer: Address) -> (r: Result<Vec<Effect>, ContractError>)
        requires
            old(self).wf(),
            is_signer(old(self)@, signer),
            old(self)@.pending_wasm is Some,
        ensures
            final(self).wf(),
            add_approval(old(self)@, signer) == (final(self)@, outcome(r)),
    {
        let ghost v = self@;
        let approvals: Vec<Address> = match &self.pending_approvals {
            Some(a) => copy_list(a),
            None => Vec::new(),
        };
        if list_contains(&approvals, &signer) {
            return Err(ContractError::AlreadyApproved);
        }
        let n = approvals.len();
        if n > 0 && !addr_less(&approvals[n - 1], &signer) {
            return Err(ContractError::InvalidUpgradeConfig);
        }
        proof {
            let a = approvals@;
            let s = v.upgrade_signers->0;
            crate::utils::address::lemma_sorted_no_duplicates(a);
            lemma_fresh_subset_len(a, s, signer);
            lemma_sorted_push(a, signer);
        }
        let mut next = approvals;
        next.push(signer);
        let count = next.len() as u32;
        self.pending_approvals = Some(next);
        let threshold = self.get_upgrade_threshold();
        let mut fx: Vec<Effect> = Vec::new();
        fx.push(Effect::Publish(Event::UpgradeApproved { signer, count, threshold }));
        proof {
            let w = self@;
            let a = approvals_of(v);
            assert(v.pending_approvals is Some);
            assert(a == v.pending_approvals->0);
            assert forall|x: Address| #[trigger] a.push(signer).contains(x) implies w.upgrade_signers->0.contains(
                x,
            ) by {
                if x != signer {
                    let j = choose|j: int| 0 <= j < a.push(signer).len() && a.push(signer)[j] == x;
                    assert(a[j] == x);
                    assert(a.contains(x));
                }
            }
        }
        Ok(fx)
    }

    /// Proposes `new_wasm_hash` with the proposer's approval, or approves the
    /// pending proposal when it is for the same hash.
    pub fn propose_upgrade(&mut self, signer: Address, new_wasm_hash: WasmHash) -> (r: Result<
        Vec<Effect>,
        ContractError,
    >)
        requires
            old(self).wf(),
        ensures
            final(self).wf(),
            step_propose_upgrade(old(self)@, signer, new_wasm_hash) == (final(self)@, outcome(r)),
    {
        self.check_external(&signer)?;
        if !self.is_signer(&signer) {
            return Err(ContractError::NotUpgradeSigner);
        }
        match self.pending_wasm {
            Some(h) => {
                if h != new_wasm_hash {
                    return Err(ContractError::InvalidUpgradeConfig);
                }
                self.add_approval(signer)
            },
            None => {
                let ghost v = self@;
                self.pending_wasm = Some(new_wasm_hash);
                let mut approvals: Vec<Address> = Vec::new();
                approvals.push(signer);
                self.pending_approvals = Some(approvals);
                let threshold = self.get_upgrade_threshold();
                let mut fx: Vec<Effect> = Vec::new();
                fx.push(Effect::Publish(Event::UpgradeProposed { signer }));
                fx.push(Effect::Publish(Event::UpgradeApproved { signer, count: 1, threshold }));
                proof {
                    let w = self@;
                    assert(w.pending_approvals->0 =~= seq![signer]);
                    assert forall|x: Address| #[trigger] seq![signer].contains(x) implies w.upgrade_signers->0.contains(
                        x,
                    ) by {
                        assert(seq![signer][0] == signer);
                    }
                    assert(fx@ =~= seq![
                        Effect::Publish(Event::UpgradeProposed { signer }),
                        Effect::Publish(Event::UpgradeApproved { signer, count: 1, threshold }),
                    ]);
                }
                Ok(fx)
            },
        }
    }

    /// Approves the pending proposal as a configured signer.
    pub fn approve_upgrade(&mut self, signer: Address) -> (r: Result<Vec<Effect>, ContractError>)
        requires
            old(self).wf(),
        ensures
            final(self).wf(),
            step_approve_upgrade(old(self)@, signer) == (final(self)@, outcome(r)),
    {
        self.check_external(&signer)?;
        if !self.is_signer(&signer) {
            return Err(ContractError::NotUpgradeSigner);
        }
        if self.pending_wasm.is_none() {
            return Err(ContractError::NoPendingUpgrade);
        }
        self.add_approval(signer)
    }

    /// Executes the pending proposal once the quorum of approvals is met.
    pub fn execute_upgrade(&mut self) -> (r: Result<Vec<Effect>, ContractError>)
        requires
            old(self).wf(),
        ensures
            final(self).wf(),
            step_execute_upgrade(old(self)@) == (final(self)@, outcome(r)),
    {
        let wasm_hash = match self.pending_wasm {
            Some(h) => h,
            None => return Err(ContractError::NoPendingUpgrade),
        };
        let count = match &self.pending_approvals {
            Some(a) => a.len(),
            None => return Err(ContractError::NoPendingUpgrade),
        };
        let threshold = match self.upgrade_threshold {
            Some(t) => t,
            None => return Err(ContractError::InvalidUpgradeConfig),
        };
        if count < threshold as usize {
            return Err(ContractError::UpgradeThresholdNotMet);
        }
        self.pending_wasm = None;
        self.pending_approvals = None;
        let mut fx: Vec<Effect> = Vec::new();
        fx.push(Effect::Publish(Event::UpgradeExecuted));
        fx.push(Effect::UpdateWasm { wasm_hash });
        assert(fx@ =~= seq![Effect::Publish(Event::UpgradeExecuted), Effect::UpdateWasm { wasm_hash }]);
        Ok(fx)
    }

    /// Drops the pending proposal. Requires `Admin`.
    pub fn cancel_upgrade(&mut self, admin: Address) -> (r: Result<Vec<Effect>, ContractError>)
        requires
            old(self).wf(),
        ensures
            final(self).wf(),
            step_cancel_upgrade(old(self)@, admin) == (final(self)@, outcome(r)),
    {
        self.check_external(&admin)?;
        self.check_role(&admin, Role::Admin)?;
        if self.pending_wasm.is_none() {
            return Err(ContractError::NoPendingUpgrade);
        }
        self.pending_wasm = None;
        self.pending_approvals = None;
        let mut fx: Vec<Effect> = Vec::new();
        fx.push(Effect::Publish(Event::UpgradeCancelled));
        Ok(fx)
    }
}

} // verus!
