//! Circuit breaker: authenticated, rate-limited, quota-capped and
//! quorum-gated failure reporting.
//!
//! Any observer may report a failure, but each address reports at most once
//! per `REPORT_COOLDOWN_LEDGERS` ledgers and at most
//! `MAX_REPORTS_PER_REPORTER` times per window, and the breaker pauses the
//! contract only when the window's count exceeds `FAILURE_THRESHOLD` with at
//! least `MIN_DISTINCT_REPORTERS` distinct reporters.
use super::{ext_ok, holds, outcome, publish, refuse, Config, ContractView, Outcome, VeroContract};
use crate::events::{Effect, Event};
use crate::keymap::{copy_list, list_contains, KeyMap};
use crate::types::{Address, ContractError, Role};
use vstd::prelude::*;

verus! {

/// Cumulative failure reports required before the breaker may trip.
pub const FAILURE_THRESHOLD: u32 = 50;

/// Ledgers an address must wait between failure reports.
pub const REPORT_COOLDOWN_LEDGERS: u32 = 10;

/// Reports one address may contribute to a single breaker window.
pub const MAX_REPORTS_PER_REPORTER: u32 = 5;

/// Distinct reporters required before the breaker can trip.
pub const MIN_DISTINCT_REPORTERS: u32 = 3;

/// Cap on the number of distinct reporters tracked per window.
pub const MAX_TRACKED_REPORTERS: u32 = 100;

/// Sum of the per-reporter counts over the listed reporters.
pub open spec fn reports_total(reporters: Seq<Address>, counts: Map<Address, u32>) -> int
    decreases reporters.len(),
{
    if reporters.len() == 0 {
        0
    } else {
        reports_total(reporters.drop_last(), counts) + counts[reporters.last()]
    }
}

/// A trusted reporter: a registered guardian, an `EmergencyManager` or an
/// `Admin`.
pub open spec fn trusted_reporter(v: ContractView, a: Address) -> bool {
    v.guardians.contains(a) || holds(v, a, Role::EmergencyManager) || holds(v, a, Role::Admin)
}

/// Ledgers since the reporter's last accepted report (0 if the clock went
/// backwards).
pub open spec fn ledgers_since(now: u32, last: u32) -> u32 {
    if now >= last {
        (now - last) as u32
    } else {
        0
    }
}

/// `record_failure`: a failure report by `reporter` at ledger `sequence`.
pub open spec fn step_record_failure(v: ContractView, reporter: Address, sequence: u32) -> (
    ContractView,
    Outcome,
) {
    let count = if v.reporter_counts.contains_key(reporter) {
        v.reporter_counts[reporter]
    } else {
        0
    };
    let is_new = !v.reporters.contains(reporter);
    if !ext_ok(v, reporter) {
        refuse(v, ContractError::InvalidAddress)
    } else if v.trusted_reporters_only && !trusted_reporter(v, reporter) {
        refuse(v, ContractError::UnauthorizedReporter)
    } else if v.last_reports.contains_key(reporter) && ledgers_since(
        sequence,
        v.last_reports[reporter],
    ) < REPORT_COOLDOWN_LEDGERS {
        refuse(v, ContractError::ReportRateLimited)
    } else if count >= MAX_REPORTS_PER_REPORTER {
        refuse(v, ContractError::ReporterQuotaExceeded)
    } else if is_new && v.reporters.len() >= MAX_TRACKED_REPORTERS {
        refuse(v, ContractError::ReporterQuotaExceeded)
    } else {
        let reporters = if is_new {
            v.reporters.push(reporter)
        } else {
            v.reporters
        };
        let failures = if v.failure_count == u32::MAX {
            u32::MAX
        } else {
            (v.failure_count + 1) as u32
        };
        let trips = failures > FAILURE_THRESHOLD && reporters.len() >= MIN_DISTINCT_REPORTERS
            && !v.config.paused;
        (
            ContractView {
                reporters,
                last_reports: v.last_reports.insert(reporter, sequence),
                reporter_counts: v.reporter_counts.insert(reporter, (count + 1) as u32),
                failure_count: failures,
                config: Config { paused: v.config.paused || trips, ..v.config },
                ..v
            },
            Ok(
                if trips {
                    seq![
                        Effect::Publish(Event::FailureReported { reporter, failure_count: failures }),
                        Effect::Publish(Event::CircuitBreakerTriggered { failure_count: failures }),
                    ]
                } else {
                    publish(Event::FailureReported { reporter, failure_count: failures })
                },
            ),
        )
    }
}

/// `set_trusted_reporters_only`, by an `EmergencyManager`.
pub open spec fn step_set_trusted_reporters_only(v: ContractView, admin: Address, enabled: bool) -> (
    ContractView,
    Outcome,
) {
    if !ext_ok(v, admin) {
        refuse(v, ContractError::InvalidAddress)
    } else if !holds(v, admin, Role::EmergencyManager) {
        refuse(v, ContractError::NotAuthorized)
    } else {
        (
            ContractView { trusted_reporters_only: enabled, ..v },
            Ok(publish(Event::TrustedReportersOnlySet { admin, enabled })),
        )
    }
}

/// The state after the breaker window is cleared: no reports, no reporter
/// accounting, not paused.
pub open spec fn reset_view(v: ContractView) -> ContractView {
    ContractView {
        reporters: Seq::empty(),
        reporter_counts: Map::empty(),
        last_reports: Map::empty(),
        failure_count: 0,
        config: Config { paused: false, ..v.config },
        ..v
    }
}

/// `reset_circuit_breaker`, by an `EmergencyManager`.
pub open spec fn step_reset_circuit_breaker(v: ContractView, admin: Address) -> (
    ContractView,
    Outcome,
) {
    if !ext_ok(v, admin) {
        refuse(v, ContractError::InvalidAddress)
    } else if !holds(v, admin, Role::EmergencyManager) {
        refuse(v, ContractError::NotAuthorized)
    } else {
        (reset_view(v), Ok(publish(Event::CircuitBreakerReset { admin })))
    }
}

/// Counts of reporters outside the list do not affect the total.
pub proof fn lemma_total_frame(rs: Seq<Address>, counts: Map<Address, u32>, a: Address, n: u32)
    requires
        !rs.contains(a),
    ensures
        reports_total(rs, counts.insert(a, n)) == reports_total(rs, counts),
    decreases rs.len(),
{
    if rs.len() > 0 {
        assert(!rs.drop_last().contains(a)) by {
            if rs.drop_last().contains(a) {
                let i = choose|i: int| 0 <= i < rs.drop_last().len() && rs.drop_last()[i] == a;
                assert(rs[i] == a);
            }
        }
        lemma_total_frame(rs.drop_last(), counts, a, n);
        assert(rs.last() != a) by {
            assert(rs[rs.len() - 1] == rs.last());
        }
    }
}

/// Raising one listed reporter's count by one raises the total by one.
pub proof fn lemma_total_increment(rs: Seq<Address>, counts: Map<Address, u32>, a: Address, n: u32)
    requires
        rs.no_duplicates(),
        rs.contains(a),
        n == counts[a] + 1,
    ensures
        reports_total(rs, counts.insert(a, n)) == reports_total(rs, counts) + 1,
    decreases rs.len(),
{
    let p = rs.drop_last();
    if rs.last() == a {
        assert(!p.contains(a)) by {
            if p.contains(a) {
                let i = choose|i: int| 0 <= i < p.len() && p[i] == a;
                assert(rs[i] == rs[rs.len() - 1]);
            }
        }
        lemma_total_frame(p, counts, a, n);
    } else {
        assert(p.contains(a)) by {
            let i = choose|i: int| 0 <= i < rs.len() && rs[i] == a;
            assert(i != rs.len() - 1);
            assert(p[i] == a);
        }
        assert(p.no_duplicates()) by {
            assert forall|i: int, j: int| 0 <= i < p.len() && 0 <= j < p.len() && i != j implies p[i]
                != p[j] by {
                assert(p[i] == rs[i] && p[j] == rs[j]);
            }
        }
        lemma_total_increment(p, counts, a, n);
    }
}

/// Appending a new reporter with one report raises the total by one.
pub proof fn lemma_total_new_reporter(rs: Seq<Address>, counts: Map<Address, u32>, a: Address)
    requires
        !rs.contains(a),
    ensures
        reports_total(rs.push(a), counts.insert(a, 1)) == reports_total(rs, counts) + 1,
{
    lemma_total_frame(rs, counts, a, 1);
    assert(rs.push(a).drop_last() =~= rs);
}

/// With every count within the quota, the total is at most the quota times
/// the number of reporters.
pub proof fn lemma_total_bound(rs: Seq<Address>, counts: Map<Address, u32>)
    requires
        forall|a: Address| rs.contains(a) ==> counts[a] <= MAX_REPORTS_PER_REPORTER,
    ensures
        reports_total(rs, counts) <= MAX_REPORTS_PER_REPORTER * rs.len(),
    decreases rs.len(),
{
    if rs.len() > 0 {
        let p = rs.drop_last();
        assert forall|a: Address| p.contains(a) implies counts[a] <= MAX_REPORTS_PER_REPORTER by {
            let i = choose|i: int| 0 <= i < p.len() && p[i] == a;
            assert(rs[i] == a);
            assert(rs.contains(a));
        }
        lemma_total_bound(p, counts);
        assert(rs.contains(rs.last())) by {
            assert(rs[rs.len() - 1] == rs.last());
        }
    }
}

impl VeroContract {
    fn is_trusted_reporter(&self, a: &Address) -> (b: bool)
        ensures
            b == trusted_reporter(self@, *a),
    {
        list_contains(&self.guardians, a) || self.holds_role(a, Role::EmergencyManager)
            || self.holds_role(a, Role::Admin)
    }

    /// Records a failure report by `reporter` at ledger `ledger_sequence`.
    ///
    /// Rejected with `InvalidAddress` for the zero or contract address,
    /// `UnauthorizedReporter` in trusted-only mode for untrusted reporters,
    /// `ReportRateLimited` within the cooldown, and `ReporterQuotaExceeded`
    /// once the reporter used its quota or the reporter list is full.
    pub fn record_failure(&mut self, reporter: Address, ledger_sequence: u32) -> (r: Result<
        Vec<Effect>,
        ContractError,
    >)
        requires
            old(self).wf(),
        ensures
            final(self).wf(),
            step_record_failure(old(self)@, reporter, ledger_sequence) == (final(self)@, outcome(r)),
    {
        self.check_external(&reporter)?;
        if self.trusted_reporters_only && !self.is_trusted_reporter(&reporter) {
            return Err(ContractError::UnauthorizedReporter);
        }
        if let Some(last) = self.last_reports.get(&reporter) {
            if ledger_sequence.saturating_sub(*last) < REPORT_COOLDOWN_LEDGERS {
                return Err(ContractError::ReportRateLimited);
            }
        }
        let count: u32 = match self.reporter_counts.get(&reporter) {
            Some(c) => *c,
            None => 0,
        };
        if count >= MAX_REPORTS_PER_REPORTER {
            return Err(ContractError::ReporterQuotaExceeded);
        }
        let ghost v = self@;
        let is_new = !list_contains(&self.reporters, &reporter);
        if is_new {
            if self.reporters.len() >= MAX_TRACKED_REPORTERS as usize {
                return Err(ContractError::ReporterQuotaExceeded);
            }
            self.reporters.push(reporter);
        }
        self.last_reports.insert(reporter, ledger_sequence);
        self.reporter_counts.insert(reporter, count + 1);
        let failures = self.failure_count.saturating_add(1);
        self.failure_count = failures;
        let mut fx: Vec<Effect> = Vec::new();
        fx.push(Effect::Publish(Event::FailureReported { reporter, failure_count: failures }));
        if failures > FAILURE_THRESHOLD && self.reporters.len() >= MIN_DISTINCT_REPORTERS as usize
            && !self.config.paused {
            self.config.paused = true;
            fx.push(Effect::Publish(Event::CircuitBreakerTriggered { failure_count: failures }));
            assert(fx@ =~= seq![
                Effect::Publish(Event::FailureReported { reporter, failure_count: failures }),
                Effect::Publish(Event::CircuitBreakerTriggered { failure_count: failures }),
            ]);
        } else {
            assert(fx@ =~= publish(Event::FailureReported { reporter, failure_count: failures }));
        }
        proof {
            assert forall|a: Address| #[trigger] self@.reporters.contains(a) <==> (v.reporters.contains(a)
                || a == reporter) by {
                if is_new {
                    if self@.reporters.contains(a) && a != reporter {
                        let i = choose|i: int| 0 <= i < self@.reporters.len() && self@.reporters[i] == a;
                        assert(v.reporters[i] == a);
                    }
                    if v.reporters.contains(a) {
                        let i = choose|i: int| 0 <= i < v.reporters.len() && v.reporters[i] == a;
                        assert(self@.reporters[i] == a);
                    }
                    if a == reporter {
                        assert(self@.reporters[v.reporters.len() as int] == a);
                    }
                }
            }
            assert forall|a: Address| #[trigger] self@.reporters.contains(a) <==> self@.reporter_counts.contains_key(a) by {
                assert(v.reporters.contains(a) <==> v.reporter_counts.contains_key(a));
            }
            assert forall|a: Address| #[trigger] self@.reporters.contains(a) <==> self@.last_reports.contains_key(a) by {
                assert(v.reporters.contains(a) <==> v.last_reports.contains_key(a));
            }
            if is_new {
                lemma_total_new_reporter(v.reporters, v.reporter_counts, reporter);
                assert(self@.reporters.no_duplicates()) by {
                    assert forall|i: int, j: int|
                        0 <= i < self@.reporters.len() && 0 <= j < self@.reporters.len() && i != j
                        implies self@.reporters[i] != self@.reporters[j] by {
                        if i < v.reporters.len() && j < v.reporters.len() {
                            assert(v.reporters[i] == self@.reporters[i]);
                            assert(v.reporters[j] == self@.reporters[j]);
                        } else if i < v.reporters.len() {
                            assert(v.reporters[i] == self@.reporters[i]);
                            assert(v.reporters.contains(v.reporters[i]));
                        } else {
                            assert(v.reporters[j] == self@.reporters[j]);
                            assert(v.reporters.contains(v.reporters[j]));
                        }
                    }
                }
            } else {
                lemma_total_increment(v.reporters, v.reporter_counts, reporter, (count + 1) as u32);
            }
        }
        Ok(fx)
    }

    /// Enables or disables trusted-reporters-only mode. Requires
    /// `EmergencyManager`.
    pub fn set_trusted_reporters_only(&mut self, admin: Address, enabled: bool) -> (r: Result<
        Vec<Effect>,
        ContractError,
    >)
        requires
            old(self).wf(),
        ensures
            final(self).wf(),
            step_set_trusted_reporters_only(old(self)@, admin, enabled) == (final(self)@, outcome(r)),
    {
        self.check_external(&admin)?;
        self.check_role(&admin, Role::EmergencyManager)?;
        self.trusted_reporters_only = enabled;
        let mut fx: Vec<Effect> = Vec::new();
        fx.push(Effect::Publish(Event::TrustedReportersOnlySet { admin, enabled }));
        Ok(fx)
    }

    /// Clears the breaker window: failure count, reporter list and
    /// per-reporter accounting, and unpauses.
    pub fn reset(&mut self)
        requires
            old(self).wf(),
        ensures
            final(self).wf(),
            final(self)@ == reset_view(old(self)@),
    {
        self.reporters = Vec::new();
        self.reporter_counts = KeyMap::new();
        self.last_reports = KeyMap::new();
        self.failure_count = 0;
        self.config.paused = false;
        proof {
            assert(self@.reporters =~= Seq::<Address>::empty());
        }
    }

    /// Resets the circuit breaker. Requires `EmergencyManager`.
    pub fn reset_circuit_breaker(&mut self, admin: Address) -> (r: Result<Vec<Effect>, ContractError>)
        requires
            old(self).wf(),
        ensures
            final(self).wf(),
            step_reset_circuit_breaker(old(self)@, admin) == (final(self)@, outcome(r)),
    {
        self.check_external(&admin)?;
        self.check_role(&admin, Role::EmergencyManager)?;
        self.reset();
        let mut fx: Vec<Effect> = Vec::new();
        fx.push(Effect::Publish(Event::CircuitBreakerReset { admin }));
        Ok(fx)
    }

    /// Failure reports in the current window.
    pub fn failure_count(&self) -> (n: u32)
        ensures
            n == self@.failure_count,
    {
        self.failure_count
    }

    /// Failure reports in the current window.
    pub fn get_failure_count(&self) -> (n: u32)
        ensures
            n == self@.failure_count,
    {
        self.failure_count()
    }

    /// Reports `reporter` contributed to the current window.
    pub fn reporter_count(&self, reporter: Address) -> (n: u32)
        ensures
            n == (if self@.reporter_counts.contains_key(reporter) {
                self@.reporter_counts[reporter]
            } else {
                0
            }),
    {
        match self.reporter_counts.get(&reporter) {
            Some(c) => *c,
            None => 0,
        }
    }

    /// Reports `reporter` contributed to the current window.
    pub fn get_reporter_failure_count(&self, reporter: Address) -> (n: u32)
        ensures
            n == (if self@.reporter_counts.contains_key(reporter) {
                self@.reporter_counts[reporter]
            } else {
                0
            }),
    {
        self.reporter_count(reporter)
    }

    /// The ledger of `reporter`'s last accepted report in this window.
    pub fn last_report_ledger(&self, reporter: Address) -> (r: Option<u32>)
        ensures
            r == (if self@.last_reports.contains_key(reporter) {
                Some(self@.last_reports[reporter])
            } else {
                None
            }),
    {
        match self.last_reports.get(&reporter) {
            Some(s) => Some(*s),
            None => None,
        }
    }

    /// Distinct reporters of the current window, in first-report order.
    pub fn failure_reporters(&self) -> (r: Vec<Address>)
        ensures
            r@ == self@.reporters,
    {
        copy_list(&self.reporters)
    }

    /// Distinct reporters of the current window, in first-report order.
    pub fn get_failure_reporters(&self) -> (r: Vec<Address>)
        ensures
            r@ == self@.reporters,
    {
        self.failure_reporters()
    }

    /// Whether reporting is restricted to trusted reporters.
    pub fn trusted_reporters_only(&self) -> (b: bool)
        ensures
            b == self@.trusted_reporters_only,
    {
        self.trusted_reporters_only
    }

    /// Whether reporting is restricted to trusted reporters.
    pub fn is_trusted_reporters_only(&self) -> (b: bool)
        ensures
            b == self@.trusted_reporters_only,
    {
        self.trusted_reporters_only()
    }
}

} // verus!
