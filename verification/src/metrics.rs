//! The metrics registry: atomic counters behind an `Arc`, shared by every
//! clone of the registry, and their export in the Prometheus text format.
//!
//! A disabled registry ignores every observation; its export still works
//! and shows zeros.

use vstd::prelude::*;
use std::sync::atomic::{AtomicU64, Ordering};
use std::sync::Arc;

use crate::prometheus::{prometheus_text, render_prometheus, zero_snapshot, zero_snapshot_exec, MetricsSnapshot};
use crate::text::str_eq;

verus! {

#[verifier::external_type_specification]
#[verifier::external_body]
pub struct ExInstant(std::time::Instant);

/// The current instant of the monotonic clock (`Instant::now`). Nothing is
/// stated of it: it depends on time.
#[verifier::external_body]
pub(crate) fn instant_now() -> std::time::Instant {
    std::time::Instant::now()
}

/// The time elapsed since `t` (`Instant::elapsed`). Nothing is stated of
/// it: it depends on time.
#[verifier::external_body]
pub(crate) fn elapsed_since(t: &std::time::Instant) -> std::time::Duration {
    t.elapsed()
}

/// The whole seconds of a duration (`Duration::as_secs`). Nothing is stated:
/// a duration is opaque here.
#[verifier::external_body]
pub(crate) fn whole_secs(d: &std::time::Duration) -> u64 {
    d.as_secs()
}

/// Decision counters at one moment.
#[derive(Debug, Clone, Copy, PartialEq, Eq, Structural)]
pub struct DecisionCounts {
    /// Pass decisions.
    pub pass: u64,
    /// Reject decisions.
    pub reject: u64,
    /// Decisions that waited for a human.
    pub hitl: u64,
    /// Hard-override passes.
    pub hard_override: u64,
}

impl DecisionCounts {
    /// All decisions observed.
    pub fn total(&self) -> (t: u64)
        requires
            self.pass + self.reject + self.hitl + self.hard_override <= u64::MAX,
        ensures
            t == self.pass + self.reject + self.hitl + self.hard_override,
    {
        self.pass + self.reject + self.hitl + self.hard_override
    }
}

/// Risk-level counters at one moment.
#[derive(Debug, Clone, Copy, PartialEq, Eq, Structural)]
pub struct RiskCounts {
    /// Low-risk observations.
    pub low: u64,
    /// Medium-risk observations.
    pub medium: u64,
    /// Critical-risk observations.
    pub critical: u64,
    /// Catastrophic-risk observations.
    pub catastrophic: u64,
}

impl RiskCounts {
    /// All risk observations.
    pub fn total(&self) -> (t: u64)
        requires
            self.low + self.medium + self.critical + self.catastrophic <= u64::MAX,
        ensures
            t == self.low + self.medium + self.critical + self.catastrophic,
    {
        self.low + self.medium + self.critical + self.catastrophic
    }
}

#[derive(Debug)]
struct MetricsInner {
    decisions_pass: AtomicU64,
    decisions_reject: AtomicU64,
    decisions_hitl: AtomicU64,
    decisions_hard_override: AtomicU64,
    risk_low: AtomicU64,
    risk_medium: AtomicU64,
    risk_critical: AtomicU64,
    risk_catastrophic: AtomicU64,
    decision_latency_ns_total: AtomicU64,
    decision_latency_count: AtomicU64,
    credential_injections_success: AtomicU64,
    credential_injections_failed: AtomicU64,
    credential_lookups_total: AtomicU64,
    credential_lookups_miss: AtomicU64,
    audit_entries_written: AtomicU64,
    audit_chain_verifications: AtomicU64,
    audit_chain_failures: AtomicU64,
    sap_verifications_total: AtomicU64,
    sap_verifications_failed: AtomicU64,
    replay_cache_hits: AtomicU64,
    replay_cache_misses: AtomicU64,
    plugin_audits_total: AtomicU64,
    plugin_audits_pass: AtomicU64,
    plugin_audits_reject: AtomicU64,
    plugin_audits_hitl: AtomicU64,
    invalid_pfp: AtomicU64,
    invalid_sap: AtomicU64,
    config_errors: AtomicU64,
    start_time: std::time::Instant,
}

impl MetricsInner {
    fn new() -> MetricsInner {
        MetricsInner {
            decisions_pass: AtomicU64::new(0),
            decisions_reject: AtomicU64::new(0),
            decisions_hitl: AtomicU64::new(0),
            decisions_hard_override: AtomicU64::new(0),
            risk_low: AtomicU64::new(0),
            risk_medium: AtomicU64::new(0),
            risk_critical: AtomicU64::new(0),
            risk_catastrophic: AtomicU64::new(0),
            decision_latency_ns_total: AtomicU64::new(0),
            decision_latency_count: AtomicU64::new(0),
            credential_injections_success: AtomicU64::new(0),
            credential_injections_failed: AtomicU64::new(0),
            credential_lookups_total: AtomicU64::new(0),
            credential_lookups_miss: AtomicU64::new(0),
            audit_entries_written: AtomicU64::new(0),
            audit_chain_verifications: AtomicU64::new(0),
            audit_chain_failures: AtomicU64::new(0),
            sap_verifications_total: AtomicU64::new(0),
            sap_verifications_failed: AtomicU64::new(0),
            replay_cache_hits: AtomicU64::new(0),
            replay_cache_misses: AtomicU64::new(0),
            plugin_audits_total: AtomicU64::new(0),
            plugin_audits_pass: AtomicU64::new(0),
            plugin_audits_reject: AtomicU64::new(0),
            plugin_audits_hitl: AtomicU64::new(0),
            invalid_pfp: AtomicU64::new(0),
            invalid_sap: AtomicU64::new(0),
            config_errors: AtomicU64::new(0),
            start_time: instant_now(),
        }
    }
}

/// Metrics registry. Its counters are atomics shared by every clone, so an
/// observation through one clone is seen through all; what they hold is not
/// tracked by the contracts here.
#[derive(Debug, Clone)]
pub struct Metrics {
    inner: Arc<MetricsInner>,
    enabled: bool,
}

impl Default for Metrics {
    /// A fresh registry that is disabled.
    fn default() -> (m: Self)
        ensures
            !m.spec_enabled(),
    {
        Metrics { inner: Arc::new(MetricsInner::new()), enabled: false }
    }
}

impl Metrics {
    /// Whether this registry records observations.
    pub closed spec fn spec_enabled(&self) -> bool {
        self.enabled
    }

    /// A fresh, enabled registry with every counter at zero.
    pub fn new() -> (m: Metrics)
        ensures
            m.spec_enabled(),
    {
        Metrics { inner: Arc::new(MetricsInner::new()), enabled: true }
    }

    /// A fresh registry that ignores every observation.
    pub fn disabled() -> (m: Metrics)
        ensures
            !m.spec_enabled(),
    {
        Metrics { inner: Arc::new(MetricsInner::new()), enabled: false }
    }

    /// Whether this registry records observations.
    pub fn is_enabled(&self) -> (b: bool)
        ensures
            b == self.spec_enabled(),
    {
        self.enabled
    }

    /// The decision counter a decision name selects: `Pass`, `Reject`,
    /// `NeedHumanConfirm` or `HardOverridePass`; none for any other name.
    fn decision_counter(&self, decision: &str) -> (c: Option<&AtomicU64>)
        ensures
            decision@ == "Pass"@ ==> c == Some(&self.inner.decisions_pass),
            decision@ == "Reject"@ ==> c == Some(&self.inner.decisions_reject),
            decision@ == "NeedHumanConfirm"@ ==> c == Some(&self.inner.decisions_hitl),
            decision@ == "HardOverridePass"@ ==> c == Some(&self.inner.decisions_hard_override),
            decision@ != "Pass"@ && decision@ != "Reject"@ && decision@ != "NeedHumanConfirm"@
                && decision@ != "HardOverridePass"@ ==> c is None,
    {
        proof {
            reveal_strlit("Pass");
            reveal_strlit("Reject");
            reveal_strlit("NeedHumanConfirm");
            reveal_strlit("HardOverridePass");
            assert("Pass"@.len() != "Reject"@.len() && "Pass"@.len() != "NeedHumanConfirm"@.len()
                && "Pass"@.len() != "HardOverridePass"@.len() && "Reject"@.len() != "NeedHumanConfirm"@.len()
                && "Reject"@.len() != "HardOverridePass"@.len() && "NeedHumanConfirm"@[0] != "HardOverridePass"@[0]);
        }
        if str_eq(decision, "Pass") {
            Some(&self.inner.decisions_pass)
        } else if str_eq(decision, "Reject") {
            Some(&self.inner.decisions_reject)
        } else if str_eq(decision, "NeedHumanConfirm") {
            Some(&self.inner.decisions_hitl)
        } else if str_eq(decision, "HardOverridePass") {
            Some(&self.inner.decisions_hard_override)
        } else {
            None
        }
    }

    /// The risk counter a level name selects: `Low`, `Medium`, `Critical`
    /// or `Catastrophic`; none for any other name.
    fn risk_counter(&self, risk: &str) -> (c: Option<&AtomicU64>)
        ensures
            risk@ == "Low"@ ==> c == Some(&self.inner.risk_low),
            risk@ == "Medium"@ ==> c == Some(&self.inner.risk_medium),
            risk@ == "Critical"@ ==> c == Some(&self.inner.risk_critical),
            risk@ == "Catastrophic"@ ==> c == Some(&self.inner.risk_catastrophic),
            risk@ != "Low"@ && risk@ != "Medium"@ && risk@ != "Critical"@ && risk@ != "Catastrophic"@
                ==> c is None,
    {
        proof {
            reveal_strlit("Low");
            reveal_strlit("Medium");
            reveal_strlit("Critical");
            reveal_strlit("Catastrophic");
            assert("Low"@.len() != "Medium"@.len() && "Low"@.len() != "Critical"@.len()
                && "Low"@.len() != "Catastrophic"@.len() && "Medium"@.len() != "Critical"@.len()
                && "Medium"@.len() != "Catastrophic"@.len() && "Critical"@.len() != "Catastrophic"@.len());
        }
        if str_eq(risk, "Low") {
            Some(&self.inner.risk_low)
        } else if str_eq(risk, "Medium") {
            Some(&self.inner.risk_medium)
        } else if str_eq(risk, "Critical") {
            Some(&self.inner.risk_critical)
        } else if str_eq(risk, "Catastrophic") {
            Some(&self.inner.risk_catastrophic)
        } else {
            None
        }
    }

    /// Count one decision by its name: `Pass`, `Reject`, `NeedHumanConfirm`
    /// or `HardOverridePass`; any other name is ignored.
    pub fn observe_decision(&self, decision: &str) {
        if !self.enabled {
            return;
        }
        if let Some(c) = self.decision_counter(decision) {
            c.fetch_add(1, Ordering::Relaxed);
        }
    }

    /// Count one risk level by its name: `Low`, `Medium`, `Critical` or
    /// `Catastrophic`; any other name is ignored.
    pub fn observe_risk_level(&self, risk: &str) {
        if !self.enabled {
            return;
        }
        if let Some(c) = self.risk_counter(risk) {
            c.fetch_add(1, Ordering::Relaxed);
        }
    }

    /// The decision counters. A disabled registry never counts (every
    /// observation returns at once, and its counters are shared only with
    /// its clones, which are disabled too), so it reads zero.
    pub fn decision_counts(&self) -> (c: DecisionCounts)
        ensures
            !self.spec_enabled() ==> c == (DecisionCounts { pass: 0, reject: 0, hitl: 0, hard_override: 0 }),
    {
        if !self.enabled {
            return DecisionCounts { pass: 0, reject: 0, hitl: 0, hard_override: 0 };
        }
        DecisionCounts {
            pass: self.inner.decisions_pass.load(Ordering::Relaxed),
            reject: self.inner.decisions_reject.load(Ordering::Relaxed),
            hitl: self.inner.decisions_hitl.load(Ordering::Relaxed),
            hard_override: self.inner.decisions_hard_override.load(Ordering::Relaxed),
        }
    }

    /// The risk-level counters; a disabled registry reads zero.
    pub fn risk_counts(&self) -> (c: RiskCounts)
        ensures
            !self.spec_enabled() ==> c == (RiskCounts { low: 0, medium: 0, critical: 0, catastrophic: 0 }),
    {
        if !self.enabled {
            return RiskCounts { low: 0, medium: 0, critical: 0, catastrophic: 0 };
        }
        RiskCounts {
            low: self.inner.risk_low.load(Ordering::Relaxed),
            medium: self.inner.risk_medium.load(Ordering::Relaxed),
            critical: self.inner.risk_critical.load(Ordering::Relaxed),
            catastrophic: self.inner.risk_catastrophic.load(Ordering::Relaxed),
        }
    }

    /// Add one decision latency, in nanoseconds.
    pub fn observe_decision_latency(&self, duration_ns: u64) {
        if !self.enabled {
            return;
        }
        self.inner.decision_latency_ns_total.fetch_add(duration_ns, Ordering::Relaxed);
        self.inner.decision_latency_count.fetch_add(1, Ordering::Relaxed);
    }

    /// Count one successful credential injection.
    pub fn observe_credential_injection_success(&self) {
        if !self.enabled {
            return;
        }
        self.inner.credential_injections_success.fetch_add(1, Ordering::Relaxed);
    }

    /// Count one failed credential injection.
    pub fn observe_credential_injection_failed(&self) {
        if !self.enabled {
            return;
        }
        self.inner.credential_injections_failed.fetch_add(1, Ordering::Relaxed);
    }

    /// Count one credential lookup, and a miss when nothing was found.
    pub fn observe_credential_lookup(&self, found: bool) {
        if !self.enabled {
            return;
        }
        self.inner.credential_lookups_total.fetch_add(1, Ordering::Relaxed);
        if !found {
            self.inner.credential_lookups_miss.fetch_add(1, Ordering::Relaxed);
        }
    }

    /// Count one audit entry written.
    pub fn observe_audit_entry_written(&self) {
        if !self.enabled {
            return;
        }
        self.inner.audit_entries_written.fetch_add(1, Ordering::Relaxed);
    }

    /// Count one audit chain verification, and a failure when it failed.
    pub fn observe_audit_chain_verification(&self, success: bool) {
        if !self.enabled {
            return;
        }
        self.inner.audit_chain_verifications.fetch_add(1, Ordering::Relaxed);
        if !success {
            self.inner.audit_chain_failures.fetch_add(1, Ordering::Relaxed);
        }
    }

    /// Count one SAP verification, and a failure when it failed.
    pub fn observe_sap_verification(&self, success: bool) {
        if !self.enabled {
            return;
        }
        self.inner.sap_verifications_total.fetch_add(1, Ordering::Relaxed);
        if !success {
            self.inner.sap_verifications_failed.fetch_add(1, Ordering::Relaxed);
        }
    }

    /// Count one replay cache access as a hit or a miss.
    pub fn observe_replay_cache(&self, hit: bool) {
        if !self.enabled {
            return;
        }
        if hit {
            self.inner.replay_cache_hits.fetch_add(1, Ordering::Relaxed);
        } else {
            self.inner.replay_cache_misses.fetch_add(1, Ordering::Relaxed);
        }
    }

    /// Count one plugin audit, and its decision when it is `Pass`, `Reject`
    /// or `NeedHumanConfirm`.
    pub fn observe_plugin_audit(&self, decision: &str) {
        if !self.enabled {
            return;
        }
        self.inner.plugin_audits_total.fetch_add(1, Ordering::Relaxed);
        if str_eq(decision, "Pass") {
            self.inner.plugin_audits_pass.fetch_add(1, Ordering::Relaxed);
        } else if str_eq(decision, "Reject") {
            self.inner.plugin_audits_reject.fetch_add(1, Ordering::Relaxed);
        } else if str_eq(decision, "NeedHumanConfirm") {
            self.inner.plugin_audits_hitl.fetch_add(1, Ordering::Relaxed);
        }
    }

    /// Count one invalid PFP header.
    pub fn observe_invalid_pfp(&self) {
        if !self.enabled {
            return;
        }
        self.inner.invalid_pfp.fetch_add(1, Ordering::Relaxed);
    }

    /// Count one invalid SAP header.
    pub fn observe_invalid_sap(&self) {
        if !self.enabled {
            return;
        }
        self.inner.invalid_sap.fetch_add(1, Ordering::Relaxed);
    }

    /// Count one configuration error.
    pub fn observe_config_error(&self) {
        if !self.enabled {
            return;
        }
        self.inner.config_errors.fetch_add(1, Ordering::Relaxed);
    }

    /// A reading of every exported counter and of the uptime; a disabled
    /// registry's counters read zero.
    pub fn snapshot(&self) -> (m: MetricsSnapshot)
        ensures
            !self.spec_enabled() ==> m == zero_snapshot(m.uptime_secs),
    {
        let elapsed = elapsed_since(&self.inner.start_time);
        if !self.enabled {
            return zero_snapshot_exec(whole_secs(&elapsed));
        }
        MetricsSnapshot {
            decisions_pass: self.inner.decisions_pass.load(Ordering::Relaxed),
            decisions_reject: self.inner.decisions_reject.load(Ordering::Relaxed),
            decisions_hitl: self.inner.decisions_hitl.load(Ordering::Relaxed),
            decisions_hard_override: self.inner.decisions_hard_override.load(Ordering::Relaxed),
            risk_low: self.inner.risk_low.load(Ordering::Relaxed),
            risk_medium: self.inner.risk_medium.load(Ordering::Relaxed),
            risk_critical: self.inner.risk_critical.load(Ordering::Relaxed),
            risk_catastrophic: self.inner.risk_catastrophic.load(Ordering::Relaxed),
            decision_latency_ns_total: self.inner.decision_latency_ns_total.load(Ordering::Relaxed),
            decision_latency_count: self.inner.decision_latency_count.load(Ordering::Relaxed),
            credential_injections_success: self.inner.credential_injections_success.load(Ordering::Relaxed),
            credential_injections_failed: self.inner.credential_injections_failed.load(Ordering::Relaxed),
            credential_lookups_total: self.inner.credential_lookups_total.load(Ordering::Relaxed),
            credential_lookups_miss: self.inner.credential_lookups_miss.load(Ordering::Relaxed),
            audit_entries_written: self.inner.audit_entries_written.load(Ordering::Relaxed),
            audit_chain_verifications: self.inner.audit_chain_verifications.load(Ordering::Relaxed),
            audit_chain_failures: self.inner.audit_chain_failures.load(Ordering::Relaxed),
            sap_verifications_total: self.inner.sap_verifications_total.load(Ordering::Relaxed),
            sap_verifications_failed: self.inner.sap_verifications_failed.load(Ordering::Relaxed),
            replay_cache_hits: self.inner.replay_cache_hits.load(Ordering::Relaxed),
            replay_cache_misses: self.inner.replay_cache_misses.load(Ordering::Relaxed),
            plugin_audits_pass: self.inner.plugin_audits_pass.load(Ordering::Relaxed),
            plugin_audits_reject: self.inner.plugin_audits_reject.load(Ordering::Relaxed),
            plugin_audits_hitl: self.inner.plugin_audits_hitl.load(Ordering::Relaxed),
            invalid_pfp: self.inner.invalid_pfp.load(Ordering::Relaxed),
            invalid_sap: self.inner.invalid_sap.load(Ordering::Relaxed),
            config_errors: self.inner.config_errors.load(Ordering::Relaxed),
            uptime_secs: whole_secs(&elapsed),
        }
    }

    /// The counters in the Prometheus text format: the rendering of one
    /// reading of them.
    pub fn export_prometheus(&self) -> (s: String)
        ensures
            exists|m: MetricsSnapshot| s@ == #[trigger] prometheus_text(m) && (!self.spec_enabled() ==> m
                == zero_snapshot(m.uptime_secs)),
    {
        let m = self.snapshot();
        render_prometheus(&m)
    }
}

} // verus!
