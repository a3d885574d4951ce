//! The Prometheus text exposition of a metrics reading.
//!
//! Every counter is printed in decimal; the average decision latency is
//! printed in seconds with nine decimals, from whole nanoseconds rounded
//! half up.

use vstd::prelude::*;

use crate::text::{decimal, decimal_padded, push_char, push_decimal, push_decimal_padded};

verus! {

/// One reading of every exported counter, with the uptime in seconds.
#[derive(Debug, Clone, Copy, PartialEq, Eq, Structural)]
pub struct MetricsSnapshot {
    pub decisions_pass: u64,
    pub decisions_reject: u64,
    pub decisions_hitl: u64,
    pub decisions_hard_override: u64,
    pub risk_low: u64,
    pub risk_medium: u64,
    pub risk_critical: u64,
    pub risk_catastrophic: u64,
    pub decision_latency_ns_total: u64,
    pub decision_latency_count: u64,
    pub credential_injections_success: u64,
    pub credential_injections_failed: u64,
    pub credential_lookups_total: u64,
    pub credential_lookups_miss: u64,
    pub audit_entries_written: u64,
    pub audit_chain_verifications: u64,
    pub audit_chain_failures: u64,
    pub sap_verifications_total: u64,
    pub sap_verifications_failed: u64,
    pub replay_cache_hits: u64,
    pub replay_cache_misses: u64,
    pub plugin_audits_pass: u64,
    pub plugin_audits_reject: u64,
    pub plugin_audits_hitl: u64,
    pub invalid_pfp: u64,
    pub invalid_sap: u64,
    pub config_errors: u64,
    pub uptime_secs: u64,
}

/// A reading with every counter at zero and this uptime.
pub open spec fn zero_snapshot(uptime_secs: u64) -> MetricsSnapshot {
    MetricsSnapshot {
        decisions_pass: 0,
        decisions_reject: 0,
        decisions_hitl: 0,
        decisions_hard_override: 0,
        risk_low: 0,
        risk_medium: 0,
        risk_critical: 0,
        risk_catastrophic: 0,
        decision_latency_ns_total: 0,
        decision_latency_count: 0,
        credential_injections_success: 0,
        credential_injections_failed: 0,
        credential_lookups_total: 0,
        credential_lookups_miss: 0,
        audit_entries_written: 0,
        audit_chain_verifications: 0,
        audit_chain_failures: 0,
        sap_verifications_total: 0,
        sap_verifications_failed: 0,
        replay_cache_hits: 0,
        replay_cache_misses: 0,
        plugin_audits_pass: 0,
        plugin_audits_reject: 0,
        plugin_audits_hitl: 0,
        invalid_pfp: 0,
        invalid_sap: 0,
        config_errors: 0,
        uptime_secs,
    }
}

/// A reading with every counter at zero and this uptime.
pub fn zero_snapshot_exec(uptime_secs: u64) -> (m: MetricsSnapshot)
    ensures
        m == zero_snapshot(uptime_secs),
{
    MetricsSnapshot {
        decisions_pass: 0,
        decisions_reject: 0,
        decisions_hitl: 0,
        decisions_hard_override: 0,
        risk_low: 0,
        risk_medium: 0,
        risk_critical: 0,
        risk_catastrophic: 0,
        decision_latency_ns_total: 0,
        decision_latency_count: 0,
        credential_injections_success: 0,
        credential_injections_failed: 0,
        credential_lookups_total: 0,
        credential_lookups_miss: 0,
        audit_entries_written: 0,
        audit_chain_verifications: 0,
        audit_chain_failures: 0,
        sap_verifications_total: 0,
        sap_verifications_failed: 0,
        replay_cache_hits: 0,
        replay_cache_misses: 0,
        plugin_audits_pass: 0,
        plugin_audits_reject: 0,
        plugin_audits_hitl: 0,
        invalid_pfp: 0,
        invalid_sap: 0,
        config_errors: 0,
        uptime_secs,
    }
}

/// `a - b` modulo 2^64, as the counters' differences are taken.
pub open spec fn sub_wrap(a: u64, b: u64) -> nat {
    vstd::wrapping::u64_specs::wrapping_sub(a, b) as nat
}

/// One sample line: the metric name with its labels, a space already
/// included, then the value and a line break.
pub open spec fn sample(name: Seq<char>, v: nat) -> Seq<char> {
    name + decimal(v) + seq!['\n']
}

/// The average latency in whole nanoseconds, rounded half up; 0 with no
/// samples.
pub open spec fn avg_latency_ns(total_ns: nat, count: nat) -> nat {
    if count == 0 {
        0
    } else {
        (2 * total_ns + count) / (2 * count)
    }
}

/// The average latency in seconds with nine decimals.
pub open spec fn latency_text(total_ns: nat, count: nat) -> Seq<char> {
    let ns = avg_latency_ns(total_ns, count);
    decimal(ns / 1_000_000_000) + seq!['.'] + decimal_padded(ns % 1_000_000_000, 9)
}

/// The full exposition text of a reading.
pub open spec fn prometheus_text(m: MetricsSnapshot) -> Seq<char> {
    Seq::<char>::empty()
    + "# HELP tuck_decisions_total Total number of security decisions by type.\n"@
    + "# TYPE tuck_decisions_total counter\n"@
    + sample("tuck_decisions_total{decision=\"pass\"} "@, m.decisions_pass as nat)
    + sample("tuck_decisions_total{decision=\"reject\"} "@, m.decisions_reject as nat)
    + sample("tuck_decisions_total{decision=\"hitl\"} "@, m.decisions_hitl as nat)
    + sample("tuck_decisions_total{decision=\"hard_override\"} "@, m.decisions_hard_override as nat)
    + "# HELP tuck_risk_levels_total Total number of requests by risk level.\n"@
    + "# TYPE tuck_risk_levels_total counter\n"@
    + sample("tuck_risk_levels_total{risk=\"low\"} "@, m.risk_low as nat)
    + sample("tuck_risk_levels_total{risk=\"medium\"} "@, m.risk_medium as nat)
    + sample("tuck_risk_levels_total{risk=\"critical\"} "@, m.risk_critical as nat)
    + sample("tuck_risk_levels_total{risk=\"catastrophic\"} "@, m.risk_catastrophic as nat)
    + "# HELP tuck_decision_latency_seconds Average decision latency in seconds.\n"@
    + "# TYPE tuck_decision_latency_seconds gauge\n"@
    + "tuck_decision_latency_seconds "@
    + latency_text(m.decision_latency_ns_total as nat, m.decision_latency_count as nat)
    + "\n"@
    + "# HELP tuck_credential_injections_total Credential injection results.\n"@
    + "# TYPE tuck_credential_injections_total counter\n"@
    + sample("tuck_credential_injections_total{result=\"success\"} "@, m.credential_injections_success as nat)
    + sample("tuck_credential_injections_total{result=\"failed\"} "@, m.credential_injections_failed as nat)
    + "# HELP tuck_credential_lookups_total Credential lookup results.\n"@
    + "# TYPE tuck_credential_lookups_total counter\n"@
    + sample("tuck_credential_lookups_total{result=\"hit\"} "@, sub_wrap(m.credential_lookups_total, m.credential_lookups_miss))
    + sample("tuck_credential_lookups_total{result=\"miss\"} "@, m.credential_lookups_miss as nat)
    + "# HELP tuck_audit_entries_total Total audit entries written.\n"@
    + "# TYPE tuck_audit_entries_total counter\n"@
    + sample("tuck_audit_entries_total "@, m.audit_entries_written as nat)
    + "# HELP tuck_audit_chain_verifications_total Audit chain verification results.\n"@
    + "# TYPE tuck_audit_chain_verifications_total counter\n"@
    + sample("tuck_audit_chain_verifications_total{result=\"success\"} "@, sub_wrap(m.audit_chain_verifications, m.audit_chain_failures))
    + sample("tuck_audit_chain_verifications_total{result=\"failure\"} "@, m.audit_chain_failures as nat)
    + "# HELP tuck_sap_verifications_total SAP signature verification results.\n"@
    + "# TYPE tuck_sap_verifications_total counter\n"@
    + sample("tuck_sap_verifications_total{result=\"success\"} "@, sub_wrap(m.sap_verifications_total, m.sap_verifications_failed))
    + sample("tuck_sap_verifications_total{result=\"failed\"} "@, m.sap_verifications_failed as nat)
    + "# HELP tuck_replay_cache_total Replay cache access results.\n"@
    + "# TYPE tuck_replay_cache_total counter\n"@
    + sample("tuck_replay_cache_total{result=\"hit\"} "@, m.replay_cache_hits as nat)
    + sample("tuck_replay_cache_total{result=\"miss\"} "@, m.replay_cache_misses as nat)
    + "# HELP tuck_plugin_audits_total Plugin audit results.\n"@
    + "# TYPE tuck_plugin_audits_total counter\n"@
    + sample("tuck_plugin_audits_total{decision=\"pass\"} "@, m.plugin_audits_pass as nat)
    + sample("tuck_plugin_audits_total{decision=\"reject\"} "@, m.plugin_audits_reject as nat)
    + sample("tuck_plugin_audits_total{decision=\"hitl\"} "@, m.plugin_audits_hitl as nat)
    + "# HELP tuck_errors_total Total errors by type.\n"@
    + "# TYPE tuck_errors_total counter\n"@
    + sample("tuck_errors_total{type=\"invalid_pfp\"} "@, m.invalid_pfp as nat)
    + sample("tuck_errors_total{type=\"invalid_sap\"} "@, m.invalid_sap as nat)
    + sample("tuck_errors_total{type=\"config_error\"} "@, m.config_errors as nat)
    + "# HELP tuck_uptime_seconds Uptime in seconds.\n"@
    + "# TYPE tuck_uptime_seconds counter\n"@
    + sample("tuck_uptime_seconds "@, m.uptime_secs as nat)
}

fn push_sample(s: &mut String, name: &str, v: u64)
    ensures
        final(s)@ == old(s)@ + sample(name@, v as nat),
{
    s.append(name);
    push_decimal(s, v);
    push_char(s, '\n');
    assert(s@ =~= old(s)@ + sample(name@, v as nat));
}

/// The average latency in whole nanoseconds, rounded half up.
pub fn avg_latency(total_ns: u64, count: u64) -> (ns: u64)
    ensures
        ns == avg_latency_ns(total_ns as nat, count as nat),
{
    if count == 0 {
        0
    } else {
        let t: u128 = total_ns as u128;
        let c: u128 = count as u128;
        let q: u128 = (2 * t + c) / (2 * c);
        assert(q <= t) by (nonlinear_arith)
            requires
                q == (2 * t + c) / (2 * c),
                c >= 1,
        {
            if q > t {
                assert(q * (2 * c) <= 2 * t + c);
                assert((t + 1) * (2 * c) <= q * (2 * c));
            }
        }
        q as u64
    }
}

fn push_latency(s: &mut String, total_ns: u64, count: u64)
    ensures
        final(s)@ == old(s)@ + latency_text(total_ns as nat, count as nat),
{
    let ns = avg_latency(total_ns, count);
    push_decimal(s, ns / 1_000_000_000);
    push_char(s, '.');
    push_decimal_padded(s, ns % 1_000_000_000, 9);
    assert(s@ =~= old(s)@ + latency_text(total_ns as nat, count as nat));
}

/// The Prometheus exposition text of a reading.
pub fn render_prometheus(m: &MetricsSnapshot) -> (s: String)
    ensures
        s@ == prometheus_text(*m),
{
    let mut s = String::new();
    s.append("# HELP tuck_decisions_total Total number of security decisions by type.\n");
    s.append("# TYPE tuck_decisions_total counter\n");
    push_sample(&mut s, "tuck_decisions_total{decision=\"pass\"} ", m.decisions_pass);
    push_sample(&mut s, "tuck_decisions_total{decision=\"reject\"} ", m.decisions_reject);
    push_sample(&mut s, "tuck_decisions_total{decision=\"hitl\"} ", m.decisions_hitl);
    push_sample(&mut s, "tuck_decisions_total{decision=\"hard_override\"} ", m.decisions_hard_override);
    s.append("# HELP tuck_risk_levels_total Total number of requests by risk level.\n");
    s.append("# TYPE tuck_risk_levels_total counter\n");
    push_sample(&mut s, "tuck_risk_levels_total{risk=\"low\"} ", m.risk_low);
    push_sample(&mut s, "tuck_risk_levels_total{risk=\"medium\"} ", m.risk_medium);
    push_sample(&mut s, "tuck_risk_levels_total{risk=\"critical\"} ", m.risk_critical);
    push_sample(&mut s, "tuck_risk_levels_total{risk=\"catastrophic\"} ", m.risk_catastrophic);
    s.append("# HELP tuck_decision_latency_seconds Average decision latency in seconds.\n");
    s.append("# TYPE tuck_decision_latency_seconds gauge\n");
    s.append("tuck_decision_latency_seconds ");
    push_latency(&mut s, m.decision_latency_ns_total, m.decision_latency_count);
    s.append("\n");
    s.append("# HELP tuck_credential_injections_total Credential injection results.\n");
    s.append("# TYPE tuck_credential_injections_total counter\n");
    push_sample(&mut s, "tuck_credential_injections_total{result=\"success\"} ", m.credential_injections_success);
    push_sample(&mut s, "tuck_credential_injections_total{result=\"failed\"} ", m.credential_injections_failed);
    s.append("# HELP tuck_credential_lookups_total Credential lookup results.\n");
    s.append("# TYPE tuck_credential_lookups_total counter\n");
    push_sample(&mut s, "tuck_credential_lookups_total{result=\"hit\"} ",
        m.credential_lookups_total.wrapping_sub(m.credential_lookups_miss));
    push_sample(&mut s, "tuck_credential_lookups_total{result=\"miss\"} ", m.credential_lookups_miss);
    s.append("# HELP tuck_audit_entries_total Total audit entries written.\n");
    s.append("# TYPE tuck_audit_entries_total counter\n");
    push_sample(&mut s, "tuck_audit_entries_total ", m.audit_entries_written);
    s.append("# HELP tuck_audit_chain_verifications_total Audit chain verification results.\n");
    s.append("# TYPE tuck_audit_chain_verifications_total counter\n");
    push_sample(&mut s, "tuck_audit_chain_verifications_total{result=\"success\"} ",
        m.audit_chain_verifications.wrapping_sub(m.audit_chain_failures));
    push_sample(&mut s, "tuck_audit_chain_verifications_total{result=\"failure\"} ", m.audit_chain_failures);
    s.append("# HELP tuck_sap_verifications_total SAP signature verification results.\n");
    s.append("# TYPE tuck_sap_verifications_total counter\n");
    push_sample(&mut s, "tuck_sap_verifications_total{result=\"success\"} ",
        m.sap_verifications_total.wrapping_sub(m.sap_verifications_failed));
    push_sample(&mut s, "tuck_sap_verifications_total{result=\"failed\"} ", m.sap_verifications_failed);
    s.append("# HELP tuck_replay_cache_total Replay cache access results.\n");
    s.append("# TYPE tuck_replay_cache_total counter\n");
    push_sample(&mut s, "tuck_replay_cache_total{result=\"hit\"} ", m.replay_cache_hits);
    push_sample(&mut s, "tuck_replay_cache_total{result=\"miss\"} ", m.replay_cache_misses);
    s.append("# HELP tuck_plugin_audits_total Plugin audit results.\n");
    s.append("# TYPE tuck_plugin_audits_total counter\n");
    push_sample(&mut s, "tuck_plugin_audits_total{decision=\"pass\"} ", m.plugin_audits_pass);
    push_sample(&mut s, "tuck_plugin_audits_total{decision=\"reject\"} ", m.plugin_audits_reject);
    push_sample(&mut s, "tuck_plugin_audits_total{decision=\"hitl\"} ", m.plugin_audits_hitl);
    s.append("# HELP tuck_errors_total Total errors by type.\n");
    s.append("# TYPE tuck_errors_total counter\n");
    push_sample(&mut s, "tuck_errors_total{type=\"invalid_pfp\"} ", m.invalid_pfp);
    push_sample(&mut s, "tuck_errors_total{type=\"invalid_sap\"} ", m.invalid_sap);
    push_sample(&mut s, "tuck_errors_total{type=\"config_error\"} ", m.config_errors);
    s.append("# HELP tuck_uptime_seconds Uptime in seconds.\n");
    s.append("# TYPE tuck_uptime_seconds counter\n");
    push_sample(&mut s, "tuck_uptime_seconds ", m.uptime_secs);
    s
}

} // verus!
