use tuck::metrics::Metrics;
use tuck::prometheus::{avg_latency, render_prometheus, MetricsSnapshot};

#[test]
fn test_metrics_enabled() {
    let metrics = Metrics::new();
    assert!(metrics.is_enabled());
}

#[test]
fn test_metrics_disabled() {
    let metrics = Metrics::disabled();
    assert!(!metrics.is_enabled());
}

#[test]
fn test_observe_decision() {
    let metrics = Metrics::new();
    metrics.observe_decision("Pass");
    metrics.observe_decision("Reject");
    metrics.observe_decision("NeedHumanConfirm");
    metrics.observe_decision("HardOverridePass");
    let output = metrics.export_prometheus();
    assert!(output.contains("tuck_decisions_total{decision=\"pass\"} 1"));
    assert!(output.contains("tuck_decisions_total{decision=\"reject\"} 1"));
    assert!(output.contains("tuck_decisions_total{decision=\"hitl\"} 1"));
    assert!(output.contains("tuck_decisions_total{decision=\"hard_override\"} 1"));
}

#[test]
fn test_observe_risk_level() {
    let metrics = Metrics::new();
    metrics.observe_risk_level("Low");
    metrics.observe_risk_level("Critical");
    let output = metrics.export_prometheus();
    assert!(output.contains("tuck_risk_levels_total{risk=\"low\"} 1"));
    assert!(output.contains("tuck_risk_levels_total{risk=\"critical\"} 1"));
}

#[test]
fn test_observe_decision_latency() {
    let metrics = Metrics::new();
    metrics.observe_decision_latency(1000);
    metrics.observe_decision_latency(2000);
    let output = metrics.export_prometheus();
    assert!(output.contains("tuck_decision_latency_seconds 0.000001500"));
}

#[test]
fn test_credential_metrics() {
    let metrics = Metrics::new();
    metrics.observe_credential_injection_success();
    metrics.observe_credential_injection_failed();
    metrics.observe_credential_lookup(true);
    metrics.observe_credential_lookup(false);
    let output = metrics.export_prometheus();
    assert!(output.contains("tuck_credential_injections_total{result=\"success\"} 1"));
    assert!(output.contains("tuck_credential_injections_total{result=\"failed\"} 1"));
    assert!(output.contains("tuck_credential_lookups_total{result=\"hit\"} 1"));
    assert!(output.contains("tuck_credential_lookups_total{result=\"miss\"} 1"));
}

#[test]
fn test_audit_metrics() {
    let metrics = Metrics::new();
    metrics.observe_audit_entry_written();
    metrics.observe_audit_chain_verification(true);
    metrics.observe_audit_chain_verification(false);
    let output = metrics.export_prometheus();
    assert!(output.contains("tuck_audit_entries_total 1"));
    assert!(output.contains("tuck_audit_chain_verifications_total{result=\"success\"} 1"));
    assert!(output.contains("tuck_audit_chain_verifications_total{result=\"failure\"} 1"));
}

#[test]
fn test_sap_replay_metrics() {
    let metrics = Metrics::new();
    metrics.observe_sap_verification(true);
    metrics.observe_sap_verification(false);
    metrics.observe_replay_cache(true);
    metrics.observe_replay_cache(false);
    let output = metrics.export_prometheus();
    assert!(output.contains("tuck_sap_verifications_total{result=\"success\"} 1"));
    assert!(output.contains("tuck_sap_verifications_total{result=\"failed\"} 1"));
    assert!(output.contains("tuck_replay_cache_total{result=\"hit\"} 1"));
    assert!(output.contains("tuck_replay_cache_total{result=\"miss\"} 1"));
}

#[test]
fn test_plugin_audit_metrics() {
    let metrics = Metrics::new();
    metrics.observe_plugin_audit("Pass");
    metrics.observe_plugin_audit("Reject");
    metrics.observe_plugin_audit("NeedHumanConfirm");
    let output = metrics.export_prometheus();
    assert!(output.contains("tuck_plugin_audits_total{decision=\"pass\"} 1"));
    assert!(output.contains("tuck_plugin_audits_total{decision=\"reject\"} 1"));
    assert!(output.contains("tuck_plugin_audits_total{decision=\"hitl\"} 1"));
}

#[test]
fn test_error_metrics() {
    let metrics = Metrics::new();
    metrics.observe_invalid_pfp();
    metrics.observe_invalid_sap();
    metrics.observe_config_error();
    let output = metrics.export_prometheus();
    assert!(output.contains("tuck_errors_total{type=\"invalid_pfp\"} 1"));
    assert!(output.contains("tuck_errors_total{type=\"invalid_sap\"} 1"));
    assert!(output.contains("tuck_errors_total{type=\"config_error\"} 1"));
}

#[test]
fn test_disabled_metrics_noop() {
    let metrics = Metrics::disabled();
    metrics.observe_decision("Pass");
    metrics.observe_risk_level("Low");
    let output = metrics.export_prometheus();
    assert!(output.contains("tuck_decisions_total{decision=\"pass\"} 0"));
}

#[test]
fn test_prometheus_format_contains_help_and_type() {
    let metrics = Metrics::new();
    let output = metrics.export_prometheus();
    assert!(output.contains("# HELP tuck_decisions_total"));
    assert!(output.contains("# TYPE tuck_decisions_total counter"));
    assert!(output.contains("# HELP tuck_uptime_seconds"));
}

#[test]
fn test_metrics_clone_cheap() {
    let metrics = Metrics::new();
    metrics.observe_decision("Pass");
    let cloned = metrics.clone();
    cloned.observe_decision("Reject");
    let output = metrics.export_prometheus();
    assert!(output.contains("tuck_decisions_total{decision=\"pass\"} 1"));
    assert!(output.contains("tuck_decisions_total{decision=\"reject\"} 1"));
}

fn zero_snapshot() -> MetricsSnapshot {
    MetricsSnapshot {
        decisions_pass: 0,
        decisions_reject: 0,
        decisions_hitl: 0,
        decisions_hard_override: 0,
        risk_low: 0,
        risk_medium: 0,
        risk_critical: 0,
        risk_catastrophic: 0,
        decision_latency_ns_total: 0,
        decision_latency_count: 0,
        credential_injections_success: 0,
        credential_injections_failed: 0,
        credential_lookups_total: 0,
        credential_lookups_miss: 0,
        audit_entries_written: 0,
        audit_chain_verifications: 0,
        audit_chain_failures: 0,
        sap_verifications_total: 0,
        sap_verifications_failed: 0,
        replay_cache_hits: 0,
        replay_cache_misses: 0,
        plugin_audits_pass: 0,
        plugin_audits_reject: 0,
        plugin_audits_hitl: 0,
        invalid_pfp: 0,
        invalid_sap: 0,
        config_errors: 0,
        uptime_secs: 0,
    }
}

#[test]
fn average_latency_rounds_half_up() {
    assert_eq!(avg_latency(0, 0), 0);
    assert_eq!(avg_latency(3000, 2), 1500);
    assert_eq!(avg_latency(5, 2), 3);
    assert_eq!(avg_latency(4, 3), 1);
    assert_eq!(avg_latency(u64::MAX, 1), u64::MAX);
}

#[test]
fn render_counts_and_latency_exactly() {
    let mut m = zero_snapshot();
    m.credential_lookups_total = 5;
    m.credential_lookups_miss = 2;
    m.decision_latency_ns_total = 2_500_000_000;
    m.decision_latency_count = 1;
    m.uptime_secs = 7;
    let out = render_prometheus(&m);
    assert!(out.contains("tuck_credential_lookups_total{result=\"hit\"} 3\n"));
    assert!(out.contains("tuck_credential_lookups_total{result=\"miss\"} 2\n"));
    assert!(out.contains("tuck_decision_latency_seconds 2.500000000\n"));
    assert!(out.ends_with("tuck_uptime_seconds 7\n"));
}

#[test]
fn snapshot_and_counts_follow_observations() {
    let metrics = Metrics::new();
    metrics.observe_decision("Pass");
    metrics.observe_decision("Unknown");
    metrics.observe_risk_level("Catastrophic");
    let d = metrics.decision_counts();
    assert_eq!(d.pass, 1);
    assert_eq!(d.total(), 1);
    let r = metrics.risk_counts();
    assert_eq!(r.catastrophic, 1);
    let s = metrics.snapshot();
    assert_eq!(s.decisions_pass, 1);
    assert_eq!(s.risk_catastrophic, 1);
}

#[test]
fn disabled_registry_reads_zero() {
    let metrics = Metrics::disabled();
    let clone = metrics.clone();
    metrics.observe_decision("Pass");
    clone.observe_risk_level("Critical");
    metrics.observe_decision_latency(1000);
    metrics.observe_invalid_pfp();
    assert_eq!(metrics.decision_counts().total(), 0);
    assert_eq!(clone.risk_counts().total(), 0);
    let out = metrics.export_prometheus();
    assert!(out.contains("tuck_decisions_total{decision=\"pass\"} 0\n"));
    assert!(out.contains("tuck_decision_latency_seconds 0.000000000\n"));
    assert!(out.contains("tuck_errors_total{type=\"invalid_pfp\"} 0\n"));
}
