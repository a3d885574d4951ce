use tuck::audit::AuditLog;
use tuck::health::{
    audit_log_health, components_from_text, credential_store_health, extract_metric_value, overall_status,
    sap_health, split_lines, HealthChecker, HealthStatus,
};
use tuck::metrics::Metrics;
use tuck::pfp::Decision;
use tuck::status::{AuditStatusProvider, StatusProvider};

#[test]
fn test_extract_metric_value() {
    let output = "tuck_decisions_total{decision=\"pass\"} 42\ntuck_decisions_total{decision=\"reject\"} 8\n";
    assert_eq!(extract_metric_value(output, "tuck_decisions_total", "pass"), 42);
    assert_eq!(extract_metric_value(output, "tuck_decisions_total", "reject"), 8);
    assert_eq!(extract_metric_value(output, "tuck_decisions_total", "hitl"), 0);
}

#[test]
fn extract_skips_unparsable_and_reads_crlf() {
    let output = "tuck_x{r=\"a\"} notanumber\r\ntuck_x{r=\"a\"}   17  \r\n";
    assert_eq!(extract_metric_value(output, "tuck_x", "a"), 17);
    assert_eq!(extract_metric_value("", "tuck_x", "a"), 0);
    let lines = split_lines("a\r\n\nb");
    assert_eq!(lines, vec![vec!['a'], vec![], vec!['b']]);
}

#[test]
fn test_health_check_basic() {
    let checker = HealthChecker::new(Metrics::new(), "tuck", "0.1.0");
    assert_eq!(checker.service_name(), "tuck");
    assert_eq!(checker.version(), "0.1.0");
    let components = checker.collect_components();
    assert!(!components.is_empty());
    assert_eq!(overall_status(&components), HealthStatus::Healthy);
}

#[test]
fn test_health_audit_chain_failure() {
    let metrics = Metrics::new();
    metrics.observe_audit_chain_verification(false);
    let checker = HealthChecker::new(metrics, "tuck", "0.1.0");
    let components = checker.collect_components();
    assert_eq!(overall_status(&components), HealthStatus::Unhealthy);
    let audit = components.iter().find(|c| c.name == "audit_log").unwrap();
    assert_eq!(audit.message.as_deref(), Some("1 audit chain failures detected"));
}

#[test]
fn test_health_metrics_disabled() {
    let checker = HealthChecker::new(Metrics::disabled(), "tuck", "0.1.0");
    let components = checker.collect_components();
    let metrics_component = components.iter().find(|c| c.name == "metrics").unwrap();
    assert_eq!(metrics_component.status, HealthStatus::Degraded);
}

#[test]
fn component_rules_and_rates() {
    let c = credential_store_health(0, 0);
    assert_eq!(c.status, HealthStatus::Healthy);
    assert_eq!(c.message.as_deref(), Some("no lookups yet"));
    let c = credential_store_health(1, 2);
    assert_eq!(c.status, HealthStatus::Degraded);
    assert_eq!(c.message.as_deref(), Some("high miss rate: 66.7%"));
    let c = credential_store_health(1, 1);
    assert_eq!(c.status, HealthStatus::Healthy);
    assert!(c.message.is_none());
    let s = sap_health(1, 9);
    assert_eq!(s.status, HealthStatus::Healthy);
    let s = sap_health(1, 8);
    assert_eq!(s.status, HealthStatus::Degraded);
    assert_eq!(s.message.as_deref(), Some("high failure rate: 11.1%"));
    assert_eq!(audit_log_health(0).status, HealthStatus::Healthy);
    assert_eq!(HealthStatus::Unhealthy.name(), "unhealthy");
}

#[test]
fn components_from_text_order_and_values() {
    let text = "tuck_credential_lookups_total{result=\"hit\"} 1\n\
                tuck_credential_lookups_total{result=\"miss\"} 3\n\
                tuck_sap_verifications_total{result=\"success\"} 0\n";
    let cs = components_from_text(text, true);
    let names: Vec<&str> = cs.iter().map(|c| c.name.as_str()).collect();
    assert_eq!(names, vec!["decision_engine", "credential_store", "audit_log", "sap_verification", "metrics"]);
    assert_eq!(cs[1].status, HealthStatus::Degraded);
    assert_eq!(cs[1].message.as_deref(), Some("high miss rate: 75.0%"));
    assert_eq!(cs[3].message.as_deref(), Some("no verifications yet"));
    assert_eq!(overall_status(&cs), HealthStatus::Degraded);
}

fn append(log: &mut AuditLog, decision: Decision) {
    log.append(decision, "Low", "Executive", "Normal", "anaphase", None);
}

#[test]
fn summary_aggregates_runtime_metrics() {
    let metrics = Metrics::new();
    metrics.observe_decision("Pass");
    metrics.observe_decision("Pass");
    metrics.observe_decision("Reject");
    metrics.observe_risk_level("Low");
    metrics.observe_risk_level("Low");
    metrics.observe_risk_level("Catastrophic");
    let log = AuditLog::new();
    let provider = AuditStatusProvider::new(&log, &metrics);
    let s = provider.summary();
    assert_eq!(s.decisions.pass, 2);
    assert_eq!(s.decisions.reject, 1);
    assert_eq!(s.decisions.hitl, 0);
    assert_eq!(s.decisions.hard_override, 0);
    assert_eq!(s.decisions.total(), 3);
    assert_eq!(s.risks.low, 2);
    assert_eq!(s.risks.catastrophic, 1);
    assert_eq!(s.risks.total(), 3);
    assert_eq!(s.latest_decision, None);
}

#[test]
fn summary_latest_comes_from_audit_chain() {
    let metrics = Metrics::new();
    metrics.observe_decision("Pass");
    let mut log = AuditLog::new();
    append(&mut log, Decision::Reject);
    let provider = AuditStatusProvider::new(&log, &metrics);
    assert_eq!(provider.summary().latest_decision.as_deref(), Some("Reject"));
}

#[test]
fn recent_projects_newest_first_and_truncates() {
    let metrics = Metrics::new();
    let mut log = AuditLog::new();
    for _ in 0..5 {
        append(&mut log, Decision::Pass);
    }
    append(&mut log, Decision::Reject);
    let provider = AuditStatusProvider::new(&log, &metrics);
    let all = provider.recent_decisions(10);
    assert_eq!(all.len(), 6);
    assert_eq!(all[0].decision, "Reject");
    assert_eq!(all[5].decision, "Pass");
    let truncated = provider.recent_decisions(2);
    assert_eq!(truncated.len(), 2);
    assert_eq!(truncated[0].decision, "Reject");
    assert_eq!(truncated[1].decision, "Pass");
}

#[test]
fn recent_empty_and_zero_limit() {
    let metrics = Metrics::new();
    let log = AuditLog::new();
    let provider = AuditStatusProvider::new(&log, &metrics);
    assert!(provider.recent_decisions(10).is_empty());
    assert!(provider.recent_decisions(0).is_empty());
    let s = provider.summary();
    assert_eq!(s.decisions.total(), 0);
    assert_eq!(s.risks.total(), 0);
    assert_eq!(s.latest_decision, None);
}

#[test]
fn event_projection_is_trimmed() {
    let metrics = Metrics::new();
    let mut log = AuditLog::new();
    append(&mut log, Decision::NeedHumanConfirm);
    let provider = AuditStatusProvider::new(&log, &metrics);
    let ev = &provider.recent_decisions(1)[0];
    assert_eq!(ev.decision, "NeedHumanConfirm");
    assert_eq!(ev.risk_level, "Low");
    assert_eq!(ev.modality, "Executive");
    assert_eq!(ev.source, "anaphase");
    assert!(ev.timestamp > 0);
}

#[test]
fn disabled_metrics_report_zero_counts() {
    let metrics = Metrics::disabled();
    metrics.observe_decision("Pass");
    let log = AuditLog::new();
    let provider = AuditStatusProvider::new(&log, &metrics);
    let s = provider.summary();
    assert_eq!(s.decisions.total(), 0);
    assert_eq!(s.risks.total(), 0);
}

#[test]
fn rate_ties_round_to_even_tenth() {
    // 9 misses of 16 lookups is 56.25%: one-decimal formatting of the
    // exact rate rounds the tie to the even tenth.
    let c = credential_store_health(7, 9);
    assert_eq!(c.message.as_deref(), Some(format!("high miss rate: {:.1}%", 9.0f64 / 16.0 * 100.0).as_str()));
    assert_eq!(c.message.as_deref(), Some("high miss rate: 56.2%"));
    let s = sap_health(5, 11);
    assert_eq!(s.message.as_deref(), Some(format!("high failure rate: {:.1}%", 5.0f64 / 16.0 * 100.0).as_str()));
    let s = sap_health(3, 13);
    assert_eq!(s.message.as_deref(), Some("high failure rate: 18.8%"));
    let c = credential_store_health(0, 5);
    assert_eq!(c.message.as_deref(), Some("high miss rate: 100.0%"));
}
