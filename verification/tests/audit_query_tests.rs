use tuck::audit::{AuditEntry, AuditLog, GENESIS_HASH};
use tuck::audit_query::{AuditQuery, Queryable, SortOrder};

fn make_entry(
    id: u8,
    timestamp: u64,
    decision: &str,
    risk: &str,
    modality: &str,
    override_flag: &str,
    source: &str,
    label: Option<&str>,
    prev_hash: [u8; 32],
) -> AuditEntry {
    let mut entry_id = [0u8; 16];
    entry_id[3] = id;
    let mut entry = AuditEntry {
        entry_id,
        timestamp,
        decision: decision.to_string(),
        risk_level: risk.to_string(),
        modality: modality.to_string(),
        override_flag: override_flag.to_string(),
        source: source.to_string(),
        identity_label: label.map(|s| s.to_string()),
        prev_hash,
        hash: [0u8; 32],
    };
    entry.hash = entry.compute_hash();
    entry
}

fn setup_log() -> AuditLog {
    let mut log = AuditLog::new();
    let e0 = make_entry(0, 1000, "Pass", "Low", "Cognitive", "Normal", "anaphase", None, GENESIS_HASH);
    let e0_hash = e0.hash;
    log.push_raw(e0);
    let e1 = make_entry(1, 2000, "Reject", "Critical", "Executive", "Normal", "tentacle", Some("env:API_KEY"), e0_hash);
    let e1_hash = e1.hash;
    log.push_raw(e1);
    let e2 = make_entry(2, 3000, "Pass", "Medium", "Render", "Normal", "anaphase", None, e1_hash);
    let e2_hash = e2.hash;
    log.push_raw(e2);
    let e3 = make_entry(3, 4000, "HardOverridePass", "Catastrophic", "Executive", "HardOverride", "emergency", None, e2_hash);
    let e3_hash = e3.hash;
    log.push_raw(e3);
    let e4 = make_entry(4, 5000, "NeedHumanConfirm", "High", "SensorFeed", "Normal", "tentacle", Some("file:/tmp/secret"), e3_hash);
    log.push_raw(e4);
    log
}

#[test]
fn test_query_default() {
    let log = setup_log();
    let query = AuditQuery::default();
    let result = log.query(&query);
    assert_eq!(result.total, 5);
    assert_eq!(result.len(), 5);
    assert!(!result.has_more);
}

#[test]
fn test_query_pagination() {
    let log = setup_log();
    let result = log.query(&AuditQuery::new().with_pagination(0, 2));
    assert_eq!(result.total, 5);
    assert_eq!(result.len(), 2);
    assert!(result.has_more);
    let result = log.query(&AuditQuery::new().with_pagination(2, 2));
    assert_eq!(result.len(), 2);
    assert!(result.has_more);
    let result = log.query(&AuditQuery::new().with_pagination(4, 2));
    assert_eq!(result.len(), 1);
    assert!(!result.has_more);
}

#[test]
fn test_query_by_decision() {
    let log = setup_log();
    let result = log.query(&AuditQuery::new().with_decision("Pass"));
    assert_eq!(result.total, 2);
    assert!(result.entries.iter().all(|e| e.decision == "Pass"));
}

#[test]
fn test_query_by_risk_level() {
    let log = setup_log();
    let result = log.query(&AuditQuery::new().with_risk_level("Critical"));
    assert_eq!(result.total, 1);
    assert_eq!(result.entries[0].risk_level, "Critical");
}

#[test]
fn test_query_by_source() {
    let log = setup_log();
    let result = log.query(&AuditQuery::new().with_source("tentacle"));
    assert_eq!(result.total, 2);
    assert!(result.entries.iter().all(|e| e.source == "tentacle"));
}

#[test]
fn test_query_by_time_range() {
    let log = setup_log();
    let result = log.query(&AuditQuery::new().with_time_range(2000, 4000));
    assert_eq!(result.total, 3);
    assert!(result.entries.iter().all(|e| e.timestamp >= 2000 && e.timestamp <= 4000));
}

#[test]
fn test_query_sort_ascending() {
    let log = setup_log();
    let result = log.query(&AuditQuery::new().with_sort(SortOrder::Ascending));
    let timestamps: Vec<u64> = result.entries.iter().map(|e| e.timestamp).collect();
    assert_eq!(timestamps, vec![1000, 2000, 3000, 4000, 5000]);
}

#[test]
fn test_query_sort_descending() {
    let log = setup_log();
    let result = log.query(&AuditQuery::new().with_sort(SortOrder::Descending));
    let timestamps: Vec<u64> = result.entries.iter().map(|e| e.timestamp).collect();
    assert_eq!(timestamps, vec![5000, 4000, 3000, 2000, 1000]);
}

#[test]
fn test_query_combined_filters() {
    let log = setup_log();
    let query = AuditQuery::new().with_source("tentacle").with_decision("Reject").with_risk_level("Critical");
    let result = log.query(&query);
    assert_eq!(result.total, 1);
    assert_eq!(result.entries[0].source, "tentacle");
    assert_eq!(result.entries[0].decision, "Reject");
    assert_eq!(result.entries[0].risk_level, "Critical");
}

#[test]
fn test_query_identity_label_contains() {
    let log = setup_log();
    let mut query = AuditQuery::new();
    query.identity_label_contains = Some("env:".to_string());
    let result = log.query(&query);
    assert_eq!(result.total, 1);
    assert_eq!(result.entries[0].identity_label.as_deref(), Some("env:API_KEY"));
}

#[test]
fn test_query_no_matches() {
    let log = setup_log();
    let result = log.query(&AuditQuery::new().with_source("nonexistent"));
    assert_eq!(result.total, 0);
    assert!(result.is_empty());
    assert!(!result.has_more);
}

#[test]
fn test_count() {
    let log = setup_log();
    assert_eq!(log.count(&AuditQuery::new().with_decision("Pass")), 2);
    assert_eq!(log.count(&AuditQuery::new().with_source("anaphase")), 2);
}

#[test]
fn descending_sort_is_stable_for_equal_timestamps() {
    let mut log = AuditLog::new();
    let a = make_entry(0, 10, "Pass", "Low", "Cognitive", "Normal", "a", None, GENESIS_HASH);
    let ah = a.hash;
    log.push_raw(a);
    let b = make_entry(1, 10, "Pass", "Low", "Cognitive", "Normal", "b", None, ah);
    log.push_raw(b);
    let result = log.query(&AuditQuery::new().with_sort(SortOrder::Descending));
    let sources: Vec<&str> = result.entries.iter().map(|e| e.source.as_str()).collect();
    assert_eq!(sources, vec!["a", "b"]);
    assert_eq!(AuditQuery::new().limit, 50);
}
