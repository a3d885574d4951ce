use tuck::audit::{AuditEntry, AuditLog};
use tuck::audit_store::{load_log, AuditStore, AuditStoreError, StoredLine};
use tuck::pfp::Decision;

fn stored(entry: &AuditEntry) -> StoredLine {
    StoredLine { text: format!("{{\"decision\":\"{}\"}}", entry.decision), entry: Some(entry.clone()) }
}

fn lines_of(log: &AuditLog) -> Vec<StoredLine> {
    log.entries().iter().map(stored).collect()
}

#[test]
fn create_empty_store() {
    let store = AuditStore::new("audit.log".to_string(), &Vec::new()).unwrap();
    assert!(store.is_empty());
    assert_eq!(store.len(), 0);
    assert!(store.latest().is_none());
}

#[test]
fn load_existing_store_keeps_order_and_links() {
    let mut log = AuditLog::new();
    log.append(Decision::Pass, "Low", "Cognitive", "Normal", "src1", None);
    log.append(Decision::Reject, "High", "Executive", "Normal", "src2", None);
    let store = AuditStore::new("audit.log".to_string(), &lines_of(&log)).unwrap();
    assert_eq!(store.len(), 2);
    let entries = store.entries();
    assert_eq!(entries[0].decision, "Pass");
    assert_eq!(entries[1].decision, "Reject");
    assert_eq!(entries[1].prev_hash, entries[0].hash);
    assert!(store.verify_chain().is_ok());
}

#[test]
fn tampered_line_refuses_load() {
    let mut log = AuditLog::new();
    log.append(Decision::Pass, "Low", "Cognitive", "Normal", "test", None);
    log.append(Decision::Reject, "High", "Executive", "Normal", "test", None);
    let mut lines = lines_of(&log);
    if let Some(e) = &mut lines[0].entry {
        e.decision = "Tampered".to_string();
    }
    match AuditStore::new("audit.log".to_string(), &lines) {
        Err(AuditStoreError::ChainInvalid { index, reason }) => {
            assert_eq!(index, 0);
            assert_eq!(reason, "entry hash mismatch");
        },
        _ => panic!("expected a chain error"),
    }
}

#[test]
fn truncated_tail_and_blank_lines_are_skipped() {
    let mut log = AuditLog::new();
    for i in 0..3 {
        log.append(Decision::Pass, "Low", "Cognitive", "Normal", &format!("s{i}"), None);
    }
    let mut lines = lines_of(&log);
    lines.insert(1, StoredLine { text: "   ".to_string(), entry: None });
    lines.push(StoredLine { text: "{\"entry_id\":".to_string(), entry: None });
    let loaded = load_log(&lines).unwrap();
    assert_eq!(loaded.len(), 3);
    assert!(loaded.verify_chain().is_ok());
}

#[test]
fn broken_link_and_genesis_reasons() {
    let mut log = AuditLog::new();
    log.append(Decision::Pass, "Low", "Cognitive", "Normal", "a", None);
    log.append(Decision::Pass, "Low", "Cognitive", "Normal", "b", None);
    let lines = lines_of(&log);
    let swapped = vec![lines[1].clone(), lines[0].clone()];
    match load_log(&swapped) {
        Err(AuditStoreError::ChainInvalid { index, reason }) => {
            assert_eq!(index, 0);
            assert_eq!(reason, "first entry prev_hash is not GENESIS_HASH");
        },
        _ => panic!("expected a chain error"),
    }
    let skipped = vec![lines[0].clone(), lines[0].clone()];
    match load_log(&skipped) {
        Err(e) => assert_eq!(e.to_string(), "chain verification failed at entry 1: prev_hash mismatch"),
        Ok(_) => panic!("expected a chain error"),
    }
}

#[test]
fn append_stats_and_latest() {
    let mut store = AuditStore::new("data/audit.log".to_string(), &Vec::new()).unwrap();
    let e1 = store.append(Decision::Pass, "Low", "Cognitive", "Normal", "src1", None);
    let e2 = store.append(Decision::Reject, "High", "Executive", "Normal", "src2", Some("env:API_KEY"));
    assert_eq!(e2.prev_hash, e1.hash);
    assert_eq!(store.len(), 2);
    let latest = store.latest().unwrap();
    assert_eq!(latest.decision, "Reject");
    assert_eq!(latest.source, "src2");
    assert_eq!(latest.identity_label.as_deref(), Some("env:API_KEY"));
    let stats = store.stats(123);
    assert_eq!(stats.total_entries, 2);
    assert!(stats.chain_valid);
    assert_eq!(stats.file_size_bytes, 123);
    assert_eq!(stats.file_path, "data/audit.log");
    assert_eq!(stats.oldest_timestamp, Some(e1.timestamp));
    assert_eq!(stats.newest_timestamp, Some(e2.timestamp));
    assert_eq!(store.path(), "data/audit.log");
}

#[test]
fn multiple_appends_chain() {
    let mut store = AuditStore::new("audit.log".to_string(), &Vec::new()).unwrap();
    for i in 0..20 {
        store.append(Decision::Pass, "Low", "Cognitive", "Normal", &format!("src_{i}"), None);
    }
    assert_eq!(store.len(), 20);
    assert!(store.verify_chain().is_ok());
}
