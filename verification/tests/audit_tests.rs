use tuck::audit::{AuditEntry, AuditLog, GENESIS_HASH};
use tuck::pfp::Decision;

#[test]
fn test_audit_log_empty() {
    let log = AuditLog::new();
    assert!(log.is_empty());
    assert_eq!(log.len(), 0);
    assert!(log.latest().is_none());
    assert!(log.oldest().is_none());
}

#[test]
fn test_append_first_entry() {
    let mut log = AuditLog::new();
    log.append(Decision::Pass, "Low", "Cognitive", "Normal", "anaphase", None);
    assert_eq!(log.len(), 1);
    let entry = log.latest().unwrap();
    assert_eq!(entry.prev_hash, GENESIS_HASH);
    assert!(entry.verify_hash());
    assert_eq!(entry.decision, "Pass");
    assert_eq!(entry.risk_level, "Low");
}

#[test]
fn test_append_multiple_entries_chain() {
    let mut log = AuditLog::new();
    log.append(Decision::Pass, "Low", "Cognitive", "Normal", "anaphase", None);
    let e1_hash = log.latest().unwrap().hash;
    log.append(Decision::Reject, "Critical", "Executive", "Normal", "tentacle", Some("env:API_KEY"));
    assert_eq!(log.len(), 2);
    let e2 = log.latest().unwrap();
    assert_eq!(e2.prev_hash, e1_hash);
    assert!(e2.verify_hash());
    assert_eq!(e2.decision, "Reject");
    assert_eq!(e2.identity_label.as_deref(), Some("env:API_KEY"));
}

#[test]
fn test_verify_chain_valid() {
    let mut log = AuditLog::new();
    for i in 0..10 {
        log.append(if i % 2 == 0 { Decision::Pass } else { Decision::Reject }, "Low", "Cognitive", "Normal", "test", None);
    }
    assert!(log.verify_chain().is_ok());
}

#[test]
fn test_verify_chain_tampered_hash() {
    let mut log = AuditLog::new();
    log.append(Decision::Pass, "Low", "Cognitive", "Normal", "test", None);
    log.append(Decision::Reject, "High", "Executive", "Normal", "test", None);
    log.get_mut(0).unwrap().decision = "Tampered".to_string();
    let result = log.verify_chain();
    assert!(result.is_err());
    let (index, _) = result.unwrap_err();
    assert_eq!(index, 0);
}

#[test]
fn test_verify_chain_tampered_prev_hash() {
    let mut log = AuditLog::new();
    log.append(Decision::Pass, "Low", "Cognitive", "Normal", "test", None);
    log.append(Decision::Reject, "High", "Executive", "Normal", "test", None);
    log.append(Decision::Pass, "Low", "Cognitive", "Normal", "test", None);
    log.get_mut(1).unwrap().prev_hash = [0xFFu8; 32];
    let result = log.verify_chain();
    assert!(result.is_err());
    let (index, _) = result.unwrap_err();
    assert_eq!(index, 1);
}

#[test]
fn test_verify_chain_first_entry_not_genesis() {
    let mut log = AuditLog::new();
    log.append(Decision::Pass, "Low", "Cognitive", "Normal", "test", None);
    log.get_mut(0).unwrap().prev_hash = [0xAAu8; 32];
    let result = log.verify_chain();
    assert!(result.is_err());
}

#[test]
fn test_max_entries_capacity() {
    let mut log = AuditLog::with_capacity(5);
    for i in 0..10 {
        log.append(Decision::Pass, "Low", "Cognitive", "Normal", &format!("source_{i}"), None);
    }
    assert_eq!(log.len(), 5);
    assert_eq!(log.oldest().unwrap().source, "source_5");
    assert_eq!(log.latest().unwrap().source, "source_9");
}

fn nil_entry() -> AuditEntry {
    AuditEntry {
        entry_id: [0u8; 16],
        timestamp: 1234567890,
        decision: "Pass".to_string(),
        risk_level: "Low".to_string(),
        modality: "Cognitive".to_string(),
        override_flag: "Normal".to_string(),
        source: "test".to_string(),
        identity_label: None,
        prev_hash: GENESIS_HASH,
        hash: [0u8; 32],
    }
}

#[test]
fn test_entry_hash_deterministic() {
    let entry = nil_entry();
    let hash1 = entry.compute_hash();
    let hash2 = entry.compute_hash();
    assert_eq!(hash1, hash2);
}

#[test]
fn test_entry_hash_changes_with_data() {
    let mut entry = nil_entry();
    let hash1 = entry.compute_hash();
    entry.decision = "Reject".to_string();
    let hash2 = entry.compute_hash();
    assert_ne!(hash1, hash2);
}

#[test]
fn test_iter_entries() {
    let mut log = AuditLog::new();
    for i in 0..5 {
        log.append(Decision::Pass, "Low", "Cognitive", "Normal", &format!("src_{i}"), None);
    }
    let sources: Vec<&str> = log.iter().map(|e| e.source.as_str()).collect();
    assert_eq!(sources, vec!["src_0", "src_1", "src_2", "src_3", "src_4"]);
}

#[test]
fn test_clear_log() {
    let mut log = AuditLog::new();
    log.append(Decision::Pass, "Low", "Cognitive", "Normal", "test", None);
    log.append(Decision::Reject, "High", "Executive", "Normal", "test", None);
    assert_eq!(log.len(), 2);
    log.clear();
    assert!(log.is_empty());
}

#[test]
fn test_genesis_hash_constant() {
    assert_eq!(GENESIS_HASH, [0u8; 32]);
    assert_eq!(GENESIS_HASH.len(), 32);
}

#[test]
fn verify_chain_messages_and_sealed_entry() {
    let mut log = AuditLog::new();
    log.append(Decision::Pass, "Low", "Cognitive", "Normal", "test", None);
    log.append(Decision::Pass, "Low", "Cognitive", "Normal", "test", None);
    log.get_mut(1).unwrap().source = "edited".to_string();
    assert_eq!(log.verify_chain(), Err((1, "entry 1 hash mismatch".to_string())));
    let mut fresh = AuditLog::new();
    fresh.append(Decision::Pass, "Low", "Cognitive", "Normal", "test", None);
    fresh.get_mut(0).unwrap().prev_hash = [1u8; 32];
    assert_eq!(fresh.verify_chain().unwrap_err().1, "entry 0 hash mismatch");
    let mut e = nil_entry();
    e.hash = e.compute_hash();
    assert!(e.verify_hash());
}
