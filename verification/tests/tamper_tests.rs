use tuck::audit::{AuditLog, GENESIS_HASH};
use tuck::catastrophic::{CatastrophicEvent, CatastrophicStatus};
use tuck::hitl::{ConfirmRequest, ConfirmStatus};
use tuck::hot_reload::{ReloadEvent, ReloadStatus};
use tuck::pfp::Decision;
use tuck::policy::PolicyVersion;
use tuck::tamper::{
    catastrophic_to_audit_entry, detect_tampering, hitl_to_audit_entry, reload_to_audit_entry, TamperType,
};

fn setup_valid_log() -> AuditLog {
    let mut log = AuditLog::new();
    for i in 0..5 {
        log.append(
            if i % 2 == 0 { Decision::Pass } else { Decision::Reject },
            "Low",
            "Cognitive",
            "Normal",
            "test",
            None,
        );
    }
    log
}

#[test]
fn test_detect_no_tampering() {
    let log = setup_valid_log();
    let report = detect_tampering(&log);
    assert!(report.is_valid);
    assert_eq!(report.entries_scanned, 5);
    assert_eq!(report.finding_count(), 0);
}

#[test]
fn test_detect_hash_mismatch() {
    let mut log = setup_valid_log();
    log.get_mut(2).unwrap().decision = "Tampered".to_string();
    let report = detect_tampering(&log);
    assert!(!report.is_valid);
    assert!(report.has_type(TamperType::HashMismatch));
    assert_eq!(report.findings[0].index, 2);
}

#[test]
fn test_detect_prev_hash_mismatch() {
    let mut log = setup_valid_log();
    log.get_mut(1).unwrap().prev_hash = [0xFFu8; 32];
    let report = detect_tampering(&log);
    assert!(!report.is_valid);
    assert!(report.has_type(TamperType::PrevHashMismatch));
    assert_eq!(report.findings[0].index, 1);
}

#[test]
fn test_detect_missing_genesis() {
    let mut log = setup_valid_log();
    log.get_mut(0).unwrap().prev_hash = [0xAAu8; 32];
    let report = detect_tampering(&log);
    assert!(!report.is_valid);
    assert!(report.has_type(TamperType::MissingGenesis));
}

#[test]
fn test_detect_duplicate_entry_id() {
    let mut log = setup_valid_log();
    let id0 = log.get(0).unwrap().entry_id;
    log.get_mut(3).unwrap().entry_id = id0;
    let report = detect_tampering(&log);
    assert!(!report.is_valid);
    assert!(report.has_type(TamperType::DuplicateEntryId));
}

#[test]
fn test_multiple_tamper_findings() {
    let mut log = setup_valid_log();
    log.get_mut(1).unwrap().decision = "Tampered1".to_string();
    log.get_mut(3).unwrap().decision = "Tampered3".to_string();
    let report = detect_tampering(&log);
    assert!(!report.is_valid);
    assert!(report.finding_count() >= 2);
}

#[test]
fn test_tamper_type_display() {
    assert_eq!(TamperType::HashMismatch.to_string(), "hash_mismatch");
    assert_eq!(TamperType::PrevHashMismatch.to_string(), "prev_hash_mismatch");
    assert_eq!(TamperType::MissingGenesis.to_string(), "missing_genesis");
    assert_eq!(TamperType::EntryDeleted.to_string(), "entry_deleted");
    assert_eq!(TamperType::DuplicateEntryId.to_string(), "duplicate_entry_id");
}

#[test]
fn test_empty_log_is_valid() {
    let log = AuditLog::new();
    let report = detect_tampering(&log);
    assert!(report.is_valid);
    assert_eq!(report.entries_scanned, 0);
    assert_eq!(report.finding_count(), 0);
}

fn confirm_request(created_at: u64) -> ConfirmRequest {
    ConfirmRequest {
        id: [9u8; 16],
        risk_level: "Medium".to_string(),
        modality: "Cognitive".to_string(),
        description: "test request".to_string(),
        created_at,
        timeout_secs: 300,
        status: ConfirmStatus::Pending,
    }
}

#[test]
fn test_hitl_to_audit_entry() {
    let request = confirm_request(1234567890);
    let entry = hitl_to_audit_entry(&request, GENESIS_HASH);
    assert!(entry.verify_hash());
    assert_eq!(entry.source, "hitl");
    assert_eq!(entry.timestamp, 1234567890);
    assert!(entry.decision.contains("NeedHumanConfirm"));
}

#[test]
fn test_catastrophic_to_audit_entry() {
    let event = CatastrophicEvent {
        id: [3u8; 16],
        risk_level: "Catastrophic".to_string(),
        modality: "Executive".to_string(),
        override_flag: "HardOverride".to_string(),
        description: "emergency".to_string(),
        created_at: 1234567890,
        humans_notified: true,
        status: CatastrophicStatus::Triggered,
    };
    let entry = catastrophic_to_audit_entry(&event, GENESIS_HASH);
    assert!(entry.verify_hash());
    assert_eq!(entry.source, "catastrophic");
    assert_eq!(entry.decision, "HardOverridePass");
    assert_eq!(entry.risk_level, "Catastrophic");
}

#[test]
fn test_reload_to_audit_entry() {
    let event = ReloadEvent {
        timestamp: 1234567890,
        old_version: PolicyVersion::new(1, 0, 0),
        new_version: PolicyVersion::new(1, 0, 1),
        status: ReloadStatus::Reloaded,
        error: None,
        file_modified: Some(1234567890),
    };
    let entry = reload_to_audit_entry(&event, GENESIS_HASH);
    assert!(entry.verify_hash());
    assert_eq!(entry.source, "policy_reload");
    assert_eq!(entry.decision, "PolicyReloaded");
}

#[test]
fn test_history_integration_chain() {
    let mut log = AuditLog::new();
    log.append(Decision::Pass, "Low", "Cognitive", "Normal", "anaphase", None);
    let prev_hash = log.latest().unwrap().hash;
    let request = confirm_request(1000);
    let hitl_entry = hitl_to_audit_entry(&request, prev_hash);
    log.push_raw(hitl_entry);
    let report = detect_tampering(&log);
    assert!(report.is_valid);
    assert_eq!(log.len(), 2);
}

#[test]
fn tampered_report_names_first_faults_in_order() {
    let mut log = setup_valid_log();
    log.get_mut(4).unwrap().decision = "X".to_string();
    let report = detect_tampering(&log);
    assert_eq!(report.entries_scanned, 5);
    assert_eq!(report.finding_count(), 1);
    assert_eq!(report.findings[0].index, 4);
    assert_eq!(report.findings[0].tamper_type, TamperType::HashMismatch);
}
