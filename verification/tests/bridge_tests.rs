use tuck::anaphase::{GateDecision, GateStep, InjectionTargetConfig, SecurityGateRequest, TuckSecurityGate};
use tuck::credential::CredentialError;
use tuck::injection::InjectionTarget;
use tuck::pfp::{Decision, Modality, OutputDest, OverrideFlag, ReplayEnable, RiskLevel, SecurityPolicy};
use tuck::tentacle::{
    PluginAuditDecision, PluginAuditRequest, PluginPermissions, PluginSecurityLevel, PluginSource, SandboxConstraints,
    ToolExecutionDecision, ToolExecutionRequest, ToolStep, TuckPluginAuditor, TuckToolGate,
};

fn make_pfp_bytes(risk: RiskLevel, override_flag: OverrideFlag) -> [u8; 4] {
    let mut bytes = [0xCF, 0x14, 0, 0];
    bytes[2] = (Modality::Executive as u8) | (risk as u8) << 2;
    bytes[3] = (OutputDest::External as u8) | (override_flag as u8) << 1 | (ReplayEnable::Enabled as u8) << 2;
    bytes
}

fn make_plugin_audit_request(
    security_level: PluginSecurityLevel,
    integrity_match: bool,
    permissions: PluginPermissions,
) -> PluginAuditRequest {
    let hash = "abc123".to_string();
    PluginAuditRequest {
        trace_id: [7u8; 16],
        source_id: "tentacle_test".to_string(),
        plugin_name: "test-plugin".to_string(),
        plugin_version: "1.0.0".to_string(),
        security_level,
        integrity_hash: hash.clone(),
        computed_hash: if integrity_match { hash } else { "different".to_string() },
        permissions,
        requires_identity: None,
        source: PluginSource::Local { path: "/tmp/test".to_string() },
    }
}

#[test]
fn test_gate_decision_from_decision() {
    assert_eq!(GateDecision::from(Decision::Pass), GateDecision::Pass);
    assert_eq!(GateDecision::from(Decision::Reject), GateDecision::Reject);
    assert_eq!(GateDecision::from(Decision::NeedHumanConfirm), GateDecision::HitlRequired);
    assert_eq!(GateDecision::from(Decision::HardOverridePass), GateDecision::HardOverride);
}

#[test]
fn test_injection_target_config_conversion() {
    let config = InjectionTargetConfig::HttpHeader { name: "X-API-Key".to_string() };
    let target = InjectionTarget::from(&config);
    match target {
        InjectionTarget::HttpHeader { name } => assert_eq!(name, "X-API-Key"),
        _ => panic!("expected HttpHeader"),
    }
}

#[test]
fn test_plugin_audit_pass_normal() {
    let mut auditor = TuckPluginAuditor::new("tuck_test");
    let request = make_plugin_audit_request(PluginSecurityLevel::Normal, true, PluginPermissions::default());
    let response = auditor.audit_plugin(&request);
    assert_eq!(response.decision, PluginAuditDecision::Pass);
    assert!(response.integrity_verified);
    assert!(response.audit_entry_id.is_some());
    assert!(response.reason.is_none());
}

#[test]
fn test_plugin_audit_integrity_failure() {
    let mut auditor = TuckPluginAuditor::new("tuck_test");
    let request = make_plugin_audit_request(PluginSecurityLevel::Normal, false, PluginPermissions::default());
    let response = auditor.audit_plugin(&request);
    assert_eq!(response.decision, PluginAuditDecision::Reject);
    assert!(!response.integrity_verified);
    assert!(response.reason.is_some());
    assert!(response.reason.unwrap().contains("Integrity"));
}

#[test]
fn test_plugin_audit_critical_needs_hitl() {
    let mut auditor = TuckPluginAuditor::new("tuck_test");
    let request = make_plugin_audit_request(PluginSecurityLevel::Critical, true, PluginPermissions::default());
    let response = auditor.audit_plugin(&request);
    assert_eq!(response.decision, PluginAuditDecision::NeedHumanConfirm);
    assert!(response.reason.is_some());
}

#[test]
fn test_plugin_audit_excessive_memory() {
    let mut auditor = TuckPluginAuditor::new("tuck_test");
    let perms = PluginPermissions { max_memory_mb: Some(2048), ..Default::default() };
    let request = make_plugin_audit_request(PluginSecurityLevel::Normal, true, perms);
    let response = auditor.audit_plugin(&request);
    assert_eq!(response.decision, PluginAuditDecision::Reject);
    assert!(response.reason.unwrap().contains("memory"));
}

#[test]
fn test_plugin_audit_dangerous_combination() {
    let mut auditor = TuckPluginAuditor::new("tuck_test");
    let perms = PluginPermissions {
        execute: true,
        network: vec!["*".to_string()],
        filesystem: vec!["/".to_string()],
        ..Default::default()
    };
    let request = make_plugin_audit_request(PluginSecurityLevel::Normal, true, perms);
    let response = auditor.audit_plugin(&request);
    assert_eq!(response.decision, PluginAuditDecision::NeedHumanConfirm);
    assert!(response.reason.unwrap().contains("dangerous combination"));
}

#[test]
fn test_sandbox_constraints_strict() {
    let c = SandboxConstraints::strict();
    assert!(!c.network_allowed);
    assert!(!c.filesystem_allowed);
    assert!(!c.execute_allowed);
    assert!(c.wasm_sandbox);
    assert_eq!(c.max_memory_mb, 64);
}

#[test]
fn test_sandbox_constraints_relaxed() {
    let c = SandboxConstraints::relaxed();
    assert!(c.network_allowed);
    assert!(c.filesystem_allowed);
    assert!(c.execute_allowed);
    assert!(!c.wasm_sandbox);
}

fn gate_request(pfp: [u8; 4], label: Option<&str>, target: Option<InjectionTargetConfig>) -> SecurityGateRequest {
    SecurityGateRequest {
        trace_id: [1u8; 16],
        source_id: "anaphase_test".to_string(),
        pfp,
        sap: None,
        identity_label: label.map(|s| s.to_string()),
        action_type: "executive".to_string(),
        action_description: "test action".to_string(),
        injection_target: target,
    }
}

#[test]
fn security_gate_passes_and_injects_resolved_credential() {
    let mut gate = TuckSecurityGate::new(SecurityPolicy::default(), "tuck_test");
    let request = gate_request(
        make_pfp_bytes(RiskLevel::Low, OverrideFlag::Normal),
        Some("env:test/key"),
        Some(InjectionTargetConfig::BearerToken),
    );
    let response = match gate.begin(&request) {
        GateStep::Decided { decision, effective_risk, lookup } => {
            assert_eq!(decision, Decision::Pass);
            assert_eq!(effective_risk, RiskLevel::Low);
            assert!(lookup.is_some());
            gate.complete(&request, decision, effective_risk, Some(Ok(b"secret".to_vec())))
        },
        GateStep::Done(_) => panic!("expected a decision"),
    };
    assert_eq!(response.decision, GateDecision::Pass);
    assert!(response.credential_injected);
    assert!(response.credential.is_none());
    assert_eq!(response.effective_risk_level, "Low");
    assert_eq!(gate.audit_log().len(), 1);
    assert!(gate.audit_log().verify_chain().is_ok());
}

#[test]
fn security_gate_rejects_catastrophic_and_invalid_pfp() {
    let mut gate = TuckSecurityGate::new(SecurityPolicy::default(), "tuck_test");
    let request = gate_request(make_pfp_bytes(RiskLevel::Catastrophic, OverrideFlag::Normal), None, None);
    match gate.begin(&request) {
        GateStep::Decided { decision, effective_risk, lookup } => {
            assert_eq!(decision, Decision::Reject);
            assert!(lookup.is_none());
            let resp = gate.complete(&request, decision, effective_risk, None);
            assert_eq!(resp.decision, GateDecision::Reject);
            assert_eq!(resp.reason.as_deref(), Some("Security policy rejected this action"));
        },
        GateStep::Done(_) => panic!("expected a decision"),
    }
    let bad = gate_request([0, 0, 0, 0], None, None);
    match gate.begin(&bad) {
        GateStep::Done(resp) => {
            assert_eq!(resp.decision, GateDecision::Reject);
            assert_eq!(resp.effective_risk_level, "Unknown");
        },
        _ => panic!("expected an immediate answer"),
    }
    assert_eq!(gate.audit_log().len(), 2);
}

#[test]
fn security_gate_failed_resolution_still_passes() {
    let mut gate = TuckSecurityGate::new(SecurityPolicy::default(), "tuck_test");
    let request = gate_request(
        make_pfp_bytes(RiskLevel::Medium, OverrideFlag::Normal),
        Some("env:missing"),
        Some(InjectionTargetConfig::HttpHeader { name: "X-Key".to_string() }),
    );
    match gate.begin(&request) {
        GateStep::Decided { decision, effective_risk, .. } => {
            let resp = gate.complete(
                &request,
                decision,
                effective_risk,
                Some(Err(CredentialError::NotFound("env:missing".to_string()))),
            );
            assert_eq!(resp.decision, GateDecision::Pass);
            assert!(!resp.credential_injected);
            assert!(resp.credential.is_none());
        },
        GateStep::Done(_) => panic!("expected a decision"),
    }
}

fn tool_request(pfp: [u8; 4], level: PluginSecurityLevel) -> ToolExecutionRequest {
    ToolExecutionRequest {
        trace_id: [2u8; 16],
        source_id: "tentacle_test".to_string(),
        tool_name: "web_search".to_string(),
        args: serde_json::Value::Null,
        pfp,
        identity_label: Some("env:API_KEY".to_string()),
        plugin_security_level: level,
        involves_network: true,
        involves_filesystem_write: false,
        involves_credential: true,
    }
}

#[test]
fn tool_gate_pass_hands_out_credential_and_constraints() {
    let mut gate = TuckToolGate::new(SecurityPolicy::default(), "tuck_test");
    let request = tool_request(make_pfp_bytes(RiskLevel::Low, OverrideFlag::Normal), PluginSecurityLevel::Normal);
    match gate.begin(&request) {
        ToolStep::Decided { decision, effective_risk, lookup } => {
            assert!(lookup.is_some());
            let resp = gate.complete(&request, decision, effective_risk, Some(Ok(b"k".to_vec())));
            assert_eq!(resp.decision, ToolExecutionDecision::Pass);
            assert_eq!(resp.credential, Some(b"k".to_vec()));
            assert_eq!(resp.sandbox_constraints.max_memory_mb, 128);
            assert!(resp.sandbox_constraints.network_allowed);
        },
        ToolStep::Done(_) => panic!("expected a decision"),
    }
    assert_eq!(gate.audit_log().len(), 1);
}

#[test]
fn tool_gate_critical_plugin_reject() {
    let mut gate = TuckToolGate::new(SecurityPolicy::default(), "tuck_test");
    let request =
        tool_request(make_pfp_bytes(RiskLevel::Catastrophic, OverrideFlag::Normal), PluginSecurityLevel::Critical);
    match gate.begin(&request) {
        ToolStep::Decided { decision, effective_risk, lookup } => {
            assert_eq!(decision, Decision::Reject);
            assert!(lookup.is_none());
            let resp = gate.complete(&request, decision, effective_risk, None);
            assert_eq!(resp.decision, ToolExecutionDecision::Reject);
            assert!(resp.credential.is_none());
            assert_eq!(resp.sandbox_constraints.max_memory_mb, 256);
            assert_eq!(resp.reason.as_deref(), Some("Security policy rejected this tool execution"));
        },
        ToolStep::Done(_) => panic!("expected a decision"),
    }
}
