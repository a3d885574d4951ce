use tuck::mind_bridge::{ActionType, MindBridgeError, PfpConstructionGuide, SecurityDecision, SecurityEvent};
use tuck::pfp::{Decision, Modality, OutputDest, OverrideFlag, PfpHeader, ReplayEnable, RiskLevel};

#[test]
fn test_security_event_from_pass_decision() {
    let event = SecurityEvent::from_decision(
        Decision::Pass,
        [1u8; 16],
        "tuck_01",
        RiskLevel::Low,
        OverrideFlag::Normal,
        "test",
        None,
    );
    assert!(event.is_none());
}

#[test]
fn test_security_event_from_reject_decision() {
    let trace_id = [2u8; 16];
    let event = SecurityEvent::from_decision(
        Decision::Reject,
        trace_id,
        "tuck_01",
        RiskLevel::Critical,
        OverrideFlag::Normal,
        "policy rejected",
        Some("env:test/key".to_string()),
    )
    .unwrap();
    assert_eq!(event.decision, SecurityDecision::Rejected);
    assert_eq!(event.trace_id, trace_id);
    assert_eq!(event.risk_level, "Critical");
    assert!(event.identity_label.is_some());
    assert!(!event.is_emergency());
    assert!(!event.needs_human_attention());
}

#[test]
fn test_security_event_from_hitl_decision() {
    let event = SecurityEvent::from_decision(
        Decision::NeedHumanConfirm,
        [3u8; 16],
        "tuck_01",
        RiskLevel::Critical,
        OverrideFlag::Normal,
        "needs human confirm",
        None,
    )
    .unwrap();
    assert_eq!(event.decision, SecurityDecision::NeedHumanConfirm);
    assert!(event.needs_human_attention());
}

#[test]
fn test_security_event_from_hard_override() {
    let event = SecurityEvent::from_decision(
        Decision::HardOverridePass,
        [4u8; 16],
        "tuck_01",
        RiskLevel::Catastrophic,
        OverrideFlag::HardOverride,
        "emergency override",
        None,
    )
    .unwrap();
    assert_eq!(event.decision, SecurityDecision::HardOverridePass);
    assert!(event.is_emergency());
    assert!(event.needs_human_attention());
    assert_eq!(event.override_flag, "HardOverride");
    assert_eq!(event.decision.name(), "hard_override_pass");
}

#[test]
fn test_action_type_default_risk() {
    assert_eq!(ActionType::Cognitive.default_risk(), RiskLevel::Low);
    assert_eq!(ActionType::Render.default_risk(), RiskLevel::Medium);
    assert_eq!(ActionType::Executive.default_risk(), RiskLevel::Critical);
    assert_eq!(ActionType::SensorFeed.default_risk(), RiskLevel::Medium);
}

#[test]
fn test_action_type_requires_security_gate() {
    assert!(!ActionType::Cognitive.requires_security_gate());
    assert!(ActionType::Render.requires_security_gate());
    assert!(ActionType::Executive.requires_security_gate());
    assert!(ActionType::SensorFeed.requires_security_gate());
}

#[test]
fn test_pfp_construction_guide_basic() {
    let guide = PfpConstructionGuide::new(ActionType::Executive);
    assert_eq!(guide.risk_level, RiskLevel::Critical);
    assert!(guide.external_output);
    assert!(!guide.hard_override);
    assert!(guide.replay_enabled);
    let pfp = guide.build_pfp();
    assert_eq!(pfp.modality(), Modality::Executive);
    assert_eq!(pfp.risk_level(), RiskLevel::Critical);
    assert_eq!(pfp.output_dest(), OutputDest::External);
    assert_eq!(pfp.override_flag(), OverrideFlag::Normal);
    assert_eq!(pfp.replay_enable(), ReplayEnable::Enabled);
}

#[test]
fn test_pfp_construction_guide_escalate() {
    let guide = PfpConstructionGuide::new(ActionType::Executive).escalate_risk(RiskLevel::Catastrophic);
    let pfp = guide.build_pfp();
    assert_eq!(pfp.risk_level(), RiskLevel::Catastrophic);
}

#[test]
fn test_pfp_construction_guide_emergency() {
    let guide = PfpConstructionGuide::new(ActionType::Executive).emergency_override();
    let pfp = guide.build_pfp();
    assert_eq!(pfp.risk_level(), RiskLevel::Catastrophic);
    assert_eq!(pfp.override_flag(), OverrideFlag::HardOverride);
}

#[test]
fn test_pfp_construction_guide_cognitive() {
    let guide = PfpConstructionGuide::new(ActionType::Cognitive);
    assert!(!guide.external_output);
    let pfp = guide.build_pfp();
    assert_eq!(pfp.modality(), Modality::Cognitive);
    assert_eq!(pfp.output_dest(), OutputDest::Internal);
}

#[test]
fn built_pfp_bytes_are_exact_and_valid() {
    let pfp = PfpConstructionGuide::new(ActionType::Render).build_pfp();
    // modality 1, risk 1 (<<2), stance 3 (<<4), edge 0; dest 1, override 0, replay 1 (<<2)
    assert_eq!(pfp.as_bytes(), &[0xCF, 0x14, 0b0011_0101, 0b0000_0101]);
    assert!(PfpHeader::from_bytes(*pfp.as_bytes()).is_ok());
    assert_eq!(Modality::from(ActionType::SensorFeed), Modality::SensorFeed);
    assert_eq!(SecurityDecision::from(Decision::Pass), SecurityDecision::Rejected);
}

#[test]
fn mind_bridge_error_text() {
    assert_eq!(MindBridgeError::Timeout.to_string(), "request timed out");
    assert_eq!(MindBridgeError::MindError("x".to_string()).to_string(), "mind error: x");
}
