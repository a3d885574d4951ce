use tuck::pfp::{
    decide, decide_from_bytes, BodyStance, Decision, Modality, OutputDest, OverrideFlag, PfpHeader, ProximityEdge,
    ReplayEnable, RiskLevel, SecurityPolicy,
};

fn make_pfp(risk: RiskLevel, override_flag: OverrideFlag, replay_enable: ReplayEnable) -> PfpHeader {
    let mut bytes = [0xCF, 0x14, 0, 0];
    bytes[2] = (risk as u8) << 2;
    bytes[3] = (override_flag as u8) << 1 | (replay_enable as u8) << 2;
    PfpHeader::from_bytes(bytes).unwrap()
}

#[test]
fn test_low_risk_pass() {
    let pfp = make_pfp(RiskLevel::Low, OverrideFlag::Normal, ReplayEnable::Enabled);
    assert_eq!(decide(&pfp, &SecurityPolicy::default()), Decision::Pass);
}

#[test]
fn test_medium_risk_pass() {
    let pfp = make_pfp(RiskLevel::Medium, OverrideFlag::Normal, ReplayEnable::Enabled);
    assert_eq!(decide(&pfp, &SecurityPolicy::default()), Decision::Pass);
}

#[test]
fn test_critical_risk_need_confirm() {
    let pfp = make_pfp(RiskLevel::Critical, OverrideFlag::Normal, ReplayEnable::Enabled);
    assert_eq!(decide(&pfp, &SecurityPolicy::default()), Decision::NeedHumanConfirm);
}

#[test]
fn test_catastrophic_reject() {
    let pfp = make_pfp(RiskLevel::Catastrophic, OverrideFlag::Normal, ReplayEnable::Enabled);
    assert_eq!(decide(&pfp, &SecurityPolicy::default()), Decision::Reject);
}

#[test]
fn test_catastrophic_override_pass() {
    let pfp = make_pfp(RiskLevel::Catastrophic, OverrideFlag::HardOverride, ReplayEnable::Enabled);
    assert_eq!(decide(&pfp, &SecurityPolicy::default()), Decision::HardOverridePass);
}

#[test]
fn test_rule6_replay_disabled_forces_medium() {
    let pfp = make_pfp(RiskLevel::Catastrophic, OverrideFlag::Normal, ReplayEnable::Disabled);
    assert_eq!(pfp.effective_risk_level(), RiskLevel::Medium);
    assert_eq!(decide(&pfp, &SecurityPolicy::default()), Decision::Pass);
}

#[test]
fn test_rule6_replay_disabled_blocks_catastrophic_override() {
    let pfp = make_pfp(RiskLevel::Catastrophic, OverrideFlag::HardOverride, ReplayEnable::Disabled);
    assert_eq!(pfp.effective_risk_level(), RiskLevel::Medium);
    assert_eq!(decide(&pfp, &SecurityPolicy::default()), Decision::Pass);
}

#[test]
fn test_fail_closed_invalid_magic() {
    let bytes = [0x00, 0x00, 0, 0];
    assert_eq!(decide_from_bytes(&bytes, &SecurityPolicy::default()), Decision::Reject);
}

#[test]
fn test_fail_closed_too_short() {
    let bytes = [0xCF, 0x14];
    assert_eq!(decide_from_bytes(&bytes, &SecurityPolicy::default()), Decision::Reject);
}

#[test]
fn test_fail_closed_reserved_bits_nonzero() {
    let bytes = [0xCF, 0x14, 0, 0xFF];
    assert_eq!(decide_from_bytes(&bytes, &SecurityPolicy::default()), Decision::Reject);
}

#[test]
fn test_pfp_field_extraction() {
    let pfp = make_pfp(RiskLevel::Critical, OverrideFlag::HardOverride, ReplayEnable::Enabled);
    assert_eq!(pfp.risk_level(), RiskLevel::Critical);
    assert_eq!(pfp.override_flag(), OverrideFlag::HardOverride);
    assert_eq!(pfp.replay_enable(), ReplayEnable::Enabled);
    assert_eq!(pfp.modality(), Modality::Cognitive);
    assert_eq!(pfp.body_stance(), BodyStance::Seated);
    assert_eq!(pfp.proximity_edge(), ProximityEdge::Safe);
    assert_eq!(pfp.output_dest(), OutputDest::Internal);
}

fn assert_all_reject(inputs: &[&[u8]]) {
    let policy = SecurityPolicy::default();
    for (i, input) in inputs.iter().enumerate() {
        let result = decide_from_bytes(input, &policy);
        assert_eq!(
            result,
            Decision::Reject,
            "fault injection #{}: expected Reject, got {:?} for input {:?}",
            i,
            result,
            input
        );
    }
}

#[test]
fn test_fault_injection_invalid_magic() {
    assert_all_reject(&[
        &[0x00, 0x00, 0x00, 0x00],
        &[0xFF, 0xFF, 0xFF, 0xFF],
        &[0xCF, 0x00, 0x00, 0x00],
        &[0x00, 0x14, 0x00, 0x00],
        &[0x14, 0xCF, 0x00, 0x00],
        &[0xDE, 0xAD, 0xBE, 0xEF],
        &[0xCF, 0x15, 0x00, 0x00],
        &[0xCE, 0x14, 0x00, 0x00],
    ]);
}

#[test]
fn test_fault_injection_reserved_bits_nonzero() {
    assert_all_reject(&[
        &[0xCF, 0x14, 0x00, 0x08],
        &[0xCF, 0x14, 0x00, 0x10],
        &[0xCF, 0x14, 0x00, 0x20],
        &[0xCF, 0x14, 0x00, 0x40],
        &[0xCF, 0x14, 0x00, 0x80],
        &[0xCF, 0x14, 0x00, 0xF8],
        &[0xCF, 0x14, 0xFF, 0xFF],
    ]);
}

#[test]
fn test_fault_injection_too_short() {
    assert_all_reject(&[&[], &[0xCF], &[0xCF, 0x14], &[0xCF, 0x14, 0x00]]);
}

#[test]
fn test_fault_injection_malformed_but_valid_length() {
    assert_all_reject(&[
        &[0x00, 0x00, 0x00, 0x00],
        &[0xFF, 0xFF, 0xFF, 0xFF],
        &[0xCF, 0x14, 0xAA, 0x55],
    ]);
}

#[test]
fn test_fault_injection_longer_input_uses_first_4() {
    let policy = SecurityPolicy::default();
    let long_valid = [0xCF, 0x14, 0x00, 0x00, 0xAA, 0xBB, 0xCC, 0xDD];
    assert_eq!(decide_from_bytes(&long_valid, &policy), Decision::Pass);
    let long_invalid = [0x00, 0x00, 0x00, 0x00, 0xCF, 0x14, 0x00, 0x00];
    assert_eq!(decide_from_bytes(&long_invalid, &policy), Decision::Reject);
}

#[test]
fn test_fault_injection_count() {
    let categories = [
        "invalid_magic_all_zeros",
        "invalid_magic_all_ones",
        "invalid_magic_swapped",
        "invalid_magic_off_by_one",
        "reserved_bit3",
        "reserved_bit7",
        "reserved_all_bits",
        "too_short_empty",
        "too_short_1byte",
        "too_short_3bytes",
        "malformed_4byte_zeros",
        "malformed_4byte_ones",
    ];
    assert!(categories.len() >= 10, "fault injection must cover >=10 categories, got {}", categories.len());
}

#[test]
fn test_fail_closed_policy_error_simulation() {
    let policy = SecurityPolicy::default();
    let pfp = make_pfp(RiskLevel::Catastrophic, OverrideFlag::Normal, ReplayEnable::Enabled);
    assert_eq!(decide(&pfp, &policy), Decision::Reject);
    let pfp = make_pfp(RiskLevel::Critical, OverrideFlag::Normal, ReplayEnable::Enabled);
    assert_eq!(decide(&pfp, &policy), Decision::NeedHumanConfirm);
}

#[test]
fn decide_error_messages_and_names() {
    match PfpHeader::from_bytes([0x12, 0x34, 0, 0]) {
        Err(e) => assert_eq!(e.to_string(), "invalid family magic: 0x1234, expected 0xCF14"),
        Ok(_) => panic!("expected an error"),
    }
    assert_eq!(Decision::NeedHumanConfirm.name(), "NeedHumanConfirm");
    assert_eq!(RiskLevel::Catastrophic.name(), "Catastrophic");
}

#[test]
fn pfp_headers_compare_by_bytes() {
    let a = PfpHeader::from_bytes([0xCF, 0x14, 0x02, 0x05]).unwrap();
    let b = PfpHeader::from_bytes([0xCF, 0x14, 0x02, 0x05]).unwrap();
    let c = PfpHeader::from_bytes([0xCF, 0x14, 0x06, 0x05]).unwrap();
    assert_eq!(a, b);
    assert_ne!(a, c);
}
