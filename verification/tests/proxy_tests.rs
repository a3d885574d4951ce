use tuck::pfp::{Decision, Modality, OverrideFlag, RiskLevel, SecurityPolicy};
use tuck::proxy::{
    base64_decode, base64_encode, pfp_header, pfp_header_value, HttpInterceptor, InterceptError, InterceptResult,
    PFP_HEADER,
};

fn make_pfp(risk: RiskLevel, override_flag: OverrideFlag) -> [u8; 4] {
    let modality = Modality::Executive as u8;
    let body_stance = 1;
    let proximity_edge = 0;
    let output_dest = 1;
    let replay_enable = 1;
    let byte2 = modality | (risk as u8) << 2 | body_stance << 4 | proximity_edge << 6;
    let byte3 = output_dest | (override_flag as u8) << 1 | replay_enable << 2;
    [0xCF, 0x14, byte2, byte3]
}

#[test]
fn test_pfp_header_value_roundtrip() {
    let pfp = make_pfp(RiskLevel::Low, OverrideFlag::Normal);
    let header_value = pfp_header_value(&pfp);
    let decoded = base64_decode(&header_value).unwrap();
    assert_eq!(decoded, pfp.to_vec());
}

#[test]
fn test_intercept_allow() {
    let interceptor = HttpInterceptor::new(SecurityPolicy::default());
    let pfp = make_pfp(RiskLevel::Low, OverrideFlag::Normal);
    let header_value = pfp_header_value(&pfp);
    let headers = vec![(PFP_HEADER, header_value.as_str())];
    let result = interceptor.intercept(headers).unwrap();
    assert_eq!(result, InterceptResult::Allow);
}

#[test]
fn test_intercept_reject() {
    let interceptor = HttpInterceptor::new(SecurityPolicy::default());
    let pfp = make_pfp(RiskLevel::Catastrophic, OverrideFlag::Normal);
    let header_value = pfp_header_value(&pfp);
    let headers = vec![(PFP_HEADER, header_value.as_str())];
    let result = interceptor.intercept(headers).unwrap();
    match result {
        InterceptResult::Reject { status, .. } => assert_eq!(status, 403),
        _ => panic!("expected Reject"),
    }
}

#[test]
fn test_intercept_hard_override() {
    let interceptor = HttpInterceptor::new(SecurityPolicy::default());
    let pfp = make_pfp(RiskLevel::Catastrophic, OverrideFlag::HardOverride);
    let header_value = pfp_header_value(&pfp);
    let headers = vec![(PFP_HEADER, header_value.as_str())];
    let result = interceptor.intercept(headers).unwrap();
    match result {
        InterceptResult::HardOverride { .. } => {},
        _ => panic!("expected HardOverride"),
    }
}

#[test]
fn test_intercept_need_human_confirm() {
    let policy = SecurityPolicy::default();
    let policy = SecurityPolicy { critical: Decision::NeedHumanConfirm, ..policy };
    let interceptor = HttpInterceptor::new(policy);
    let pfp = make_pfp(RiskLevel::Critical, OverrideFlag::Normal);
    let header_value = pfp_header_value(&pfp);
    let headers = vec![(PFP_HEADER, header_value.as_str())];
    let result = interceptor.intercept(headers).unwrap();
    match result {
        InterceptResult::NeedConfirmation { status, .. } => assert_eq!(status, 401),
        _ => panic!("expected NeedConfirmation"),
    }
}

#[test]
fn test_intercept_missing_pfp() {
    let interceptor = HttpInterceptor::new(SecurityPolicy::default());
    let headers: Vec<(&str, &str)> = vec![("content-type", "application/json")];
    let result = interceptor.intercept(headers);
    assert!(matches!(result, Err(InterceptError::MissingPfp)));
}

#[test]
fn test_intercept_invalid_pfp_length() {
    let interceptor = HttpInterceptor::new(SecurityPolicy::default());
    let headers = vec![(PFP_HEADER, "zxA=")];
    let result = interceptor.intercept(headers);
    assert!(matches!(result, Err(InterceptError::InvalidPfp(_))));
}

#[test]
fn test_intercept_invalid_pfp_magic() {
    let interceptor = HttpInterceptor::new(SecurityPolicy::default());
    let headers = vec![(PFP_HEADER, "AAAAAA==")];
    let result = interceptor.intercept(headers);
    assert!(matches!(result, Err(InterceptError::InvalidMagic)));
}

#[test]
fn test_intercept_case_insensitive_header() {
    let interceptor = HttpInterceptor::new(SecurityPolicy::default());
    let pfp = make_pfp(RiskLevel::Low, OverrideFlag::Normal);
    let header_value = pfp_header_value(&pfp);
    let headers = vec![("X-PFP", header_value.as_str())];
    let result = interceptor.intercept(headers).unwrap();
    assert_eq!(result, InterceptResult::Allow);
}

#[test]
fn test_extract_pfp_valid() {
    let interceptor = HttpInterceptor::new(SecurityPolicy::default());
    let pfp = make_pfp(RiskLevel::Medium, OverrideFlag::Normal);
    let header_value = pfp_header_value(&pfp);
    let headers = vec![(PFP_HEADER, header_value.as_str())];
    let extracted = interceptor.extract_pfp(headers).unwrap();
    assert_eq!(extracted, pfp);
}

#[test]
fn test_pfp_header_creation() {
    let pfp = make_pfp(RiskLevel::Low, OverrideFlag::Normal);
    let (name, value) = pfp_header(&pfp);
    assert_eq!(name, PFP_HEADER);
    assert!(!value.is_empty());
}

#[test]
fn proxy_test_base64_roundtrip() {
    let data = [0xCF, 0x14, 0xAB, 0xCD];
    let encoded = base64_encode(&data);
    let decoded = base64_decode(&encoded).unwrap();
    assert_eq!(decoded, data);
}

#[test]
fn test_interceptor_policy_access() {
    let interceptor = HttpInterceptor::new(SecurityPolicy::default());
    let _ = interceptor.policy();
}

#[test]
fn intercept_error_messages() {
    let interceptor = HttpInterceptor::new(SecurityPolicy::default());
    match interceptor.intercept(vec![(PFP_HEADER, "zxA=")]) {
        Err(e) => assert_eq!(e.to_string(), "invalid PFP header: expected 4 bytes, got 2"),
        Ok(_) => panic!("expected an error"),
    }
    match interceptor.intercept(vec![(PFP_HEADER, "z!xA")]) {
        Err(InterceptError::InvalidPfp(m)) => {
            assert_eq!(m, "base64 decode failed: invalid base64 character: !")
        },
        other => panic!("unexpected {:?}", other),
    }
    // valid magic, reserved bits set: 0xCF 0x14 0x00 0xF8
    let value = base64_encode(&[0xCF, 0x14, 0x00, 0xF8]);
    match interceptor.intercept(vec![(PFP_HEADER, value.as_str())]) {
        Err(InterceptError::InvalidPfp(m)) => {
            assert_eq!(m, "PFP validation failed: reserved bits non-zero: 31")
        },
        other => panic!("unexpected {:?}", other),
    }
    assert_eq!(InterceptError::MissingPfp.to_string(), "PFP header missing");
}

#[test]
fn intercept_uses_first_pfp_header_and_maps_reasons() {
    let interceptor = HttpInterceptor::new(SecurityPolicy::default());
    let bad = base64_encode(&make_pfp(RiskLevel::Catastrophic, OverrideFlag::Normal));
    let good = base64_encode(&make_pfp(RiskLevel::Low, OverrideFlag::Normal));
    let headers = vec![("X-Pfp", bad.as_str()), ("x-pfp", good.as_str())];
    match interceptor.intercept(headers).unwrap() {
        InterceptResult::Reject { status, reason } => {
            assert_eq!(status, 403);
            assert_eq!(reason, "Tuck security policy rejected the request");
        },
        other => panic!("unexpected {:?}", other),
    }
    let critical = base64_encode(&make_pfp(RiskLevel::Critical, OverrideFlag::Normal));
    match interceptor.intercept(vec![(PFP_HEADER, critical.as_str())]).unwrap() {
        InterceptResult::NeedConfirmation { request_id, status } => {
            assert_eq!(status, 401);
            assert_eq!(request_id.len(), 36);
            assert_eq!(request_id.matches('-').count(), 4);
        },
        other => panic!("unexpected {:?}", other),
    }
}
