use tuck::credential::{CredentialError, InMemoryCredentialStore};
use tuck::injection::{InjectionTarget, OutboundRequest};
use tuck::outbound::{OutboundDecision, OutboundError, OutboundHandler, OutboundResult, OutboundStep};
use tuck::pfp::{OverrideFlag, RiskLevel, SecurityPolicy};
use tuck::proxy::{pfp_header_value, InterceptError};

fn make_pfp(risk: RiskLevel, override_flag: OverrideFlag) -> [u8; 4] {
    let modality = 2;
    let body_stance = 1;
    let proximity_edge = 0;
    let output_dest = 1;
    let replay_enable = 1;
    let byte2 = modality | (risk as u8) << 2 | body_stance << 4 | proximity_edge << 6;
    let byte3 = output_dest | (override_flag as u8) << 1 | replay_enable << 2;
    [0xCF, 0x14, byte2, byte3]
}

fn handle(
    handler: &OutboundHandler,
    store: &InMemoryCredentialStore,
    headers: Vec<(&str, &str)>,
    request: &mut OutboundRequest,
    target: &InjectionTarget,
) -> Result<OutboundResult, OutboundError> {
    match handler.begin(headers, request) {
        OutboundStep::Done(r) => r,
        OutboundStep::Resolve { decision, label } => {
            let credential: Result<Vec<u8>, CredentialError> =
                store.get(&label).map(|c| c.expose_secret().to_vec());
            handler.finish(decision, &label, target, request, credential)
        },
    }
}

#[test]
fn test_outbound_allow_with_injection() {
    let mut store = InMemoryCredentialStore::new();
    store.insert("env:test/api-key", b"secret-token-12345");
    let handler = OutboundHandler::new(SecurityPolicy::default());
    let pfp_value = pfp_header_value(&make_pfp(RiskLevel::Low, OverrideFlag::Normal));
    let headers = vec![("x-pfp", pfp_value.as_str()), ("x-identity-label", "env:test/api-key")];
    let mut request = OutboundRequest::new();
    let target = InjectionTarget::header("X-API-Key");
    let result = handle(&handler, &store, headers, &mut request, &target).unwrap();
    assert_eq!(result.decision, OutboundDecision::Allow);
    assert!(result.injection.is_some());
    assert!(result.injection.unwrap().success);
    assert_eq!(request.get_header("X-API-Key").unwrap(), "secret-token-12345");
    assert_eq!(result.request.get_header("X-API-Key").unwrap(), "secret-token-12345");
}

#[test]
fn test_outbound_reject_no_injection() {
    let store = InMemoryCredentialStore::new();
    let handler = OutboundHandler::new(SecurityPolicy::default());
    let pfp_value = pfp_header_value(&make_pfp(RiskLevel::Catastrophic, OverrideFlag::Normal));
    let headers = vec![("x-pfp", pfp_value.as_str()), ("x-identity-label", "env:test/api-key")];
    let mut request = OutboundRequest::new();
    let target = InjectionTarget::header("X-API-Key");
    let result = handle(&handler, &store, headers, &mut request, &target).unwrap();
    match result.decision {
        OutboundDecision::Reject { status, .. } => assert_eq!(status, 403),
        _ => panic!("expected Reject"),
    }
    assert!(result.injection.is_none());
    assert!(request.get_header("X-API-Key").is_none());
}

#[test]
fn test_outbound_hard_override_with_injection() {
    let mut store = InMemoryCredentialStore::new();
    store.insert("env:test/emergency", b"emergency-token");
    let handler = OutboundHandler::new(SecurityPolicy::default());
    let pfp_value = pfp_header_value(&make_pfp(RiskLevel::Catastrophic, OverrideFlag::HardOverride));
    let headers = vec![("x-pfp", pfp_value.as_str()), ("x-identity-label", "env:test/emergency")];
    let mut request = OutboundRequest::new();
    let result = handle(&handler, &store, headers, &mut request, &InjectionTarget::BearerToken).unwrap();
    match result.decision {
        OutboundDecision::HardOverride { .. } => {},
        _ => panic!("expected HardOverride"),
    }
    assert!(result.injection.is_some());
    assert_eq!(request.get_header("Authorization").unwrap(), "Bearer emergency-token");
}

#[test]
fn test_outbound_missing_identity_label() {
    let store = InMemoryCredentialStore::new();
    let handler = OutboundHandler::new(SecurityPolicy::default());
    let pfp_value = pfp_header_value(&make_pfp(RiskLevel::Low, OverrideFlag::Normal));
    let headers = vec![("x-pfp", pfp_value.as_str())];
    let mut request = OutboundRequest::new();
    let result = handle(&handler, &store, headers, &mut request, &InjectionTarget::header("X-API-Key"));
    assert!(matches!(result, Err(OutboundError::MissingIdentityLabel)));
}

#[test]
fn test_outbound_missing_pfp() {
    let store = InMemoryCredentialStore::new();
    let handler = OutboundHandler::new(SecurityPolicy::default());
    let headers = vec![("x-identity-label", "env:test/api-key")];
    let mut request = OutboundRequest::new();
    let result = handle(&handler, &store, headers, &mut request, &InjectionTarget::header("X-API-Key"));
    assert!(matches!(result, Err(OutboundError::Interception(InterceptError::MissingPfp))));
}

#[test]
fn test_outbound_credential_not_found() {
    let store = InMemoryCredentialStore::new();
    let handler = OutboundHandler::new(SecurityPolicy::default());
    let pfp_value = pfp_header_value(&make_pfp(RiskLevel::Low, OverrideFlag::Normal));
    let headers = vec![("x-pfp", pfp_value.as_str()), ("x-identity-label", "env:nonexistent/key")];
    let mut request = OutboundRequest::new();
    let result = handle(&handler, &store, headers, &mut request, &InjectionTarget::header("X-API-Key"));
    assert!(matches!(result, Err(OutboundError::Credential(_))));
}

#[test]
fn test_outbound_query_param_injection() {
    let mut store = InMemoryCredentialStore::new();
    store.insert("env:test/query", b"query-secret");
    let handler = OutboundHandler::new(SecurityPolicy::default());
    let pfp_value = pfp_header_value(&make_pfp(RiskLevel::Low, OverrideFlag::Normal));
    let headers = vec![("x-pfp", pfp_value.as_str()), ("x-identity-label", "env:test/query")];
    let mut request = OutboundRequest::new();
    let result = handle(&handler, &store, headers, &mut request, &InjectionTarget::query_param("api_key")).unwrap();
    assert_eq!(result.decision, OutboundDecision::Allow);
    assert_eq!(request.query_params.get("api_key").unwrap(), "query-secret");
}

#[test]
fn test_outbound_handler_policy_access() {
    let handler = OutboundHandler::new(SecurityPolicy::default());
    let _ = handler.policy();
}

#[test]
fn outbound_invalid_label_and_error_text() {
    let store = InMemoryCredentialStore::new();
    let handler = OutboundHandler::new(SecurityPolicy::default());
    let pfp_value = pfp_header_value(&make_pfp(RiskLevel::Low, OverrideFlag::Normal));
    let headers = vec![("X-Identity-Label", "nocolon"), ("x-pfp", pfp_value.as_str())];
    let mut request = OutboundRequest::new();
    match handle(&handler, &store, headers, &mut request, &InjectionTarget::header("X")) {
        Err(e) => assert_eq!(e.to_string(), "credential error: invalid identity_label: missing scheme: nocolon"),
        Ok(_) => panic!("expected an error"),
    }
    assert_eq!(OutboundError::MissingIdentityLabel.to_string(), "identity label header missing");
}
