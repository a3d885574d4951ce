use tuck::hsm::{AttestationQuote, EcCurve, HsmHealth, KeyAlgorithm, KeyHandle, PcrPolicy, PcrValue, Signature};

#[test]
fn test_key_algorithm_variants() {
    let rsa = KeyAlgorithm::Rsa { bits: 2048 };
    let ecdsa = KeyAlgorithm::Ecdsa { curve: EcCurve::P256 };
    let aes = KeyAlgorithm::Aes { bits: 256 };
    assert_ne!(rsa, ecdsa);
    assert_ne!(ecdsa, aes);
}

#[test]
fn test_ec_curve_variants() {
    assert_ne!(EcCurve::P256, EcCurve::P384);
    assert_ne!(EcCurve::P384, EcCurve::P521);
}

#[test]
fn test_pcr_policy_builder() {
    let policy = PcrPolicy::new().with_pcr(0, [0u8; 32]).with_pcr(7, [1u8; 32]);
    assert_eq!(policy.expected_pcrs.len(), 2);
    assert!(policy.expected_pcrs.contains_key(&0));
    assert!(policy.expected_pcrs.contains_key(&7));
}

#[test]
fn test_hsm_health_struct() {
    let health = HsmHealth {
        connected: true,
        firmware_version: "1.2.3".to_string(),
        active_sessions: 5,
        last_check: 1234567890,
    };
    assert!(health.connected);
    assert_eq!(health.firmware_version, "1.2.3");
    assert_eq!(health.active_sessions, 5);
}

#[test]
fn test_key_handle_struct() {
    let handle = KeyHandle { id: vec![1, 2, 3], algorithm: KeyAlgorithm::Aes { bits: 256 }, extractable: false };
    assert_eq!(handle.id, vec![1, 2, 3]);
    assert!(!handle.extractable);
}

#[test]
fn test_signature_struct() {
    let sig = Signature { bytes: vec![4, 5, 6], algorithm: KeyAlgorithm::Ecdsa { curve: EcCurve::P256 } };
    assert_eq!(sig.bytes.len(), 3);
}

#[test]
fn test_pcr_value_struct() {
    let pcr = PcrValue { index: 7, value: [0u8; 32] };
    assert_eq!(pcr.index, 7);
    assert_eq!(pcr.value.len(), 32);
}

#[test]
fn test_attestation_quote_struct() {
    let quote = AttestationQuote { quote: vec![1, 2, 3], signature: vec![4, 5, 6], ak_certificate: vec![7, 8, 9] };
    assert_eq!(quote.quote.len(), 3);
    assert_eq!(quote.signature.len(), 3);
    assert_eq!(quote.ak_certificate.len(), 3);
}

#[test]
fn pcr_policy_later_value_replaces() {
    let policy = PcrPolicy::default().with_pcr(3, [1u8; 32]).with_pcr(3, [2u8; 32]);
    assert_eq!(policy.expected_pcrs.len(), 1);
    assert_eq!(policy.expected_pcrs.get(&3), Some(&[2u8; 32]));
}
