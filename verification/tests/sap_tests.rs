use tuck::sap::{
    verify_sap, verify_sap_from_bytes, InMemoryReplayCache, ReplayCache, SapError, SapHeader, SAP_PROTOCOL_ID,
    SAP_SIZE, SAP_VERSION, SEQ_ROTATION_THRESHOLD,
};

fn make_sap(seq: u16) -> SapHeader {
    let mut bytes = [0u8; SAP_SIZE];
    bytes[0] = 0xCF;
    bytes[1] = 0x14;
    bytes[2] = SAP_PROTOCOL_ID;
    bytes[3] = SAP_VERSION;
    bytes[4] = (seq >> 8) as u8;
    bytes[5] = (seq & 0xFF) as u8;
    SapHeader::from_bytes(bytes).unwrap()
}

#[test]
fn test_sap_decode() {
    let sap = make_sap(42);
    assert_eq!(sap.seq_counter(), 42);
    assert_eq!(sap.version(), SAP_VERSION);
    assert!(sap.is_version_current());
    assert!(!sap.needs_key_rotation());
}

#[test]
fn test_sap_invalid_magic() {
    let mut bytes = [0u8; SAP_SIZE];
    bytes[0] = 0x00;
    bytes[1] = 0x00;
    bytes[2] = SAP_PROTOCOL_ID;
    let result = SapHeader::from_bytes(bytes);
    assert!(matches!(result, Err(SapError::InvalidMagic(_))));
}

#[test]
fn test_sap_invalid_protocol_id() {
    let mut bytes = [0u8; SAP_SIZE];
    bytes[0] = 0xCF;
    bytes[1] = 0x14;
    bytes[2] = 0x99;
    let result = SapHeader::from_bytes(bytes);
    assert!(matches!(result, Err(SapError::InvalidProtocolId(0x99))));
}

#[test]
fn test_replay_cache_accept_increasing() {
    let mut cache = InMemoryReplayCache::new();
    assert!(cache.check_and_update("source1", 1).is_ok());
    assert!(cache.check_and_update("source1", 2).is_ok());
    assert!(cache.check_and_update("source1", 100).is_ok());
    assert_eq!(cache.last_seen("source1"), Some(100));
}

#[test]
fn test_replay_cache_detect_replay() {
    let mut cache = InMemoryReplayCache::new();
    assert!(cache.check_and_update("source1", 10).is_ok());
    let result = cache.check_and_update("source1", 10);
    assert!(matches!(result, Err(SapError::ReplayDetected { .. })));
    let result = cache.check_and_update("source1", 5);
    assert!(matches!(result, Err(SapError::ReplayDetected { .. })));
}

#[test]
fn test_replay_cache_isolated_sources() {
    let mut cache = InMemoryReplayCache::new();
    assert!(cache.check_and_update("source1", 10).is_ok());
    assert!(cache.check_and_update("source2", 10).is_ok());
    assert_eq!(cache.last_seen("source1"), Some(10));
    assert_eq!(cache.last_seen("source2"), Some(10));
}

#[test]
fn test_verify_sap_full_flow() {
    let mut cache = InMemoryReplayCache::new();
    let sap1 = make_sap(1);
    let sap2 = make_sap(2);
    let sap_replay = make_sap(1);
    assert!(verify_sap(&sap1, "node-a", &mut cache).is_ok());
    assert!(verify_sap(&sap2, "node-a", &mut cache).is_ok());
    let result = verify_sap(&sap_replay, "node-a", &mut cache);
    assert!(matches!(result, Err(SapError::ReplayDetected { .. })));
}

#[test]
fn test_verify_sap_from_bytes() {
    let mut cache = InMemoryReplayCache::new();
    let sap = make_sap(5);
    assert!(verify_sap_from_bytes(sap.as_bytes(), "node-b", &mut cache).is_ok());
    let short = [0u8; 4];
    assert!(verify_sap_from_bytes(&short, "node-b", &mut cache).is_err());
}

#[test]
fn test_key_rotation_threshold() {
    let sap = make_sap(SEQ_ROTATION_THRESHOLD);
    assert!(sap.needs_key_rotation());
    let sap = make_sap(SEQ_ROTATION_THRESHOLD - 1);
    assert!(!sap.needs_key_rotation());
}

#[test]
fn test_sap_not_in_hard_real_time_path() {
    fn assert_not_real_time<F: Fn(&mut InMemoryReplayCache)>(_f: F) {}
    assert_not_real_time(|cache| {
        let sap = make_sap(1);
        let _ = verify_sap(&sap, "test", cache);
    });
}

#[test]
fn replay_after_accept_reports_last_seen_and_keeps_cache() {
    let mut cache = InMemoryReplayCache::new();
    assert!(verify_sap(&make_sap(7), "node-c", &mut cache).is_ok());
    match verify_sap(&make_sap(3), "node-c", &mut cache) {
        Err(SapError::ReplayDetected { last_seen, received, .. }) => {
            assert_eq!(last_seen, 7);
            assert_eq!(received, 3);
        },
        other => panic!("expected a replay, got {:?}", other),
    }
    assert_eq!(cache.last_seen("node-c"), Some(7));
}

#[test]
fn outdated_sap_version_is_refused() {
    let mut bytes = [0u8; SAP_SIZE];
    bytes[0] = 0xCF;
    bytes[1] = 0x14;
    bytes[2] = SAP_PROTOCOL_ID;
    bytes[3] = 0x07;
    let sap = SapHeader::from_bytes(bytes).unwrap();
    let mut cache = InMemoryReplayCache::new();
    assert!(matches!(verify_sap(&sap, "node-d", &mut cache), Err(SapError::UnsupportedVersion(0x07))));
    assert_eq!(cache.last_seen("node-d"), None);
}
