use tuck::base64::base64_encode;
use tuck::ed25519::{sign, verify};
use tuck::ledger::{
    anchor_payload, format_ts, scan_tail, verify_anchors, verify_chain, AnchorFields, AuditRecord, ChainLine,
    ChainState, LineContent,
};

fn no_anchor() -> AnchorFields {
    AnchorFields { is_anchor: false, head: String::new(), sig: String::new() }
}

fn line(record: AuditRecord) -> ChainLine {
    ChainLine { text: format!("record {}", record.seq), content: LineContent::Record { record, anchor: no_anchor() } }
}

fn build_chain(n: u64) -> Vec<ChainLine> {
    let mut state = ChainState::opened(0, String::new());
    let mut lines = Vec::new();
    for i in 0..n {
        let payload = format!("{{\"n\":{i},\"text\":\"entry-{i}\"}}");
        let rec = state.next_record("2023-11-14T22:13:20Z", &payload);
        state.committed(&rec);
        lines.push(line(rec));
    }
    lines
}

#[test]
fn format_ts_exact_values() {
    assert_eq!(format_ts(0), "1970-01-01T00:00:00Z");
    assert_eq!(format_ts(1_700_000_000), "2023-11-14T22:13:20Z");
    assert_eq!(format_ts(951_782_400), "2000-02-29T00:00:00Z");
    assert_eq!(format_ts(4_102_444_799), "2099-12-31T23:59:59Z");
}

#[test]
fn appended_chain_verifies_in_memory() {
    let lines = build_chain(3);
    let report = verify_chain(Some(&lines)).unwrap();
    assert!(report.ok);
    assert_eq!(report.entries, 3);
    let head = match &lines[2].content {
        LineContent::Record { record, .. } => record.hash.clone(),
        _ => String::new(),
    };
    assert_eq!(report.head_hash, Some(head));
}

#[test]
fn empty_chain_verifies_without_file() {
    let report = verify_chain(None).unwrap();
    assert!(report.ok);
    assert_eq!(report.entries, 0);
}

#[test]
fn edited_payload_breaks_chain_at_its_line() {
    let mut lines = build_chain(4);
    if let LineContent::Record { record, .. } = &mut lines[1].content {
        record.payload = "{\"n\":1,\"text\":\"forged\"}".to_string();
    }
    let report = verify_chain(Some(&lines)).unwrap();
    assert!(!report.ok);
    assert_eq!(report.first_break, Some(2));
}

#[test]
fn deleted_row_breaks_chain() {
    let mut lines = build_chain(4);
    lines.remove(2);
    let report = verify_chain(Some(&lines)).unwrap();
    assert!(!report.ok);
    assert_eq!(report.first_break, Some(3));
}

#[test]
fn digests_are_deterministic() {
    let a = AuditRecord::new(0, "2023-11-14T22:13:20Z", "{\"n\":0}", "");
    let b = AuditRecord::new(0, "2023-11-14T22:13:20Z", "{\"n\":0}", "");
    assert_eq!(a.hash, b.hash);
    assert_eq!(a.hash.len(), 64);
    assert_eq!(a.digest(), a.hash);
}

#[test]
fn scan_tail_resumes_after_last_record() {
    let lines: Vec<LineContent> = build_chain(3).into_iter().map(|l| l.content).collect();
    let (next, tail) = scan_tail(&lines).unwrap();
    assert_eq!(next, 3);
    match &lines[2] {
        LineContent::Record { record, .. } => assert_eq!(tail, record.hash),
        _ => panic!("expected a record"),
    }
    let (n0, t0) = scan_tail(&Vec::new()).unwrap();
    assert_eq!(n0, 0);
    assert_eq!(t0, "");
}

const TS: &str = "2023-11-14T22:13:20Z";

fn keypair() -> ([u8; 32], [u8; 32]) {
    let seed: [u8; 32] = [7u8; 32];
    let sk = ed25519_dalek::SigningKey::from_bytes(&seed);
    (seed, sk.verifying_key().to_bytes())
}

fn push_record(state: &mut ChainState, lines: &mut Vec<ChainLine>, payload: &str, anchor: AnchorFields) {
    let rec = state.next_record(TS, payload);
    state.committed(&rec);
    lines.push(ChainLine { text: format!("record {}", rec.seq), content: LineContent::Record { record: rec, anchor } });
}

// Appends `n` records, writing a signed anchor of the head first whenever
// one is due, as an anchored ledger does.
fn build_anchored(n: u64, every: u64, seed: [u8; 32]) -> Vec<ChainLine> {
    let mut state = ChainState::opened(0, String::new()).with_anchor(every);
    let mut lines = Vec::new();
    for i in 0..n {
        if state.anchor_due(true) {
            let head = state.tail_hash().to_string();
            let sig = sign(&seed, head.as_bytes());
            let payload = anchor_payload(&head, &sig);
            let fields = AnchorFields { is_anchor: true, head: head.clone(), sig: base64_encode(&sig) };
            push_record(&mut state, &mut lines, &payload, fields);
            state.anchored();
        }
        let payload = format!("{{\"n\":{i},\"text\":\"entry-{i}\"}}");
        push_record(&mut state, &mut lines, &payload, no_anchor());
        state.counted();
    }
    lines
}

#[test]
fn anchored_chain_writes_interval_records() {
    let (seed, _vk) = keypair();
    let lines = build_anchored(7, 3, seed);
    let report = verify_chain(Some(&lines)).unwrap();
    assert!(report.ok);
    assert_eq!(report.entries, 9);
}

#[test]
fn anchors_verify_with_correct_key() {
    let (seed, vk) = keypair();
    let lines = build_anchored(5, 2, seed);
    let report = verify_anchors(Some(&lines), &vk, 1).unwrap();
    assert!(report.ok);
    assert_eq!(report.anchors, 2);
    assert_eq!(report.first_bad, None);
}

#[test]
fn wrong_key_rejects_anchors() {
    let (seed, _vk) = keypair();
    let lines = build_anchored(5, 2, seed);
    let other: [u8; 32] = [9u8; 32];
    let report = verify_anchors(Some(&lines), &other, 1).unwrap();
    assert!(!report.ok);
}

#[test]
fn full_chain_replacement_fails_anchors() {
    let (seed, vk) = keypair();
    let original = build_anchored(5, 2, seed);
    assert!(verify_anchors(Some(&original), &vk, 1).unwrap().ok);
    // The whole file rewritten from scratch: forged payloads, a freshly
    // computed, self-consistent hash chain, and no witness records.
    let mut state = ChainState::opened(0, String::new());
    let mut forged = Vec::new();
    for i in 0..5u64 {
        let payload = format!("{{\"n\":{i},\"text\":\"forged-{i}\"}}");
        push_record(&mut state, &mut forged, &payload, no_anchor());
    }
    let chain_report = verify_chain(Some(&forged)).unwrap();
    assert!(chain_report.ok);
    let anchor_report = verify_anchors(Some(&forged), &vk, 1).unwrap();
    assert!(!anchor_report.ok);
}

#[test]
fn missing_anchors_fall_short_of_minimum() {
    let (_seed, vk) = keypair();
    let lines = build_chain(4);
    let report = verify_anchors(Some(&lines), &vk, 1).unwrap();
    assert!(!report.ok);
    assert_eq!(report.anchors, 0);
    assert_eq!(report.first_bad, None);
    let none = verify_anchors(None, &vk, 0).unwrap();
    assert!(none.ok);
}

#[test]
fn anchor_payload_is_compact_sorted_json() {
    let payload = anchor_payload("abc", &[1, 2, 3]);
    assert_eq!(payload, "{\"anchor\":true,\"head\":\"abc\",\"sig\":\"AQID\"}");
    let mut m = serde_json::Map::new();
    m.insert("sig".to_string(), serde_json::Value::String("AQID".to_string()));
    m.insert("head".to_string(), serde_json::Value::String("abc".to_string()));
    m.insert("anchor".to_string(), serde_json::Value::Bool(true));
    assert_eq!(payload, serde_json::Value::Object(m).to_string());
}

#[test]
fn ed25519_sign_is_deterministic_and_verifies() {
    let (seed, vk) = keypair();
    let a = sign(&seed, b"head");
    let b = sign(&seed, b"head");
    assert_eq!(a.len(), 64);
    assert_eq!(a, b);
    assert_ne!(a, b"head".to_vec());
    assert!(verify(&vk, b"head", &a));
    assert!(!verify(&vk, b"other", &a));
    assert!(!verify(&vk, b"head", &a[..63]));
}

#[test]
fn anchor_payload_escapes_head_as_json() {
    let head = "a\"b\\c\u{1}\u{8}\t\n\u{c}\r\u{1f}é";
    let payload = anchor_payload(head, &[]);
    assert_eq!(payload, format!("{{\"anchor\":true,\"head\":{},\"sig\":\"\"}}", serde_json::to_string(head).unwrap()));
    assert!(payload.contains("\\u0001") && payload.contains("\\b") && payload.contains("\\u001f"));
}

#[test]
fn anchor_fields_read_from_payload() {
    let a = tuck::ledger::anchor_fields(&anchor_payload("h", &[1, 2, 3]));
    assert!(a.is_anchor);
    assert_eq!(a.head, "h");
    assert_eq!(a.sig, "AQID");
    let b = tuck::ledger::anchor_fields("{\"anchor\":false,\"head\":5,\"sig\":\"x\"}");
    assert!(!b.is_anchor);
    assert_eq!(b.head, "");
    assert_eq!(b.sig, "x");
    let c = tuck::ledger::anchor_fields("not json");
    assert!(!c.is_anchor && c.head.is_empty() && c.sig.is_empty());
    let d = tuck::ledger::anchor_fields("{\"n\":1}");
    assert!(!d.is_anchor);
}
