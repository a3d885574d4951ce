//! Tamper detection: a scan of the audit chain that reports every fault it
//! finds, not just the first, and the conversion of guard events into audit
//! entries.
//!
//! For each entry, in order: a wrong stored hash, a broken link to the
//! previous entry (or, for the first, to the genesis hash), and an entry ID
//! already used by an earlier entry are each reported.

use vstd::prelude::*;

use crate::audit::{
    bytes_eq, chain_valid, entry_ok, genesis, genesis_hash, hash_ok, link_ok, AuditEntry, AuditLog,
};
use crate::catastrophic::CatastrophicEvent;
use crate::digest::{new_uuid_v4, unix_now, uuid_text, uuid_to_string};
use crate::hitl::ConfirmRequest;
use crate::hot_reload::{ReloadEvent, ReloadStatus};
use crate::text::{decimal, push_decimal};

verus! {

/// Kind of tampering.
#[derive(Debug, Clone, Copy, PartialEq, Eq, Structural)]
pub enum TamperType {
    /// An entry's stored hash is not its computed hash: it was modified.
    HashMismatch,
    /// An entry's previous hash is not its predecessor's hash.
    PrevHashMismatch,
    /// The first entry does not link to the genesis hash.
    MissingGenesis,
    /// An entry was deleted.
    EntryDeleted,
    /// An entry ID occurs twice: an entry was inserted.
    DuplicateEntryId,
}

impl TamperType {
    /// The kind's name.
    pub open spec fn spec_name(self) -> Seq<char> {
        match self {
            TamperType::HashMismatch => "hash_mismatch"@,
            TamperType::PrevHashMismatch => "prev_hash_mismatch"@,
            TamperType::MissingGenesis => "missing_genesis"@,
            TamperType::EntryDeleted => "entry_deleted"@,
            TamperType::DuplicateEntryId => "duplicate_entry_id"@,
        }
    }

    /// The kind's name.
    pub fn to_string(&self) -> (s: String)
        ensures
            s@ == self.spec_name(),
    {
        match self {
            TamperType::HashMismatch => String::from_str("hash_mismatch"),
            TamperType::PrevHashMismatch => String::from_str("prev_hash_mismatch"),
            TamperType::MissingGenesis => String::from_str("missing_genesis"),
            TamperType::EntryDeleted => String::from_str("entry_deleted"),
            TamperType::DuplicateEntryId => String::from_str("duplicate_entry_id"),
        }
    }
}

/// One fault found in the chain.
#[derive(Debug, Clone)]
pub struct TamperFinding {
    /// Index of the entry in the chain.
    pub index: usize,
    /// Kind of tampering.
    pub tamper_type: TamperType,
    /// What was found.
    pub description: String,
    /// The entry's ID, as UUID text.
    pub entry_id: Option<String>,
}

/// Result of a tamper scan.
#[derive(Debug, Clone)]
pub struct TamperReport {
    /// Whether nothing was found.
    pub is_valid: bool,
    /// Entries scanned.
    pub entries_scanned: usize,
    /// Faults found, in the order of the scan.
    pub findings: Vec<TamperFinding>,
    /// Time of the scan (Unix seconds).
    pub detected_at: u64,
}

/// What a finding says, as plain values.
pub open spec fn finding_view(f: TamperFinding) -> (usize, TamperType, Seq<char>, Option<Seq<char>>) {
    (f.index, f.tamper_type, f.description@, match f.entry_id {
        Some(s) => Some(s@),
        None => None,
    })
}

impl TamperReport {
    /// A report of a scan that found nothing, stamped with the current time.
    pub fn valid(entries_scanned: usize) -> (r: TamperReport)
        ensures
            r.is_valid,
            r.entries_scanned == entries_scanned,
            r.findings@.len() == 0,
    {
        TamperReport { is_valid: true, entries_scanned, findings: Vec::new(), detected_at: unix_now() }
    }

    /// A report of a scan with these findings, stamped with the current
    /// time; it is valid when there are none.
    pub fn with_findings(entries_scanned: usize, findings: Vec<TamperFinding>) -> (r: TamperReport)
        ensures
            r.is_valid == (findings@.len() == 0),
            r.entries_scanned == entries_scanned,
            r.findings == findings,
    {
        let is_valid = findings.len() == 0;
        TamperReport { is_valid, entries_scanned, findings, detected_at: unix_now() }
    }

    /// The number of findings.
    pub fn finding_count(&self) -> (n: usize)
        ensures
            n == self.findings@.len(),
    {
        self.findings.len()
    }

    /// Whether some finding is of this kind.
    pub fn has_type(&self, tamper_type: TamperType) -> (b: bool)
        ensures
            b == exists|i: int| 0 <= i < self.findings@.len() && #[trigger] self.findings@[i].tamper_type == tamper_type,
    {
        let mut i: usize = 0;
        while i < self.findings.len()
            invariant
                0 <= i <= self.findings@.len(),
                forall|j: int| 0 <= j < i ==> #[trigger] self.findings@[j].tamper_type != tamper_type,
            decreases self.findings@.len() - i,
        {
            if self.findings[i].tamper_type == tamper_type {
                return true;
            }
            i = i + 1;
        }
        false
    }
}

/// Whether entry `i` reuses the ID of an earlier entry.
pub open spec fn duplicate_id(s: Seq<AuditEntry>, i: int) -> bool {
    exists|j: int| 0 <= j < i && #[trigger] s[j].entry_id@ == s[i].entry_id@
}

/// Whether no two entries share an ID.
pub open spec fn ids_unique(s: Seq<AuditEntry>) -> bool {
    forall|i: int, j: int| 0 <= i < j < s.len() ==> #[trigger] s[i].entry_id@ != #[trigger] s[j].entry_id@
}

/// The findings for entry `i` of `s`, in order: hash, link, duplicate ID.
pub open spec fn entry_findings(s: Seq<AuditEntry>, i: int) -> Seq<(usize, TamperType, Seq<char>, Option<Seq<char>>)> {
    let e = s[i];
    let id = Some(uuid_text(e.entry_id@));
    let hash = if !hash_ok(e) {
        seq![(i as usize, TamperType::HashMismatch,
            "entry "@ + decimal(i as nat) + " stored hash doesn't match computed hash (entry was modified)"@, id)]
    } else {
        Seq::empty()
    };
    let link = if i > 0 {
        if e.prev_hash@ != s[i - 1].hash@ {
            seq![(i as usize, TamperType::PrevHashMismatch,
                "entry "@ + decimal(i as nat) + " prev_hash doesn't match previous entry's hash (chain was broken)"@, id)]
        } else {
            Seq::empty()
        }
    } else {
        if e.prev_hash@ != genesis() {
            seq![(i as usize, TamperType::MissingGenesis,
                "first entry's prev_hash is not GENESIS_HASH (chain start was tampered)"@, id)]
        } else {
            Seq::empty()
        }
    };
    let dup = if duplicate_id(s, i) {
        seq![(i as usize, TamperType::DuplicateEntryId,
            "entry "@ + decimal(i as nat) + " has duplicate entry ID "@ + uuid_text(e.entry_id@) + " (entry was inserted)"@, id)]
    } else {
        Seq::empty()
    };
    hash + link + dup
}

/// The findings of a scan of the first `n` entries of `s`.
pub open spec fn tamper_findings(s: Seq<AuditEntry>, n: int) -> Seq<(usize, TamperType, Seq<char>, Option<Seq<char>>)>
    decreases n,
{
    if n <= 0 {
        Seq::empty()
    } else {
        tamper_findings(s, n - 1) + entry_findings(s, n - 1)
    }
}

fn numbered(prefix: &str, i: usize, suffix: &str) -> (s: String)
    ensures
        s@ == prefix@ + decimal(i as nat) + suffix@,
{
    let mut s = String::from_str(prefix);
    push_decimal(&mut s, i as u64);
    s.append(suffix);
    s
}

fn seen_before(seen: &Vec<[u8; 16]>, id: &[u8; 16]) -> (b: bool)
    ensures
        b == exists|j: int| 0 <= j < seen@.len() && #[trigger] seen@[j]@ == id@,
{
    let mut j: usize = 0;
    while j < seen.len()
        invariant
            0 <= j <= seen@.len(),
            forall|k: int| 0 <= k < j ==> #[trigger] seen@[k]@ != id@,
        decreases seen@.len() - j,
    {
        if bytes_eq(&seen[j], id) {
            return true;
        }
        j = j + 1;
    }
    false
}

fn push_finding(
    findings: &mut Vec<TamperFinding>,
    index: usize,
    tamper_type: TamperType,
    description: String,
    id_text: &String,
)
    ensures
        final(findings)@ == old(findings)@.push(TamperFinding {
            index,
            tamper_type,
            description,
            entry_id: Some(*id_text),
        }),
{
    findings.push(TamperFinding { index, tamper_type, description, entry_id: Some(id_text.clone()) });
}

/// Scan the chain for every fault: each entry's hash, each link (the first
/// to genesis), and reused entry IDs. The report lists the findings in scan
/// order and is valid when there are none.
pub fn detect_tampering(log: &AuditLog) -> (r: TamperReport)
    ensures
        r.entries_scanned == log@.len(),
        r.findings@.map_values(|f: TamperFinding| finding_view(f)) == tamper_findings(log@, log@.len() as int),
        r.is_valid == (r.findings@.len() == 0),
{
    let entries = log.entries();
    let ghost s = log@;
    let mut findings: Vec<TamperFinding> = Vec::new();
    let mut seen: Vec<[u8; 16]> = Vec::new();
    let mut i: usize = 0;
    while i < entries.len()
        invariant
            entries@ == s,
            0 <= i <= s.len(),
            seen@.len() == i,
            forall|j: int| 0 <= j < i ==> #[trigger] seen@[j] == s[j].entry_id,
            findings@.map_values(|f: TamperFinding| finding_view(f)) == tamper_findings(s, i as int),
        decreases s.len() - i,
    {
        let e = &entries[i];
        let id_text = uuid_to_string(&e.entry_id);
        let ghost before = findings@;
        let ghost id = Some(uuid_text(e.entry_id@));
        if !e.verify_hash() {
            let d = numbered("entry ", i, " stored hash doesn't match computed hash (entry was modified)");
            push_finding(&mut findings, i, TamperType::HashMismatch, d, &id_text);
        }
        let ghost after_hash = findings@;
        if i > 0 {
            if !e.verify_prev(&entries[i - 1]) {
                let d = numbered("entry ", i, " prev_hash doesn't match previous entry's hash (chain was broken)");
                push_finding(&mut findings, i, TamperType::PrevHashMismatch, d, &id_text);
            }
        } else {
            let g = genesis_hash();
            if !bytes_eq(&e.prev_hash, &g) {
                let d = String::from_str("first entry's prev_hash is not GENESIS_HASH (chain start was tampered)");
                push_finding(&mut findings, i, TamperType::MissingGenesis, d, &id_text);
            }
        }
        let ghost after_link = findings@;
        let dup = seen_before(&seen, &e.entry_id);
        assert(dup == duplicate_id(s, i as int)) by {
            if dup {
                let j = choose|j: int| 0 <= j < seen@.len() && #[trigger] seen@[j]@ == e.entry_id@;
                assert(s[j].entry_id@ == s[i as int].entry_id@);
            }
            if duplicate_id(s, i as int) {
                let j = choose|j: int| 0 <= j < i && #[trigger] s[j].entry_id@ == s[i as int].entry_id@;
                assert(seen@[j]@ == e.entry_id@);
            }
        }
        if dup {
            let mut d = numbered("entry ", i, " has duplicate entry ID ");
            d.append(id_text.as_str());
            d.append(" (entry was inserted)");
            push_finding(&mut findings, i, TamperType::DuplicateEntryId, d, &id_text);
        }
        seen.push(e.entry_id);
        proof {
            let v = |f: TamperFinding| finding_view(f);
            let ef = entry_findings(s, i as int);
            assert(findings@.map_values(v) =~= before.map_values(v) + ef);
        }
        i = i + 1;
    }
    TamperReport::with_findings(log.len(), findings)
}

proof fn lemma_entry_findings_empty(s: Seq<AuditEntry>, i: int)
    requires
        0 <= i < s.len(),
    ensures
        entry_findings(s, i).len() == 0 <==> (entry_ok(s, i) && !duplicate_id(s, i)),
{
}

proof fn lemma_findings_empty(s: Seq<AuditEntry>, n: int)
    requires
        0 <= n <= s.len(),
    ensures
        tamper_findings(s, n).len() == 0 <==> forall|i: int| 0 <= i < n ==> entry_ok(s, i) && !duplicate_id(s, i),
    decreases n,
{
    if n > 0 {
        lemma_findings_empty(s, n - 1);
        lemma_entry_findings_empty(s, n - 1);
    }
}

/// A scan finds nothing exactly when the chain is intact (as `verify_chain`
/// checks it) and no entry ID is used twice.
pub proof fn law_scan_clean_iff_intact(s: Seq<AuditEntry>)
    ensures
        tamper_findings(s, s.len() as int).len() == 0 <==> (chain_valid(s) && ids_unique(s)),
{
    lemma_findings_empty(s, s.len() as int);
    if chain_valid(s) && ids_unique(s) {
        assert forall|i: int| 0 <= i < s.len() implies entry_ok(s, i) && !duplicate_id(s, i) by {
            assert(entry_ok(s, i));
            if duplicate_id(s, i) {
                let j = choose|j: int| 0 <= j < i && #[trigger] s[j].entry_id@ == s[i].entry_id@;
                assert(s[j].entry_id@ != s[i].entry_id@);
            }
        }
    }
    if forall|i: int| 0 <= i < s.len() ==> entry_ok(s, i) && !duplicate_id(s, i) {
        assert forall|i: int, j: int| 0 <= i < j < s.len() implies #[trigger] s[i].entry_id@ != #[trigger] s[j].entry_id@ by {
            assert(!duplicate_id(s, j));
        }
    }
}

/// Whether entry `i` of `s` shows the fault a finding of kind `t` reports:
/// a stored hash that is not its computed hash; a previous hash that is not
/// its predecessor's hash; for the first entry, a previous hash that is not
/// the genesis hash; an ID that an earlier entry already carries.
pub open spec fn fault_at(s: Seq<AuditEntry>, i: int, t: TamperType) -> bool {
    match t {
        TamperType::HashMismatch => !hash_ok(s[i]),
        TamperType::PrevHashMismatch => i > 0 && s[i].prev_hash@ != s[i - 1].hash@,
        TamperType::MissingGenesis => i == 0 && s[0].prev_hash@ != genesis(),
        TamperType::EntryDeleted => false,
        TamperType::DuplicateEntryId => exists|j: int| 0 <= j < i && #[trigger] s[j].entry_id@ == s[i].entry_id@,
    }
}

proof fn lemma_entry_findings_exact(s: Seq<AuditEntry>, i: int)
    requires
        0 <= i < s.len(),
        s.len() <= usize::MAX,
    ensures
        forall|m: int| 0 <= m < entry_findings(s, i).len() ==> {
            let f = #[trigger] entry_findings(s, i)[m];
            f.0 == i && fault_at(s, i, f.1)
        },
        forall|t: TamperType| #[trigger] fault_at(s, i, t) ==>
            exists|m: int| 0 <= m < entry_findings(s, i).len() && #[trigger] entry_findings(s, i)[m].1 == t,
{
    let ef = entry_findings(s, i);
    assert forall|t: TamperType| #[trigger] fault_at(s, i, t) implies
        exists|m: int| 0 <= m < ef.len() && #[trigger] ef[m].1 == t by {
        let e = s[i];
        let nh: int = if !hash_ok(e) { 1 } else { 0 };
        let nl: int = if i > 0 { if e.prev_hash@ != s[i - 1].hash@ { 1 } else { 0 } } else {
            if e.prev_hash@ != genesis() { 1 } else { 0 } };
        match t {
            TamperType::HashMismatch => { assert(ef[0].1 == t); },
            TamperType::PrevHashMismatch => { assert(ef[nh].1 == t); },
            TamperType::MissingGenesis => { assert(ef[nh].1 == t); },
            TamperType::EntryDeleted => {},
            TamperType::DuplicateEntryId => { assert(ef[nh + nl].1 == t); },
        }
    }
}

proof fn lemma_findings_exact(s: Seq<AuditEntry>, n: int)
    requires
        0 <= n <= s.len(),
        s.len() <= usize::MAX,
    ensures
        forall|m: int| 0 <= m < tamper_findings(s, n).len() ==> {
            let f = #[trigger] tamper_findings(s, n)[m];
            f.0 < n && fault_at(s, f.0 as int, f.1)
        },
        forall|i: int, t: TamperType| 0 <= i < n && #[trigger] fault_at(s, i, t) ==>
            exists|m: int| 0 <= m < tamper_findings(s, n).len() && #[trigger] tamper_findings(s, n)[m] == (
                i as usize, t, tamper_findings(s, n)[m].2, tamper_findings(s, n)[m].3),
    decreases n,
{
    if n > 0 {
        lemma_findings_exact(s, n - 1);
        lemma_entry_findings_exact(s, n - 1);
        let before = tamper_findings(s, n - 1);
        let ef = entry_findings(s, n - 1);
        let all = tamper_findings(s, n);
        assert(all == before + ef);
        assert forall|m: int| 0 <= m < all.len() implies {
            let f = #[trigger] all[m];
            f.0 < n && fault_at(s, f.0 as int, f.1)
        } by {
            if m < before.len() {
                assert(all[m] == before[m]);
            } else {
                assert(all[m] == ef[m - before.len()]);
            }
        }
        assert forall|i: int, t: TamperType| 0 <= i < n && #[trigger] fault_at(s, i, t) implies
            exists|m: int| 0 <= m < all.len() && #[trigger] all[m] == (i as usize, t, all[m].2, all[m].3) by {
            if i < n - 1 {
                let m = choose|m: int| 0 <= m < before.len() && #[trigger] before[m] == (
                    i as usize, t, before[m].2, before[m].3);
                assert(all[m] == before[m]);
            } else {
                let m = choose|m: int| 0 <= m < ef.len() && #[trigger] ef[m].1 == t;
                assert(all[before.len() + m] == ef[m]);
            }
        }
    }
}

/// Every finding of a scan names the entry it is about: each finding's
/// index is that of an entry that shows the fault its kind reports (for a
/// duplicate ID, the later entry, whose ID an earlier one already
/// carries), and every such fault of every entry is reported at that
/// entry's index.
pub proof fn law_findings_name_their_entry(s: Seq<AuditEntry>)
    requires
        s.len() <= usize::MAX,
    ensures
        forall|m: int| 0 <= m < tamper_findings(s, s.len() as int).len() ==> {
            let f = #[trigger] tamper_findings(s, s.len() as int)[m];
            &&& f.0 < s.len()
            &&& fault_at(s, f.0 as int, f.1)
        },
        forall|i: int, t: TamperType| 0 <= i < s.len() && #[trigger] fault_at(s, i, t) ==>
            exists|m: int| 0 <= m < tamper_findings(s, s.len() as int).len()
                && #[trigger] tamper_findings(s, s.len() as int)[m].0 == i
                && tamper_findings(s, s.len() as int)[m].1 == t,
{
    let n = s.len() as int;
    lemma_findings_exact(s, n);
    let all = tamper_findings(s, n);
    assert forall|i: int, t: TamperType| 0 <= i < n && #[trigger] fault_at(s, i, t) implies
        exists|m: int| 0 <= m < all.len() && #[trigger] all[m].0 == i && all[m].1 == t by {
        let m = choose|m: int| 0 <= m < all.len() && #[trigger] all[m] == (i as usize, t, all[m].2, all[m].3);
        assert(all[m].0 == i);
    }
}

/// The audit entry for a human confirmation request: its ID and creation
/// time, decision `NeedHumanConfirm:` and the status, MEDIUM risk,
/// cognitive modality, normal override, source `hitl`; linked to
/// `prev_hash` and sealed.
pub fn hitl_to_audit_entry(request: &ConfirmRequest, prev_hash: [u8; 32]) -> (e: AuditEntry)
    ensures
        e.entry_id == request.id,
        e.timestamp == request.created_at,
        e.decision@ == "NeedHumanConfirm:"@ + request.status.spec_name(),
        e.risk_level@ == "Medium"@,
        e.modality@ == "Cognitive"@,
        e.override_flag@ == "Normal"@,
        e.source@ == "hitl"@,
        e.identity_label is None,
        e.prev_hash == prev_hash,
        hash_ok(e),
{
    let mut decision = String::from_str("NeedHumanConfirm:");
    decision.append(request.status.name());
    AuditEntry::sealed(
        request.id,
        request.created_at,
        decision,
        String::from_str("Medium"),
        String::from_str("Cognitive"),
        String::from_str("Normal"),
        String::from_str("hitl"),
        None,
        prev_hash,
    )
}

/// The audit entry for a catastrophic event: its ID, creation time, risk
/// level, modality and override flag, decision `HardOverridePass`, source
/// `catastrophic`; linked to `prev_hash` and sealed.
pub fn catastrophic_to_audit_entry(event: &CatastrophicEvent, prev_hash: [u8; 32]) -> (e: AuditEntry)
    ensures
        e.entry_id == event.id,
        e.timestamp == event.created_at,
        e.decision@ == "HardOverridePass"@,
        e.risk_level == event.risk_level,
        e.modality == event.modality,
        e.override_flag == event.override_flag,
        e.source@ == "catastrophic"@,
        e.identity_label is None,
        e.prev_hash == prev_hash,
        hash_ok(e),
{
    AuditEntry::sealed(
        event.id,
        event.created_at,
        String::from_str("HardOverridePass"),
        event.risk_level.clone(),
        event.modality.clone(),
        event.override_flag.clone(),
        String::from_str("catastrophic"),
        None,
        prev_hash,
    )
}

/// The decision an audit entry records for a reload outcome.
pub open spec fn reload_decision(status: ReloadStatus) -> Seq<char> {
    match status {
        ReloadStatus::Reloaded => "PolicyReloaded"@,
        ReloadStatus::UpToDate => "PolicyUpToDate"@,
        ReloadStatus::Failed => "PolicyReloadFailed"@,
    }
}

/// The audit entry for a policy reload: a fresh ID, the reload's time, the
/// decision for its outcome, LOW risk, cognitive modality, normal override,
/// source `policy_reload`; linked to `prev_hash` and sealed.
pub fn reload_to_audit_entry(event: &ReloadEvent, prev_hash: [u8; 32]) -> (e: AuditEntry)
    ensures
        e.timestamp == event.timestamp,
        e.decision@ == reload_decision(event.status),
        e.risk_level@ == "Low"@,
        e.modality@ == "Cognitive"@,
        e.override_flag@ == "Normal"@,
        e.source@ == "policy_reload"@,
        e.identity_label is None,
        e.prev_hash == prev_hash,
        hash_ok(e),
{
    let decision = match event.status {
        ReloadStatus::Reloaded => "PolicyReloaded",
        ReloadStatus::UpToDate => "PolicyUpToDate",
        ReloadStatus::Failed => "PolicyReloadFailed",
    };
    AuditEntry::sealed(
        new_uuid_v4(),
        event.timestamp,
        String::from_str(decision),
        String::from_str("Low"),
        String::from_str("Cognitive"),
        String::from_str("Normal"),
        String::from_str("policy_reload"),
        None,
        prev_hash,
    )
}

} // verus!
