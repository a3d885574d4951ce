//! Audit log: SHA-256 chained, append-only, tamper-evident decision records.
//!
//! Each entry holds the hash of the previous entry; its own hash covers the
//! previous hash and all its fields. The first entry links to the all-zero
//! genesis hash.

use vstd::prelude::*;
use std::collections::VecDeque;
use vstd::bytes::{spec_u64_to_le_bytes, u64_to_le_bytes};
use vstd::utf8::encode_utf8;

use crate::digest::{new_uuid_v4, sha256, sha256_digest, unix_now};
use crate::pfp::Decision;
use crate::text::push_decimal;

verus! {

/// Genesis hash: 32 zero bytes, the previous hash of the first entry.
pub const GENESIS_HASH: [u8; 32] = [
    0u8, 0u8, 0u8, 0u8, 0u8, 0u8, 0u8, 0u8, 0u8, 0u8, 0u8, 0u8, 0u8, 0u8, 0u8, 0u8,
    0u8, 0u8, 0u8, 0u8, 0u8, 0u8, 0u8, 0u8, 0u8, 0u8, 0u8, 0u8, 0u8, 0u8, 0u8, 0u8,
];

/// The genesis hash as a byte sequence.
pub open spec fn genesis() -> Seq<u8> {
    Seq::new(32, |i: int| 0u8)
}

/// The genesis hash.
pub fn genesis_hash() -> (h: [u8; 32])
    ensures
        h@ == genesis(),
{
    let h = [0u8; 32];
    assert(h@ =~= genesis());
    h
}

/// One decision record of the audit chain.
#[derive(Debug, Clone)]
pub struct AuditEntry {
    /// Unique entry ID (UUID bytes).
    pub entry_id: [u8; 16],
    /// Unix timestamp (seconds).
    pub timestamp: u64,
    /// Decision (Pass/Reject/NeedHumanConfirm/HardOverridePass).
    pub decision: String,
    /// Risk level name.
    pub risk_level: String,
    /// Modality name.
    pub modality: String,
    /// Override flag name.
    pub override_flag: String,
    /// Source of the request.
    pub source: String,
    /// Identity label used for credential injection, if any.
    pub identity_label: Option<String>,
    /// Hash of the previous entry.
    pub prev_hash: [u8; 32],
    /// Hash of this entry.
    pub hash: [u8; 32],
}

/// The characters of an optional string.
pub open spec fn opt_str(o: Option<String>) -> Option<Seq<char>> {
    match o {
        Some(s) => Some(s@),
        None => None,
    }
}

/// The bytes an entry's hash covers: previous hash, entry ID, timestamp
/// (little-endian), decision, risk level, modality, override flag, source
/// and, when present, the identity label (strings as UTF-8).
pub open spec fn hash_preimage(e: AuditEntry) -> Seq<u8> {
    e.prev_hash@ + e.entry_id@ + spec_u64_to_le_bytes(e.timestamp) + encode_utf8(e.decision@)
        + encode_utf8(e.risk_level@) + encode_utf8(e.modality@) + encode_utf8(e.override_flag@)
        + encode_utf8(e.source@) + match e.identity_label {
            Some(l) => encode_utf8(l@),
            None => Seq::empty(),
        }
}

/// The hash an entry should carry.
pub open spec fn spec_entry_hash(e: AuditEntry) -> Seq<u8> {
    sha256_digest(hash_preimage(e))
}

/// Whether an entry's stored hash is its computed hash.
pub open spec fn hash_ok(e: AuditEntry) -> bool {
    e.hash@ == spec_entry_hash(e)
}

/// Whether entry `i` links to its predecessor (the first to genesis).
pub open spec fn link_ok(s: Seq<AuditEntry>, i: int) -> bool {
    if i == 0 {
        s[0].prev_hash@ == genesis()
    } else {
        s[i].prev_hash@ == s[i - 1].hash@
    }
}

/// Whether entry `i` is intact: correct hash and correct link.
pub open spec fn entry_ok(s: Seq<AuditEntry>, i: int) -> bool {
    hash_ok(s[i]) && link_ok(s, i)
}

/// Whether a sequence of entries forms an intact chain.
pub open spec fn chain_valid(s: Seq<AuditEntry>) -> bool {
    forall|i: int| 0 <= i < s.len() ==> #[trigger] entry_ok(s, i)
}

/// The previous hash the next appended entry takes.
pub open spec fn next_prev_hash(s: Seq<AuditEntry>) -> Seq<u8> {
    if s.len() == 0 { genesis() } else { s.last().hash@ }
}

/// The message `verify_chain` reports for a faulty entry.
pub open spec fn fault_message(s: Seq<AuditEntry>, i: int) -> Seq<char> {
    if !hash_ok(s[i]) {
        "entry "@ + crate::text::decimal(i as nat) + " hash mismatch"@
    } else if i > 0 {
        "entry "@ + crate::text::decimal(i as nat) + " prev_hash mismatch"@
    } else {
        "first entry prev_hash is not GENESIS_HASH"@
    }
}

pub(crate) fn bytes_eq<const N: usize>(a: &[u8; N], b: &[u8; N]) -> (r: bool)
    ensures
        r == (a@ == b@),
{
    let mut i: usize = 0;
    while i < N
        invariant
            0 <= i <= N,
            a@.len() == N,
            b@.len() == N,
            forall|k: int| 0 <= k < i ==> a@[k] == b@[k],
        decreases N - i,
    {
        if a[i] != b[i] {
            return false;
        }
        i = i + 1;
    }
    assert(a@ =~= b@);
    true
}

fn string_bytes_into(out: &mut Vec<u8>, s: &String)
    ensures
        final(out)@ == old(out)@ + encode_utf8(s@),
{
    out.extend_from_slice(s.as_str().as_bytes());
}

fn opt_string(o: Option<&str>) -> (r: Option<String>)
    ensures
        opt_str(r) == match o {
            Some(s) => Some(s@),
            None => None::<Seq<char>>,
        },
{
    match o {
        Some(s) => Some(String::from_str(s)),
        None => None,
    }
}

impl AuditEntry {
    /// Compute this entry's hash: SHA-256 over its preimage.
    pub fn compute_hash(&self) -> (h: [u8; 32])
        ensures
            h@ == spec_entry_hash(*self),
    {
        let mut data: Vec<u8> = Vec::new();
        data.extend_from_slice(self.prev_hash.as_slice());
        data.extend_from_slice(self.entry_id.as_slice());
        let ts = u64_to_le_bytes(self.timestamp);
        data.extend_from_slice(ts.as_slice());
        string_bytes_into(&mut data, &self.decision);
        string_bytes_into(&mut data, &self.risk_level);
        string_bytes_into(&mut data, &self.modality);
        string_bytes_into(&mut data, &self.override_flag);
        string_bytes_into(&mut data, &self.source);
        match &self.identity_label {
            Some(l) => string_bytes_into(&mut data, l),
            None => {},
        }
        assert(data@ =~= hash_preimage(*self));
        sha256(data.as_slice())
    }

    /// Whether the stored hash is the computed hash.
    pub fn verify_hash(&self) -> (b: bool)
        ensures
            b == hash_ok(*self),
    {
        let h = self.compute_hash();
        bytes_eq(&self.hash, &h)
    }

    /// Whether this entry's previous hash is `prev`'s hash.
    pub fn verify_prev(&self, prev: &AuditEntry) -> (b: bool)
        ensures
            b == (self.prev_hash@ == prev.hash@),
    {
        bytes_eq(&self.prev_hash, &prev.hash)
    }

    /// A field-by-field copy.
    pub fn duplicate(&self) -> (e: AuditEntry)
        ensures
            e == *self,
    {
        AuditEntry {
            entry_id: self.entry_id,
            timestamp: self.timestamp,
            decision: self.decision.clone(),
            risk_level: self.risk_level.clone(),
            modality: self.modality.clone(),
            override_flag: self.override_flag.clone(),
            source: self.source.clone(),
            identity_label: match &self.identity_label {
                Some(l) => Some(l.clone()),
                None => None,
            },
            prev_hash: self.prev_hash,
            hash: self.hash,
        }
    }

    /// Build an entry from its fields and seal it: its hash is computed.
    pub fn sealed(
        entry_id: [u8; 16],
        timestamp: u64,
        decision: String,
        risk_level: String,
        modality: String,
        override_flag: String,
        source: String,
        identity_label: Option<String>,
        prev_hash: [u8; 32],
    ) -> (e: AuditEntry)
        ensures
            e.entry_id == entry_id,
            e.timestamp == timestamp,
            e.decision == decision,
            e.risk_level == risk_level,
            e.modality == modality,
            e.override_flag == override_flag,
            e.source == source,
            e.identity_label == identity_label,
            e.prev_hash == prev_hash,
            hash_ok(e),
    {
        let mut e = AuditEntry {
            entry_id,
            timestamp,
            decision,
            risk_level,
            modality,
            override_flag,
            source,
            identity_label,
            prev_hash,
            hash: [0u8; 32],
        };
        let h = e.compute_hash();
        e.hash = h;
        e
    }
}

/// The entries kept after appending to `s` under a capacity: the newest
/// `max` entries, or all of them when there is no capacity.
pub open spec fn keep_newest(s: Seq<AuditEntry>, max: Option<usize>) -> Seq<AuditEntry> {
    match max {
        Some(m) => if s.len() > m { s.subrange(s.len() - m, s.len() as int) } else { s },
        None => s,
    }
}

/// `VecDeque::get_mut`: the element at `index` by mutable reference, or
/// `None` past the end; writing through it changes that element only.
#[verifier::external_body]
fn deque_get_mut(d: &mut VecDeque<AuditEntry>, index: usize) -> (r: Option<&mut AuditEntry>)
    ensures
        index < old(d)@.len() ==> (r matches Some(e) && *e == old(d)@[index as int]
            && final(d)@ == old(d)@.update(index as int, *final(e))),
        index >= old(d)@.len() ==> r is None && final(d)@ == old(d)@,
{
    d.get_mut(index)
}

/// In-memory audit log: the chained entries, oldest first, with an
/// optional capacity (the oldest entries are dropped beyond it).
#[derive(Debug, Clone)]
pub struct AuditLog {
    entries: VecDeque<AuditEntry>,
    max_entries: Option<usize>,
}

impl View for AuditLog {
    type V = Seq<AuditEntry>;

    closed spec fn view(&self) -> Seq<AuditEntry> {
        self.entries@
    }
}

impl AuditLog {
    /// The capacity, if any.
    pub closed spec fn spec_max_entries(&self) -> Option<usize> {
        self.max_entries
    }

    /// An empty log without capacity.
    pub fn new() -> (log: AuditLog)
        ensures
            log@ == Seq::<AuditEntry>::empty(),
            log.spec_max_entries() is None,
    {
        AuditLog { entries: VecDeque::new(), max_entries: None }
    }

    /// An empty log keeping at most `max_entries` entries.
    pub fn with_capacity(max_entries: usize) -> (log: AuditLog)
        ensures
            log@ == Seq::<AuditEntry>::empty(),
            log.spec_max_entries() == Some(max_entries),
    {
        AuditLog { entries: VecDeque::new(), max_entries: Some(max_entries) }
    }

    fn enforce_capacity(&mut self)
        ensures
            final(self)@ == keep_newest(old(self)@, old(self).max_entries),
            final(self).max_entries == old(self).max_entries,
    {
        match self.max_entries {
            Some(max) => {
                let ghost full = self.entries@;
                while self.entries.len() > max
                    invariant
                        self.max_entries == Some(max),
                        full.len() >= self.entries@.len(),
                        self.entries@ == full.subrange(full.len() - self.entries@.len(), full.len() as int),
                        full.len() > max ==> self.entries@.len() >= max,
                        full.len() <= max ==> self.entries@ == full,
                    decreases self.entries@.len(),
                {
                    let _ = self.entries.pop_front();
                }
                assert(self.entries@ =~= keep_newest(full, Some(max)));
            },
            None => {},
        }
    }

    /// Append a decision: the entry gets a fresh ID, the current time, the
    /// previous entry's hash (genesis for the first) and its own hash. The
    /// oldest entries are dropped beyond the capacity. Returns the entry.
    pub fn append(
        &mut self,
        decision: Decision,
        risk_level: &str,
        modality: &str,
        override_flag: &str,
        source: &str,
        identity_label: Option<&str>,
    ) -> (e: AuditEntry)
        ensures
            e.decision@ == decision.spec_name(),
            e.risk_level@ == risk_level@,
            e.modality@ == modality@,
            e.override_flag@ == override_flag@,
            e.source@ == source@,
            opt_str(e.identity_label) == match identity_label {
                Some(s) => Some(s@),
                None => None::<Seq<char>>,
            },
            e.prev_hash@ == next_prev_hash(old(self)@),
            hash_ok(e),
            final(self)@ == keep_newest(old(self)@.push(e), old(self).spec_max_entries()),
            final(self).spec_max_entries() == old(self).spec_max_entries(),
    {
        let n = self.entries.len();
        let prev_hash = if n > 0 { self.entries[n - 1].hash } else { genesis_hash() };
        let e = AuditEntry::sealed(
            new_uuid_v4(),
            unix_now(),
            String::from_str(decision.name()),
            String::from_str(risk_level),
            String::from_str(modality),
            String::from_str(override_flag),
            String::from_str(source),
            opt_string(identity_label),
            prev_hash,
        );
        let r = e.duplicate();
        self.entries.push_back(e);
        self.enforce_capacity();
        r
    }

    /// Number of entries in memory.
    pub fn len(&self) -> (n: usize)
        ensures
            n == self@.len(),
    {
        self.entries.len()
    }

    /// Whether the log is empty.
    pub fn is_empty(&self) -> (b: bool)
        ensures
            b == (self@.len() == 0),
    {
        self.entries.len() == 0
    }

    /// The newest entry.
    pub fn latest(&self) -> (r: Option<&AuditEntry>)
        ensures
            match r {
                Some(e) => self@.len() > 0 && *e == self@.last(),
                None => self@.len() == 0,
            },
    {
        let n = self.entries.len();
        if n > 0 { Some(&self.entries[n - 1]) } else { None }
    }

    /// The oldest entry in memory.
    pub fn oldest(&self) -> (r: Option<&AuditEntry>)
        ensures
            match r {
                Some(e) => self@.len() > 0 && *e == self@[0],
                None => self@.len() == 0,
            },
    {
        if self.entries.len() > 0 { Some(&self.entries[0]) } else { None }
    }

    /// The entry at `index` (0 = oldest in memory).
    pub fn get(&self, index: usize) -> (r: Option<&AuditEntry>)
        ensures
            match r {
                Some(e) => index < self@.len() && *e == self@[index as int],
                None => index >= self@.len(),
            },
    {
        if index < self.entries.len() {
            Some(&self.entries[index])
        } else {
            None
        }
    }

    /// A copy of all entries, oldest first.
    pub fn entries(&self) -> (v: Vec<AuditEntry>)
        ensures
            v@ == self@,
    {
        let mut out: Vec<AuditEntry> = Vec::new();
        let mut i: usize = 0;
        while i < self.entries.len()
            invariant
                0 <= i <= self@.len(),
                out@ == self@.subrange(0, i as int),
            decreases self@.len() - i,
        {
            out.push(self.entries[i].duplicate());
            i = i + 1;
            assert(out@ =~= self@.subrange(0, i as int));
        }
        assert(out@ =~= self@);
        out
    }

    /// Iterate over all entries, oldest first.
    pub fn iter(&self) -> (it: std::collections::vec_deque::Iter<'_, AuditEntry>)
        ensures
            vstd::std_specs::iter::IteratorSpec::remaining(&it) == self@.as_ref(),
    {
        proof {
            broadcast use vstd::std_specs::vecdeque::axiom_spec_iter;
        }
        self.entries.iter()
    }

    /// Verify the chain: each entry's hash, each link, and the genesis link
    /// of the first entry. On failure, reports the first faulty entry.
    pub fn verify_chain(&self) -> (r: Result<(), (usize, String)>)
        ensures
            r is Ok <==> chain_valid(self@),
            r matches Err((i, msg)) ==> {
                &&& i < self@.len()
                &&& !entry_ok(self@, i as int)
                &&& forall|j: int| 0 <= j < i ==> entry_ok(self@, j)
                &&& msg@ == fault_message(self@, i as int)
            },
    {
        let mut i: usize = 0;
        while i < self.entries.len()
            invariant
                0 <= i <= self@.len(),
                forall|j: int| 0 <= j < i ==> #[trigger] entry_ok(self@, j),
            decreases self@.len() - i,
        {
            let e = &self.entries[i];
            if !e.verify_hash() {
                let mut msg = String::from_str("entry ");
                push_decimal(&mut msg, i as u64);
                msg.append(" hash mismatch");
                assert(!entry_ok(self@, i as int));
                return Err((i, msg));
            }
            if i > 0 {
                if !e.verify_prev(&self.entries[i - 1]) {
                    let mut msg = String::from_str("entry ");
                    push_decimal(&mut msg, i as u64);
                    msg.append(" prev_hash mismatch");
                    assert(!entry_ok(self@, i as int));
                    return Err((i, msg));
                }
            } else {
                let g = genesis_hash();
                if !bytes_eq(&e.prev_hash, &g) {
                    assert(!entry_ok(self@, i as int));
                    return Err((i, String::from_str("first entry prev_hash is not GENESIS_HASH")));
                }
            }
            assert(entry_ok(self@, i as int));
            i = i + 1;
        }
        Ok(())
    }

    /// Drop all entries from memory.
    pub fn clear(&mut self)
        ensures
            final(self)@ == Seq::<AuditEntry>::empty(),
            final(self).spec_max_entries() == old(self).spec_max_entries(),
    {
        self.entries.clear();
    }

    /// Push a pre-computed entry unchanged (loading from storage); the
    /// oldest entries are dropped beyond the capacity.
    pub fn push_raw(&mut self, entry: AuditEntry)
        ensures
            final(self)@ == keep_newest(old(self)@.push(entry), old(self).spec_max_entries()),
            final(self).spec_max_entries() == old(self).spec_max_entries(),
    {
        self.entries.push_back(entry);
        self.enforce_capacity();
    }

    /// Mutable access to an entry (for tamper-detection tests): changing an
    /// entry through it breaks the chain.
    pub fn get_mut(&mut self, index: usize) -> (r: Option<&mut AuditEntry>)
        ensures
            index < old(self)@.len() ==> (r matches Some(e) && *e == old(self)@[index as int]
                && final(self)@ == old(self)@.update(index as int, *final(e))),
            index >= old(self)@.len() ==> r is None && final(self)@ == old(self)@,
            final(self).spec_max_entries() == old(self).spec_max_entries(),
    {
        deque_get_mut(&mut self.entries, index)
    }
}

impl Default for AuditLog {
    fn default() -> (log: Self)
        ensures
            log@ == Seq::<AuditEntry>::empty(),
            log.spec_max_entries() is None,
    {
        AuditLog::new()
    }
}

/// Appending an entry that links to the chain head and carries its correct
/// hash keeps an intact chain intact.
pub proof fn law_append_keeps_chain_valid(s: Seq<AuditEntry>, e: AuditEntry)
    requires
        chain_valid(s),
        e.prev_hash@ == next_prev_hash(s),
        hash_ok(e),
    ensures
        chain_valid(s.push(e)),
{
    let t = s.push(e);
    assert forall|i: int| 0 <= i < t.len() implies #[trigger] entry_ok(t, i) by {
        if i < s.len() {
            assert(entry_ok(s, i));
        }
    }
}

/// An empty log's chain is intact.
pub proof fn law_empty_chain_valid()
    ensures
        chain_valid(Seq::<AuditEntry>::empty()),
{
}

/// Breaking the link of any entry after the first (its previous hash no
/// longer equal to its predecessor's hash) makes the chain fail
/// verification.
pub proof fn law_broken_link_detected(s: Seq<AuditEntry>, k: int, bad: Seq<u8>)
    requires
        0 < k < s.len(),
        bad != s[k - 1].hash@,
        s[k].prev_hash@ == bad,
    ensures
        !chain_valid(s),
{
    assert(!entry_ok(s, k));
}

// ---------------------------------------------------------------------------
// What an entry's hash covers
// ---------------------------------------------------------------------------

/// A SHA-256 collision: two different byte texts with the same digest.
pub open spec fn sha256_collision(a: Seq<u8>, b: Seq<u8>) -> bool {
    a != b && sha256_digest(a) == sha256_digest(b)
}

/// A recorded field of an audit entry (every field but the stored hash).
pub enum EntryField {
    /// The previous entry's hash.
    PrevHash,
    /// The entry ID.
    EntryId,
    /// The timestamp.
    Timestamp,
    /// The decision.
    Decision,
    /// The risk level.
    RiskLevel,
    /// The modality.
    Modality,
    /// The override flag.
    OverrideFlag,
    /// The source.
    Source,
    /// The identity label.
    IdentityLabel,
}

/// The identity label's text; an absent label reads as empty.
pub open spec fn label_text(e: AuditEntry) -> Seq<char> {
    match e.identity_label {
        Some(l) => l@,
        None => Seq::empty(),
    }
}

/// Whether two entries hold the same value in a field (an absent identity
/// label counts as an empty one).
pub open spec fn same_field(a: AuditEntry, b: AuditEntry, f: EntryField) -> bool {
    match f {
        EntryField::PrevHash => a.prev_hash@ == b.prev_hash@,
        EntryField::EntryId => a.entry_id@ == b.entry_id@,
        EntryField::Timestamp => a.timestamp == b.timestamp,
        EntryField::Decision => a.decision@ == b.decision@,
        EntryField::RiskLevel => a.risk_level@ == b.risk_level@,
        EntryField::Modality => a.modality@ == b.modality@,
        EntryField::OverrideFlag => a.override_flag@ == b.override_flag@,
        EntryField::Source => a.source@ == b.source@,
        EntryField::IdentityLabel => label_text(a) == label_text(b),
    }
}

spec fn field_index(f: EntryField) -> int {
    match f {
        EntryField::PrevHash => 0,
        EntryField::EntryId => 1,
        EntryField::Timestamp => 2,
        EntryField::Decision => 3,
        EntryField::RiskLevel => 4,
        EntryField::Modality => 5,
        EntryField::OverrideFlag => 6,
        EntryField::Source => 7,
        EntryField::IdentityLabel => 8,
    }
}

spec fn field_at(i: int) -> EntryField {
    if i == 0 { EntryField::PrevHash }
    else if i == 1 { EntryField::EntryId }
    else if i == 2 { EntryField::Timestamp }
    else if i == 3 { EntryField::Decision }
    else if i == 4 { EntryField::RiskLevel }
    else if i == 5 { EntryField::Modality }
    else if i == 6 { EntryField::OverrideFlag }
    else if i == 7 { EntryField::Source }
    else { EntryField::IdentityLabel }
}

spec fn preimage_parts(e: AuditEntry) -> Seq<Seq<u8>> {
    seq![e.prev_hash@, e.entry_id@, spec_u64_to_le_bytes(e.timestamp), encode_utf8(e.decision@),
        encode_utf8(e.risk_level@), encode_utf8(e.modality@), encode_utf8(e.override_flag@),
        encode_utf8(e.source@), encode_utf8(label_text(e))]
}

proof fn lemma_preimage_parts(e: AuditEntry)
    ensures
        hash_preimage(e) == preimage_parts(e).flatten(),
{
    let ps = preimage_parts(e);
    let s8 = ps.subrange(0, 8);
    let s7 = ps.subrange(0, 7);
    let s6 = ps.subrange(0, 6);
    let s5 = ps.subrange(0, 5);
    let s4 = ps.subrange(0, 4);
    let s3 = ps.subrange(0, 3);
    let s2 = ps.subrange(0, 2);
    let s1 = ps.subrange(0, 1);
    let s0 = ps.subrange(0, 0);
    assert(ps =~= s8.push(ps[8]));
    assert(s8 =~= s7.push(ps[7]));
    assert(s7 =~= s6.push(ps[6]));
    assert(s6 =~= s5.push(ps[5]));
    assert(s5 =~= s4.push(ps[4]));
    assert(s4 =~= s3.push(ps[3]));
    assert(s3 =~= s2.push(ps[2]));
    assert(s2 =~= s1.push(ps[1]));
    assert(s1 =~= s0.push(ps[0]));
    s8.lemma_flatten_push(ps[8]);
    s7.lemma_flatten_push(ps[7]);
    s6.lemma_flatten_push(ps[6]);
    s5.lemma_flatten_push(ps[5]);
    s4.lemma_flatten_push(ps[4]);
    s3.lemma_flatten_push(ps[3]);
    s2.lemma_flatten_push(ps[2]);
    s1.lemma_flatten_push(ps[1]);
    s0.lemma_flatten_push(ps[0]);
    assert(s0 =~= Seq::<Seq<u8>>::empty());
    assert(s0.flatten() =~= Seq::<u8>::empty());
    assert(encode_utf8(Seq::<char>::empty()) =~= Seq::<u8>::empty());
    assert(hash_preimage(e) =~= ps.flatten());
}

/// Of two equally long lists of texts that differ in one place only, the
/// concatenations differ.
proof fn lemma_flatten_one_differs(ps: Seq<Seq<u8>>, qs: Seq<Seq<u8>>, k: int)
    requires
        ps.len() == qs.len(),
        0 <= k < ps.len(),
        ps[k] != qs[k],
        forall|i: int| 0 <= i < ps.len() && i != k ==> ps[i] == qs[i],
    ensures
        ps.flatten() != qs.flatten(),
{
    let n = ps.len() as int;
    let pa = ps.subrange(0, k);
    let pb = ps.subrange(k + 1, n);
    assert(pa =~= qs.subrange(0, k));
    assert(pb =~= qs.subrange(k + 1, n));
    assert(ps =~= pa + seq![ps[k]] + pb);
    assert(qs =~= pa + seq![qs[k]] + pb);
    vstd::seq_lib::lemma_flatten_concat(pa + seq![ps[k]], pb);
    vstd::seq_lib::lemma_flatten_concat(pa, seq![ps[k]]);
    vstd::seq_lib::lemma_flatten_concat(pa + seq![qs[k]], pb);
    vstd::seq_lib::lemma_flatten_concat(pa, seq![qs[k]]);
    seq![ps[k]].lemma_flatten_one_element();
    seq![qs[k]].lemma_flatten_one_element();
    crate::ledger::lemma_middle_differs(pa.flatten(), ps[k], qs[k], pb.flatten());
}

proof fn lemma_part_tracks_field(a: AuditEntry, b: AuditEntry, f: EntryField)
    ensures
        same_field(a, b, f) <==> preimage_parts(a)[field_index(f)] == preimage_parts(b)[field_index(f)],
{
    vstd::bytes::lemma_auto_spec_u64_to_from_le_bytes();
    vstd::utf8::encode_utf8_decode_utf8(a.decision@);
    vstd::utf8::encode_utf8_decode_utf8(b.decision@);
    vstd::utf8::encode_utf8_decode_utf8(a.risk_level@);
    vstd::utf8::encode_utf8_decode_utf8(b.risk_level@);
    vstd::utf8::encode_utf8_decode_utf8(a.modality@);
    vstd::utf8::encode_utf8_decode_utf8(b.modality@);
    vstd::utf8::encode_utf8_decode_utf8(a.override_flag@);
    vstd::utf8::encode_utf8_decode_utf8(b.override_flag@);
    vstd::utf8::encode_utf8_decode_utf8(a.source@);
    vstd::utf8::encode_utf8_decode_utf8(b.source@);
    vstd::utf8::encode_utf8_decode_utf8(label_text(a));
    vstd::utf8::encode_utf8_decode_utf8(label_text(b));
}

/// The entry hash covers every recorded field: two entries that differ in
/// exactly one field (an absent identity label counting as an empty one)
/// have different hash preimages.
pub proof fn law_hash_covers_every_field(a: AuditEntry, b: AuditEntry, f: EntryField)
    requires
        !same_field(a, b, f),
        forall|g: EntryField| g != f ==> #[trigger] same_field(a, b, g),
    ensures
        hash_preimage(a) != hash_preimage(b),
{
    let ps = preimage_parts(a);
    let qs = preimage_parts(b);
    lemma_part_tracks_field(a, b, f);
    assert forall|i: int| 0 <= i < ps.len() && i != field_index(f) implies ps[i] == qs[i] by {
        let g = field_at(i);
        assert(field_index(g) == i);
        assert(same_field(a, b, g));
        lemma_part_tracks_field(a, b, g);
    }
    lemma_flatten_one_differs(ps, qs, field_index(f));
    lemma_preimage_parts(a);
    lemma_preimage_parts(b);
}

/// Whether `b` is `a` with exactly field `f` changed and the stored hash
/// kept.
pub open spec fn entry_field_edited(a: AuditEntry, b: AuditEntry, f: EntryField) -> bool {
    &&& !same_field(a, b, f)
    &&& forall|g: EntryField| g != f ==> #[trigger] same_field(a, b, g)
    &&& b.hash == a.hash
}

/// Editing one field of an entry of an intact chain (its stored hash kept;
/// say its risk level) is detected: the hash preimage changes, and the
/// edited entry becomes the first faulty one, its hash no longer matching,
/// unless the two preimages collide under SHA-256.
pub proof fn law_edited_entry_detected(s: Seq<AuditEntry>, k: int, e: AuditEntry, f: EntryField)
    requires
        chain_valid(s),
        0 <= k < s.len(),
        entry_field_edited(s[k], e, f),
    ensures
        hash_preimage(s[k]) != hash_preimage(e),
        ({
            let t = s.update(k, e);
            ||| !hash_ok(t[k]) && !entry_ok(t, k) && forall|j: int| 0 <= j < k ==> #[trigger] entry_ok(t, j)
            ||| sha256_collision(hash_preimage(s[k]), hash_preimage(e))
        }),
{
    let a = s[k];
    assert(entry_ok(s, k));
    law_hash_covers_every_field(a, e, f);
    let t = s.update(k, e);
    assert forall|j: int| 0 <= j < k implies #[trigger] entry_ok(t, j) by {
        assert(entry_ok(s, j));
        assert(t[j] == s[j]);
        if j > 0 {
            assert(t[j - 1] == s[j - 1]);
        }
    }
}

} // verus!
