//! SAP (Security Attestation Protocol): the optional 28-byte enhancement
//! layer with sequence-counter replay protection. Not on the hard real-time
//! path: SAP checks run after the PFP decision.
//!
//! ```text
//! Byte 0-1:   Family-Magic (0xCF14)
//! Byte 2:     Protocol-ID (0x01)
//! Byte 3:     Version (0x01)
//! Byte 4-5:   Seq-Counter (big-endian)
//! Byte 6-19:  PAH-Hash (14 bytes)
//! Byte 20-27: PAH-Signature (8 bytes)
//! ```

use vstd::prelude::*;

verus! {

/// SAP frame size in bytes.
pub const SAP_SIZE: usize = 28;

/// SAP protocol ID (byte 2).
pub const SAP_PROTOCOL_ID: u8 = 0x01;

/// SAP version (byte 3).
pub const SAP_VERSION: u8 = 0x01;

/// Family magic (bytes 0-1, big-endian).
pub const FAMILY_MAGIC: u16 = 0xCF14;

/// Seq-Counter rotation threshold: at or above it, keys must rotate.
pub const SEQ_ROTATION_THRESHOLD: u16 = 65534;

/// Whether 28 bytes form a SAP header: family magic and protocol ID.
pub open spec fn is_valid_sap(b: Seq<u8>) -> bool {
    &&& b.len() == 28
    &&& b[0] == 0xCFu8
    &&& b[1] == 0x14u8
    &&& b[2] == SAP_PROTOCOL_ID
}

/// Sequence counter of SAP bytes.
pub open spec fn spec_seq(b: Seq<u8>) -> u16 {
    (b[4] as int * 256 + b[5] as int) as u16
}

/// SAP verification error.
#[derive(Debug, Clone, PartialEq, Eq)]
pub enum SapError {
    /// Invalid family magic; carries the big-endian value read.
    InvalidMagic(u16),
    /// Invalid protocol ID.
    InvalidProtocolId(u8),
    /// Unsupported SAP version.
    UnsupportedVersion(u8),
    /// Replay: the sequence number is not above the last one seen.
    ReplayDetected {
        /// Source identifier.
        source_id: String,
        /// Last seen sequence number.
        last_seen: u16,
        /// Received sequence number.
        received: u16,
    },
    /// Key rotation needed (seq at or above the threshold).
    KeyRotationNeeded(u16),
}

/// SAP header: 28 bytes, validated on construction, fields read lazily.
#[derive(Debug, Clone, Copy, PartialEq, Eq)]
pub struct SapHeader {
    raw: [u8; 28],
}

impl View for SapHeader {
    type V = Seq<u8>;

    closed spec fn view(&self) -> Seq<u8> {
        self.raw@
    }
}

impl SapHeader {
    #[verifier::type_invariant]
    spec fn inv(self) -> bool {
        is_valid_sap(self.raw@)
    }

    /// Parse a SAP header: the magic is checked first, then the protocol ID.
    pub fn from_bytes(bytes: [u8; 28]) -> (r: Result<SapHeader, SapError>)
        ensures
            r is Ok <==> is_valid_sap(bytes@),
            r matches Ok(h) ==> h@ == bytes@,
            !(bytes[0] == 0xCFu8 && bytes[1] == 0x14u8) ==> r == Err::<SapHeader, SapError>(
                SapError::InvalidMagic((bytes[0] as int * 256 + bytes[1] as int) as u16),
            ),
            (bytes[0] == 0xCFu8 && bytes[1] == 0x14u8 && bytes[2] != SAP_PROTOCOL_ID) ==> r
                == Err::<SapHeader, SapError>(SapError::InvalidProtocolId(bytes[2])),
    {
        if !(bytes[0] == 0xCFu8 && bytes[1] == 0x14u8) {
            let magic: u16 = (bytes[0] as u16) * 256 + (bytes[1] as u16);
            return Err(SapError::InvalidMagic(magic));
        }
        if bytes[2] != SAP_PROTOCOL_ID {
            return Err(SapError::InvalidProtocolId(bytes[2]));
        }
        Ok(SapHeader { raw: bytes })
    }

    /// The raw bytes.
    pub fn as_bytes(&self) -> (b: &[u8; 28])
        ensures
            b@ == self@,
            is_valid_sap(self@),
    {
        proof {
            use_type_invariant(self);
        }
        &self.raw
    }

    /// Protocol version (byte 3).
    pub fn version(&self) -> (v: u8)
        ensures
            v == self@[3],
    {
        self.raw[3]
    }

    /// Whether the version is the current one.
    pub fn is_version_current(&self) -> (b: bool)
        ensures
            b == (self@[3] == SAP_VERSION),
    {
        self.version() == SAP_VERSION
    }

    /// Sequence counter (bytes 4-5, big-endian).
    pub fn seq_counter(&self) -> (s: u16)
        ensures
            s == spec_seq(self@),
    {
        (self.raw[4] as u16) * 256 + (self.raw[5] as u16)
    }

    /// Whether key rotation is needed.
    pub fn needs_key_rotation(&self) -> (b: bool)
        ensures
            b == (spec_seq(self@) >= SEQ_ROTATION_THRESHOLD),
    {
        self.seq_counter() >= SEQ_ROTATION_THRESHOLD
    }

    /// PAH-Hash (bytes 6-19).
    pub fn pah_hash(&self) -> (h: [u8; 14])
        ensures
            h@ == self@.subrange(6, 20),
    {
        let mut h = [0u8; 14];
        let mut i: usize = 0;
        while i < 14
            invariant
                0 <= i <= 14,
                forall|k: int| 0 <= k < i ==> h@[k] == self@[6 + k],
            decreases 14 - i,
        {
            h[i] = self.raw[6 + i];
            i = i + 1;
        }
        assert(h@ =~= self@.subrange(6, 20));
        h
    }

    /// PAH-Signature (bytes 20-27).
    pub fn pah_signature(&self) -> (s: [u8; 8])
        ensures
            s@ == self@.subrange(20, 28),
    {
        let mut s = [0u8; 8];
        let mut i: usize = 0;
        while i < 8
            invariant
                0 <= i <= 8,
                forall|k: int| 0 <= k < i ==> s@[k] == self@[20 + k],
            decreases 8 - i,
        {
            s[i] = self.raw[20 + i];
            i = i + 1;
        }
        assert(s@ =~= self@.subrange(20, 28));
        s
    }
}

/// What a replay check does to the last-seen value of a source: a sequence
/// number not above the last one seen is a replay and changes nothing; any
/// other is accepted and becomes the last one seen.
pub open spec fn is_replay(last: Option<u16>, seq: u16) -> bool {
    match last {
        Some(l) => seq <= l,
        None => false,
    }
}

/// Pluggable storage of last-seen sequence numbers per source.
pub trait ReplayCache {
    /// Last sequence number seen from a source.
    spec fn spec_last_seen(&self, source_id: Seq<char>) -> Option<u16>;

    /// Accept `seq` if it is above the last one seen from `source_id` (or
    /// the source is new) and record it; otherwise report a replay.
    fn check_and_update(&mut self, source_id: &str, seq: u16) -> (r: Result<(), SapError>)
        ensures
            is_replay(old(self).spec_last_seen(source_id@), seq) ==> {
                &&& r matches Err(SapError::ReplayDetected { source_id: s, last_seen: l, received: q })
                    && s@ == source_id@ && Some(l) == old(self).spec_last_seen(source_id@) && q == seq
                &&& forall|k: Seq<char>| final(self).spec_last_seen(k) == old(self).spec_last_seen(k)
            },
            !is_replay(old(self).spec_last_seen(source_id@), seq) ==> {
                &&& r is Ok
                &&& forall|k: Seq<char>| final(self).spec_last_seen(k) == if k == source_id@ {
                    Some(seq)
                } else {
                    old(self).spec_last_seen(k)
                }
            },
    ;

    /// Last sequence number seen from a source.
    fn last_seen(&self, source_id: &str) -> (r: Option<u16>)
        ensures
            r == self.spec_last_seen(source_id@),
    ;
}

/// Whether no two entries share a source.
pub open spec fn keys_unique(s: Seq<(String, u16)>) -> bool {
    forall|i: int, j: int| 0 <= i < j < s.len() ==> #[trigger] s[i].0@ != #[trigger] s[j].0@
}

/// The value recorded for source `k`, if any.
pub open spec fn lookup(s: Seq<(String, u16)>, k: Seq<char>) -> Option<u16> {
    if exists|i: int| 0 <= i < s.len() && #[trigger] s[i].0@ == k {
        Some(s[choose|i: int| 0 <= i < s.len() && #[trigger] s[i].0@ == k].1)
    } else {
        None
    }
}

proof fn lemma_lookup_at(s: Seq<(String, u16)>, i: int)
    requires
        keys_unique(s),
        0 <= i < s.len(),
    ensures
        lookup(s, s[i].0@) == Some(s[i].1),
{
    let k = s[i].0@;
    assert(s[i].0@ == k);
    let j = choose|j: int| 0 <= j < s.len() && #[trigger] s[j].0@ == k;
    if j < i {
        assert(s[j].0@ != s[i].0@);
    } else if i < j {
        assert(s[i].0@ != s[j].0@);
    }
}

/// In-memory replay cache for single-process deployments.
#[derive(Debug, Default)]
pub struct InMemoryReplayCache {
    entries: Vec<(String, u16)>,
}

impl InMemoryReplayCache {
    #[verifier::type_invariant]
    spec fn inv(self) -> bool {
        keys_unique(self.entries@)
    }

    /// An empty cache.
    pub fn new() -> (c: InMemoryReplayCache)
        ensures
            forall|k: Seq<char>| c.spec_last_seen(k) is None,
    {
        InMemoryReplayCache { entries: Vec::new() }
    }

    fn find(entries: &Vec<(String, u16)>, key: &String) -> (r: Option<usize>)
        ensures
            match r {
                Some(i) => i < entries@.len() && entries@[i as int].0@ == key@,
                None => forall|i: int| 0 <= i < entries@.len() ==> entries@[i].0@ != key@,
            },
    {
        let mut i: usize = 0;
        while i < entries.len()
            invariant
                0 <= i <= entries@.len(),
                forall|j: int| 0 <= j < i ==> entries@[j].0@ != key@,
            decreases entries@.len() - i,
        {
            if entries[i].0 == *key {
                return Some(i);
            }
            i = i + 1;
        }
        None
    }
}

impl ReplayCache for InMemoryReplayCache {
    closed spec fn spec_last_seen(&self, k: Seq<char>) -> Option<u16> {
        lookup(self.entries@, k)
    }

    fn check_and_update(&mut self, source_id: &str, seq: u16) -> (r: Result<(), SapError>) {
        proof {
            use_type_invariant(&*self);
        }
        let key = String::from_str(source_id);
        let mut entries: Vec<(String, u16)> = Vec::new();
        std::mem::swap(&mut entries, &mut self.entries);
        let ghost old_s = entries@;
        match Self::find(&entries, &key) {
            Some(i) => {
                let last = entries[i].1;
                proof {
                    lemma_lookup_at(old_s, i as int);
                }
                if seq <= last {
                    self.entries = entries;
                    return Err(SapError::ReplayDetected { source_id: key, last_seen: last, received: seq });
                }
                entries.set(i, (key, seq));
                let ghost new_s = entries@;
                assert(keys_unique(new_s)) by {
                    assert forall|a: int, b: int| 0 <= a < b < new_s.len() implies
                        #[trigger] new_s[a].0@ != #[trigger] new_s[b].0@ by {
                        assert(old_s[a].0@ != old_s[b].0@);
                    }
                }
                assert forall|k: Seq<char>| lookup(new_s, k) == if k == source_id@ {
                    Some(seq)
                } else {
                    lookup(old_s, k)
                } by {
                    if k == source_id@ {
                        lemma_lookup_at(new_s, i as int);
                    } else if exists|j: int| 0 <= j < old_s.len() && #[trigger] old_s[j].0@ == k {
                        let j = choose|j: int| 0 <= j < old_s.len() && #[trigger] old_s[j].0@ == k;
                        lemma_lookup_at(old_s, j);
                        lemma_lookup_at(new_s, j);
                    } else {
                        assert forall|j: int| 0 <= j < new_s.len() implies #[trigger] new_s[j].0@ != k by {
                            assert(old_s[j].0@ != k);
                        }
                    }
                }
                self.entries = entries;
                Ok(())
            },
            None => {
                entries.push((key, seq));
                let ghost new_s = entries@;
                let ghost n = old_s.len() as int;
                assert(keys_unique(new_s)) by {
                    assert forall|a: int, b: int| 0 <= a < b < new_s.len() implies
                        #[trigger] new_s[a].0@ != #[trigger] new_s[b].0@ by {
                        if b < n {
                            assert(old_s[a].0@ != old_s[b].0@);
                        } else {
                            assert(old_s[a].0@ != source_id@);
                        }
                    }
                }
                assert forall|k: Seq<char>| lookup(new_s, k) == if k == source_id@ {
                    Some(seq)
                } else {
                    lookup(old_s, k)
                } by {
                    if k == source_id@ {
                        lemma_lookup_at(new_s, n);
                    } else if exists|j: int| 0 <= j < old_s.len() && #[trigger] old_s[j].0@ == k {
                        let j = choose|j: int| 0 <= j < old_s.len() && #[trigger] old_s[j].0@ == k;
                        lemma_lookup_at(old_s, j);
                        lemma_lookup_at(new_s, j);
                    } else {
                        assert forall|j: int| 0 <= j < new_s.len() implies #[trigger] new_s[j].0@ != k by {
                            if j < n {
                                assert(old_s[j].0@ != k);
                            }
                        }
                    }
                }
                self.entries = entries;
                Ok(())
            },
        }
    }

    fn last_seen(&self, source_id: &str) -> (r: Option<u16>) {
        proof {
            use_type_invariant(self);
        }
        let key = String::from_str(source_id);
        match Self::find(&self.entries, &key) {
            Some(i) => {
                proof {
                    lemma_lookup_at(self.entries@, i as int);
                }
                Some(self.entries[i].1)
            },
            None => None,
        }
    }
}

/// What verifying SAP bytes `b` from `source` does: an outdated version is
/// refused and leaves the cache alone; otherwise the replay check decides and
/// an accepted sequence number becomes the source's last one seen.
pub open spec fn verify_sap_post<C: ReplayCache>(
    b: Seq<u8>,
    source: Seq<char>,
    before: C,
    after: C,
    r: Result<(), SapError>,
) -> bool {
    if b[3] != SAP_VERSION {
        &&& r == Err::<(), SapError>(SapError::UnsupportedVersion(b[3]))
        &&& after == before
    } else {
        let last = before.spec_last_seen(source);
        if is_replay(last, spec_seq(b)) {
            &&& r matches Err(SapError::ReplayDetected { source_id: s, last_seen: l, received: q })
                && s@ == source && Some(l) == last && q == spec_seq(b)
            &&& forall|k: Seq<char>| after.spec_last_seen(k) == before.spec_last_seen(k)
        } else {
            &&& r is Ok
            &&& forall|k: Seq<char>| after.spec_last_seen(k) == if k == source {
                Some(spec_seq(b))
            } else {
                before.spec_last_seen(k)
            }
        }
    }
}

/// Verify a SAP header: the version must be current, then the sequence
/// counter must pass the replay check (which records it). Key rotation is a
/// separate workflow and does not fail verification.
pub fn verify_sap<C: ReplayCache>(sap: &SapHeader, source_id: &str, cache: &mut C) -> (r: Result<(), SapError>)
    ensures
        verify_sap_post(sap@, source_id@, *old(cache), *final(cache), r),
{
    if !sap.is_version_current() {
        return Err(SapError::UnsupportedVersion(sap.version()));
    }
    cache.check_and_update(source_id, sap.seq_counter())
}

/// Verify SAP from raw bytes: fewer than 28 bytes are refused as an invalid
/// magic of 0; otherwise the first 28 bytes are parsed and verified.
pub fn verify_sap_from_bytes<C: ReplayCache>(bytes: &[u8], source_id: &str, cache: &mut C) -> (r: Result<(), SapError>)
    ensures
        bytes@.len() < 28 ==> r == Err::<(), SapError>(SapError::InvalidMagic(0)) && *final(cache) == *old(cache),
        bytes@.len() >= 28 && !(bytes@[0] == 0xCFu8 && bytes@[1] == 0x14u8) ==> {
            &&& r == Err::<(), SapError>(SapError::InvalidMagic((bytes@[0] as int * 256 + bytes@[1] as int) as u16))
            &&& *final(cache) == *old(cache)
        },
        bytes@.len() >= 28 && bytes@[0] == 0xCFu8 && bytes@[1] == 0x14u8 && bytes@[2] != SAP_PROTOCOL_ID ==> {
            &&& r == Err::<(), SapError>(SapError::InvalidProtocolId(bytes@[2]))
            &&& *final(cache) == *old(cache)
        },
        bytes@.len() >= 28 && is_valid_sap(bytes@.subrange(0, 28)) ==>
            verify_sap_post(bytes@.subrange(0, 28), source_id@, *old(cache), *final(cache), r),
{
    if bytes.len() < SAP_SIZE {
        return Err(SapError::InvalidMagic(0));
    }
    let mut arr = [0u8; 28];
    let mut i: usize = 0;
    while i < 28
        invariant
            0 <= i <= 28,
            bytes@.len() >= 28,
            forall|k: int| 0 <= k < i ==> arr@[k] == bytes@[k],
        decreases 28 - i,
    {
        arr[i] = bytes[i];
        i = i + 1;
    }
    assert(arr@ =~= bytes@.subrange(0, 28));
    match SapHeader::from_bytes(arr) {
        Ok(sap) => verify_sap(&sap, source_id, cache),
        Err(e) => Err(e),
    }
}

/// Once a sequence number from a source is accepted, any later header from
/// that source with a number not above it is refused as a replay, and the
/// refusal leaves the cache as it was.
pub proof fn law_accepted_seq_blocks_replay<C: ReplayCache>(
    first: Seq<u8>,
    second: Seq<u8>,
    source: Seq<char>,
    c0: C,
    c1: C,
    c2: C,
    r1: Result<(), SapError>,
    r2: Result<(), SapError>,
)
    requires
        verify_sap_post(first, source, c0, c1, r1),
        r1 is Ok,
        second[3] == SAP_VERSION,
        spec_seq(second) <= spec_seq(first),
        verify_sap_post(second, source, c1, c2, r2),
    ensures
        r2 matches Err(SapError::ReplayDetected { last_seen, received, .. }) && last_seen == spec_seq(first)
            && received == spec_seq(second),
        forall|k: Seq<char>| c2.spec_last_seen(k) == c1.spec_last_seen(k),
{
    assert(c1.spec_last_seen(source) == Some(spec_seq(first)));
}

} // verus!
