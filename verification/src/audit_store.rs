//! WORM audit store: the append-only JSON-lines file behind an audit log.
//!
//! On start the store reloads the file, rebuilding the in-memory chain:
//! blank lines are skipped, every entry must carry its own hash and link to
//! the previous one (the first to genesis), and a line that does not parse
//! (a write cut short by a crash) ends the load, keeping what came before.
//! Reading and writing the file is the caller's part; this module holds
//! the chain rules and the store's state.

use vstd::prelude::*;

use crate::audit::{
    bytes_eq, chain_valid, entry_ok, genesis_hash, hash_ok, law_append_keeps_chain_valid, next_prev_hash,
    opt_str, AuditEntry, AuditLog,
};
use crate::ledger::is_blank;
use crate::pfp::Decision;
use crate::text::{decimal, push_decimal};

verus! {

/// Why the store failed.
#[derive(Debug)]
pub enum AuditStoreError {
    /// Reading or writing the file failed.
    Io(String),
    /// An entry could not be serialised.
    Json(String),
    /// The chain in the file or in memory is broken.
    ChainInvalid {
        /// Position of the faulty entry.
        index: usize,
        /// What is wrong with it.
        reason: String,
    },
    /// The store has no file.
    NotInitialized,
}

impl AuditStoreError {
    /// The error's message.
    pub open spec fn spec_text(self) -> Seq<char> {
        match self {
            AuditStoreError::Io(m) => "IO error: "@ + m@,
            AuditStoreError::Json(m) => "JSON error: "@ + m@,
            AuditStoreError::ChainInvalid { index, reason } => "chain verification failed at entry "@
                + decimal(index as nat) + ": "@ + reason@,
            AuditStoreError::NotInitialized => "store not initialized"@,
        }
    }

    /// The error's message.
    pub fn to_string(&self) -> (s: String)
        ensures
            s@ == self.spec_text(),
    {
        match self {
            AuditStoreError::Io(m) => {
                let mut s = String::from_str("IO error: ");
                s.append(m.as_str());
                s
            },
            AuditStoreError::Json(m) => {
                let mut s = String::from_str("JSON error: ");
                s.append(m.as_str());
                s
            },
            AuditStoreError::ChainInvalid { index, reason } => {
                let mut s = String::from_str("chain verification failed at entry ");
                push_decimal(&mut s, *index as u64);
                s.append(": ");
                s.append(reason.as_str());
                s
            },
            AuditStoreError::NotInitialized => String::from_str("store not initialized"),
        }
    }
}

/// Store statistics.
#[derive(Debug, Clone)]
pub struct StoreStats {
    /// Number of entries in the store.
    pub total_entries: usize,
    /// The file's path.
    pub file_path: String,
    /// The file's size in bytes.
    pub file_size_bytes: u64,
    /// Whether the chain is intact.
    pub chain_valid: bool,
    /// Timestamp of the oldest entry.
    pub oldest_timestamp: Option<u64>,
    /// Timestamp of the newest entry.
    pub newest_timestamp: Option<u64>,
}

/// One line of the store's file: its text, and the entry its trimmed text
/// parses to, where it parses.
#[derive(Debug, Clone)]
pub struct StoredLine {
    /// The line as read.
    pub text: String,
    /// The entry the line holds, or `None` where it does not parse.
    pub entry: Option<AuditEntry>,
}

/// Why an entry cannot follow the loaded entries, where it cannot: its hash
/// is wrong, or it does not link to the chain head.
pub open spec fn reject_reason(loaded: Seq<AuditEntry>, e: AuditEntry) -> Option<Seq<char>> {
    if !hash_ok(e) {
        Some("entry hash mismatch"@)
    } else if e.prev_hash@ != next_prev_hash(loaded) {
        if loaded.len() == 0 {
            Some("first entry prev_hash is not GENESIS_HASH"@)
        } else {
            Some("prev_hash mismatch"@)
        }
    } else {
        None
    }
}

/// What loading lines `i..` gives after `loaded` was loaded from the lines
/// before: the entries, or the position (in entries) and reason of the
/// first entry that breaks the chain. Blank lines are skipped; a line that
/// does not parse ends the load.
pub open spec fn load_outcome(lines: Seq<StoredLine>, i: int, loaded: Seq<AuditEntry>) -> Result<
    Seq<AuditEntry>,
    (nat, Seq<char>),
>
    decreases lines.len() - i,
{
    if i < 0 || i >= lines.len() {
        Ok(loaded)
    } else if is_blank(lines[i].text@) {
        load_outcome(lines, i + 1, loaded)
    } else {
        match lines[i].entry {
            None => Ok(loaded),
            Some(e) => match reject_reason(loaded, e) {
                Some(reason) => Err((loaded.len(), reason)),
                None => load_outcome(lines, i + 1, loaded.push(e)),
            },
        }
    }
}

/// What loading the whole file gives.
pub open spec fn loaded_entries(lines: Seq<StoredLine>) -> Result<Seq<AuditEntry>, (nat, Seq<char>)> {
    load_outcome(lines, 0, Seq::empty())
}

/// Why `e` cannot follow the entries of `log`, if it cannot.
fn check_next(log: &AuditLog, e: &AuditEntry) -> (r: Option<String>)
    ensures
        match reject_reason(log@, *e) {
            Some(m) => r matches Some(s) && s@ == m,
            None => r is None,
        },
{
    if !e.verify_hash() {
        return Some(String::from_str("entry hash mismatch"));
    }
    match log.latest() {
        Some(prev) => {
            if !bytes_eq(&e.prev_hash, &prev.hash) {
                return Some(String::from_str("prev_hash mismatch"));
            }
        },
        None => {
            let g = genesis_hash();
            if !bytes_eq(&e.prev_hash, &g) {
                return Some(String::from_str("first entry prev_hash is not GENESIS_HASH"));
            }
        },
    }
    None
}

/// Rebuild the in-memory log from the lines of the store's file: blank
/// lines are skipped, each entry is checked against its hash and its link
/// before it is added, and the first line that does not parse ends the
/// load (what follows a cut-short write is not trusted).
pub fn load_log(lines: &Vec<StoredLine>) -> (r: Result<AuditLog, AuditStoreError>)
    ensures
        match loaded_entries(lines@) {
            Ok(s) => r matches Ok(log) && log@ == s && log.spec_max_entries() is None,
            Err((idx, reason)) => r matches Err(AuditStoreError::ChainInvalid { index, reason: m })
                && index == idx && m@ == reason,
        },
{
    let mut log = AuditLog::new();
    let mut i: usize = 0;
    while i < lines.len()
        invariant
            0 <= i <= lines@.len(),
            log.spec_max_entries() is None,
            loaded_entries(lines@) == load_outcome(lines@, i as int, log@),
            log@.len() <= i,
        decreases lines@.len() - i,
    {
        let line = &lines[i];
        if !crate::ledger::blank(line.text.as_str()) {
            match &line.entry {
                None => {
                    return Ok(log);
                },
                Some(e) => {
                    match check_next(&log, e) {
                        Some(reason) => {
                            return Err(AuditStoreError::ChainInvalid { index: log.len(), reason });
                        },
                        None => {
                            let ghost before = log@;
                            log.push_raw(e.duplicate());
                            assert(log@ =~= before.push(*e));
                        },
                    }
                },
            }
        }
        i = i + 1;
    }
    Ok(log)
}

/// Whatever lines a load accepts form an intact chain.
pub proof fn law_loaded_chain_valid(lines: Seq<StoredLine>)
    ensures
        loaded_entries(lines) matches Ok(s) ==> chain_valid(s),
{
    lemma_load_keeps_valid(lines, 0, Seq::empty());
}

proof fn lemma_load_keeps_valid(lines: Seq<StoredLine>, i: int, loaded: Seq<AuditEntry>)
    requires
        chain_valid(loaded),
    ensures
        load_outcome(lines, i, loaded) matches Ok(s) ==> chain_valid(s),
    decreases lines.len() - i,
{
    if i < 0 || i >= lines.len() {
    } else if is_blank(lines[i].text@) {
        lemma_load_keeps_valid(lines, i + 1, loaded);
    } else {
        match lines[i].entry {
            None => {},
            Some(e) => {
                if reject_reason(loaded, e) is None {
                    law_append_keeps_chain_valid(loaded, e);
                    lemma_load_keeps_valid(lines, i + 1, loaded.push(e));
                }
            },
        }
    }
}

/// A line cut short at the end of the file (one that is not blank and does
/// not parse) changes nothing: the load gives what it gave without it.
pub proof fn law_truncated_tail_ignored(lines: Seq<StoredLine>, tail: StoredLine)
    requires
        !is_blank(tail.text@),
        tail.entry is None,
    ensures
        loaded_entries(lines.push(tail)) == loaded_entries(lines),
{
    lemma_tail_ignored(lines, tail, 0, Seq::empty());
}

proof fn lemma_tail_ignored(lines: Seq<StoredLine>, tail: StoredLine, i: int, loaded: Seq<AuditEntry>)
    requires
        !is_blank(tail.text@),
        tail.entry is None,
        0 <= i,
    ensures
        load_outcome(lines.push(tail), i, loaded) == load_outcome(lines, i, loaded),
    decreases lines.len() - i,
{
    let t = lines.push(tail);
    if i >= lines.len() {
        if i == lines.len() {
            assert(t[i] == tail);
        }
    } else {
        assert(t[i] == lines[i]);
        if is_blank(lines[i].text@) {
            lemma_tail_ignored(lines, tail, i + 1, loaded);
        } else {
            match lines[i].entry {
                None => {},
                Some(e) => {
                    if reject_reason(loaded, e) is None {
                        lemma_tail_ignored(lines, tail, i + 1, loaded.push(e));
                    }
                },
            }
        }
    }
}

/// The audit store: where its file is, and the chain it holds.
pub struct AuditStore {
    path: String,
    log: AuditLog,
}

impl AuditStore {
    /// The log keeps every entry: it has no capacity.
    #[verifier::type_invariant]
    closed spec fn keeps_all(&self) -> bool {
        self.log.spec_max_entries() is None
    }

    /// The file's path.
    pub closed spec fn spec_path(&self) -> Seq<char> {
        self.path@
    }

    /// The entries, oldest first.
    pub closed spec fn spec_entries(&self) -> Seq<AuditEntry> {
        self.log@
    }

    /// A store over the file at `path`, from the lines the file holds (none
    /// for a new file). Fails where the lines hold a broken chain.
    pub fn new(path: String, lines: &Vec<StoredLine>) -> (r: Result<AuditStore, AuditStoreError>)
        ensures
            match loaded_entries(lines@) {
                Ok(s) => r matches Ok(st) && st.spec_entries() == s && st.spec_path() == path@,
                Err((idx, reason)) => r matches Err(AuditStoreError::ChainInvalid { index, reason: m })
                    && index == idx && m@ == reason,
            },
    {
        match load_log(lines) {
            Ok(log) => Ok(AuditStore { path, log }),
            Err(e) => Err(e),
        }
    }

    /// Append a decision to the chain and return the new entry, which the
    /// caller then writes as one line at the end of the file.
    pub fn append(
        &mut self,
        decision: Decision,
        risk_level: &str,
        modality: &str,
        override_flag: &str,
        source: &str,
        identity_label: Option<&str>,
    ) -> (e: AuditEntry)
        ensures
            e.decision@ == decision.spec_name(),
            e.risk_level@ == risk_level@,
            e.modality@ == modality@,
            e.override_flag@ == override_flag@,
            e.source@ == source@,
            opt_str(e.identity_label) == match identity_label {
                Some(s) => Some(s@),
                None => None::<Seq<char>>,
            },
            e.prev_hash@ == next_prev_hash(old(self).spec_entries()),
            hash_ok(e),
            final(self).spec_entries() == old(self).spec_entries().push(e),
            final(self).spec_path() == old(self).spec_path(),
    {
        proof {
            use_type_invariant(&*self);
        }
        let mut log = AuditLog::new();
        std::mem::swap(&mut log, &mut self.log);
        let e = log.append(decision, risk_level, modality, override_flag, source, identity_label);
        self.log = log;
        e
    }

    /// Verify the chain held in memory.
    pub fn verify_chain(&self) -> (r: Result<(), AuditStoreError>)
        ensures
            r is Ok <==> chain_valid(self.spec_entries()),
            r matches Err(e) ==> (e matches AuditStoreError::ChainInvalid { index, .. }
                && index < self.spec_entries().len() && !entry_ok(self.spec_entries(), index as int)
                && forall|j: int| 0 <= j < index ==> entry_ok(self.spec_entries(), j)),
    {
        match self.log.verify_chain() {
            Ok(()) => Ok(()),
            Err((index, reason)) => Err(AuditStoreError::ChainInvalid { index, reason }),
        }
    }

    /// Number of entries.
    pub fn len(&self) -> (n: usize)
        ensures
            n == self.spec_entries().len(),
    {
        self.log.len()
    }

    /// Whether the store is empty.
    pub fn is_empty(&self) -> (b: bool)
        ensures
            b == (self.spec_entries().len() == 0),
    {
        self.log.is_empty()
    }

    /// The newest entry.
    pub fn latest(&self) -> (r: Option<&AuditEntry>)
        ensures
            match r {
                Some(e) => self.spec_entries().len() > 0 && *e == self.spec_entries().last(),
                None => self.spec_entries().len() == 0,
            },
    {
        self.log.latest()
    }

    /// Statistics, given the file's size.
    pub fn stats(&self, file_size_bytes: u64) -> (s: StoreStats)
        ensures
            s.total_entries == self.spec_entries().len(),
            s.file_path@ == self.spec_path(),
            s.file_size_bytes == file_size_bytes,
            s.chain_valid == chain_valid(self.spec_entries()),
            s.oldest_timestamp == if self.spec_entries().len() == 0 {
                None::<u64>
            } else {
                Some(self.spec_entries()[0].timestamp)
            },
            s.newest_timestamp == if self.spec_entries().len() == 0 {
                None::<u64>
            } else {
                Some(self.spec_entries().last().timestamp)
            },
    {
        let chain_valid = self.log.verify_chain().is_ok();
        let oldest_timestamp = match self.log.oldest() {
            Some(e) => Some(e.timestamp),
            None => None,
        };
        let newest_timestamp = match self.log.latest() {
            Some(e) => Some(e.timestamp),
            None => None,
        };
        StoreStats {
            total_entries: self.log.len(),
            file_path: self.path.clone(),
            file_size_bytes,
            chain_valid,
            oldest_timestamp,
            newest_timestamp,
        }
    }

    /// All entries, oldest first.
    pub fn entries(&self) -> (v: Vec<AuditEntry>)
        ensures
            v@ == self.spec_entries(),
    {
        self.log.entries()
    }

    /// The file's path.
    pub fn path(&self) -> (p: &str)
        ensures
            p@ == self.spec_path(),
    {
        self.path.as_str()
    }
}

} // verus!
