//! The tamper-evident ledger: an append-only chain of JSON-lines records,
//! each carrying a SHA-256 digest over its own fields and the previous
//! record's digest, with optional signed anchors of the chain head.
//!
//! Reading and writing the ledger file, and JSON parsing, happen outside
//! this module: a file is handed in as its lines, each already parsed (or
//! found corrupt, or unreadable). Here the chain is verified, records are
//! built and digested, and the chain state is carried from one append to
//! the next.
//!
//! A record's digest is the lower-case hex SHA-256 of the canonical
//! whitespace-free JSON array `[seq,"ts",payload,"prev_hash"]`.

use vstd::prelude::*;
use vstd::utf8::encode_utf8;

use crate::base64::{b64_encode, base64_encode, is_white_space, white_space};
use crate::digest::{hex_lower, hex_lower_seq, sha256, sha256_digest, unix_now};
use crate::audit::opt_str;
use crate::ed25519::{ed25519_accepts, verify};
use crate::json::{get_field, get_member, json_tree, parse_json, Json, JsonValue};
use crate::text::{chars_vec, hex_lower_char, decimal, decimal_padded, push_decimal, push_decimal_padded};
use base64::Engine;

verus! {

// ---------------------------------------------------------------------------
// Timestamps
// ---------------------------------------------------------------------------

/// The civil date (year, month, day) of a day count since 1970-01-01
/// (Howard Hinnant's days-to-civil algorithm, for days from the epoch on).
pub open spec fn civil(z0: int) -> (int, int, int) {
    let z = z0 + 719_468;
    let era = z / 146_097;
    let doe = z - era * 146_097;
    let yoe = (doe - doe / 1460 + doe / 36_524 - doe / 146_096) / 365;
    let y = yoe + era * 400;
    let doy = doe - (365 * yoe + yoe / 4 - yoe / 100);
    let mp = (5 * doy + 2) / 153;
    let d = doy - (153 * mp + 2) / 5 + 1;
    let m = if mp < 10 { mp + 3 } else { mp - 9 };
    (if m <= 2 { y + 1 } else { y }, m, d)
}

#[verifier::spinoff_prover]
fn civil_from_days(z0: i64) -> (r: (i64, u32, u32))
    requires
        0 <= z0 <= 0x4_0000_0000_0000,
    ensures
        r.0 == civil(z0 as int).0,
        r.1 == civil(z0 as int).1 as u32,
        r.2 == civil(z0 as int).2 as u32,
{
    let z = z0 + 719_468;
    let era = z / 146_097;
    let doe = z - era * 146_097;
    assert(0 <= doe < 146_097);
    let yoe = (doe - doe / 1460 + doe / 36_524 - doe / 146_096) / 365;
    assert(0 <= yoe <= 146_097);
    let y = yoe + era * 400;
    let doy = doe - (365 * yoe + yoe / 4 - yoe / 100);
    assert(-60_000_000 <= doy <= 146_097);
    let mp = (5 * doy + 2) / 153;
    let d = doy - (153 * mp + 2) / 5 + 1;
    let m = if mp < 10 { mp + 3 } else { mp - 9 };
    (if m <= 2 { y + 1 } else { y }, m as u32, d as u32)
}

/// Second-precision RFC 3339 UTC text of a Unix time:
/// `YYYY-MM-DDTHH:MM:SSZ`.
pub open spec fn ts_text(secs: u64) -> Seq<char> {
    let date = civil((secs / 86_400) as int);
    let rem = secs % 86_400;
    decimal_padded(date.0 as nat, 4) + "-"@ + decimal_padded(date.1 as u32 as nat, 2) + "-"@
        + decimal_padded(date.2 as u32 as nat, 2) + "T"@ + decimal_padded((rem / 3600) as nat, 2) + ":"@
        + decimal_padded(((rem % 3600) / 60) as nat, 2) + ":"@ + decimal_padded((rem % 60) as nat, 2) + "Z"@
}

/// Second-precision RFC 3339 UTC text of a Unix time.
pub fn format_ts(secs: u64) -> (s: String)
    ensures
        s@ == ts_text(secs),
{
    let days = secs / 86_400;
    let rem = secs % 86_400;
    let (y, m, d) = civil_from_days(days as i64);
    assert(y >= 0) by {
        assert(civil(days as int).0 >= 0);
    }
    let mut s = String::new();
    push_decimal_padded(&mut s, y as u64, 4);
    s.append("-");
    push_decimal_padded(&mut s, m as u64, 2);
    s.append("-");
    push_decimal_padded(&mut s, d as u64, 2);
    s.append("T");
    push_decimal_padded(&mut s, rem / 3600, 2);
    s.append(":");
    push_decimal_padded(&mut s, (rem % 3600) / 60, 2);
    s.append(":");
    push_decimal_padded(&mut s, rem % 60, 2);
    s.append("Z");
    assert(s@ =~= ts_text(secs));
    s
}

/// A source of timestamps, injected so that chains replay identically.
pub trait Clock {
    /// The current time as RFC 3339 UTC text.
    fn now(&self) -> String;
}

/// The system clock.
#[derive(Debug, Clone, Copy, Default)]
pub struct SystemClock;

impl Clock for SystemClock {
    /// The system clock's time, whole seconds since the epoch, as RFC 3339
    /// UTC text.
    fn now(&self) -> (r: String)
        ensures
            exists|secs: u64| r@ == #[trigger] ts_text(secs),
    {
        let secs = unix_now();
        let r = format_ts(secs);
        assert(r@ == ts_text(secs));
        r
    }
}

// ---------------------------------------------------------------------------
// Errors
// ---------------------------------------------------------------------------

/// Error of a ledger operation.
#[derive(Debug, Clone)]
pub enum AuditError {
    /// Reading or writing the file failed.
    Io(String),
    /// A record could not be written as JSON.
    Json(String),
    /// The chain is empty.
    Empty(String),
    /// A line is not a valid record.
    CorruptLine {
        /// Line number (from 1).
        line: u64,
        /// What the parser reported.
        detail: String,
    },
    /// The chain is broken at a line.
    BrokenChain {
        /// Line number (from 1).
        line: u64,
        /// Why.
        reason: String,
    },
}

impl AuditError {
    /// The error's message.
    pub open spec fn spec_text(self) -> Seq<char> {
        match self {
            AuditError::Io(m) => "io error: "@ + m@,
            AuditError::Json(m) => "json error: "@ + m@,
            AuditError::Empty(m) => "chain is empty: "@ + m@,
            AuditError::CorruptLine { line, detail } => "line "@ + decimal(line as nat) + " is not valid json: "@ + detail@,
            AuditError::BrokenChain { line, reason } => "line "@ + decimal(line as nat) + ": "@ + reason@,
        }
    }

    /// The error's message.
    pub fn to_string(&self) -> (s: String)
        ensures
            s@ == self.spec_text(),
    {
        match self {
            AuditError::Io(m) => {
                let mut s = String::from_str("io error: ");
                s.append(m.as_str());
                s
            },
            AuditError::Json(m) => {
                let mut s = String::from_str("json error: ");
                s.append(m.as_str());
                s
            },
            AuditError::Empty(m) => {
                let mut s = String::from_str("chain is empty: ");
                s.append(m.as_str());
                s
            },
            AuditError::CorruptLine { line, detail } => {
                let mut s = String::from_str("line ");
                push_decimal(&mut s, *line);
                s.append(" is not valid json: ");
                s.append(detail.as_str());
                s
            },
            AuditError::BrokenChain { line, reason } => {
                let mut s = String::from_str("line ");
                push_decimal(&mut s, *line);
                s.append(": ");
                s.append(reason.as_str());
                s
            },
        }
    }
}

// ---------------------------------------------------------------------------
// Records
// ---------------------------------------------------------------------------

/// How `serde_json` writes one character inside a string literal: `"` and
/// `\` escaped with a backslash, backspace, tab, line feed, form feed and
/// carriage return as `\b`, `\t`, `\n`, `\f`, `\r`, the other control
/// characters below 0x20 as `\u00` and two lower-case hex digits, and
/// every other character as itself.
pub open spec fn json_char(c: char) -> Seq<char> {
    let n = c as u32;
    if c == '"' {
        seq!['\\', '"']
    } else if c == '\\' {
        seq!['\\', '\\']
    } else if n == 8 {
        seq!['\\', 'b']
    } else if n == 9 {
        seq!['\\', 't']
    } else if n == 10 {
        seq!['\\', 'n']
    } else if n == 12 {
        seq!['\\', 'f']
    } else if n == 13 {
        seq!['\\', 'r']
    } else if n < 32 {
        seq!['\\', 'u', '0', '0', hex_lower_char((n / 16) as nat), hex_lower_char((n % 16) as nat)]
    } else {
        seq![c]
    }
}

/// The escaped characters of a text inside a JSON string literal.
pub open spec fn json_escaped(s: Seq<char>) -> Seq<char>
    decreases s.len(),
{
    if s.len() == 0 {
        Seq::empty()
    } else {
        json_escaped(s.drop_last()) + json_char(s.last())
    }
}

/// The JSON string literal of a text, as `serde_json` writes it: the
/// escaped text between double quotes.
pub open spec fn json_string(s: Seq<char>) -> Seq<char> {
    seq!['"'] + json_escaped(s) + seq!['"']
}

/// `serde_json::to_string` of a string slice: its JSON string literal (the
/// escaping of `format_escaped_str`). Serializing a string cannot fail.
#[verifier::external_body]
pub(crate) fn json_quote(s: &str) -> (r: String)
    ensures
        r@ == json_string(s@),
{
    serde_json::to_string(s).unwrap_or_default()
}

/// One ledger record. The payload is the record's JSON value, as compact
/// JSON text; the ledger never interprets it.
#[derive(Debug, Clone)]
pub struct AuditRecord {
    /// Sequence number, from 0.
    pub seq: u64,
    /// Timestamp, RFC 3339 UTC.
    pub ts: String,
    /// Payload, compact JSON text.
    pub payload: String,
    /// Digest of the previous record (empty for the first).
    pub prev_hash: String,
    /// Digest of this record.
    pub hash: String,
}

/// The canonical text a record's digest covers: `[seq,"ts",payload,"prev"]`.
pub open spec fn canonical_text(seq: u64, ts: Seq<char>, payload: Seq<char>, prev: Seq<char>) -> Seq<char> {
    "["@ + decimal(seq as nat) + ","@ + json_string(ts) + ","@ + payload + ","@ + json_string(prev) + "]"@
}

/// The digest of a record's fields: lower-case hex SHA-256 of the UTF-8
/// canonical text.
pub open spec fn record_digest(seq: u64, ts: Seq<char>, payload: Seq<char>, prev: Seq<char>) -> Seq<char> {
    hex_lower_seq(sha256_digest(encode_utf8(canonical_text(seq, ts, payload, prev))))
}

fn digest_of(seq: u64, ts: &str, payload: &str, prev: &str) -> (h: String)
    ensures
        h@ == record_digest(seq, ts@, payload@, prev@),
{
    let mut text = String::from_str("[");
    push_decimal(&mut text, seq);
    text.append(",");
    let t = json_quote(ts);
    text.append(t.as_str());
    text.append(",");
    text.append(payload);
    text.append(",");
    let p = json_quote(prev);
    text.append(p.as_str());
    text.append("]");
    assert(text@ =~= canonical_text(seq, ts@, payload@, prev@));
    let d = sha256(text.as_str().as_bytes());
    hex_lower(d.as_slice())
}

impl AuditRecord {
    /// The digest of this record's own fields (the stored hash aside).
    pub fn digest(&self) -> (h: String)
        ensures
            h@ == record_digest(self.seq, self.ts@, self.payload@, self.prev_hash@),
    {
        digest_of(self.seq, self.ts.as_str(), self.payload.as_str(), self.prev_hash.as_str())
    }

    /// A record from its fields; its hash is computed, never taken from
    /// input.
    pub fn new(seq: u64, ts: &str, payload: &str, prev_hash: &str) -> (r: AuditRecord)
        ensures
            r.seq == seq,
            r.ts@ == ts@,
            r.payload@ == payload@,
            r.prev_hash@ == prev_hash@,
            r.hash@ == record_digest(seq, ts@, payload@, prev_hash@),
    {
        let hash = digest_of(seq, ts, payload, prev_hash);
        AuditRecord {
            seq,
            ts: String::from_str(ts),
            payload: String::from_str(payload),
            prev_hash: String::from_str(prev_hash),
            hash,
        }
    }
}

// ---------------------------------------------------------------------------
// Reading a chain
// ---------------------------------------------------------------------------

/// What a record's payload says of anchoring: whether it is an anchor, and
/// the head digest and base64 signature it carries (empty when absent).
#[derive(Debug, Clone)]
pub struct AnchorFields {
    /// Whether the payload's `anchor` is `true`.
    pub is_anchor: bool,
    /// The payload's `head` text.
    pub head: String,
    /// The payload's `sig` text.
    pub sig: String,
}

/// What one line of a ledger file holds.
#[derive(Debug, Clone)]
pub enum LineContent {
    /// A record, with its anchor fields.
    Record {
        /// The record.
        record: AuditRecord,
        /// Its anchor fields.
        anchor: AnchorFields,
    },
    /// Not a valid record; what the parser reported.
    Corrupt(String),
    /// The line could not be read; what the reader reported.
    Unreadable(String),
}

/// One line of a ledger file: its text and what it holds.
#[derive(Debug, Clone)]
pub struct ChainLine {
    /// The line's text (without its line break).
    pub text: String,
    /// What it holds.
    pub content: LineContent,
}

/// Whether a line holds only white space (it is skipped).
pub open spec fn is_blank(s: Seq<char>) -> bool {
    forall|i: int| 0 <= i < s.len() ==> is_white_space(#[trigger] s[i])
}

pub(crate) fn blank(s: &str) -> (b: bool)
    ensures
        b == is_blank(s@),
{
    let v = chars_vec(s);
    let mut i: usize = 0;
    while i < v.len()
        invariant
            v@ == s@,
            0 <= i <= v@.len(),
            forall|j: int| 0 <= j < i ==> is_white_space(#[trigger] s@[j]),
        decreases v@.len() - i,
    {
        if !white_space(v[i]) {
            return false;
        }
        i = i + 1;
    }
    true
}

/// Result of verifying a chain.
#[derive(Debug, Clone)]
pub struct VerifyReport {
    /// Records accepted.
    pub entries: u64,
    /// Whether the whole chain is intact.
    pub ok: bool,
    /// Line of the first break.
    pub first_break: Option<u64>,
    /// Why it broke.
    pub reason: Option<String>,
    /// Digest of the last record, for an intact chain.
    pub head_hash: Option<String>,
}

/// The outcome of replaying a chain.
pub enum ChainVerdict {
    /// Every record holds; the count and the head digest.
    Intact { entries: nat, head: Option<Seq<char>> },
    /// A record breaks the chain.
    Broken { entries: nat, line: nat, reason: Seq<char> },
    /// A line is not a record.
    Corrupt { line: nat, detail: Seq<char> },
    /// A line could not be read.
    Unreadable { detail: Seq<char> },
}

/// How a break report names the expected previous digest.
pub open spec fn expected_text(prev: Seq<char>) -> Seq<char> {
    if prev.len() == 0 { "empty (first record)"@ } else { prev }
}

/// Replaying lines `i..` of a chain, `entries` records accepted so far, the
/// last with digest `prev` (`head` once there is one): blank lines are
/// skipped; each record must link to `prev`, carry the next sequence number
/// and its own digest, in that order of checks.
pub open spec fn chain_verdict(lines: Seq<ChainLine>, i: int, entries: nat, prev: Seq<char>, head: Option<Seq<char>>) -> ChainVerdict
    decreases lines.len() - i,
{
    if i < 0 || i >= lines.len() {
        ChainVerdict::Intact { entries, head }
    } else {
        let l = lines[i];
        let line = (i + 1) as nat;
        match l.content {
            LineContent::Unreadable(d) => ChainVerdict::Unreadable { detail: d@ },
            LineContent::Corrupt(d) => if is_blank(l.text@) {
                chain_verdict(lines, i + 1, entries, prev, head)
            } else {
                ChainVerdict::Corrupt { line, detail: d@ }
            },
            LineContent::Record { record: r, .. } => if is_blank(l.text@) {
                chain_verdict(lines, i + 1, entries, prev, head)
            } else if r.prev_hash@ != prev {
                ChainVerdict::Broken { entries, line, reason: "prev_hash mismatch: expected "@ + expected_text(prev)
                    + ", got "@ + r.prev_hash@ }
            } else if r.seq != entries {
                ChainVerdict::Broken { entries, line, reason: "seq discontinuity: expected "@ + decimal(entries)
                    + ", got "@ + decimal(r.seq as nat) }
            } else if record_digest(r.seq, r.ts@, r.payload@, r.prev_hash@) != r.hash@ {
                ChainVerdict::Broken { entries, line, reason: "hash mismatch: stored "@ + r.hash@ + ", recomputed "@
                    + record_digest(r.seq, r.ts@, r.payload@, r.prev_hash@) }
            } else {
                chain_verdict(lines, i + 1, entries + 1, r.hash@, Some(r.hash@))
            },
        }
    }
}

/// Whether `r` reports verdict `v`.
pub open spec fn reports(v: ChainVerdict, r: Result<VerifyReport, AuditError>) -> bool {
    match v {
        ChainVerdict::Intact { entries, head } => r matches Ok(rep) && rep.entries == entries && rep.ok
            && rep.first_break is None && rep.reason is None && opt_str(rep.head_hash) == head,
        ChainVerdict::Broken { entries, line, reason } => r matches Ok(rep) && rep.entries == entries && !rep.ok
            && rep.first_break == Some(line as u64) && opt_str(rep.reason) == Some(reason) && rep.head_hash is None,
        ChainVerdict::Corrupt { line, detail } => r matches Err(AuditError::CorruptLine { line: l, detail: d })
            && l == line && d@ == detail,
        ChainVerdict::Unreadable { detail } => r matches Err(AuditError::Io(m)) && m@ == detail,
    }
}

/// A report of a chain broken at `line` after `entries` records.
pub fn broken(entries: u64, line: u64, reason: String) -> (r: VerifyReport)
    ensures
        r.entries == entries,
        !r.ok,
        r.first_break == Some(line),
        r.reason == Some(reason),
        r.head_hash is None,
{
    VerifyReport { entries, ok: false, first_break: Some(line), reason: Some(reason), head_hash: None }
}

/// Verify a chain given as its lines (`None`: the file does not exist,
/// which is an empty, intact chain). The first unreadable line is an I/O
/// error and the first corrupt line an error naming it; otherwise the
/// report says whether every record holds, or where and why the chain
/// first breaks.
pub fn verify_chain(lines: Option<&Vec<ChainLine>>) -> (r: Result<VerifyReport, AuditError>)
    ensures
        reports(
            match lines {
                Some(ls) => chain_verdict(ls@, 0, 0, Seq::empty(), None),
                None => ChainVerdict::Intact { entries: 0, head: None },
            },
            r,
        ),
{
    let ls = match lines {
        Some(ls) => ls,
        None => {
            return Ok(VerifyReport { entries: 0, ok: true, first_break: None, reason: None, head_hash: None });
        },
    };
    let ghost start = chain_verdict(ls@, 0, 0, Seq::empty(), None);
    let mut entries: u64 = 0;
    let mut prev = String::new();
    let mut head: Option<String> = None;
    let mut i: usize = 0;
    while i < ls.len()
        invariant
            0 <= i <= ls@.len(),
            entries <= i,
            lines == Some(ls),
            start == chain_verdict(ls@, 0, 0, Seq::empty(), None),
            start == chain_verdict(ls@, i as int, entries as nat, prev@, opt_str(head)),
        decreases ls@.len() - i,
    {
        let l = &ls[i];
        let line = (i + 1) as u64;
        match &l.content {
            LineContent::Unreadable(d) => {
                return Err(AuditError::Io(d.clone()));
            },
            LineContent::Corrupt(d) => {
                if !blank(l.text.as_str()) {
                    return Err(AuditError::CorruptLine { line, detail: d.clone() });
                }
            },
            LineContent::Record { record: rec, .. } => {
                if !blank(l.text.as_str()) {
                    if rec.prev_hash != prev {
                        let mut reason = String::from_str("prev_hash mismatch: expected ");
                        if prev.as_str().is_empty() {
                            reason.append("empty (first record)");
                        } else {
                            reason.append(prev.as_str());
                        }
                        reason.append(", got ");
                        reason.append(rec.prev_hash.as_str());
                        return Ok(broken(entries, line, reason));
                    }
                    if rec.seq != entries {
                        let mut reason = String::from_str("seq discontinuity: expected ");
                        push_decimal(&mut reason, entries);
                        reason.append(", got ");
                        push_decimal(&mut reason, rec.seq);
                        return Ok(broken(entries, line, reason));
                    }
                    let fresh = rec.digest();
                    if fresh != rec.hash {
                        let mut reason = String::from_str("hash mismatch: stored ");
                        reason.append(rec.hash.as_str());
                        reason.append(", recomputed ");
                        reason.append(fresh.as_str());
                        return Ok(broken(entries, line, reason));
                    }
                    prev = rec.hash.clone();
                    head = Some(rec.hash.clone());
                    entries = entries + 1;
                }
            },
        }
        i = i + 1;
    }
    Ok(VerifyReport { entries, ok: true, first_break: None, reason: None, head_hash: head })
}

impl VerifyReport {
    /// The report as text for people.
    pub open spec fn spec_text(self) -> Seq<char> {
        if self.ok {
            "OK \u{2014} "@ + decimal(self.entries as nat) + " records, head "@ + match self.head_hash {
                Some(h) => h@,
                None => "-"@,
            }
        } else if self.first_break is Some && self.reason is Some {
            "BROKEN at line "@ + decimal(self.first_break.unwrap() as nat) + " after "@ + decimal(self.entries as nat)
                + " records \u{2014} "@ + self.reason.unwrap()@
        } else {
            "BROKEN \u{2014} "@ + match self.reason {
                Some(r) => r@,
                None => "unknown"@,
            }
        }
    }

    /// The report as text for people.
    pub fn to_string(&self) -> (s: String)
        ensures
            s@ == self.spec_text(),
    {
        if self.ok {
            let mut s = String::from_str("OK \u{2014} ");
            push_decimal(&mut s, self.entries);
            s.append(" records, head ");
            match &self.head_hash {
                Some(h) => s.append(h.as_str()),
                None => s.append("-"),
            }
            s
        } else {
            match (&self.first_break, &self.reason) {
                (Some(line), Some(reason)) => {
                    let mut s = String::from_str("BROKEN at line ");
                    push_decimal(&mut s, *line);
                    s.append(" after ");
                    push_decimal(&mut s, self.entries);
                    s.append(" records \u{2014} ");
                    s.append(reason.as_str());
                    s
                },
                _ => {
                    let mut s = String::from_str("BROKEN \u{2014} ");
                    match &self.reason {
                        Some(r) => s.append(r.as_str()),
                        None => s.append("unknown"),
                    }
                    s
                },
            }
        }
    }
}

// ---------------------------------------------------------------------------
// Anchors
// ---------------------------------------------------------------------------

/// What standard base64 (padded, as the `base64` crate's `STANDARD` engine
/// decodes it) gives for a text: the bytes whose canonical padded encoding
/// the text is, if it is one.
pub open spec fn standard_base64(s: Seq<char>) -> Option<Seq<u8>> {
    if exists|b: Seq<u8>| #[trigger] b64_encode(b) == s {
        Some(choose|b: Seq<u8>| #[trigger] b64_encode(b) == s)
    } else {
        None
    }
}

/// `base64::engine::general_purpose::STANDARD.decode`. That engine requires
/// canonical padding and no trailing bits, so it decodes exactly the
/// canonical padded encodings, each to the bytes it encodes.
#[verifier::external_body]
fn standard_decode(s: &str) -> (r: Option<Vec<u8>>)
    ensures
        match r {
            Some(v) => standard_base64(s@) == Some(v@),
            None => standard_base64(s@) is None,
        },
{
    base64::engine::general_purpose::STANDARD.decode(s).ok()
}

/// Result of verifying a chain's anchors.
#[derive(Debug, Clone, Copy, PartialEq, Eq, Structural)]
pub struct AnchorReport {
    /// Anchors found.
    pub anchors: u64,
    /// Anchors required.
    pub min_anchors: u64,
    /// Whether every anchor verifies and there are enough.
    pub ok: bool,
    /// Line of the first bad anchor.
    pub first_bad: Option<u64>,
}

/// The outcome of checking a chain's anchors.
pub enum AnchorVerdict {
    /// Every anchor verifies; how many there are.
    Done { anchors: nat },
    /// An anchor fails (its signature does not decode or verify).
    Bad { anchors: nat, line: nat },
    /// A line is not a record.
    Corrupt { line: nat, detail: Seq<char> },
    /// A line could not be read.
    Unreadable { detail: Seq<char> },
}

/// Checking the anchors of lines `i..`, `anchors` counted so far: each
/// anchor's signature must decode and verify over its head digest under
/// `pubkey`. An anchor whose signature does not decode fails before it is
/// counted; one whose signature does not verify, after.
pub open spec fn anchor_verdict(lines: Seq<ChainLine>, i: int, anchors: nat, pubkey: Seq<u8>) -> AnchorVerdict
    decreases lines.len() - i,
{
    if i < 0 || i >= lines.len() {
        AnchorVerdict::Done { anchors }
    } else {
        let l = lines[i];
        let line = (i + 1) as nat;
        match l.content {
            LineContent::Unreadable(d) => AnchorVerdict::Unreadable { detail: d@ },
            LineContent::Corrupt(d) => if is_blank(l.text@) {
                anchor_verdict(lines, i + 1, anchors, pubkey)
            } else {
                AnchorVerdict::Corrupt { line, detail: d@ }
            },
            LineContent::Record { anchor: a, .. } => if is_blank(l.text@) || !a.is_anchor {
                anchor_verdict(lines, i + 1, anchors, pubkey)
            } else {
                match standard_base64(a.sig@) {
                    None => AnchorVerdict::Bad { anchors, line },
                    Some(sig) => if ed25519_accepts(pubkey, encode_utf8(a.head@), sig) {
                        anchor_verdict(lines, i + 1, anchors + 1, pubkey)
                    } else {
                        AnchorVerdict::Bad { anchors: anchors + 1, line }
                    },
                }
            },
        }
    }
}

/// Whether `r` reports anchor verdict `v` against a minimum.
pub open spec fn anchor_reports(v: AnchorVerdict, min_anchors: u64, r: Result<AnchorReport, AuditError>) -> bool {
    match v {
        AnchorVerdict::Done { anchors } => r == Ok::<AnchorReport, AuditError>(AnchorReport {
            anchors: anchors as u64,
            min_anchors,
            ok: anchors >= min_anchors,
            first_bad: None,
        }),
        AnchorVerdict::Bad { anchors, line } => r == Ok::<AnchorReport, AuditError>(AnchorReport {
            anchors: anchors as u64,
            min_anchors,
            ok: false,
            first_bad: Some(line as u64),
        }),
        AnchorVerdict::Corrupt { line, detail } => r matches Err(AuditError::CorruptLine { line: l, detail: d })
            && l == line && d@ == detail,
        AnchorVerdict::Unreadable { detail } => r matches Err(AuditError::Io(m)) && m@ == detail,
    }
}

/// Verify every anchor of a chain given as its lines (`None`: the file
/// does not exist, which has no anchors). A chain rewritten with fresh
/// digests still verifies as a chain, but its anchors' signatures fail
/// here; too few anchors fails too.
pub fn verify_anchors(lines: Option<&Vec<ChainLine>>, pubkey: &[u8; 32], min_anchors: u64)
    -> (r: Result<AnchorReport, AuditError>)
    ensures
        anchor_reports(
            match lines {
                Some(ls) => anchor_verdict(ls@, 0, 0, pubkey@),
                None => AnchorVerdict::Done { anchors: 0 },
            },
            min_anchors,
            r,
        ),
{
    let ls = match lines {
        Some(ls) => ls,
        None => {
            return Ok(AnchorReport { anchors: 0, min_anchors, ok: min_anchors == 0, first_bad: None });
        },
    };
    let ghost start = anchor_verdict(ls@, 0, 0, pubkey@);
    let mut anchors: u64 = 0;
    let mut i: usize = 0;
    while i < ls.len()
        invariant
            0 <= i <= ls@.len(),
            anchors <= i,
            lines == Some(ls),
            start == anchor_verdict(ls@, 0, 0, pubkey@),
            start == anchor_verdict(ls@, i as int, anchors as nat, pubkey@),
        decreases ls@.len() - i,
    {
        let l = &ls[i];
        let line = (i + 1) as u64;
        match &l.content {
            LineContent::Unreadable(d) => {
                return Err(AuditError::Io(d.clone()));
            },
            LineContent::Corrupt(d) => {
                if !blank(l.text.as_str()) {
                    return Err(AuditError::CorruptLine { line, detail: d.clone() });
                }
            },
            LineContent::Record { anchor: a, .. } => {
                if !blank(l.text.as_str()) && a.is_anchor {
                    match standard_decode(a.sig.as_str()) {
                        None => {
                            return Ok(AnchorReport { anchors, min_anchors, ok: false, first_bad: Some(line) });
                        },
                        Some(sig) => {
                            anchors = anchors + 1;
                            if !verify(pubkey, a.head.as_str().as_bytes(), sig.as_slice()) {
                                return Ok(AnchorReport { anchors, min_anchors, ok: false, first_bad: Some(line) });
                            }
                        },
                    }
                }
            },
        }
        i = i + 1;
    }
    Ok(AnchorReport { anchors, min_anchors, ok: anchors >= min_anchors, first_bad: None })
}

// ---------------------------------------------------------------------------
// Appending
// ---------------------------------------------------------------------------

/// Where the last readable record of a file leaves the chain, scanning
/// lines `i..` from `next` and `tail`: the next sequence number (one past
/// the last record's) and the last digest; or the first line that cannot be
/// read or is not a record (1-based), with what was reported.
pub open spec fn tail_state(lines: Seq<LineContent>, i: int, next: u64, tail: Seq<char>)
    -> Result<(u64, Seq<char>), (bool, nat, Seq<char>)>
    decreases lines.len() - i,
{
    if i < 0 || i >= lines.len() {
        Ok((next, tail))
    } else {
        match lines[i] {
            LineContent::Unreadable(d) => Err((true, (i + 1) as nat, d@)),
            LineContent::Corrupt(d) => Err((false, (i + 1) as nat, d@)),
            LineContent::Record { record: r, .. } => tail_state(lines, i + 1, (r.seq + 1) as u64, r.hash@),
        }
    }
}

/// Recover the chain state from a file's lines (each line parsed as a
/// record, none skipped): the sequence number after the last record and the
/// last digest; an empty file starts at 0 with an empty digest.
pub fn scan_tail(lines: &Vec<LineContent>) -> (r: Result<(u64, String), AuditError>)
    requires
        forall|i: int| 0 <= i < lines@.len() ==> (#[trigger] lines@[i] matches LineContent::Record { record: rec, .. }
            ==> rec.seq < u64::MAX),
    ensures
        match tail_state(lines@, 0, 0, Seq::empty()) {
            Ok((next, tail)) => r matches Ok((n, t)) && n == next && t@ == tail,
            Err((true, _, d)) => r matches Err(AuditError::Io(m)) && m@ == d,
            Err((false, line, d)) => r matches Err(AuditError::CorruptLine { line: l, detail: m })
                && l == line && m@ == d,
        },
{
    let ghost start = tail_state(lines@, 0, 0, Seq::empty());
    let mut next: u64 = 0;
    let mut tail = String::new();
    let mut i: usize = 0;
    while i < lines.len()
        invariant
            0 <= i <= lines@.len(),
            forall|k: int| 0 <= k < lines@.len() ==> (#[trigger] lines@[k] matches LineContent::Record { record: rec, .. }
                ==> rec.seq < u64::MAX),
            start == tail_state(lines@, 0, 0, Seq::empty()),
            start == tail_state(lines@, i as int, next, tail@),
        decreases lines@.len() - i,
    {
        match &lines[i] {
            LineContent::Unreadable(d) => {
                return Err(AuditError::Io(d.clone()));
            },
            LineContent::Corrupt(d) => {
                return Err(AuditError::CorruptLine { line: (i + 1) as u64, detail: d.clone() });
            },
            LineContent::Record { record: rec, .. } => {
                next = rec.seq + 1;
                tail = rec.hash.clone();
            },
        }
        i = i + 1;
    }
    Ok((next, tail))
}

/// The payload of an anchor record, as compact JSON with its keys in
/// order: `{"anchor":true,"head":<head>,"sig":<base64 of the signature>}`.
pub open spec fn anchor_text(head: Seq<char>, sig: Seq<u8>) -> Seq<char> {
    "{\"anchor\":true,\"head\":"@ + json_string(head) + ",\"sig\":"@ + json_string(b64_encode(sig)) + "}"@
}

/// The payload of the anchor record that witnesses the chain head `head`
/// with the signature `sig` over it.
pub fn anchor_payload(head: &str, sig: &[u8]) -> (p: String)
    ensures
        p@ == anchor_text(head@, sig@),
{
    let mut p = String::from_str("{\"anchor\":true,\"head\":");
    let h = json_quote(head);
    p.append(h.as_str());
    p.append(",\"sig\":");
    let encoded = base64_encode(sig);
    let q = json_quote(encoded.as_str());
    p.append(q.as_str());
    p.append("}");
    p
}

/// The anchor fields of a record payload that is this JSON value: whether
/// its `anchor` member is `true`, and its `head` and `sig` texts (empty where
/// missing or not texts).
pub open spec fn anchor_fields_of(t: Json) -> (bool, Seq<char>, Seq<char>) {
    (
        get_field(t, "anchor"@) == Some(Json::Bool(true)),
        match get_field(t, "head"@) {
            Some(Json::Text(h)) => h,
            _ => Seq::empty(),
        },
        match get_field(t, "sig"@) {
            Some(Json::Text(g)) => g,
            _ => Seq::empty(),
        },
    )
}

fn member_text(v: &JsonValue, k: &str) -> (s: String)
    ensures
        s@ == match get_field(v@, k@) {
            Some(Json::Text(h)) => h,
            _ => Seq::empty(),
        },
{
    match get_member(v, k) {
        Some(JsonValue::Text(t)) => t.clone(),
        _ => String::new(),
    }
}

/// The anchor fields of a record's payload text: read as JSON, a payload
/// whose `anchor` member is `true` is an anchor, carrying its `head` and
/// `sig` texts. A payload that is not JSON is no anchor.
pub fn anchor_fields(payload: &str) -> (a: AnchorFields)
    ensures
        match json_tree(encode_utf8(payload@)) {
            Ok(t) => (a.is_anchor, a.head@, a.sig@) == anchor_fields_of(t),
            Err(_) => !a.is_anchor && a.head@ == Seq::<char>::empty() && a.sig@ == Seq::<char>::empty(),
        },
{
    match parse_json(payload.as_bytes()) {
        Ok(v) => {
            let is_anchor = match get_member(&v, "anchor") {
                Some(JsonValue::Bool(b)) => *b,
                _ => false,
            };
            AnchorFields { is_anchor, head: member_text(&v, "head"), sig: member_text(&v, "sig") }
        },
        Err(_) => AnchorFields { is_anchor: false, head: String::new(), sig: String::new() },
    }
}

/// The state an append-only chain carries between appends: the next
/// sequence number, the digest of the last record, and the anchoring
/// interval with the records appended since the last anchor.
#[derive(Debug, Clone)]
pub struct ChainState {
    next_seq: u64,
    tail_hash: String,
    anchor_every: Option<u64>,
    since_anchor: u64,
}

impl ChainState {
    /// The next sequence number.
    pub closed spec fn spec_next_seq(&self) -> u64 {
        self.next_seq
    }

    /// The last record's digest.
    pub closed spec fn spec_tail(&self) -> Seq<char> {
        self.tail_hash@
    }

    /// The anchoring interval, if anchoring.
    pub closed spec fn spec_anchor_every(&self) -> Option<u64> {
        self.anchor_every
    }

    /// Records appended since the last anchor.
    pub closed spec fn spec_since_anchor(&self) -> u64 {
        self.since_anchor
    }

    /// The state of a chain opened where a scan of its tail left it, without
    /// anchoring.
    pub fn opened(next_seq: u64, tail_hash: String) -> (s: ChainState)
        ensures
            s.spec_next_seq() == next_seq,
            s.spec_tail() == tail_hash@,
            s.spec_anchor_every() is None,
            s.spec_since_anchor() == 0,
    {
        ChainState { next_seq, tail_hash, anchor_every: None, since_anchor: 0 }
    }

    /// Anchor every `every` records (at least one).
    pub fn with_anchor(self, every: u64) -> (s: ChainState)
        ensures
            s.spec_next_seq() == self.spec_next_seq(),
            s.spec_tail() == self.spec_tail(),
            s.spec_anchor_every() == Some(if every >= 1 { every } else { 1u64 }),
            s.spec_since_anchor() == self.spec_since_anchor(),
    {
        let every = if every >= 1 { every } else { 1 };
        ChainState { anchor_every: Some(every), ..self }
    }

    /// The next sequence number.
    pub fn next_seq(&self) -> (n: u64)
        ensures
            n == self.spec_next_seq(),
    {
        self.next_seq
    }

    /// The last record's digest.
    pub fn tail_hash(&self) -> (h: &str)
        ensures
            h@ == self.spec_tail(),
    {
        self.tail_hash.as_str()
    }

    /// The records appended since the last anchor.
    pub fn since_anchor(&self) -> (n: u64)
        ensures
            n == self.spec_since_anchor(),
    {
        self.since_anchor
    }

    /// Whether an anchor is due before the next record: anchoring, with a
    /// signer, and the interval reached.
    pub fn anchor_due(&self, has_signer: bool) -> (b: bool)
        ensures
            b == (has_signer && (self.spec_anchor_every() matches Some(every) && self.spec_since_anchor() >= every)),
    {
        match self.anchor_every {
            Some(every) => has_signer && self.since_anchor >= every,
            None => false,
        }
    }

    /// The record to append next: the next sequence number, linked to the
    /// last digest.
    pub fn next_record(&self, ts: &str, payload: &str) -> (r: AuditRecord)
        ensures
            r.seq == self.spec_next_seq(),
            r.ts@ == ts@,
            r.payload@ == payload@,
            r.prev_hash@ == self.spec_tail(),
            r.hash@ == record_digest(r.seq, ts@, payload@, self.spec_tail()),
    {
        AuditRecord::new(self.next_seq, ts, payload, self.tail_hash.as_str())
    }

    /// A record was written: the chain moves past it.
    pub fn committed(&mut self, record: &AuditRecord)
        requires
            old(self).spec_next_seq() < u64::MAX,
        ensures
            final(self).spec_next_seq() == old(self).spec_next_seq() + 1,
            final(self).spec_tail() == record.hash@,
            final(self).spec_anchor_every() == old(self).spec_anchor_every(),
            final(self).spec_since_anchor() == old(self).spec_since_anchor(),
    {
        self.next_seq = self.next_seq + 1;
        self.tail_hash = record.hash.clone();
    }

    /// An anchor was written: counting starts again.
    pub fn anchored(&mut self)
        ensures
            final(self).spec_since_anchor() == 0,
            final(self).spec_next_seq() == old(self).spec_next_seq(),
            final(self).spec_tail() == old(self).spec_tail(),
            final(self).spec_anchor_every() == old(self).spec_anchor_every(),
    {
        self.since_anchor = 0;
    }

    /// A record was appended with anchoring: when anchoring, it counts
    /// towards the next anchor.
    pub fn counted(&mut self)
        requires
            old(self).spec_since_anchor() < u64::MAX,
        ensures
            final(self).spec_since_anchor() == if old(self).spec_anchor_every() is Some {
                (old(self).spec_since_anchor() + 1) as u64
            } else {
                old(self).spec_since_anchor()
            },
            final(self).spec_next_seq() == old(self).spec_next_seq(),
            final(self).spec_tail() == old(self).spec_tail(),
            final(self).spec_anchor_every() == old(self).spec_anchor_every(),
    {
        if self.anchor_every.is_some() {
            self.since_anchor = self.since_anchor + 1;
        }
    }
}

/// The digest the next record must link to: the head, or empty before the
/// first record.
pub open spec fn link_target(head: Option<Seq<char>>) -> Seq<char> {
    match head {
        Some(h) => h,
        None => Seq::empty(),
    }
}

proof fn lemma_verdict_push(lines: Seq<ChainLine>, l: ChainLine, i: int, entries: nat, prev: Seq<char>, head: Option<Seq<char>>)
    requires
        0 <= i <= lines.len(),
        head matches Some(x) ==> prev == x,
    ensures
        chain_verdict(lines, i, entries, prev, head) matches ChainVerdict::Intact { entries: e, head: h } ==> {
            &&& (head is Some ==> h is Some)
            &&& chain_verdict(lines.push(l), i, entries, prev, head)
                == chain_verdict(lines.push(l), lines.len() as int, e, if h is Some { h.unwrap() } else { prev }, h)
        },
    decreases lines.len() - i,
{
    let t = lines.push(l);
    if i < lines.len() {
        assert(t[i] == lines[i]);
        let li = lines[i];
        match li.content {
            LineContent::Record { record: r, .. } => {
                if !is_blank(li.text@) {
                    lemma_verdict_push(lines, l, i + 1, entries + 1, r.hash@, Some(r.hash@));
                    if r.prev_hash@ == prev && r.seq == entries && record_digest(r.seq, r.ts@, r.payload@, r.prev_hash@) == r.hash@ {
                        assert(chain_verdict(lines, i, entries, prev, head) == chain_verdict(lines, i + 1, entries + 1, r.hash@, Some(r.hash@)));
                        assert(chain_verdict(t, i, entries, prev, head) == chain_verdict(t, i + 1, entries + 1, r.hash@, Some(r.hash@)));
                    }
                } else {
                    lemma_verdict_push(lines, l, i + 1, entries, prev, head);
                    assert(chain_verdict(lines, i, entries, prev, head) == chain_verdict(lines, i + 1, entries, prev, head));
                    assert(chain_verdict(t, i, entries, prev, head) == chain_verdict(t, i + 1, entries, prev, head));
                }
            },
            LineContent::Corrupt(_) => {
                lemma_verdict_push(lines, l, i + 1, entries, prev, head);
                if is_blank(li.text@) {
                    assert(chain_verdict(lines, i, entries, prev, head) == chain_verdict(lines, i + 1, entries, prev, head));
                    assert(chain_verdict(t, i, entries, prev, head) == chain_verdict(t, i + 1, entries, prev, head));
                }
            },
            LineContent::Unreadable(_) => {},
        }
    } else {
        assert(chain_verdict(lines, i, entries, prev, head) == (ChainVerdict::Intact { entries, head }));
    }
}

/// Appending a record built as the chain state builds the next one (it
/// links to the head digest, carries the next sequence number and its own
/// digest) to an intact chain keeps it intact, one record longer, with that
/// record's digest as head.
pub proof fn law_append_keeps_chain_intact(
    lines: Seq<ChainLine>,
    l: ChainLine,
    r: AuditRecord,
    entries: nat,
    head: Option<Seq<char>>,
)
    requires
        chain_verdict(lines, 0, 0, Seq::empty(), None) == (ChainVerdict::Intact { entries, head }),
        l.content matches LineContent::Record { record: rr, .. } && rr == r,
        !is_blank(l.text@),
        r.prev_hash@ == link_target(head),
        r.seq == entries,
        r.hash@ == record_digest(r.seq, r.ts@, r.payload@, r.prev_hash@),
    ensures
        chain_verdict(lines.push(l), 0, 0, Seq::empty(), None) == (ChainVerdict::Intact {
            entries: entries + 1,
            head: Some(r.hash@),
        }),
{
    lemma_verdict_push(lines, l, 0, 0, Seq::empty(), None);
    let t = lines.push(l);
    let n = lines.len() as int;
    assert(t[n] == l);
    assert(chain_verdict(t, n + 1, entries + 1, r.hash@, Some(r.hash@)) == (ChainVerdict::Intact {
        entries: entries + 1,
        head: Some(r.hash@),
    }));
    assert(chain_verdict(t, n, entries, link_target(head), head) == chain_verdict(t, n + 1, entries + 1, r.hash@, Some(r.hash@)));
}

proof fn lemma_fault_breaks(lines: Seq<ChainLine>, k: int, i: int, entries: nat, prev: Seq<char>, head: Option<Seq<char>>)
    requires
        0 <= i <= k < lines.len(),
        !is_blank(lines[k].text@),
        lines[k].content matches LineContent::Record { record: r, .. }
            && record_digest(r.seq, r.ts@, r.payload@, r.prev_hash@) != r.hash@,
    ensures
        !(chain_verdict(lines, i, entries, prev, head) is Intact),
    decreases k - i,
{
    if i < k {
        let li = lines[i];
        match li.content {
            LineContent::Record { record: r, .. } => {
                lemma_fault_breaks(lines, k, i + 1, entries + 1, r.hash@, Some(r.hash@));
                lemma_fault_breaks(lines, k, i + 1, entries, prev, head);
            },
            _ => {
                lemma_fault_breaks(lines, k, i + 1, entries, prev, head);
            },
        }
    }
}

/// A record whose stored digest is not the digest of its fields (it was
/// edited) makes the chain fail verification, wherever it stands.
pub proof fn law_edited_record_detected(lines: Seq<ChainLine>, k: int)
    requires
        0 <= k < lines.len(),
        !is_blank(lines[k].text@),
        lines[k].content matches LineContent::Record { record: r, .. }
            && record_digest(r.seq, r.ts@, r.payload@, r.prev_hash@) != r.hash@,
    ensures
        !(chain_verdict(lines, 0, 0, Seq::empty(), None) is Intact),
{
    lemma_fault_breaks(lines, k, 0, 0, Seq::empty(), None);
}

// ---------------------------------------------------------------------------
// What a record's digest covers
// ---------------------------------------------------------------------------

proof fn lemma_hex_lower_char_injective(a: nat, b: nat)
    requires
        a < 16,
        b < 16,
        hex_lower_char(a) == hex_lower_char(b),
    ensures
        a == b,
{
}

/// The shape of one escaped character: a character written as itself is
/// not a backslash; an escape starts with a backslash and is six characters
/// long after `\u`, two otherwise.
proof fn lemma_json_char_shape(c: char)
    ensures
        json_char(c).len() >= 1,
        json_char(c)[0] != '\\' ==> json_char(c) == seq![c],
        json_char(c)[0] == '\\' ==> json_char(c).len() >= 2,
        json_char(c)[0] == '\\' && json_char(c)[1] == 'u' ==> json_char(c).len() == 6,
        json_char(c)[0] == '\\' && json_char(c)[1] != 'u' ==> json_char(c).len() == 2,
{
}

proof fn lemma_json_char_injective(x: char, y: char)
    requires
        json_char(x) == json_char(y),
    ensures
        x == y,
{
    let jx = json_char(x);
    let jy = json_char(y);
    let nx = x as u32;
    let ny = y as u32;
    assert(jx[0] == jy[0]);
    if jx.len() == 6 {
        assert(jx[4] == jy[4] && jx[5] == jy[5]);
        assert(nx < 32 && ny < 32);
        lemma_hex_lower_char_injective((nx / 16) as nat, (ny / 16) as nat);
        lemma_hex_lower_char_injective((nx % 16) as nat, (ny % 16) as nat);
        assert(nx == ny);
    } else if jx.len() == 2 {
        assert(jx[1] == jy[1]);
    }
}

/// Escaped characters form a prefix code: one escape followed by more text
/// determines the escape and the rest.
proof fn lemma_json_char_prefix(x: char, y: char, r1: Seq<char>, r2: Seq<char>)
    requires
        json_char(x) + r1 == json_char(y) + r2,
    ensures
        x == y,
        r1 == r2,
{
    let jx = json_char(x);
    let jy = json_char(y);
    lemma_json_char_shape(x);
    lemma_json_char_shape(y);
    let t = jx + r1;
    assert(t[0] == jx[0] && t[0] == jy[0]);
    if jx[0] == '\\' {
        assert(t[1] == jx[1] && t[1] == jy[1]);
    }
    assert(jx.len() == jy.len());
    assert(jx =~= t.subrange(0, jx.len() as int));
    assert(jy =~= (jy + r2).subrange(0, jy.len() as int));
    lemma_json_char_injective(x, y);
    assert(r1 =~= t.subrange(jx.len() as int, t.len() as int));
    assert(r2 =~= (jy + r2).subrange(jy.len() as int, t.len() as int));
}

proof fn lemma_json_escaped_append(a: Seq<char>, b: Seq<char>)
    ensures
        json_escaped(a + b) == json_escaped(a) + json_escaped(b),
    decreases b.len(),
{
    if b.len() == 0 {
        assert(a + b =~= a);
        assert(json_escaped(a) + json_escaped(b) =~= json_escaped(a));
    } else {
        lemma_json_escaped_append(a, b.drop_last());
        assert((a + b).drop_last() =~= a + b.drop_last());
        assert((a + b).last() == b.last());
        assert(json_escaped(a + b) =~= json_escaped(a) + json_escaped(b.drop_last()) + json_char(b.last()));
    }
}

proof fn lemma_json_escaped_front(s: Seq<char>)
    requires
        s.len() > 0,
    ensures
        json_escaped(s) == json_char(s[0]) + json_escaped(s.drop_first()),
{
    let one = seq![s[0]];
    assert(s =~= one + s.drop_first());
    lemma_json_escaped_append(one, s.drop_first());
    assert(one.drop_last() =~= Seq::<char>::empty());
    assert(json_escaped(one.drop_last()).len() == 0);
    assert(one.last() == s[0]);
    assert(json_escaped(one) =~= json_escaped(one.drop_last()) + json_char(s[0]));
    assert(json_escaped(one) =~= json_char(s[0]));
}

proof fn lemma_json_escaped_injective(a: Seq<char>, b: Seq<char>)
    requires
        json_escaped(a) == json_escaped(b),
    ensures
        a == b,
    decreases a.len(),
{
    if a.len() == 0 {
        if b.len() > 0 {
            lemma_json_escaped_front(b);
            lemma_json_char_shape(b[0]);
        }
        assert(a =~= b);
    } else {
        lemma_json_escaped_front(a);
        lemma_json_char_shape(a[0]);
        if b.len() == 0 {
            assert(json_escaped(b).len() == 0);
        } else {
            lemma_json_escaped_front(b);
            lemma_json_char_prefix(a[0], b[0], json_escaped(a.drop_first()), json_escaped(b.drop_first()));
            lemma_json_escaped_injective(a.drop_first(), b.drop_first());
            assert(a =~= seq![a[0]] + a.drop_first());
            assert(b =~= seq![b[0]] + b.drop_first());
        }
    }
}

/// Two different texts have different JSON string literals.
pub proof fn law_json_string_injective(a: Seq<char>, b: Seq<char>)
    requires
        a != b,
    ensures
        json_string(a) != json_string(b),
{
    if json_string(a) == json_string(b) {
        let ja = json_string(a);
        assert(json_escaped(a) =~= ja.subrange(1, ja.len() - 1));
        assert(json_escaped(b) =~= json_string(b).subrange(1, ja.len() - 1));
        lemma_json_escaped_injective(a, b);
    }
}

/// The text of `p + x + q` between `p` and `q` is `x`: with the same
/// surroundings, different middles give different wholes.
pub(crate) proof fn lemma_middle_differs<A>(p: Seq<A>, x: Seq<A>, y: Seq<A>, q: Seq<A>)
    requires
        x != y,
    ensures
        p + x + q != p + y + q,
{
    if x.len() == y.len() {
        let a = p + x + q;
        let b = p + y + q;
        assert(x =~= a.subrange(p.len() as int, (p.len() + x.len()) as int));
        assert(y =~= b.subrange(p.len() as int, (p.len() + y.len()) as int));
    } else {
        assert((p + x + q).len() != (p + y + q).len());
    }
}

/// A SHA-256 collision between two different byte texts, as a record
/// digest sees it: the same lower-case hex digest.
pub open spec fn digest_collision(a: Seq<u8>, b: Seq<u8>) -> bool {
    a != b && hex_lower_seq(sha256_digest(a)) == hex_lower_seq(sha256_digest(b))
}

proof fn lemma_digit_char_injective(a: nat, b: nat)
    requires
        a < 10,
        b < 10,
        crate::text::digit_char(a) == crate::text::digit_char(b),
    ensures
        a == b,
{
}

proof fn lemma_decimal_injective(a: nat, b: nat)
    requires
        decimal(a) == decimal(b),
    ensures
        a == b,
    decreases a,
{
    crate::text::lemma_decimal_len_pos(a / 10);
    crate::text::lemma_decimal_len_pos(b / 10);
    if a >= 10 && b >= 10 {
        assert(decimal(a).last() == crate::text::digit_char(a % 10));
        assert(decimal(b).last() == crate::text::digit_char(b % 10));
        lemma_digit_char_injective(a % 10, b % 10);
        assert(decimal(a / 10) =~= decimal(a).drop_last());
        assert(decimal(b / 10) =~= decimal(b).drop_last());
        lemma_decimal_injective(a / 10, b / 10);
    } else if a < 10 && b < 10 {
        assert(decimal(a) == seq![crate::text::digit_char(a)]);
        assert(decimal(b) == seq![crate::text::digit_char(b)]);
        let da = seq![crate::text::digit_char(a)];
        let db = seq![crate::text::digit_char(b)];
        assert(da[0] == crate::text::digit_char(a));
        assert(db[0] == crate::text::digit_char(b));
        assert(da[0] == db[0]);
        lemma_digit_char_injective(a, b);
    } else if a < 10 {
        assert(decimal(a).len() == 1);
        assert(decimal(b) == decimal(b / 10).push(crate::text::digit_char(b % 10)));
        assert(decimal(a).len() != decimal(b).len());
    } else {
        assert(decimal(b).len() == 1);
        assert(decimal(a) == decimal(a / 10).push(crate::text::digit_char(a % 10)));
        assert(decimal(a).len() != decimal(b).len());
    }
}

/// A recorded field of a ledger record (every field but the stored hash).
pub enum RecordField {
    /// The sequence number.
    SeqNo,
    /// The timestamp.
    Ts,
    /// The payload.
    Payload,
    /// The previous record's digest.
    PrevHash,
}

/// Whether two records hold the same value in a field.
pub open spec fn same_record_field(a: AuditRecord, b: AuditRecord, f: RecordField) -> bool {
    match f {
        RecordField::SeqNo => a.seq == b.seq,
        RecordField::Ts => a.ts@ == b.ts@,
        RecordField::Payload => a.payload@ == b.payload@,
        RecordField::PrevHash => a.prev_hash@ == b.prev_hash@,
    }
}

/// Whether `b` is `a` with exactly field `f` changed and the stored digest
/// kept.
pub open spec fn record_field_edited(a: AuditRecord, b: AuditRecord, f: RecordField) -> bool {
    &&& !same_record_field(a, b, f)
    &&& forall|g: RecordField| g != f ==> #[trigger] same_record_field(a, b, g)
    &&& b.hash@ == a.hash@
}

/// The canonical text of a record.
pub open spec fn record_text(r: AuditRecord) -> Seq<char> {
    canonical_text(r.seq, r.ts@, r.payload@, r.prev_hash@)
}

/// The record digest covers every field: two records that differ in
/// exactly one of sequence number, timestamp, payload and previous digest
/// have different canonical texts `[seq,"ts",payload,"prev_hash"]`, and
/// different UTF-8 bytes under the digest; equal digests for them would be
/// a SHA-256 collision.
pub proof fn law_digest_covers_every_field(a: AuditRecord, b: AuditRecord, f: RecordField)
    requires
        !same_record_field(a, b, f),
        forall|g: RecordField| g != f ==> #[trigger] same_record_field(a, b, g),
    ensures
        record_text(a) != record_text(b),
        encode_utf8(record_text(a)) != encode_utf8(record_text(b)),
        record_digest(a.seq, a.ts@, a.payload@, a.prev_hash@) == record_digest(b.seq, b.ts@, b.payload@, b.prev_hash@)
            ==> digest_collision(encode_utf8(record_text(a)), encode_utf8(record_text(b))),
{
    assert(same_record_field(a, b, RecordField::SeqNo) || f == RecordField::SeqNo);
    assert(same_record_field(a, b, RecordField::Ts) || f == RecordField::Ts);
    assert(same_record_field(a, b, RecordField::Payload) || f == RecordField::Payload);
    assert(same_record_field(a, b, RecordField::PrevHash) || f == RecordField::PrevHash);
    let ds = decimal(a.seq as nat);
    let jt = json_string(a.ts@);
    let jp = json_string(a.prev_hash@);
    match f {
        RecordField::SeqNo => {
            if decimal(a.seq as nat) == decimal(b.seq as nat) {
                lemma_decimal_injective(a.seq as nat, b.seq as nat);
            }
            let tail = ","@ + jt + ","@ + a.payload@ + ","@ + jp + "]"@;
            lemma_middle_differs("["@, ds, decimal(b.seq as nat), tail);
            assert(record_text(a) =~= "["@ + ds + tail);
            assert(record_text(b) =~= "["@ + decimal(b.seq as nat) + tail);
        },
        RecordField::Ts => {
            law_json_string_injective(a.ts@, b.ts@);
            let head = "["@ + ds + ","@;
            let tail = ","@ + a.payload@ + ","@ + jp + "]"@;
            lemma_middle_differs(head, jt, json_string(b.ts@), tail);
            assert(record_text(a) =~= head + jt + tail);
            assert(record_text(b) =~= head + json_string(b.ts@) + tail);
        },
        RecordField::Payload => {
            let head = "["@ + ds + ","@ + jt + ","@;
            let tail = ","@ + jp + "]"@;
            lemma_middle_differs(head, a.payload@, b.payload@, tail);
            assert(record_text(a) =~= head + a.payload@ + tail);
            assert(record_text(b) =~= head + b.payload@ + tail);
        },
        RecordField::PrevHash => {
            law_json_string_injective(a.prev_hash@, b.prev_hash@);
            let head = "["@ + ds + ","@ + jt + ","@ + a.payload@ + ","@;
            lemma_middle_differs(head, jp, json_string(b.prev_hash@), "]"@);
            assert(record_text(a) =~= head + jp + "]"@);
            assert(record_text(b) =~= head + json_string(b.prev_hash@) + "]"@);
        },
    }
    vstd::utf8::encode_utf8_decode_utf8(record_text(a));
    vstd::utf8::encode_utf8_decode_utf8(record_text(b));
}

proof fn lemma_edit_breaks_at(
    lines: Seq<ChainLine>,
    k: int,
    l2: ChainLine,
    i: int,
    entries: nat,
    prev: Seq<char>,
    head: Option<Seq<char>>,
)
    requires
        0 <= i <= k < lines.len(),
        !is_blank(lines[k].text@),
        !is_blank(l2.text@),
        lines[k].content is Record,
        l2.content is Record,
        ({
            let r = lines[k].content->record;
            let r2 = l2.content->record;
            ||| r2.prev_hash@ != r.prev_hash@
            ||| r2.seq != r.seq
            ||| record_digest(r2.seq, r2.ts@, r2.payload@, r2.prev_hash@) != r2.hash@
        }),
        chain_verdict(lines, i, entries, prev, head) is Intact,
    ensures
        chain_verdict(lines.update(k, l2), i, entries, prev, head) matches ChainVerdict::Broken { line, .. }
            && line == k + 1,
    decreases k - i,
{
    let t = lines.update(k, l2);
    if i < k {
        assert(t[i] == lines[i]);
        let li = lines[i];
        match li.content {
            LineContent::Record { record: r, .. } => {
                if is_blank(li.text@) {
                    lemma_edit_breaks_at(lines, k, l2, i + 1, entries, prev, head);
                } else {
                    lemma_edit_breaks_at(lines, k, l2, i + 1, entries + 1, r.hash@, Some(r.hash@));
                }
            },
            LineContent::Corrupt(_) => {
                lemma_edit_breaks_at(lines, k, l2, i + 1, entries, prev, head);
            },
            LineContent::Unreadable(_) => {},
        }
    } else {
        assert(t[k] == l2);
    }
}

/// Editing one field of a record in an intact chain (its stored digest
/// kept) is detected: the chain then breaks at that record's line, unless
/// the edited record's digest equals the original's, which would be a
/// SHA-256 collision between their canonical texts.
pub proof fn law_edited_record_breaks_at_its_line(lines: Seq<ChainLine>, k: int, l2: ChainLine, f: RecordField)
    requires
        chain_verdict(lines, 0, 0, Seq::empty(), None) is Intact,
        0 <= k < lines.len(),
        !is_blank(lines[k].text@),
        !is_blank(l2.text@),
        lines[k].content is Record,
        l2.content is Record,
        record_field_edited(lines[k].content->record, l2.content->record, f),
    ensures
        ({
            let r = lines[k].content->record;
            let r2 = l2.content->record;
            ||| chain_verdict(lines.update(k, l2), 0, 0, Seq::empty(), None) matches ChainVerdict::Broken { line, .. }
                && line == k + 1
            ||| digest_collision(encode_utf8(record_text(r)), encode_utf8(record_text(r2)))
        }),
{
    let r = lines[k].content->record;
    let r2 = l2.content->record;
    if record_digest(r.seq, r.ts@, r.payload@, r.prev_hash@) != r.hash@ {
        lemma_fault_breaks(lines, k, 0, 0, Seq::empty(), None);
    }
    law_digest_covers_every_field(r, r2, f);
    assert(same_record_field(r, r2, RecordField::SeqNo) || f == RecordField::SeqNo);
    assert(same_record_field(r, r2, RecordField::PrevHash) || f == RecordField::PrevHash);
    if r2.prev_hash@ != r.prev_hash@ || r2.seq != r.seq
        || record_digest(r2.seq, r2.ts@, r2.payload@, r2.prev_hash@) != r2.hash@ {
        lemma_edit_breaks_at(lines, k, l2, 0, 0, Seq::empty(), None);
    }
}

} // verus!
