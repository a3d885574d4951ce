//! SHA-256 (through the `sha2` crate) and the clock and identifier sources
//! the audit trail draws on.

use vstd::prelude::*;
use sha2::Digest;

verus! {

/// The SHA-256 digest of a byte string (32 bytes).
pub uninterp spec fn sha256_digest(data: Seq<u8>) -> Seq<u8>;

/// SHA-256 of `data` through `sha2::Sha256::digest`. The contract claims
/// only that the result is the digest of exactly these bytes; the digest's
/// value is not stated.
#[verifier::external_body]
pub(crate) fn sha256(data: &[u8]) -> (h: [u8; 32])
    ensures
        h@ == sha256_digest(data@),
{
    let out = sha2::Sha256::digest(data);
    out.into()
}

/// Seconds since the Unix epoch from the system clock (0 if the clock is
/// before the epoch). Nothing is stated of the value: it depends on time.
#[verifier::external_body]
pub(crate) fn unix_now() -> u64 {
    std::time::SystemTime::now()
        .duration_since(std::time::UNIX_EPOCH)
        .map(|d| d.as_secs())
        .unwrap_or(0)
}

/// A fresh random (version 4) UUID from `uuid::Uuid::new_v4`, as its 16
/// bytes. Nothing is stated of the value: it is random.
#[verifier::external_body]
pub(crate) fn new_uuid_v4() -> [u8; 16] {
    *uuid::Uuid::new_v4().as_bytes()
}

/// Lower-case hexadecimal rendering of a byte string, two digits per byte.
pub open spec fn hex_lower_seq(b: Seq<u8>) -> Seq<char>
    decreases b.len(),
{
    if b.len() == 0 {
        Seq::empty()
    } else {
        hex_lower_seq(b.drop_last()) + seq![
            crate::text::hex_lower_char((b.last() / 16) as nat),
            crate::text::hex_lower_char((b.last() % 16) as nat),
        ]
    }
}

/// The hyphenated text of a UUID: its 16 bytes in lower-case hex, grouped
/// 8-4-4-4-12.
pub open spec fn uuid_text(b: Seq<u8>) -> Seq<char> {
    hex_lower_seq(b.subrange(0, 4)) + seq!['-'] + hex_lower_seq(b.subrange(4, 6)) + seq!['-']
        + hex_lower_seq(b.subrange(6, 8)) + seq!['-'] + hex_lower_seq(b.subrange(8, 10)) + seq!['-']
        + hex_lower_seq(b.subrange(10, 16))
}

/// The hyphenated text of a UUID, through `uuid::Uuid`'s `Display`, whose
/// documented form is the lower-case hexadecimal 8-4-4-4-12 grouping.
#[verifier::external_body]
pub(crate) fn uuid_to_string(b: &[u8; 16]) -> (s: String)
    ensures
        s@ == uuid_text(b@),
{
    uuid::Uuid::from_bytes(*b).to_string()
}

} // verus!

verus! {

/// Lower-case hexadecimal rendering of bytes, two digits per byte.
pub fn hex_lower(bytes: &[u8]) -> (s: String)
    ensures
        s@ == hex_lower_seq(bytes@),
{
    let mut s = String::new();
    let mut i: usize = 0;
    while i < bytes.len()
        invariant
            0 <= i <= bytes@.len(),
            s@ == hex_lower_seq(bytes@.subrange(0, i as int)),
        decreases bytes@.len() - i,
    {
        let b = bytes[i];
        crate::text::push_char(&mut s, crate::text::hex_lower_digit(b / 16));
        crate::text::push_char(&mut s, crate::text::hex_lower_digit(b % 16));
        assert(bytes@.subrange(0, i + 1).drop_last() =~= bytes@.subrange(0, i as int));
        i = i + 1;
        assert(s@ =~= hex_lower_seq(bytes@.subrange(0, i as int)));
    }
    assert(bytes@.subrange(0, bytes@.len() as int) =~= bytes@);
    s
}

} // verus!
