//! Encrypted file credential store.
//!
//! The credentials (label text to bytes) are kept in memory and saved as
//! one AES-256-GCM encrypted file: a version (1), a base64 random 12-byte
//! nonce and the base64 ciphertext of the serialised map, under a 32-byte
//! master key given in base64. Reading and writing the file, and
//! (de)serialising the map, are the caller's part; the format's rules, the
//! encryption and the store are here.

use vstd::prelude::*;
use vstd::utf8::encode_utf8;

use aes_gcm::aead::{Aead, KeyInit};
use rand::RngCore;

use crate::base64::{b64_decode, b64_encode, base64_decode, base64_encode, law_base64_roundtrip};
use crate::credential::{
    label_parts, parsed_keys, secret_bytes, slice_to_vec, stored_credential, zeroizing_bytes, zeroizing_new, Credential,
    CredentialError, CredentialScheme, IdentityLabel, SecretBuffer,
};
use crate::ledger::{json_quote, json_string};
use crate::strmap::{keys_distinct, StrMap};
use crate::text::{decimal, push_decimal};

verus! {

broadcast use vstd::seq_lib::group_to_multiset_ensures;

/// What sealing `plaintext` with AES-256-GCM under `key` and `nonce` gives
/// (ciphertext and tag).
pub uninterp spec fn aes256gcm_seal(key: Seq<u8>, nonce: Seq<u8>, plaintext: Seq<u8>) -> Seq<u8>;

/// What opening `ciphertext` with AES-256-GCM under `key` and `nonce`
/// gives: the plaintext, or nothing where the tag does not check.
pub uninterp spec fn aes256gcm_open(key: Seq<u8>, nonce: Seq<u8>, ciphertext: Seq<u8>) -> Option<Seq<u8>>;

/// The most plaintext AES-GCM seals in one message (2^36 bytes).
pub open spec fn max_plaintext() -> nat {
    0x10_0000_0000
}

/// `Aes256Gcm::new_from_slice` then `Aead::encrypt`. The result is named;
/// what the source shows is stated: sealing succeeds up to the plaintext
/// limit and fails beyond it with `aead::Error`, and opening the sealed
/// bytes under the same key and nonce gives the plaintext back.
#[verifier::external_body]
fn aes_encrypt(key: &[u8; 32], nonce: &[u8; 12], plaintext: &[u8]) -> (r: Result<Vec<u8>, String>)
    ensures
        r is Ok <==> plaintext@.len() <= max_plaintext(),
        r matches Ok(c) ==> c@ == aes256gcm_seal(key@, nonce@, plaintext@) && aes256gcm_open(key@, nonce@, c@) == Some(
            plaintext@,
        ),
        r matches Err(m) ==> m@ == "aead::Error"@,
{
    let cipher = aes_gcm::Aes256Gcm::new_from_slice(key).map_err(|e| format!("{e}"))?;
    cipher.encrypt(aes_gcm::Nonce::from_slice(nonce), plaintext).map_err(|e| format!("{e}"))
}

/// `Aes256Gcm::new_from_slice` then `Aead::decrypt`. The result is named;
/// a failure is `aead::Error`.
#[verifier::external_body]
fn aes_decrypt(key: &[u8; 32], nonce: &[u8; 12], ciphertext: &[u8]) -> (r: Result<Vec<u8>, String>)
    ensures
        match aes256gcm_open(key@, nonce@, ciphertext@) {
            Some(p) => r matches Ok(v) && v@ == p,
            None => r matches Err(m) && m@ == "aead::Error"@,
        },
{
    let cipher = aes_gcm::Aes256Gcm::new_from_slice(key).map_err(|e| format!("{e}"))?;
    cipher.decrypt(aes_gcm::Nonce::from_slice(nonce), ciphertext).map_err(|e| format!("{e}"))
}

/// `rand::thread_rng().fill_bytes`: random bytes. Nothing is stated of
/// them: they are random.
#[verifier::external_body]
fn random_bytes<const N: usize>() -> [u8; N] {
    let mut b = [0u8; N];
    rand::thread_rng().fill_bytes(&mut b);
    b
}

/// The master key: 32 secret bytes, overwritten with zeros when dropped.
pub struct MasterKey {
    key: SecretBuffer,
}

/// What parsing a base64 master key gives: the 32 bytes, or the error's
/// message.
pub open spec fn master_key_outcome(encoded: Seq<char>) -> Result<Seq<u8>, Seq<char>> {
    match b64_decode(encoded) {
        Err(c) => Err("invalid base64 master key: "@ + "invalid base64 character: "@ + seq![c]),
        Ok(b) => if b.len() != 32 {
            Err("master key must be 32 bytes, got "@ + decimal(b.len()))
        } else {
            Ok(b)
        },
    }
}

impl MasterKey {
    #[verifier::type_invariant]
    spec fn holds_32_bytes(self) -> bool {
        secret_bytes(self.key).len() == 32
    }

    /// The key's bytes.
    pub closed spec fn spec_bytes(&self) -> Seq<u8> {
        secret_bytes(self.key)
    }

    /// Parse a master key from base64 (white space is skipped); it must
    /// decode to exactly 32 bytes.
    pub fn from_base64(encoded: &str) -> (r: Result<MasterKey, CredentialError>)
        ensures
            match master_key_outcome(encoded@) {
                Ok(b) => r matches Ok(k) && k.spec_bytes() == b,
                Err(m) => r matches Err(CredentialError::Store(s)) && s@ == m,
            },
    {
        let bytes = match base64_decode(encoded) {
            Ok(b) => b,
            Err(e) => {
                let mut m = String::from_str("invalid base64 master key: ");
                m.append(e.as_str());
                proof {
                    if let Err(c) = b64_decode(encoded@) {
                        assert(m@ =~= "invalid base64 master key: "@ + "invalid base64 character: "@ + seq![c]);
                    }
                }
                return Err(CredentialError::Store(m));
            },
        };
        if bytes.len() != 32 {
            let mut m = String::from_str("master key must be 32 bytes, got ");
            push_decimal(&mut m, bytes.len() as u64);
            return Err(CredentialError::Store(m));
        }
        Ok(MasterKey { key: zeroizing_new(bytes) })
    }

    /// A fresh random key.
    pub fn generate() -> (k: MasterKey) {
        let b: [u8; 32] = random_bytes();
        let v = slice_to_vec(b.as_slice());
        MasterKey { key: zeroizing_new(v) }
    }

    /// The key in base64 (standard alphabet, padded).
    pub fn to_base64(&self) -> (s: String)
        ensures
            s@ == b64_encode(self.spec_bytes()),
    {
        base64_encode(zeroizing_bytes(&self.key))
    }

    fn as_array(&self) -> (a: [u8; 32])
        ensures
            a@ == self.spec_bytes(),
    {
        proof {
            use_type_invariant(self);
        }
        let b = zeroizing_bytes(&self.key);
        let mut a = [0u8; 32];
        let mut i: usize = 0;
        while i < 32
            invariant
                b@.len() == 32,
                0 <= i <= 32,
                a@.len() == 32,
                forall|j: int| 0 <= j < i ==> a@[j] == b@[j],
            decreases 32 - i,
        {
            a.set(i, b[i]);
            i = i + 1;
        }
        assert(a@ =~= b@);
        a
    }
}

/// The credential file's content, before its JSON framing.
#[derive(Debug, Clone)]
pub struct EncryptedFile {
    /// Format version (1).
    pub version: u32,
    /// Base64 of the 12-byte nonce.
    pub nonce: String,
    /// Base64 of the ciphertext.
    pub ciphertext: String,
}

/// Encrypt the serialised credential map under the key, with a fresh
/// random nonce: the file content holds version 1, the nonce and the
/// ciphertext, both in base64.
pub fn seal_credentials(key: &MasterKey, plaintext: &[u8]) -> (r: Result<EncryptedFile, CredentialError>)
    ensures
        plaintext@.len() <= max_plaintext() ==> (r matches Ok(f) && f.version == 1 && exists|n: Seq<u8>| {
            &&& n.len() == 12
            &&& f.nonce@ == #[trigger] b64_encode(n)
            &&& f.ciphertext@ == b64_encode(aes256gcm_seal(key.spec_bytes(), n, plaintext@))
        }),
        plaintext@.len() > max_plaintext() ==> (r matches Err(CredentialError::Store(m)) && m@
            == "encryption failed: "@ + "aead::Error"@),
        r matches Ok(f) ==> opened(key.spec_bytes(), f.version, f.nonce@, f.ciphertext@) == Ok::<Seq<u8>, Seq<char>>(
            plaintext@,
        ),
{
    let nonce: [u8; 12] = random_bytes();
    let k = key.as_array();
    match aes_encrypt(&k, &nonce, plaintext) {
        Ok(ct) => {
            let f = EncryptedFile {
                version: 1,
                nonce: base64_encode(nonce.as_slice()),
                ciphertext: base64_encode(ct.as_slice()),
            };
            assert(f.nonce@ == b64_encode(nonce@));
            proof {
                law_base64_roundtrip(nonce@);
                law_base64_roundtrip(ct@);
            }
            Ok(f)
        },
        Err(e) => {
            let mut m = String::from_str("encryption failed: ");
            m.append(e.as_str());
            Err(CredentialError::Store(m))
        },
    }
}

/// What opening a credential file's content under `key` gives: the
/// serialised map, or the error's message.
pub open spec fn opened(key: Seq<u8>, version: u32, nonce: Seq<char>, ciphertext: Seq<char>) -> Result<Seq<u8>, Seq<char>> {
    if version != 1 {
        Err("unsupported credential file version: "@ + decimal(version as nat))
    } else {
        match b64_decode(nonce) {
            Err(c) => Err("invalid nonce: "@ + "invalid base64 character: "@ + seq![c]),
            Ok(n) => if n.len() != 12 {
                Err("nonce must be 12 bytes, got "@ + decimal(n.len()))
            } else {
                match b64_decode(ciphertext) {
                    Err(c) => Err("invalid ciphertext: "@ + "invalid base64 character: "@ + seq![c]),
                    Ok(ct) => match aes256gcm_open(key, n, ct) {
                        Some(p) => Ok(p),
                        None => Err("decryption failed: "@ + "aead::Error"@),
                    },
                }
            },
        }
    }
}

fn prefixed_store_error(prefix: &str, e: String) -> (r: CredentialError)
    ensures
        r matches CredentialError::Store(m) && m@ == prefix@ + e@,
{
    let mut m = String::from_str(prefix);
    m.append(e.as_str());
    CredentialError::Store(m)
}

/// Open a credential file's content under `key`: the version must be 1,
/// the nonce base64 of 12 bytes, the ciphertext base64, and the ciphertext
/// must open under the key and nonce.
pub fn open_credentials(key: &MasterKey, file: &EncryptedFile) -> (r: Result<Vec<u8>, CredentialError>)
    ensures
        match opened(key.spec_bytes(), file.version, file.nonce@, file.ciphertext@) {
            Ok(p) => r matches Ok(v) && v@ == p,
            Err(m) => r matches Err(CredentialError::Store(s)) && s@ == m,
        },
{
    if file.version != 1 {
        let mut m = String::from_str("unsupported credential file version: ");
        push_decimal(&mut m, file.version as u64);
        return Err(CredentialError::Store(m));
    }
    let nonce_bytes = match base64_decode(file.nonce.as_str()) {
        Ok(b) => b,
        Err(e) => {
            let r = prefixed_store_error("invalid nonce: ", e);
            proof {
                if let Err(c) = b64_decode(file.nonce@) {
                    assert("invalid nonce: "@ + ("invalid base64 character: "@ + seq![c]) =~= "invalid nonce: "@
                        + "invalid base64 character: "@ + seq![c]);
                }
            }
            return Err(r);
        },
    };
    if nonce_bytes.len() != 12 {
        let mut m = String::from_str("nonce must be 12 bytes, got ");
        push_decimal(&mut m, nonce_bytes.len() as u64);
        return Err(CredentialError::Store(m));
    }
    let ct = match base64_decode(file.ciphertext.as_str()) {
        Ok(b) => b,
        Err(e) => {
            let r = prefixed_store_error("invalid ciphertext: ", e);
            proof {
                if let Err(c) = b64_decode(file.ciphertext@) {
                    assert("invalid ciphertext: "@ + ("invalid base64 character: "@ + seq![c]) =~= "invalid ciphertext: "@
                        + "invalid base64 character: "@ + seq![c]);
                }
            }
            return Err(r);
        },
    };
    let nonce: [u8; 12] = [
        nonce_bytes[0], nonce_bytes[1], nonce_bytes[2], nonce_bytes[3], nonce_bytes[4], nonce_bytes[5],
        nonce_bytes[6], nonce_bytes[7], nonce_bytes[8], nonce_bytes[9], nonce_bytes[10], nonce_bytes[11],
    ];
    assert(nonce@ =~= nonce_bytes@);
    let k = key.as_array();
    match aes_decrypt(&k, &nonce, ct.as_slice()) {
        Ok(p) => Ok(p),
        Err(e) => Err(prefixed_store_error("decryption failed: ", e)),
    }
}

// ---------------------------------------------------------------------------
// Label order
// ---------------------------------------------------------------------------

/// The rank of a scheme in declaration order.
pub open spec fn scheme_rank(s: CredentialScheme) -> nat {
    match s {
        CredentialScheme::Env => 0,
        CredentialScheme::File => 1,
        CredentialScheme::Hsm => 2,
        CredentialScheme::Vault => 3,
        CredentialScheme::Inline => 4,
    }
}

/// Lexicographic order of character strings (a prefix comes first).
pub open spec fn chars_le(a: Seq<char>, b: Seq<char>) -> bool
    decreases a.len(),
{
    if a.len() == 0 {
        true
    } else if b.len() == 0 {
        false
    } else if a[0] != b[0] {
        a[0] < b[0]
    } else {
        chars_le(a.drop_first(), b.drop_first())
    }
}

/// Label order: by scheme, then by path.
pub open spec fn label_le(a: (CredentialScheme, Seq<char>), b: (CredentialScheme, Seq<char>)) -> bool {
    scheme_rank(a.0) < scheme_rank(b.0) || (a.0 == b.0 && chars_le(a.1, b.1))
}

/// Whether a sequence of labels is in label order.
pub open spec fn labels_sorted(s: Seq<(CredentialScheme, Seq<char>)>) -> bool {
    forall|i: int, j: int| 0 <= i < j < s.len() ==> label_le(#[trigger] s[i], #[trigger] s[j])
}

proof fn lemma_chars_le_total(a: Seq<char>, b: Seq<char>)
    ensures
        chars_le(a, b) || chars_le(b, a),
    decreases a.len(),
{
    if a.len() > 0 && b.len() > 0 && a[0] == b[0] {
        lemma_chars_le_total(a.drop_first(), b.drop_first());
    }
}

proof fn lemma_chars_le_trans(a: Seq<char>, b: Seq<char>, c: Seq<char>)
    requires
        chars_le(a, b),
        chars_le(b, c),
    ensures
        chars_le(a, c),
    decreases a.len(),
{
    if a.len() > 0 && b.len() > 0 && c.len() > 0 && a[0] == b[0] && b[0] == c[0] {
        lemma_chars_le_trans(a.drop_first(), b.drop_first(), c.drop_first());
    }
}

proof fn lemma_label_le_total(a: (CredentialScheme, Seq<char>), b: (CredentialScheme, Seq<char>))
    ensures
        label_le(a, b) || label_le(b, a),
{
    lemma_chars_le_total(a.1, b.1);
}

proof fn lemma_label_le_trans(
    a: (CredentialScheme, Seq<char>),
    b: (CredentialScheme, Seq<char>),
    c: (CredentialScheme, Seq<char>),
)
    requires
        label_le(a, b),
        label_le(b, c),
    ensures
        label_le(a, c),
{
    if a.0 == b.0 && b.0 == c.0 {
        lemma_chars_le_trans(a.1, b.1, c.1);
    }
}

fn scheme_index(s: CredentialScheme) -> (n: u8)
    ensures
        n == scheme_rank(s),
{
    match s {
        CredentialScheme::Env => 0,
        CredentialScheme::File => 1,
        CredentialScheme::Hsm => 2,
        CredentialScheme::Vault => 3,
        CredentialScheme::Inline => 4,
    }
}

fn path_le(a: &str, b: &str) -> (r: bool)
    ensures
        r == chars_le(a@, b@),
{
    let x = crate::text::chars_vec(a);
    let y = crate::text::chars_vec(b);
    let mut i: usize = 0;
    assert(a@.subrange(0, a@.len() as int) =~= a@);
    assert(b@.subrange(0, b@.len() as int) =~= b@);
    while i < x.len() && i < y.len() && x[i] == y[i]
        invariant
            x@ == a@,
            y@ == b@,
            0 <= i <= x@.len(),
            i <= y@.len(),
            chars_le(a@, b@) == chars_le(a@.subrange(i as int, a@.len() as int), b@.subrange(i as int, b@.len() as int)),
        decreases x@.len() - i,
    {
        assert(a@.subrange(i as int, a@.len() as int).drop_first() =~= a@.subrange(i + 1, a@.len() as int));
        assert(b@.subrange(i as int, b@.len() as int).drop_first() =~= b@.subrange(i + 1, b@.len() as int));
        i = i + 1;
    }
    let ghost sa = a@.subrange(i as int, a@.len() as int);
    let ghost sb = b@.subrange(i as int, b@.len() as int);
    if i == x.len() {
        assert(sa.len() == 0);
        true
    } else if i == y.len() {
        assert(sb.len() == 0);
        false
    } else {
        assert(sa[0] == x@[i as int] && sb[0] == y@[i as int]);
        x[i] < y[i]
    }
}

fn label_le_exec(a: &IdentityLabel, b: &IdentityLabel) -> (r: bool)
    ensures
        r == label_le((a.scheme, a.path@), (b.scheme, b.path@)),
{
    let ra = scheme_index(a.scheme);
    let rb = scheme_index(b.scheme);
    if ra < rb {
        true
    } else if ra > rb {
        false
    } else {
        assert(a.scheme == b.scheme) by {
            match a.scheme { _ => {} }
        }
        path_le(a.path.as_str(), b.path.as_str())
    }
}

/// Insert `l` into a sorted vector, after every label not greater.
fn insert_sorted(v: &mut Vec<IdentityLabel>, l: IdentityLabel)
    requires
        labels_sorted(label_parts(old(v)@)),
    ensures
        labels_sorted(label_parts(final(v)@)),
        label_parts(final(v)@).to_multiset() == label_parts(old(v)@).to_multiset().insert((l.scheme, l.path@)),
{
    let ghost x = (l.scheme, l.path@);
    let ghost s = label_parts(v@);
    let mut pos: usize = v.len();
    while pos > 0 && !label_le_exec(&v[pos - 1], &l)
        invariant
            0 <= pos <= v@.len(),
            s == label_parts(v@),
            x == (l.scheme, l.path@),
            forall|j: int| pos <= j < s.len() ==> !label_le(#[trigger] s[j], x),
        decreases pos,
    {
        assert(s[pos - 1] == (v@[pos - 1].scheme, v@[pos - 1].path@));
        pos = pos - 1;
    }
    proof {
        assert forall|j: int| 0 <= j < pos implies label_le(#[trigger] s[j], x) by {
            if pos > 0 {
                assert(label_le(s[pos - 1], x));
                if j < pos - 1 {
                    lemma_label_le_trans(s[j], s[pos - 1], x);
                }
            }
        }
        assert forall|j: int| pos <= j < s.len() implies label_le(x, #[trigger] s[j]) by {
            lemma_label_le_total(s[j], x);
        }
    }
    v.insert(pos, l);
    proof {
        let t = label_parts(v@);
        assert(t =~= s.insert(pos as int, x));
        assert forall|i: int, j: int| 0 <= i < j < t.len() implies label_le(#[trigger] t[i], #[trigger] t[j]) by {
            if i < pos && j < pos {
            } else if i < pos && j == pos {
            } else if i < pos && j > pos {
                assert(t[j] == s[j - 1]);
            } else if i == pos {
                assert(t[j] == s[j - 1]);
            } else {
                assert(t[i] == s[i - 1] && t[j] == s[j - 1]);
            }
        }
        vstd::seq_lib::to_multiset_insert(s, pos as int, x);
    }
}

// ---------------------------------------------------------------------------
// The credential map as JSON
// ---------------------------------------------------------------------------

/// The numbers of a byte list, comma-separated: `1,2,3`.
pub open spec fn numbers_json(b: Seq<u8>) -> Seq<char>
    decreases b.len(),
{
    if b.len() == 0 {
        Seq::empty()
    } else if b.len() == 1 {
        decimal(b[0] as nat)
    } else {
        numbers_json(b.drop_last()) + ","@ + decimal(b.last() as nat)
    }
}

/// One credential as a JSON object member: the label text as a JSON
/// string, then its bytes as a JSON array of numbers.
pub open spec fn entry_json(e: (String, Vec<u8>)) -> Seq<char> {
    json_string(e.0@) + ":["@ + numbers_json(e.1@) + "]"@
}

/// The members of the credential object, comma-separated.
pub open spec fn entries_json(s: Seq<(String, Vec<u8>)>) -> Seq<char>
    decreases s.len(),
{
    if s.len() == 0 {
        Seq::empty()
    } else if s.len() == 1 {
        entry_json(s[0])
    } else {
        entries_json(s.drop_last()) + ","@ + entry_json(s.last())
    }
}

/// The plaintext of a credential file: one compact JSON object mapping each
/// label text to its bytes, in the order given.
pub open spec fn credentials_text(s: Seq<(String, Vec<u8>)>) -> Seq<char> {
    "{"@ + entries_json(s) + "}"@
}

fn push_numbers(out: &mut String, b: &[u8])
    ensures
        final(out)@ == old(out)@ + numbers_json(b@),
{
    let mut i: usize = 0;
    while i < b.len()
        invariant
            0 <= i <= b@.len(),
            out@ == old(out)@ + numbers_json(b@.subrange(0, i as int)),
        decreases b@.len() - i,
    {
        let ghost before = out@;
        if i > 0 {
            out.append(",");
        }
        push_decimal(out, b[i] as u64);
        proof {
            let t = b@.subrange(0, i + 1);
            assert(t.drop_last() =~= b@.subrange(0, i as int));
            if i == 0 {
                assert(numbers_json(b@.subrange(0, 0)) =~= Seq::<char>::empty());
            }
        }
        i = i + 1;
        assert(out@ =~= old(out)@ + numbers_json(b@.subrange(0, i as int)));
    }
    assert(b@.subrange(0, b@.len() as int) =~= b@);
}

/// The plaintext of a credential file holding `entries`.
pub fn credentials_json(entries: &Vec<(String, Vec<u8>)>) -> (s: String)
    ensures
        s@ == credentials_text(entries@),
{
    let mut s = String::from_str("{");
    let mut i: usize = 0;
    while i < entries.len()
        invariant
            0 <= i <= entries@.len(),
            s@ == "{"@ + entries_json(entries@.subrange(0, i as int)),
        decreases entries@.len() - i,
    {
        let ghost before = s@;
        if i > 0 {
            s.append(",");
        }
        let q = json_quote(entries[i].0.as_str());
        s.append(q.as_str());
        s.append(":[");
        push_numbers(&mut s, entries[i].1.as_slice());
        s.append("]");
        proof {
            let t = entries@.subrange(0, i + 1);
            assert(t.drop_last() =~= entries@.subrange(0, i as int));
            assert(t.last() == entries@[i as int]);
            if i == 0 {
                assert(entries_json(entries@.subrange(0, 0)) =~= Seq::<char>::empty());
            }
        }
        i = i + 1;
        assert(s@ =~= "{"@ + entries_json(entries@.subrange(0, i as int)));
    }
    assert(entries@.subrange(0, entries@.len() as int) =~= entries@);
    s.append("}");
    s
}

/// What `serde_json` reads from a credential file's plaintext as a map of
/// label texts to bytes, or the message of the error it reports.
pub uninterp spec fn json_credential_map(bytes: Seq<u8>) -> Result<Map<Seq<char>, Seq<u8>>, Seq<char>>;

/// Whether a list of entries lists exactly the map `m`, each key once.
pub open spec fn lists_map(v: Seq<(String, Vec<u8>)>, m: Map<Seq<char>, Seq<u8>>) -> bool {
    &&& keys_distinct(v)
    &&& forall|i: int| 0 <= i < v.len() ==> m.contains_key(#[trigger] v[i].0@) && m[v[i].0@] == v[i].1@
    &&& forall|k: Seq<char>| #[trigger] m.contains_key(k) ==> exists|i: int| 0 <= i < v.len() && v[i].0@ == k
}

/// `serde_json::from_slice` into a `HashMap` of label texts to bytes, its
/// entries handed out in a list. The map read is named, not stated: a
/// function of the bytes alone; the list's order (the hash map's) is left
/// open, each key once.
#[verifier::external_body]
fn parse_credential_map(bytes: &[u8]) -> (r: Result<Vec<(String, Vec<u8>)>, String>)
    ensures
        match json_credential_map(bytes@) {
            Ok(m) => r matches Ok(v) && lists_map(v@, m),
            Err(e) => r matches Err(s) && s@ == e,
        },
{
    match serde_json::from_slice::<std::collections::HashMap<String, Vec<u8>>>(bytes) {
        Ok(m) => Ok(m.into_iter().collect()),
        Err(e) => Err(e.to_string()),
    }
}

/// The value stored under `k` after storing `s` in order: the last entry's
/// with that key.
pub open spec fn last_value(s: Seq<(String, Vec<u8>)>, k: Seq<char>) -> Option<Vec<u8>>
    decreases s.len(),
{
    if s.len() == 0 {
        None
    } else if s.last().0@ == k {
        Some(s.last().1)
    } else {
        last_value(s.drop_last(), k)
    }
}

proof fn lemma_last_value_in_list(s: Seq<(String, Vec<u8>)>, k: Seq<char>)
    ensures
        last_value(s, k) is Some <==> exists|i: int| 0 <= i < s.len() && #[trigger] s[i].0@ == k,
        last_value(s, k) matches Some(x) ==> exists|i: int| 0 <= i < s.len() && #[trigger] s[i].0@ == k && s[i].1 == x,
    decreases s.len(),
{
    if s.len() > 0 {
        let t = s.drop_last();
        lemma_last_value_in_list(t, k);
        if s.last().0@ == k {
            assert(s[s.len() - 1].0@ == k);
        } else {
            assert forall|i: int| 0 <= i < s.len() && #[trigger] s[i].0@ == k implies i < s.len() - 1 && t[i].0@ == k by {}
            if last_value(t, k) is Some {
                let i = choose|i: int| 0 <= i < t.len() && #[trigger] t[i].0@ == k && t[i].1 == last_value(t, k)->0;
                assert(s[i].0@ == k);
            }
        }
    }
}

proof fn lemma_listed_value(v: Seq<(String, Vec<u8>)>, m: Map<Seq<char>, Seq<u8>>, k: Seq<char>)
    requires
        lists_map(v, m),
    ensures
        match last_value(v, k) {
            Some(x) => m.contains_key(k) && x@ == m[k],
            None => !m.contains_key(k),
        },
{
    lemma_last_value_in_list(v, k);
    if m.contains_key(k) {
        let i = choose|i: int| 0 <= i < v.len() && v[i].0@ == k;
        assert(v[i].0@ == k);
    }
}

// ---------------------------------------------------------------------------
// The store
// ---------------------------------------------------------------------------

/// The credential store over an encrypted file.
pub struct FileCredentialStore {
    path: String,
    master_key: MasterKey,
    credentials: StrMap<Vec<u8>>,
}

impl FileCredentialStore {
    /// The bytes stored under a label text.
    pub closed spec fn spec_get(&self, k: Seq<char>) -> Option<Vec<u8>> {
        self.credentials.spec_get(k)
    }

    /// The keys and values, in the order keys were first stored.
    pub closed spec fn spec_entries(&self) -> Seq<(String, Vec<u8>)> {
        self.credentials.spec_entries()
    }

    /// The file's path.
    pub closed spec fn spec_path(&self) -> Seq<char> {
        self.path@
    }

    /// The master key's bytes.
    pub closed spec fn spec_key(&self) -> Seq<u8> {
        self.master_key.spec_bytes()
    }

    /// An empty store over the file at `path`.
    pub fn new(path: String, master_key: MasterKey) -> (s: FileCredentialStore)
        ensures
            forall|k: Seq<char>| s.spec_get(k) is None,
            s.spec_entries().len() == 0,
            s.spec_path() == path@,
            s.spec_key() == master_key.spec_bytes(),
    {
        FileCredentialStore { path, master_key, credentials: StrMap::new() }
    }

    /// A store holding the credentials read from its file (a later entry
    /// with the same key replaces an earlier one).
    pub fn from_entries(path: String, master_key: MasterKey, entries: Vec<(String, Vec<u8>)>) -> (s: FileCredentialStore)
        ensures
            forall|k: Seq<char>| #[trigger] s.spec_get(k) == last_value(entries@, k),
            s.spec_path() == path@,
            s.spec_key() == master_key.spec_bytes(),
    {
        let mut m: StrMap<Vec<u8>> = StrMap::new();
        let mut rest = entries;
        let ghost all = rest@;
        let mut taken: usize = 0;
        let total = rest.len();
        assert forall|k: Seq<char>| #[trigger] m.spec_get(k) == last_value(all.subrange(0, 0), k) by {}
        while rest.len() > 0
            invariant
                total == all.len(),
                taken + rest@.len() == all.len(),
                rest@ == all.subrange(taken as int, all.len() as int),
                forall|k: Seq<char>| #[trigger] m.spec_get(k) == last_value(all.subrange(0, taken as int), k),
            decreases rest@.len(),
        {
            let (k, v) = rest.remove(0);
            let ghost key = k@;
            let ghost val = v;
            assert(all[taken as int].0@ == key && all[taken as int].1 == val);
            m.insert(k, v);
            taken = taken + 1;
            assert forall|q: Seq<char>| #[trigger] m.spec_get(q) == last_value(all.subrange(0, taken as int), q) by {
                let t = all.subrange(0, taken as int);
                assert(t.drop_last() =~= all.subrange(0, taken - 1));
                assert(t.last() == all[taken - 1]);
            }
            assert(rest@ =~= all.subrange(taken as int, all.len() as int));
        }
        assert(all.subrange(0, taken as int) =~= all);
        FileCredentialStore { path, master_key, credentials: m }
    }

    /// The store a credential file holds: its content opened under
    /// `master_key`, then read as the JSON map of label texts to bytes.
    pub fn open_sealed(path: String, master_key: MasterKey, file: &EncryptedFile)
        -> (r: Result<FileCredentialStore, CredentialError>)
        ensures
            match opened(master_key.spec_bytes(), file.version, file.nonce@, file.ciphertext@) {
                Err(m) => r matches Err(CredentialError::Store(s)) && s@ == m,
                Ok(p) => match json_credential_map(p) {
                    Err(e) => r matches Err(CredentialError::Store(s)) && s@ == "invalid credential map: "@ + e,
                    Ok(map) => r matches Ok(st) && st.spec_path() == path@ && st.spec_key()
                        == master_key.spec_bytes() && forall|k: Seq<char>| match #[trigger] st.spec_get(k) {
                        Some(v) => map.contains_key(k) && v@ == map[k],
                        None => !map.contains_key(k),
                    },
                },
            },
    {
        let plaintext = match open_credentials(&master_key, file) {
            Ok(p) => p,
            Err(e) => return Err(e),
        };
        let entries = match parse_credential_map(plaintext.as_slice()) {
            Ok(v) => v,
            Err(e) => return Err(prefixed_store_error("invalid credential map: ", e)),
        };
        let ghost v = entries@;
        let st = FileCredentialStore::from_entries(path, master_key, entries);
        proof {
            let map = json_credential_map(plaintext@)->Ok_0;
            assert forall|k: Seq<char>| match #[trigger] st.spec_get(k) {
                Some(x) => map.contains_key(k) && x@ == map[k],
                None => !map.contains_key(k),
            } by {
                lemma_listed_value(v, map, k);
            }
        }
        Ok(st)
    }

    /// The credential stored under the label's text: its bytes if they are
    /// not empty, else `Empty`; `NotFound` (naming the label) if none is.
    pub fn get(&self, label: &IdentityLabel) -> (r: Result<Credential, CredentialError>)
        ensures
            stored_credential(self.spec_get(label.spec_text()), *label, r),
    {
        let key = label.to_string();
        match self.credentials.get(key.as_str()) {
            Some(bytes) => {
                if bytes.len() > 0 {
                    Ok(Credential::new(bytes.clone(), label.duplicate()))
                } else {
                    Err(CredentialError::Empty)
                }
            },
            None => Err(CredentialError::NotFound(key)),
        }
    }

    /// Store a credential under the label's text.
    pub fn put(&mut self, label: &IdentityLabel, credential: &[u8]) -> (r: Result<(), CredentialError>)
        ensures
            r is Ok,
            forall|k: Seq<char>| k != label.spec_text() ==> #[trigger] final(self).spec_get(k) == old(
                self,
            ).spec_get(k),
            final(self).spec_get(label.spec_text()) matches Some(v) && v@ == credential@,
            final(self).spec_path() == old(self).spec_path(),
            final(self).spec_key() == old(self).spec_key(),
    {
        let key = label.to_string();
        let v = slice_to_vec(credential);
        self.credentials.insert(key, v);
        Ok(())
    }

    /// Remove the credential stored under the label's text, if any.
    pub fn delete(&mut self, label: &IdentityLabel) -> (r: Result<(), CredentialError>)
        ensures
            r is Ok,
            forall|k: Seq<char>| #[trigger] final(self).spec_get(k) == if k == label.spec_text() {
                None
            } else {
                old(self).spec_get(k)
            },
            final(self).spec_path() == old(self).spec_path(),
            final(self).spec_key() == old(self).spec_key(),
    {
        let key = label.to_string();
        self.credentials.remove(key.as_str());
        Ok(())
    }

    /// The labels of the stored credentials whose keys parse as labels, in
    /// label order (by scheme, then path).
    pub fn list(&self) -> (r: Result<Vec<IdentityLabel>, CredentialError>)
        ensures
            r matches Ok(v) && labels_sorted(label_parts(v@)) && label_parts(v@).to_multiset() == parsed_keys(
                self.spec_entries(),
            ).to_multiset(),
    {
        let entries = self.credentials.entries();
        let mut out: Vec<IdentityLabel> = Vec::new();
        let mut i: usize = 0;
        assert(label_parts(out@) =~= Seq::<(CredentialScheme, Seq<char>)>::empty());
        while i < entries.len()
            invariant
                0 <= i <= entries@.len(),
                labels_sorted(label_parts(out@)),
                label_parts(out@).to_multiset() == parsed_keys(entries@.subrange(0, i as int)).to_multiset(),
            decreases entries@.len() - i,
        {
            assert(entries@.subrange(0, i + 1).drop_last() =~= entries@.subrange(0, i as int));
            match IdentityLabel::parse(entries[i].0.as_str()) {
                Ok(l) => {
                    let ghost p = parsed_keys(entries@.subrange(0, i as int));
                    insert_sorted(&mut out, l);
                    assert(parsed_keys(entries@.subrange(0, i + 1)) == p.push((l.scheme, l.path@)));
                },
                Err(_) => {},
            }
            i = i + 1;
        }
        assert(entries@.subrange(0, entries@.len() as int) =~= entries@);
        Ok(out)
    }

    /// The entries, to be serialised into the file.
    pub fn entries(&self) -> (v: &Vec<(String, Vec<u8>)>)
        ensures
            v@ == self.spec_entries(),
    {
        self.credentials.entries()
    }

    /// Encrypt the serialised credential map for the file.
    pub fn seal(&self, plaintext: &[u8]) -> (r: Result<EncryptedFile, CredentialError>)
        ensures
            plaintext@.len() <= max_plaintext() ==> (r matches Ok(f) && f.version == 1 && exists|n: Seq<u8>| {
                &&& n.len() == 12
                &&& f.nonce@ == #[trigger] b64_encode(n)
                &&& f.ciphertext@ == b64_encode(aes256gcm_seal(self.spec_key(), n, plaintext@))
            }),
            r matches Ok(f) ==> opened(self.spec_key(), f.version, f.nonce@, f.ciphertext@) == Ok::<
                Seq<u8>,
                Seq<char>,
            >(plaintext@),
    {
        seal_credentials(&self.master_key, plaintext)
    }

    /// Encrypt the credentials for the file: their JSON map, sealed.
    pub fn seal_all(&self) -> (r: Result<EncryptedFile, CredentialError>)
        ensures
            encode_utf8(credentials_text(self.spec_entries())).len() <= max_plaintext() ==> r is Ok,
            r matches Ok(f) ==> f.version == 1 && opened(self.spec_key(), f.version, f.nonce@, f.ciphertext@)
                == Ok::<Seq<u8>, Seq<char>>(encode_utf8(credentials_text(self.spec_entries()))),
    {
        let text = credentials_json(self.credentials.entries());
        self.seal(text.as_str().as_bytes())
    }

    /// The file's path.
    pub fn path(&self) -> (p: &str)
        ensures
            p@ == self.spec_path(),
    {
        self.path.as_str()
    }
}

} // verus!
