//! Identity labels: the non-secret references (`scheme:path`) that stand
//! for credentials everywhere but at the outbound edge.

use vstd::prelude::*;

use vstd::utf8::{decode_utf8, valid_utf8};
use zeroize::Zeroizing;

use crate::injection::{utf8_error_text, utf8_text};
use crate::strmap::{ascii_lower, eq_ignore_case, StrMap};
use crate::text::chars_vec;
use crate::text::str_eq;
use crate::text::{decimal, push_decimal};

verus! {

/// The lower-case form of a string, as `str::to_lowercase` computes it
/// (Unicode lower case).
pub uninterp spec fn lowercase(s: Seq<char>) -> Seq<char>;

/// Whether every character is ASCII.
pub open spec fn is_ascii_text(s: Seq<char>) -> bool {
    forall|i: int| 0 <= i < s.len() ==> (#[trigger] s[i] as u32) < 128
}

/// ASCII lower-casing of every character.
pub open spec fn ascii_lowered(s: Seq<char>) -> Seq<char> {
    s.map_values(|c: char| ascii_lower(c))
}

/// The key a scheme name is looked up by: its lower-case form (for ASCII
/// text, ASCII lower-casing).
pub open spec fn scheme_key(s: Seq<char>) -> Seq<char> {
    if is_ascii_text(s) {
        ascii_lowered(s)
    } else {
        lowercase(s)
    }
}

/// `str::to_lowercase`. The contract names the result (the lower-case form
/// of exactly these characters) and states it for ASCII text, whose Unicode
/// lower case is its ASCII lower case; of other characters it states
/// nothing.
#[verifier::external_body]
fn to_lowercase(s: &str) -> (r: String)
    ensures
        r@ == lowercase(s@),
        is_ascii_text(s@) ==> r@ == ascii_lowered(s@),
{
    s.to_lowercase()
}

/// Credential error.
#[derive(Debug, Clone)]
pub enum CredentialError {
    /// No credential for the label.
    NotFound(String),
    /// The label is malformed.
    InvalidLabel(String),
    /// The store failed.
    Store(String),
    /// The credential is empty or malformed.
    Empty,
}

impl CredentialError {
    /// The error's message.
    pub open spec fn spec_text(self) -> Seq<char> {
        match self {
            CredentialError::NotFound(m) => "credential not found for label: "@ + m@,
            CredentialError::InvalidLabel(m) => "invalid identity_label: "@ + m@,
            CredentialError::Store(m) => "credential store error: "@ + m@,
            CredentialError::Empty => "credential is empty or malformed"@,
        }
    }

    /// The error's message.
    pub fn to_string(&self) -> (s: String)
        ensures
            s@ == self.spec_text(),
    {
        match self {
            CredentialError::NotFound(m) => {
                let mut s = String::from_str("credential not found for label: ");
                s.append(m.as_str());
                s
            },
            CredentialError::InvalidLabel(m) => {
                let mut s = String::from_str("invalid identity_label: ");
                s.append(m.as_str());
                s
            },
            CredentialError::Store(m) => {
                let mut s = String::from_str("credential store error: ");
                s.append(m.as_str());
                s
            },
            CredentialError::Empty => String::from_str("credential is empty or malformed"),
        }
    }
}

/// How a credential is stored.
#[derive(Debug, Clone, Copy, PartialEq, Eq, PartialOrd, Ord, Hash, Structural)]
pub enum CredentialScheme {
    /// An environment variable: `env:VAR`.
    Env,
    /// A file: `file:/path`.
    File,
    /// An HSM key: `hsm:key`.
    Hsm,
    /// A Vault path: `vault:secret/path#field`.
    Vault,
    /// An inline credential (testing only).
    Inline,
}

/// The scheme a lower-case name stands for.
pub open spec fn scheme_named(l: Seq<char>) -> Option<CredentialScheme> {
    if l == "env"@ {
        Some(CredentialScheme::Env)
    } else if l == "file"@ {
        Some(CredentialScheme::File)
    } else if l == "hsm"@ {
        Some(CredentialScheme::Hsm)
    } else if l == "vault"@ {
        Some(CredentialScheme::Vault)
    } else if l == "inline"@ {
        Some(CredentialScheme::Inline)
    } else {
        None
    }
}

impl CredentialScheme {
    /// The scheme's name.
    pub open spec fn spec_name(self) -> Seq<char> {
        match self {
            CredentialScheme::Env => "env"@,
            CredentialScheme::File => "file"@,
            CredentialScheme::Hsm => "hsm"@,
            CredentialScheme::Vault => "vault"@,
            CredentialScheme::Inline => "inline"@,
        }
    }

    /// The scheme's name.
    pub fn name(self) -> (s: &'static str)
        ensures
            s@ == self.spec_name(),
    {
        match self {
            CredentialScheme::Env => "env",
            CredentialScheme::File => "file",
            CredentialScheme::Hsm => "hsm",
            CredentialScheme::Vault => "vault",
            CredentialScheme::Inline => "inline",
        }
    }

    /// The scheme's name.
    pub fn to_string(&self) -> (s: String)
        ensures
            s@ == self.spec_name(),
    {
        String::from_str(self.name())
    }

    /// The scheme named by `s`, compared in lower case; an unknown name is
    /// an invalid label.
    pub fn from_str(s: &str) -> (r: Result<CredentialScheme, CredentialError>)
        ensures
            match scheme_named(scheme_key(s@)) {
                Some(c) => r == Ok::<CredentialScheme, CredentialError>(c),
                None => r matches Err(CredentialError::InvalidLabel(m)) && m@ == "unknown scheme: "@ + scheme_key(s@),
            },
    {
        let l = to_lowercase(s);
        assert(l@ == scheme_key(s@));
        let ls = l.as_str();
        if str_eq(ls, "env") {
            Ok(CredentialScheme::Env)
        } else if str_eq(ls, "file") {
            Ok(CredentialScheme::File)
        } else if str_eq(ls, "hsm") {
            Ok(CredentialScheme::Hsm)
        } else if str_eq(ls, "vault") {
            Ok(CredentialScheme::Vault)
        } else if str_eq(ls, "inline") {
            Ok(CredentialScheme::Inline)
        } else {
            let mut m = String::from_str("unknown scheme: ");
            m.append(ls);
            Err(CredentialError::InvalidLabel(m))
        }
    }
}

impl std::str::FromStr for CredentialScheme {
    type Err = CredentialError;

    fn from_str(s: &str) -> (r: Result<Self, Self::Err>)
        ensures
            match scheme_named(scheme_key(s@)) {
                Some(c) => r == Ok::<CredentialScheme, CredentialError>(c),
                None => r matches Err(CredentialError::InvalidLabel(m)) && m@ == "unknown scheme: "@ + scheme_key(s@),
            },
    {
        CredentialScheme::from_str(s)
    }
}

/// A non-secret reference to a credential: `scheme:path`.
#[derive(Debug, Clone, PartialEq, Eq, PartialOrd, Ord, Hash)]
pub struct IdentityLabel {
    /// Storage scheme.
    pub scheme: CredentialScheme,
    /// Scheme-specific path.
    pub path: String,
}

/// Whether `i` is the position of the first `:` of `s`.
pub open spec fn first_colon(s: Seq<char>, i: int) -> bool {
    &&& 0 <= i < s.len()
    &&& s[i] == ':'
    &&& forall|j: int| 0 <= j < i ==> s[j] != ':'
}

/// Whether `s` holds a `:`.
pub open spec fn has_colon(s: Seq<char>) -> bool {
    exists|i: int| 0 <= i < s.len() && s[i] == ':'
}

/// What parsing `s` as a label gives: the scheme and path, or the message
/// of the invalid-label error. The scheme is what precedes the first `:`,
/// the path what follows it.
pub open spec fn spec_parse_label(s: Seq<char>) -> Result<(CredentialScheme, Seq<char>), Seq<char>> {
    if !has_colon(s) {
        Err("missing scheme: "@ + s)
    } else {
        let i = choose|i: int| first_colon(s, i);
        let path = s.subrange(i + 1, s.len() as int);
        let scheme = scheme_key(s.subrange(0, i));
        if path.len() == 0 {
            Err("empty path: "@ + s)
        } else {
            match scheme_named(scheme) {
                Some(c) => Ok((c, path)),
                None => Err("unknown scheme: "@ + scheme),
            }
        }
    }
}

/// The outcome of a label parse as plain values (`None` for an error other
/// than an invalid label).
pub open spec fn label_outcome(r: Result<IdentityLabel, CredentialError>) -> Option<Result<(CredentialScheme, Seq<char>), Seq<char>>> {
    match r {
        Ok(l) => Some(Ok((l.scheme, l.path@))),
        Err(CredentialError::InvalidLabel(m)) => Some(Err(m@)),
        Err(_) => None,
    }
}

proof fn lemma_first_colon_unique(s: Seq<char>, i: int, j: int)
    requires
        first_colon(s, i),
        first_colon(s, j),
    ensures
        i == j,
{
    if i < j {
        assert(s[i] != ':');
    } else if j < i {
        assert(s[j] != ':');
    }
}

impl IdentityLabel {
    /// A label from its parts.
    pub fn new(scheme: CredentialScheme, path: &str) -> (l: IdentityLabel)
        ensures
            l.scheme == scheme,
            l.path@ == path@,
    {
        IdentityLabel { scheme, path: String::from_str(path) }
    }

    /// Parse `scheme:path`: the text before the first `:` names the scheme
    /// (in any case), the rest is the path, which must not be empty.
    pub fn parse(s: &str) -> (r: Result<IdentityLabel, CredentialError>)
        ensures
            label_outcome(r) == Some(spec_parse_label(s@)),
    {
        let v = chars_vec(s);
        let n = v.len();
        let mut i: usize = 0;
        while i < n
            invariant
                v@ == s@,
                n == v@.len(),
                0 <= i <= n,
                forall|j: int| 0 <= j < i ==> s@[j] != ':',
            ensures
                v@ == s@,
                n == v@.len(),
                0 <= i <= n,
                forall|j: int| 0 <= j < i ==> s@[j] != ':',
                i < n ==> s@[i as int] == ':',
            decreases n - i,
        {
            if v[i] == ':' {
                break;
            }
            i = i + 1;
        }
        if i == n {
            assert(!has_colon(s@));
            let mut m = String::from_str("missing scheme: ");
            m.append(s);
            return Err(CredentialError::InvalidLabel(m));
        }
        proof {
            assert(first_colon(s@, i as int));
            let c = choose|c: int| first_colon(s@, c);
            lemma_first_colon_unique(s@, c, i as int);
        }
        let path = s.substring_char(i + 1, n);
        if path.unicode_len() == 0 {
            let mut m = String::from_str("empty path: ");
            m.append(s);
            return Err(CredentialError::InvalidLabel(m));
        }
        let scheme_text = s.substring_char(0, i);
        match CredentialScheme::from_str(scheme_text) {
            Ok(scheme) => Ok(IdentityLabel { scheme, path: String::from_str(path) }),
            Err(e) => Err(e),
        }
    }

    /// Whether the label uses the inline scheme (testing only).
    pub fn is_inline(&self) -> (b: bool)
        ensures
            b == (self.scheme == CredentialScheme::Inline),
    {
        self.scheme == CredentialScheme::Inline
    }

    /// The text `scheme:path`.
    pub open spec fn spec_text(&self) -> Seq<char> {
        self.scheme.spec_name() + ":"@ + self.path@
    }

    /// The text `scheme:path`.
    pub fn to_string(&self) -> (s: String)
        ensures
            s@ == self.spec_text(),
    {
        let mut s = String::from_str(self.scheme.name());
        s.append(":");
        s.append(self.path.as_str());
        s
    }

    /// A field-by-field copy.
    pub fn duplicate(&self) -> (l: IdentityLabel)
        ensures
            l == *self,
    {
        IdentityLabel { scheme: self.scheme, path: self.path.clone() }
    }
}

impl std::str::FromStr for IdentityLabel {
    type Err = CredentialError;

    fn from_str(s: &str) -> (r: Result<Self, Self::Err>)
        ensures
            label_outcome(r) == Some(spec_parse_label(s@)),
    {
        IdentityLabel::parse(s)
    }
}

/// Secret bytes in a `zeroize::Zeroizing<Vec<u8>>`, which overwrites them
/// with zeros when it is dropped. Verus does not take a declaration of
/// `Zeroizing` (its parameter is bounded by the outside trait `Zeroize`), so
/// the buffer is held here, opaque.
#[verifier::external_body]
pub struct SecretBuffer {
    bytes: Zeroizing<Vec<u8>>,
}

/// The bytes a secret buffer holds.
pub uninterp spec fn secret_bytes(b: SecretBuffer) -> Seq<u8>;

/// `Zeroizing::new`: the bytes move into a buffer that overwrites them with
/// zeros when it is dropped. They are held unchanged.
#[verifier::external_body]
pub(crate) fn zeroizing_new(bytes: Vec<u8>) -> (b: SecretBuffer)
    ensures
        secret_bytes(b) == bytes@,
{
    SecretBuffer { bytes: Zeroizing::new(bytes) }
}

/// `Zeroizing`'s `Deref`: the bytes the buffer holds.
#[verifier::external_body]
pub(crate) fn zeroizing_bytes(b: &SecretBuffer) -> (s: &[u8])
    ensures
        s@ == secret_bytes(*b),
{
    b.bytes.as_slice()
}

/// `Zeroizing`'s `Clone`: a second buffer holding the same bytes.
#[verifier::external_body]
fn zeroizing_clone(b: &SecretBuffer) -> (c: SecretBuffer)
    ensures
        secret_bytes(c) == secret_bytes(*b),
{
    SecretBuffer { bytes: b.bytes.clone() }
}

/// A plaintext credential, held in a buffer that is overwritten with zeros
/// when the credential is dropped, with the label it was resolved from.
pub struct Credential {
    secret: SecretBuffer,
    label: IdentityLabel,
}

impl Credential {
    /// The credential's bytes.
    pub closed spec fn spec_secret(&self) -> Seq<u8> {
        secret_bytes(self.secret)
    }

    /// The label it was resolved from.
    pub closed spec fn spec_label(&self) -> IdentityLabel {
        self.label
    }

    /// A credential holding `bytes`, resolved from `label`.
    pub fn new(bytes: Vec<u8>, label: IdentityLabel) -> (c: Credential)
        ensures
            c.spec_secret() == bytes@,
            c.spec_label() == label,
    {
        Credential { secret: zeroizing_new(bytes), label }
    }

    /// The plaintext bytes (for the outbound edge only).
    pub fn expose_secret(&self) -> (b: &[u8])
        ensures
            b@ == self.spec_secret(),
    {
        zeroizing_bytes(&self.secret)
    }

    /// The plaintext as text, or the message saying it is not UTF-8.
    pub fn expose_secret_str(&self) -> (r: Result<String, String>)
        ensures
            r is Ok <==> valid_utf8(self.spec_secret()),
            r matches Ok(s) ==> s@ == decode_utf8(self.spec_secret()),
            r matches Err(m) ==> m@ == utf8_error_text(self.spec_secret()),
    {
        utf8_text(zeroizing_bytes(&self.secret))
    }

    /// The label it was resolved from.
    pub fn label(&self) -> (l: &IdentityLabel)
        ensures
            *l == self.spec_label(),
    {
        &self.label
    }

    /// The credential's length in bytes.
    pub fn len(&self) -> (n: usize)
        ensures
            n == self.spec_secret().len(),
    {
        zeroizing_bytes(&self.secret).len()
    }

    /// Whether the credential is empty.
    pub fn is_empty(&self) -> (b: bool)
        ensures
            b == (self.spec_secret().len() == 0),
    {
        zeroizing_bytes(&self.secret).len() == 0
    }

    /// The metadata a log may show: the label and the length, with the
    /// secret redacted.
    pub fn redacted(&self) -> (s: String)
        ensures
            s@ == "Credential { label: "@ + self.spec_label().spec_text() + ", len: "@ + decimal(
                self.spec_secret().len(),
            ) + ", secret: [REDACTED] }"@,
    {
        let mut s = String::from_str("Credential { label: ");
        let l = self.label.to_string();
        s.append(l.as_str());
        s.append(", len: ");
        push_decimal(&mut s, self.len() as u64);
        s.append(", secret: [REDACTED] }");
        s
    }
}

impl Clone for Credential {
    fn clone(&self) -> (c: Self)
        ensures
            c.spec_secret() == self.spec_secret(),
            c.spec_label() == self.spec_label(),
    {
        Credential { secret: zeroizing_clone(&self.secret), label: self.label.duplicate() }
    }
}

/// The labels the keys of a store parse to, in order (keys that do not
/// parse are skipped).
pub open spec fn parsed_keys(s: Seq<(String, Vec<u8>)>) -> Seq<(CredentialScheme, Seq<char>)>
    decreases s.len(),
{
    if s.len() == 0 {
        Seq::empty()
    } else {
        let rest = parsed_keys(s.drop_last());
        match spec_parse_label(s.last().0@) {
            Ok(p) => rest.push(p),
            Err(_) => rest,
        }
    }
}

/// The scheme and path of each label.
pub open spec fn label_parts(v: Seq<IdentityLabel>) -> Seq<(CredentialScheme, Seq<char>)> {
    v.map_values(|l: IdentityLabel| (l.scheme, l.path@))
}

/// What reading a label from a store holding `stored` under its text
/// gives: the bytes, or `Empty` for empty bytes, or `NotFound` with the
/// label's text.
pub open spec fn stored_credential(stored: Option<Vec<u8>>, label: IdentityLabel, r: Result<Credential, CredentialError>) -> bool {
    match stored {
        Some(b) => if b@.len() > 0 {
            r matches Ok(c) && c.spec_secret() == b@ && c.spec_label() == label
        } else {
            r matches Err(CredentialError::Empty)
        },
        None => r matches Err(CredentialError::NotFound(k)) && k@ == label.spec_text(),
    }
}

/// A credential store in memory, keyed by label text (for tests and local
/// runs: credentials stay in memory until removed).
pub struct InMemoryCredentialStore {
    credentials: StrMap<Vec<u8>>,
}

impl InMemoryCredentialStore {
    /// The bytes stored under a label text.
    pub closed spec fn spec_get(&self, k: Seq<char>) -> Option<Vec<u8>> {
        self.credentials.spec_get(k)
    }

    /// The keys and values, in the order keys were first stored.
    pub closed spec fn spec_entries(&self) -> Seq<(String, Vec<u8>)> {
        self.credentials.spec_entries()
    }

    /// An empty store.
    pub fn new() -> (s: InMemoryCredentialStore)
        ensures
            forall|k: Seq<char>| s.spec_get(k) is None,
            s.spec_entries().len() == 0,
    {
        InMemoryCredentialStore { credentials: StrMap::new() }
    }

    /// Store `value` under the label text `label`.
    pub fn insert(&mut self, label: &str, value: &[u8])
        ensures
            forall|k: Seq<char>| k != label@ ==> #[trigger] final(self).spec_get(k) == old(self).spec_get(k),
            final(self).spec_get(label@) matches Some(v) && v@ == value@,
    {
        let v = slice_to_vec(value);
        self.credentials.insert(String::from_str(label), v);
    }

    /// The credential stored under the label's text: its bytes if they are
    /// not empty, else `Empty`; `NotFound` (naming the label) if none is.
    pub fn get(&self, label: &IdentityLabel) -> (r: Result<Credential, CredentialError>)
        ensures
            stored_credential(self.spec_get(label.spec_text()), *label, r),
    {
        let key = label.to_string();
        match self.credentials.get(key.as_str()) {
            Some(bytes) => {
                if bytes.len() > 0 {
                    Ok(Credential::new(bytes.clone(), label.duplicate()))
                } else {
                    Err(CredentialError::Empty)
                }
            },
            None => Err(CredentialError::NotFound(key)),
        }
    }

    /// Store a credential under the label's text.
    pub fn put(&mut self, label: &IdentityLabel, credential: &[u8]) -> (r: Result<(), CredentialError>)
        ensures
            r is Ok,
            forall|k: Seq<char>| k != label.spec_text() ==> #[trigger] final(self).spec_get(k) == old(
                self,
            ).spec_get(k),
            final(self).spec_get(label.spec_text()) matches Some(v) && v@ == credential@,
    {
        let key = label.to_string();
        let v = slice_to_vec(credential);
        self.credentials.insert(key, v);
        Ok(())
    }

    /// Remove the credential stored under the label's text, if any.
    pub fn delete(&mut self, label: &IdentityLabel) -> (r: Result<(), CredentialError>)
        ensures
            r is Ok,
            forall|k: Seq<char>| #[trigger] final(self).spec_get(k) == if k == label.spec_text() {
                None
            } else {
                old(self).spec_get(k)
            },
    {
        let key = label.to_string();
        self.credentials.remove(key.as_str());
        Ok(())
    }

    /// The labels of the stored credentials whose keys parse as labels, in
    /// the order they were first stored.
    pub fn list(&self) -> (r: Result<Vec<IdentityLabel>, CredentialError>)
        ensures
            r matches Ok(v) && label_parts(v@) == parsed_keys(self.spec_entries()),
    {
        let entries = self.credentials.entries();
        let mut out: Vec<IdentityLabel> = Vec::new();
        let mut i: usize = 0;
        while i < entries.len()
            invariant
                0 <= i <= entries@.len(),
                label_parts(out@) == parsed_keys(entries@.subrange(0, i as int)),
            decreases entries@.len() - i,
        {
            let ghost before = out@;
            assert(entries@.subrange(0, i + 1).drop_last() =~= entries@.subrange(0, i as int));
            match IdentityLabel::parse(entries[i].0.as_str()) {
                Ok(l) => {
                    out.push(l);
                    assert(label_parts(out@) =~= label_parts(before).push((l.scheme, l.path@)));
                },
                Err(_) => {},
            }
            i = i + 1;
        }
        assert(entries@.subrange(0, entries@.len() as int) =~= entries@);
        Ok(out)
    }
}

proof fn lemma_scheme_name(c: CredentialScheme)
    ensures
        is_ascii_text(c.spec_name()),
        ascii_lowered(c.spec_name()) == c.spec_name(),
        forall|j: int| 0 <= j < c.spec_name().len() ==> #[trigger] c.spec_name()[j] != ':',
        forall|x: Seq<char>| #[trigger] scheme_named(x) == Some(c) <==> x == c.spec_name(),
{
    reveal_strlit("env");
    reveal_strlit("file");
    reveal_strlit("hsm");
    reveal_strlit("vault");
    reveal_strlit("inline");
    let name = c.spec_name();
    assert(ascii_lowered(name) =~= name);
    assert("env"@[0] != "hsm"@[0]);
    assert forall|x: Seq<char>| #[trigger] scheme_named(x) == Some(c) <==> x == c.spec_name() by {
        if x == c.spec_name() {
            match c {
                CredentialScheme::Env => {},
                CredentialScheme::File => {},
                CredentialScheme::Hsm => {},
                CredentialScheme::Vault => {},
                CredentialScheme::Inline => {},
            }
        }
    }
}

/// A label's text parses back into the label, when its path is not empty.
pub proof fn law_label_roundtrip(l: IdentityLabel)
    requires
        l.path@.len() > 0,
    ensures
        spec_parse_label(l.spec_text()) == Ok::<(CredentialScheme, Seq<char>), Seq<char>>((l.scheme, l.path@)),
{
    lemma_scheme_name(l.scheme);
    reveal_strlit(":");
    let name = l.scheme.spec_name();
    let s = l.spec_text();
    let n = name.len() as int;
    assert(s[n] == ':');
    assert forall|j: int| 0 <= j < n implies s[j] != ':' by {
        assert(s[j] == name[j]);
    }
    assert(first_colon(s, n));
    assert(has_colon(s));
    let i = choose|i: int| first_colon(s, i);
    lemma_first_colon_unique(s, i, n);
    assert(s.subrange(0, n) =~= name);
    assert(s.subrange(n + 1, s.len() as int) =~= l.path@);
    assert(scheme_key(name) == name);
    assert(scheme_named(name) == Some(l.scheme));
}

/// For ASCII text, the scheme is recognised exactly when the text equals
/// the scheme's name ignoring ASCII case.
pub proof fn law_scheme_case_insensitive(s: Seq<char>, c: CredentialScheme)
    requires
        is_ascii_text(s),
    ensures
        scheme_named(scheme_key(s)) == Some(c) <==> eq_ignore_case(s, c.spec_name()),
{
    lemma_scheme_name(c);
    let name = c.spec_name();
    let k = ascii_lowered(s);
    assert(scheme_key(s) == k);
    if eq_ignore_case(s, name) {
        assert forall|j: int| 0 <= j < k.len() implies #[trigger] k[j] == name[j] by {
            assert(ascii_lower(s[j]) == ascii_lower(name[j]));
            assert(ascii_lowered(name)[j] == name[j]);
        }
        assert(k =~= name);
    }
    if k == name {
        assert forall|j: int| 0 <= j < s.len() implies ascii_lower(#[trigger] s[j]) == ascii_lower(name[j]) by {
            assert(k[j] == ascii_lower(s[j]));
            assert(ascii_lowered(name)[j] == ascii_lower(name[j]));
        }
    }
}

/// What a store gives back for a label is what was last put under it: the
/// bytes, when they are not empty (else `Empty`).
pub proof fn law_get_returns_put(
    after_put: InMemoryCredentialStore,
    label: IdentityLabel,
    bytes: Seq<u8>,
    r: Result<Credential, CredentialError>,
)
    requires
        after_put.spec_get(label.spec_text()) matches Some(v) && v@ == bytes,
        stored_credential(after_put.spec_get(label.spec_text()), label, r),
    ensures
        bytes.len() > 0 ==> (r matches Ok(c) && c.spec_secret() == bytes && c.spec_label() == label),
        bytes.len() == 0 ==> r matches Err(CredentialError::Empty),
{
}

/// After a delete, the label is not found.
pub proof fn law_get_after_delete(
    after_delete: InMemoryCredentialStore,
    label: IdentityLabel,
    r: Result<Credential, CredentialError>,
)
    requires
        after_delete.spec_get(label.spec_text()) is None,
        stored_credential(after_delete.spec_get(label.spec_text()), label, r),
    ensures
        r matches Err(CredentialError::NotFound(k)) && k@ == label.spec_text(),
{
}

pub(crate) fn slice_to_vec(b: &[u8]) -> (v: Vec<u8>)
    ensures
        v@ == b@,
{
    let mut v: Vec<u8> = Vec::new();
    let mut i: usize = 0;
    while i < b.len()
        invariant
            0 <= i <= b@.len(),
            v@ == b@.subrange(0, i as int),
        decreases b@.len() - i,
    {
        v.push(b[i]);
        i = i + 1;
        assert(v@ =~= b@.subrange(0, i as int));
    }
    assert(v@ =~= b@);
    v
}

} // verus!
