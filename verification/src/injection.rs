//! Credential injection at the outbound edge: where a credential goes in an
//! outbound request, and putting it there.
//!
//! Resolving the credential from a store happens outside this module; here
//! the credential's bytes are placed into the request.

use vstd::prelude::*;
use vstd::utf8::{decode_utf8, valid_utf8};

use crate::base64::b64_encode;
use crate::credential::{Credential, IdentityLabel};
use crate::json::{dot_parts, json_text, json_to_vec, json_tree, parse_json, set_at_path, set_path, Json, JsonValue};
use crate::strmap::{eq_ignore_case, opt_chars, StrMap};

pub use crate::base64::base64_encode;

verus! {

/// Where a credential goes in an outbound request.
#[derive(Debug, Clone, PartialEq, Eq)]
pub enum InjectionTarget {
    /// An HTTP header `name: credential`.
    HttpHeader {
        /// Header name.
        name: String,
    },
    /// `Authorization: Bearer <credential>`.
    BearerToken,
    /// A query parameter `name=credential`.
    QueryParam {
        /// Parameter name.
        name: String,
    },
    /// A JSON body field at a dot-separated path.
    BodyField {
        /// Field path, such as `auth.token`.
        path: String,
    },
    /// `Authorization: Basic base64(username:credential)`.
    BasicAuth {
        /// User name.
        username: String,
    },
}

impl InjectionTarget {
    /// An HTTP header target.
    pub fn header(name: &str) -> (t: InjectionTarget)
        ensures
            t matches InjectionTarget::HttpHeader { name: n } && n@ == name@,
    {
        InjectionTarget::HttpHeader { name: String::from_str(name) }
    }

    /// A query parameter target.
    pub fn query_param(name: &str) -> (t: InjectionTarget)
        ensures
            t matches InjectionTarget::QueryParam { name: n } && n@ == name@,
    {
        InjectionTarget::QueryParam { name: String::from_str(name) }
    }

    /// A JSON body field target.
    pub fn body_field(path: &str) -> (t: InjectionTarget)
        ensures
            t matches InjectionTarget::BodyField { path: p } && p@ == path@,
    {
        InjectionTarget::BodyField { path: String::from_str(path) }
    }

    /// A field-by-field copy.
    pub fn duplicate(&self) -> (t: InjectionTarget)
        ensures
            t == *self,
    {
        match self {
            InjectionTarget::HttpHeader { name } => InjectionTarget::HttpHeader { name: name.clone() },
            InjectionTarget::BearerToken => InjectionTarget::BearerToken,
            InjectionTarget::QueryParam { name } => InjectionTarget::QueryParam { name: name.clone() },
            InjectionTarget::BodyField { path } => InjectionTarget::BodyField { path: path.clone() },
            InjectionTarget::BasicAuth { username } => InjectionTarget::BasicAuth { username: username.clone() },
        }
    }
}

/// An outbound request, as far as injection sees it.
#[derive(Debug)]
pub struct OutboundRequest {
    /// HTTP headers, name to value.
    pub headers: StrMap<String>,
    /// Query parameters, name to value.
    pub query_params: StrMap<String>,
    /// Body bytes (typically JSON).
    pub body: Option<Vec<u8>>,
}

/// Whether a string map holds no key.
pub open spec fn map_empty(m: StrMap<String>) -> bool {
    forall|k: Seq<char>| m.spec_get(k) is None
}

/// Whether `after` is `before` with `key` set to a string of characters
/// `value`.
pub open spec fn map_set(before: StrMap<String>, after: StrMap<String>, key: Seq<char>, value: Seq<char>) -> bool {
    forall|k: Seq<char>| if k == key {
        #[trigger] after.spec_get(k) matches Some(v) && v@ == value
    } else {
        after.spec_get(k) == before.spec_get(k)
    }
}

impl OutboundRequest {
    /// An empty request.
    pub fn new() -> (r: OutboundRequest)
        ensures
            map_empty(r.headers),
            map_empty(r.query_params),
            r.body is None,
    {
        OutboundRequest { headers: StrMap::new(), query_params: StrMap::new(), body: None }
    }

    /// Set a header.
    pub fn with_header(self, name: &str, value: &str) -> (r: OutboundRequest)
        ensures
            map_set(self.headers, r.headers, name@, value@),
            r.query_params == self.query_params,
            r.body == self.body,
    {
        let mut r = self;
        r.headers.insert(String::from_str(name), String::from_str(value));
        r
    }

    /// Set a query parameter.
    pub fn with_query_param(self, name: &str, value: &str) -> (r: OutboundRequest)
        ensures
            map_set(self.query_params, r.query_params, name@, value@),
            r.headers == self.headers,
            r.body == self.body,
    {
        let mut r = self;
        r.query_params.insert(String::from_str(name), String::from_str(value));
        r
    }

    /// Set the body.
    pub fn with_body(self, body: Vec<u8>) -> (r: OutboundRequest)
        ensures
            r.body == Some(body),
            r.headers == self.headers,
            r.query_params == self.query_params,
    {
        let mut r = self;
        r.body = Some(body);
        r
    }

    /// The value of the first header whose name equals `name` ignoring
    /// ASCII case.
    pub fn get_header(&self, name: &str) -> (r: Option<&String>)
        ensures
            match r {
                Some(v) => exists|i: int| {
                    &&& 0 <= i < self.headers.spec_entries().len()
                    &&& eq_ignore_case(#[trigger] self.headers.spec_entries()[i].0@, name@)
                    &&& self.headers.spec_entries()[i].1 == *v
                    &&& forall|j: int| 0 <= j < i ==> !eq_ignore_case(self.headers.spec_entries()[j].0@, name@)
                },
                None => forall|i: int| 0 <= i < self.headers.spec_entries().len()
                    ==> !eq_ignore_case(#[trigger] self.headers.spec_entries()[i].0@, name@),
            },
    {
        self.headers.get_ignore_case(name)
    }
}

/// Whether two requests hold the same headers, query parameters and body.
pub open spec fn same_request(a: OutboundRequest, b: OutboundRequest) -> bool {
    &&& forall|k: Seq<char>| #[trigger] opt_chars(a.headers.spec_get(k)) == opt_chars(b.headers.spec_get(k))
    &&& forall|k: Seq<char>| #[trigger] opt_chars(a.query_params.spec_get(k)) == opt_chars(
        b.query_params.spec_get(k),
    )
    &&& opt_bytes(a.body) == opt_bytes(b.body)
}

/// The bytes of an optional body.
pub open spec fn opt_bytes(b: Option<Vec<u8>>) -> Option<Seq<u8>> {
    match b {
        Some(v) => Some(v@),
        None => None,
    }
}

impl OutboundRequest {
    /// A copy of the request.
    pub fn duplicate(&self) -> (r: OutboundRequest)
        ensures
            same_request(r, *self),
    {
        let body = match &self.body {
            Some(b) => Some(b.clone()),
            None => None,
        };
        OutboundRequest {
            headers: self.headers.duplicate(),
            query_params: self.query_params.duplicate(),
            body,
        }
    }
}

impl Default for OutboundRequest {
    fn default() -> (r: Self)
        ensures
            map_empty(r.headers),
            map_empty(r.query_params),
            r.body is None,
    {
        OutboundRequest::new()
    }
}

/// Outcome of an injection.
#[derive(Debug, Clone)]
pub struct InjectionResult {
    /// The label resolved.
    pub label: IdentityLabel,
    /// The target used.
    pub target: InjectionTarget,
    /// Whether the credential was placed.
    pub success: bool,
    /// The credential's length (never the credential).
    pub credential_len: usize,
    /// What went wrong, if anything.
    pub error: Option<String>,
}

impl InjectionResult {
    /// The result of injecting a credential of `credential_len` bytes
    /// resolved from `label` into `target`, from the outcome of placing it.
    pub fn from_outcome(
        label: &IdentityLabel,
        target: &InjectionTarget,
        credential_len: usize,
        outcome: Result<(), String>,
    ) -> (r: InjectionResult)
        ensures
            r.label == *label,
            r.target == *target,
            r.credential_len == credential_len,
            r.success == outcome is Ok,
            match outcome {
                Ok(()) => r.error is None,
                Err(m) => r.error == Some(m),
            },
    {
        match outcome {
            Ok(()) => InjectionResult {
                label: label.duplicate(),
                target: target.duplicate(),
                success: true,
                credential_len,
                error: None,
            },
            Err(m) => InjectionResult {
                label: label.duplicate(),
                target: target.duplicate(),
                success: false,
                credential_len,
                error: Some(m),
            },
        }
    }
}

/// The message describing why bytes are not UTF-8 (`Utf8Error`'s text).
pub uninterp spec fn utf8_error_text(b: Seq<u8>) -> Seq<char>;

/// `std::str::from_utf8`, as an owned string. The contract states what its
/// documentation gives: success exactly for valid UTF-8, with the decoded
/// characters; the error's text is named, not stated.
#[verifier::external_body]
pub(crate) fn utf8_text(bytes: &[u8]) -> (r: Result<String, String>)
    ensures
        r is Ok <==> valid_utf8(bytes@),
        r matches Ok(s) ==> s@ == decode_utf8(bytes@),
        r matches Err(m) ==> m@ == utf8_error_text(bytes@),
{
    match std::str::from_utf8(bytes) {
        Ok(s) => Ok(String::from(s)),
        Err(e) => Err(format!("{e}")),
    }
}

/// The text of a credential, or the error that it is not UTF-8.
pub open spec fn credential_text(secret: Seq<u8>) -> Result<Seq<char>, Seq<char>> {
    if valid_utf8(secret) {
        Ok(decode_utf8(secret))
    } else {
        Err("invalid UTF-8 in credential: "@ + utf8_error_text(secret))
    }
}

/// The `Authorization` value for Basic authentication.
pub open spec fn basic_value(username: Seq<char>, password: Seq<char>) -> Seq<char> {
    "Basic "@ + b64_encode(vstd::utf8::encode_utf8(username + ":"@ + password))
}

/// What injecting `secret` at `target` does to a request: the credential,
/// as text, becomes the header or query parameter the target names (for a
/// bearer token, `Bearer <credential>`; for Basic authentication, the
/// encoded `username:credential`), or the JSON body field at the target's
/// path. On any error the request is unchanged.
pub open spec fn injected(
    secret: Seq<u8>,
    target: InjectionTarget,
    before: OutboundRequest,
    after: OutboundRequest,
    r: Result<(), String>,
) -> bool {
    match target {
        InjectionTarget::BodyField { path } => match body_injected(secret, path@, opt_bytes(before.body)) {
            Ok(b) => {
                &&& r is Ok
                &&& after.headers == before.headers
                &&& after.query_params == before.query_params
                &&& opt_bytes(after.body) == Some(b)
            },
            Err(msg) => r matches Err(m) && m@ == msg && after == before,
        },
        _ => header_injected(secret, target, before, after, r),
    }
}

/// What injecting `secret` at a header, query parameter or authorization
/// target does to a request.
pub open spec fn header_injected(
    secret: Seq<u8>,
    target: InjectionTarget,
    before: OutboundRequest,
    after: OutboundRequest,
    r: Result<(), String>,
) -> bool {
    match credential_text(secret) {
        Err(msg) => r matches Err(m) && m@ == msg && after == before,
        Ok(text) => {
            &&& r is Ok
            &&& after.body == before.body
            &&& match target {
                InjectionTarget::HttpHeader { name } => map_set(before.headers, after.headers, name@, text)
                    && after.query_params == before.query_params,
                InjectionTarget::BearerToken => map_set(before.headers, after.headers, "Authorization"@, "Bearer "@ + text)
                    && after.query_params == before.query_params,
                InjectionTarget::QueryParam { name } => map_set(before.query_params, after.query_params, name@, text)
                    && after.headers == before.headers,
                InjectionTarget::BasicAuth { username } => map_set(
                    before.headers,
                    after.headers,
                    "Authorization"@,
                    basic_value(username@, text),
                ) && after.query_params == before.query_params,
                InjectionTarget::BodyField { .. } => false,
            }
        },
    }
}

/// The body after setting the credential as the JSON body field at
/// `path`, or the error: a credential that is not UTF-8; a body that is not
/// JSON; a path through a value that cannot hold a field. Without a body
/// the field is set in an empty object.
pub open spec fn body_injected(secret: Seq<u8>, path: Seq<char>, body: Option<Seq<u8>>) -> Result<Seq<u8>, Seq<char>> {
    match credential_text(secret) {
        Err(m) => Err(m),
        Ok(text) => {
            let tree = match body {
                None => Ok(Json::Object(Seq::empty())),
                Some(b) => match json_tree(b) {
                    Ok(t) => Ok(t),
                    Err(m) => Err("invalid JSON body: "@ + m),
                },
            };
            match tree {
                Err(m) => Err(m),
                Ok(t) => match set_path(t, dot_parts(path), 0, text) {
                    Some(u) => Ok(json_text(u)),
                    None => Err("cannot set field "@ + path + " in the JSON body"@),
                },
            }
        },
    }
}

/// Set the credential as the JSON body field at the dot-separated `path`
/// of `body` (an empty object where there is none), and give the new body.
pub fn inject_body_field(secret: &[u8], path: &str, body: &Option<Vec<u8>>) -> (r: Result<Vec<u8>, String>)
    ensures
        match body_injected(secret@, path@, opt_bytes(*body)) {
            Ok(b) => r matches Ok(v) && v@ == b,
            Err(m) => r matches Err(e) && e@ == m,
        },
{
    let text = match credential_string(secret) {
        Ok(t) => t,
        Err(m) => return Err(m),
    };
    let tree = match body {
        None => {
            let t = JsonValue::Object(Vec::new());
            assert(t@ == Json::Object(Seq::empty()));
            t
        },
        Some(b) => match parse_json(b.as_slice()) {
            Ok(v) => v,
            Err(e) => {
                let mut m = String::from_str("invalid JSON body: ");
                m.append(e.as_str());
                return Err(m);
            },
        },
    };
    match set_at_path(tree, path, text.as_str()) {
        Some(u) => Ok(json_to_vec(&u)),
        None => {
            let mut m = String::from_str("cannot set field ");
            m.append(path);
            m.append(" in the JSON body");
            Err(m)
        },
    }
}

fn credential_string(secret: &[u8]) -> (r: Result<String, String>)
    ensures
        match credential_text(secret@) {
            Ok(t) => r matches Ok(s) && s@ == t,
            Err(msg) => r matches Err(m) && m@ == msg,
        },
{
    match utf8_text(secret) {
        Ok(s) => Ok(s),
        Err(e) => {
            let mut m = String::from_str("invalid UTF-8 in credential: ");
            m.append(e.as_str());
            Err(m)
        },
    }
}

/// Place a credential into a request at its target.
pub fn inject_into_request(secret: &[u8], target: &InjectionTarget, request: &mut OutboundRequest)
    -> (r: Result<(), String>)
    ensures
        injected(secret@, *target, *old(request), *final(request), r),
{
    if let InjectionTarget::BodyField { path } = target {
        return match inject_body_field(secret, path.as_str(), &request.body) {
            Ok(b) => {
                request.body = Some(b);
                Ok(())
            },
            Err(m) => Err(m),
        };
    }
    let text = match credential_string(secret) {
        Ok(t) => t,
        Err(m) => return Err(m),
    };
    match target {
        InjectionTarget::HttpHeader { name } => {
            request.headers.insert(name.clone(), text);
        },
        InjectionTarget::BearerToken => {
            let mut v = String::from_str("Bearer ");
            v.append(text.as_str());
            request.headers.insert(String::from_str("Authorization"), v);
        },
        InjectionTarget::QueryParam { name } => {
            request.query_params.insert(name.clone(), text);
        },
        InjectionTarget::BasicAuth { username } => {
            let mut combined = username.clone();
            combined.append(":");
            combined.append(text.as_str());
            let encoded = base64_encode(combined.as_str().as_bytes());
            let mut v = String::from_str("Basic ");
            v.append(encoded.as_str());
            request.headers.insert(String::from_str("Authorization"), v);
        },
        InjectionTarget::BodyField { .. } => {},
    }
    Ok(())
}

/// Inject a resolved credential into a request at `target` and report it:
/// the label and target, whether it was placed, its length (never its
/// bytes) and, on failure, why. The credential is dropped by the caller,
/// which zeroes it.
pub fn inject_credential(
    label: &IdentityLabel,
    target: &InjectionTarget,
    credential: &Credential,
    request: &mut OutboundRequest,
) -> (r: InjectionResult)
    ensures
        exists|o: Result<(), String>| {
            &&& #[trigger] injected(credential.spec_secret(), *target, *old(request), *final(request), o)
            &&& r.label == *label
            &&& r.target == *target
            &&& r.credential_len == credential.spec_secret().len()
            &&& r.success == o is Ok
            &&& match o {
                Ok(()) => r.error is None,
                Err(m) => r.error == Some(m),
            }
        },
{
    let len = credential.len();
    let outcome = inject_into_request(credential.expose_secret(), target, request);
    let ghost o = outcome;
    let r = InjectionResult::from_outcome(label, target, len, outcome);
    assert(injected(credential.spec_secret(), *target, *old(request), *request, o));
    r
}

} // verus!
