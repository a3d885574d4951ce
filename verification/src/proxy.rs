//! HTTP interception: the PFP header a request carries (`X-PFP`, base64 of
//! the 4 bytes) is extracted and decided, and the decision mapped to what
//! the proxy does with the request.
//!
//! | Decision | Outcome |
//! |----------|---------|
//! | Pass | continue |
//! | Reject | 403 Forbidden |
//! | NeedHumanConfirm | 401, pending confirmation |
//! | HardOverridePass | continue (emergency override) |

use vstd::prelude::*;

use crate::base64::b64_decode;
use crate::digest::{new_uuid_v4, uuid_text, uuid_to_string};
use crate::pfp::{decide, is_valid_pfp, pfp_error, spec_decide, Decision, PfpHeader, SecurityPolicy, MAGIC_HI, MAGIC_LO};
use crate::strmap::{eq_ignore_ascii_case, eq_ignore_case};
use crate::text::{decimal, push_char, push_decimal};

pub use crate::base64::{base64_decode, base64_encode};

verus! {

/// Name of the PFP request header.
pub const PFP_HEADER: &'static str = "x-pfp";

/// Name of the header carrying the decision to downstream services.
pub const DECISION_HEADER: &'static str = "x-tuck-decision";

/// Name of the header carrying the trace ID.
pub const TRACE_HEADER: &'static str = "x-tuck-trace-id";

/// What to do with an intercepted request.
#[derive(Debug, Clone, PartialEq, Eq)]
pub enum InterceptResult {
    /// Let it through.
    Allow,
    /// Refuse it.
    Reject {
        /// HTTP status.
        status: u16,
        /// Why.
        reason: String,
    },
    /// Hold it for a human.
    NeedConfirmation {
        /// Confirmation request ID.
        request_id: String,
        /// HTTP status.
        status: u16,
    },
    /// Let it through under the emergency override.
    HardOverride {
        /// Why.
        reason: String,
    },
}

/// Why a request could not be decided.
#[derive(Debug, Clone, PartialEq, Eq)]
pub enum InterceptError {
    /// No PFP header.
    MissingPfp,
    /// The PFP header is not base64 of a valid header.
    InvalidPfp(String),
    /// The PFP magic is not 0xCF14.
    InvalidMagic,
}

impl InterceptError {
    /// The error's message.
    pub open spec fn spec_text(self) -> Seq<char> {
        match self {
            InterceptError::MissingPfp => "PFP header missing"@,
            InterceptError::InvalidPfp(m) => "invalid PFP header: "@ + m@,
            InterceptError::InvalidMagic => "invalid PFP magic: expected 0xCF14"@,
        }
    }

    /// The error's message.
    pub fn to_string(&self) -> (s: String)
        ensures
            s@ == self.spec_text(),
    {
        match self {
            InterceptError::MissingPfp => String::from_str("PFP header missing"),
            InterceptError::InvalidPfp(m) => {
                let mut s = String::from_str("invalid PFP header: ");
                s.append(m.as_str());
                s
            },
            InterceptError::InvalidMagic => String::from_str("invalid PFP magic: expected 0xCF14"),
        }
    }
}

/// Whether `i` is the first header named `x-pfp` (in any ASCII case).
pub open spec fn first_pfp_header(headers: Seq<(&str, &str)>, i: int) -> bool {
    &&& 0 <= i < headers.len()
    &&& eq_ignore_case(headers[i].0@, "x-pfp"@)
    &&& forall|j: int| 0 <= j < i ==> !eq_ignore_case(#[trigger] headers[j].0@, "x-pfp"@)
}

/// Whether `r` is what extracting the PFP bytes from this header value
/// gives: the value is base64-decoded and must hold 4 bytes starting with
/// the magic 0xCF14.
pub open spec fn value_extracted(value: Seq<char>, r: Result<[u8; 4], InterceptError>) -> bool {
    match b64_decode(value) {
        Err(c) => r matches Err(InterceptError::InvalidPfp(m))
            && m@ == "base64 decode failed: "@ + "invalid base64 character: "@ + seq![c],
        Ok(b) => if b.len() != 4 {
            r matches Err(InterceptError::InvalidPfp(m)) && m@ == "expected 4 bytes, got "@ + decimal(b.len())
        } else if b[0] != MAGIC_HI || b[1] != MAGIC_LO {
            r == Err::<[u8; 4], InterceptError>(InterceptError::InvalidMagic)
        } else {
            r matches Ok(a) && a@ == b
        },
    }
}

/// Whether `r` is what extracting the PFP header from these headers gives:
/// `MissingPfp` where no header is named `x-pfp` in any ASCII case, else
/// what the value of the first such header gives.
pub open spec fn extracted(headers: Seq<(&str, &str)>, r: Result<[u8; 4], InterceptError>) -> bool {
    if forall|j: int| 0 <= j < headers.len() ==> !eq_ignore_case(#[trigger] headers[j].0@, "x-pfp"@) {
        r == Err::<[u8; 4], InterceptError>(InterceptError::MissingPfp)
    } else {
        exists|i: int| #[trigger] first_pfp_header(headers, i) && value_extracted(headers[i].1@, r)
    }
}

/// Whether `r` is the interception outcome for decision `d`.
pub open spec fn outcome_for(d: Decision, r: InterceptResult) -> bool {
    match d {
        Decision::Pass => r == InterceptResult::Allow,
        Decision::Reject => r matches InterceptResult::Reject { status, reason } && status == 403
            && reason@ == "Tuck security policy rejected the request"@,
        Decision::NeedHumanConfirm => r matches InterceptResult::NeedConfirmation { request_id, status } && status == 401
            && exists|b: Seq<u8>| b.len() == 16 && request_id@ == #[trigger] uuid_text(b),
        Decision::HardOverridePass => r matches InterceptResult::HardOverride { reason }
            && reason@ == "CATASTROPHIC risk with hard override flag \u{2014} emergency pass"@,
    }
}

/// Whether `r` is what intercepting a request with these headers under
/// `policy` gives: the PFP bytes are extracted, validated as a PFP header,
/// decided, and the decision mapped to an outcome; any failure on the way
/// is the error.
pub open spec fn intercepted(
    headers: Seq<(&str, &str)>,
    policy: SecurityPolicy,
    r: Result<InterceptResult, InterceptError>,
) -> bool {
    exists|x: Result<[u8; 4], InterceptError>| {
        &&& #[trigger] extracted(headers, x)
        &&& match x {
            Err(e) => r == Err::<InterceptResult, InterceptError>(e),
            Ok(b) => if is_valid_pfp(b@) {
                r matches Ok(o) && outcome_for(spec_decide(b@, policy), o)
            } else {
                r matches Err(InterceptError::InvalidPfp(m)) && m@ == "PFP validation failed: "@
                    + pfp_error(b@).spec_text()
            },
        }
    }
}

/// The HTTP interceptor.
#[derive(Debug, Clone)]
pub struct HttpInterceptor {
    policy: SecurityPolicy,
}

impl HttpInterceptor {
    /// The policy.
    pub closed spec fn spec_policy(&self) -> SecurityPolicy {
        self.policy
    }

    /// An interceptor deciding with this policy.
    pub fn new(policy: SecurityPolicy) -> (i: HttpInterceptor)
        ensures
            i.spec_policy() == policy,
    {
        HttpInterceptor { policy }
    }

    /// The PFP bytes a request carries: the first header named `x-pfp` in
    /// any ASCII case, base64-decoded, which must be 4 bytes starting with
    /// the magic 0xCF14.
    pub fn extract_pfp<'a>(&self, headers: Vec<(&'a str, &'a str)>) -> (r: Result<[u8; 4], InterceptError>)
        ensures
            extracted(headers@, r),
    {
        proof {
            reveal_strlit("x-pfp");
        }
        let mut i: usize = 0;
        let mut found = false;
        while i < headers.len() && !found
            invariant
                0 <= i <= headers@.len(),
                found ==> i < headers@.len() && eq_ignore_case(headers@[i as int].0@, "x-pfp"@),
                forall|j: int| 0 <= j < i ==> !eq_ignore_case(#[trigger] headers@[j].0@, "x-pfp"@),
            decreases headers@.len() - i + (if found { 0int } else { 1int }),
        {
            if eq_ignore_ascii_case(headers[i].0, PFP_HEADER) {
                found = true;
            } else {
                i = i + 1;
            }
        }
        if !found {
            return Err(InterceptError::MissingPfp);
        }
        assert(first_pfp_header(headers@, i as int));
        let value = headers[i].1;
        let decoded = match base64_decode(value) {
            Ok(d) => d,
            Err(e) => {
                let mut m = String::from_str("base64 decode failed: ");
                m.append(e.as_str());
                proof {
                    if let Err(c) = b64_decode(value@) {
                        assert(m@ =~= "base64 decode failed: "@ + "invalid base64 character: "@ + seq![c]);
                    }
                }
                let r = Err(InterceptError::InvalidPfp(m));
                assert(value_extracted(headers@[i as int].1@, r));
                return r;
            },
        };
        if decoded.len() != 4 {
            let mut m = String::from_str("expected 4 bytes, got ");
            push_decimal(&mut m, decoded.len() as u64);
            return Err(InterceptError::InvalidPfp(m));
        }
        if decoded[0] != 0xCF || decoded[1] != 0x14 {
            return Err(InterceptError::InvalidMagic);
        }
        let pfp: [u8; 4] = [decoded[0], decoded[1], decoded[2], decoded[3]];
        assert(pfp@ =~= decoded@);
        Ok(pfp)
    }

    fn map_decision(&self, decision: Decision) -> (r: InterceptResult)
        ensures
            outcome_for(decision, r),
    {
        match decision {
            Decision::Pass => InterceptResult::Allow,
            Decision::Reject => InterceptResult::Reject {
                status: 403,
                reason: String::from_str("Tuck security policy rejected the request"),
            },
            Decision::NeedHumanConfirm => {
                let id = new_uuid_v4();
                let text = uuid_to_string(&id);
                assert(id@.len() == 16);
                InterceptResult::NeedConfirmation { request_id: text, status: 401 }
            },
            Decision::HardOverridePass => InterceptResult::HardOverride {
                reason: String::from_str("CATASTROPHIC risk with hard override flag \u{2014} emergency pass"),
            },
        }
    }

    /// Decide a request from its headers: extract the PFP header, validate
    /// it as a PFP header, decide, and map the decision.
    pub fn intercept<'a>(&self, headers: Vec<(&'a str, &'a str)>) -> (r: Result<InterceptResult, InterceptError>)
        ensures
            intercepted(headers@, self.spec_policy(), r),
    {
        let x = self.extract_pfp(headers);
        match x {
            Err(e) => Err(e),
            Ok(bytes) => match PfpHeader::from_bytes(bytes) {
                Ok(pfp) => {
                    let decision = decide(&pfp, &self.policy);
                    Ok(self.map_decision(decision))
                },
                Err(e) => {
                    let mut m = String::from_str("PFP validation failed: ");
                    let t = e.to_string();
                    m.append(t.as_str());
                    Err(InterceptError::InvalidPfp(m))
                },
            },
        }
    }

    /// The policy.
    pub fn policy(&self) -> (p: &SecurityPolicy)
        ensures
            *p == self.spec_policy(),
    {
        &self.policy
    }
}

/// The PFP header value for PFP bytes: their base64.
pub fn pfp_header_value(pfp: &[u8; 4]) -> (s: String)
    ensures
        s@ == crate::base64::b64_encode(pfp@),
{
    base64_encode(pfp.as_slice())
}

/// The PFP header, name and value.
pub fn pfp_header(pfp: &[u8; 4]) -> (h: (String, String))
    ensures
        h.0@ == "x-pfp"@,
        h.1@ == crate::base64::b64_encode(pfp@),
{
    (String::from_str(PFP_HEADER), pfp_header_value(pfp))
}

} // verus!
