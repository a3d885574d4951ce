//! Outbound handling: Tuck's decision on a request, then, when the
//! request may go, the credential its `x-identity-label` header names is
//! placed into it.
//!
//! Handling runs in two steps around the credential store: `begin` decides
//! and, for an allowed request, names the label to resolve; `finish` places
//! the resolved credential. Resolving it is the caller's part.

use vstd::prelude::*;

use crate::credential::{spec_parse_label, CredentialError, IdentityLabel};
use crate::injection::{inject_into_request, injected, same_request, InjectionResult, InjectionTarget, OutboundRequest};
use crate::pfp::SecurityPolicy;
use crate::proxy::{intercepted, HttpInterceptor, InterceptError, InterceptResult};
use crate::strmap::{eq_ignore_ascii_case, eq_ignore_case};

verus! {

/// Name of the header naming the credential to inject.
pub const IDENTITY_LABEL_HEADER: &'static str = "x-identity-label";

/// What was decided for an outbound request.
#[derive(Debug, Clone, PartialEq, Eq)]
pub enum OutboundDecision {
    /// Allowed; the credential is injected.
    Allow,
    /// Refused.
    Reject {
        /// HTTP status.
        status: u16,
        /// Why.
        reason: String,
    },
    /// Held for a human.
    NeedConfirmation {
        /// Confirmation request ID.
        request_id: String,
        /// HTTP status.
        status: u16,
    },
    /// Allowed under the emergency override; the credential is injected.
    HardOverride {
        /// Why.
        reason: String,
    },
}

/// The outbound decision for an interception outcome.
pub open spec fn spec_outbound_decision(r: InterceptResult) -> OutboundDecision {
    match r {
        InterceptResult::Allow => OutboundDecision::Allow,
        InterceptResult::Reject { status, reason } => OutboundDecision::Reject { status, reason },
        InterceptResult::NeedConfirmation { request_id, status } => OutboundDecision::NeedConfirmation {
            request_id,
            status,
        },
        InterceptResult::HardOverride { reason } => OutboundDecision::HardOverride { reason },
    }
}

impl OutboundDecision {
    /// The outbound decision for an interception outcome.
    pub fn from_intercept(r: InterceptResult) -> (d: OutboundDecision)
        ensures
            d == spec_outbound_decision(r),
    {
        match r {
            InterceptResult::Allow => OutboundDecision::Allow,
            InterceptResult::Reject { status, reason } => OutboundDecision::Reject { status, reason },
            InterceptResult::NeedConfirmation { request_id, status } => OutboundDecision::NeedConfirmation {
                request_id,
                status,
            },
            InterceptResult::HardOverride { reason } => OutboundDecision::HardOverride { reason },
        }
    }
}

/// Why outbound handling failed.
#[derive(Debug)]
pub enum OutboundError {
    /// The request could not be decided.
    Interception(InterceptError),
    /// The credential could not be had.
    Credential(CredentialError),
    /// An allowed request names no credential.
    MissingIdentityLabel,
}

impl OutboundError {
    /// The error's message.
    pub open spec fn spec_text(self) -> Seq<char> {
        match self {
            OutboundError::Interception(e) => "interception error: "@ + e.spec_text(),
            OutboundError::Credential(e) => "credential error: "@ + e.spec_text(),
            OutboundError::MissingIdentityLabel => "identity label header missing"@,
        }
    }

    /// The error's message.
    pub fn to_string(&self) -> (s: String)
        ensures
            s@ == self.spec_text(),
    {
        match self {
            OutboundError::Interception(e) => {
                let mut s = String::from_str("interception error: ");
                let t = e.to_string();
                s.append(t.as_str());
                s
            },
            OutboundError::Credential(e) => {
                let mut s = String::from_str("credential error: ");
                let t = e.to_string();
                s.append(t.as_str());
                s
            },
            OutboundError::MissingIdentityLabel => String::from_str("identity label header missing"),
        }
    }
}

/// The outcome of handling an outbound request.
#[derive(Debug)]
pub struct OutboundResult {
    /// The decision.
    pub decision: OutboundDecision,
    /// The injection, where the request was allowed.
    pub injection: Option<InjectionResult>,
    /// The request as it leaves.
    pub request: OutboundRequest,
}

/// Where handling stands after the decision.
#[derive(Debug)]
pub enum OutboundStep {
    /// Handling is over.
    Done(Result<OutboundResult, OutboundError>),
    /// The request may go: resolve the credential of `label`, then finish.
    Resolve {
        /// The decision (allow or hard override).
        decision: OutboundDecision,
        /// The credential to resolve.
        label: IdentityLabel,
    },
}

/// Whether `i` is the first header named `name` (in any ASCII case).
pub open spec fn first_named(headers: Seq<(&str, &str)>, name: Seq<char>, i: int) -> bool {
    &&& 0 <= i < headers.len()
    &&& eq_ignore_case(headers[i].0@, name)
    &&& forall|j: int| 0 <= j < i ==> !eq_ignore_case(#[trigger] headers[j].0@, name)
}

/// Whether no header is named `name` (in any ASCII case).
pub open spec fn none_named(headers: Seq<(&str, &str)>, name: Seq<char>) -> bool {
    forall|j: int| 0 <= j < headers.len() ==> !eq_ignore_case(#[trigger] headers[j].0@, name)
}

/// Whether `step` is what follows, for an allowed request, from the
/// identity-label header: missing, malformed, or naming a label to resolve.
pub open spec fn label_step(headers: Seq<(&str, &str)>, decision: OutboundDecision, step: OutboundStep) -> bool {
    if none_named(headers, "x-identity-label"@) {
        step matches OutboundStep::Done(Err(OutboundError::MissingIdentityLabel))
    } else {
        exists|i: int| #[trigger] first_named(headers, "x-identity-label"@, i) && match spec_parse_label(
            headers[i].1@,
        ) {
            Err(m) => step matches OutboundStep::Done(Err(OutboundError::Credential(CredentialError::InvalidLabel(t))))
                && t@ == m,
            Ok((scheme, path)) => step matches OutboundStep::Resolve { decision: d, label } && d == decision
                && label.scheme == scheme && label.path@ == path,
        }
    }
}

fn find_header(headers: &Vec<(&str, &str)>, name: &str) -> (r: Option<usize>)
    ensures
        match r {
            Some(i) => first_named(headers@, name@, i as int),
            None => none_named(headers@, name@),
        },
{
    let mut i: usize = 0;
    while i < headers.len()
        invariant
            0 <= i <= headers@.len(),
            forall|j: int| 0 <= j < i ==> !eq_ignore_case(#[trigger] headers@[j].0@, name@),
        decreases headers@.len() - i,
    {
        if eq_ignore_ascii_case(headers[i].0, name) {
            return Some(i);
        }
        i = i + 1;
    }
    None
}

/// Whether `r` is what finishing gives for `decision`, `label` and `target`
/// once the credential was resolved (or not), with the request before and
/// after.
pub open spec fn finished(
    decision: OutboundDecision,
    label: IdentityLabel,
    target: InjectionTarget,
    credential: Result<Vec<u8>, CredentialError>,
    before: OutboundRequest,
    after: OutboundRequest,
    r: Result<OutboundResult, OutboundError>,
) -> bool {
    match credential {
        Err(e) => r == Err::<OutboundResult, OutboundError>(OutboundError::Credential(e)) && after == before,
        Ok(secret) => exists|o: Result<(), String>| {
            &&& #[trigger] injected(secret@, target, before, after, o)
            &&& r matches Ok(res)
            &&& res.decision == decision
            &&& res.injection matches Some(inj)
            &&& inj.label == label
            &&& inj.target == target
            &&& inj.credential_len == secret.len()
            &&& inj.success == o is Ok
            &&& (match o {
                Ok(()) => inj.error is None,
                Err(m) => inj.error == Some(m),
            })
            &&& same_request(res.request, after)
        },
    }
}

/// The outbound handler: the interceptor deciding requests.
#[derive(Debug, Clone)]
pub struct OutboundHandler {
    interceptor: HttpInterceptor,
}

impl OutboundHandler {
    /// The policy.
    pub closed spec fn spec_policy(&self) -> SecurityPolicy {
        self.interceptor.spec_policy()
    }

    /// A handler deciding with this policy.
    pub fn new(policy: SecurityPolicy) -> (h: OutboundHandler)
        ensures
            h.spec_policy() == policy,
    {
        OutboundHandler { interceptor: HttpInterceptor::new(policy) }
    }

    /// Decide a request from its headers. A request that may not go
    /// (rejected, or held for a human) is done, unchanged and without
    /// injection; one that may go (allowed, or under the override) needs
    /// the credential its identity-label header names.
    pub fn begin<'a>(&self, headers: Vec<(&'a str, &'a str)>, request: &OutboundRequest) -> (step: OutboundStep)
        ensures
            exists|ir: Result<InterceptResult, InterceptError>| {
                &&& #[trigger] intercepted(headers@, self.spec_policy(), ir)
                &&& match ir {
                    Err(e) => step == OutboundStep::Done(Err(OutboundError::Interception(e))),
                    Ok(res) => {
                        let d = spec_outbound_decision(res);
                        if res is Allow || res is HardOverride {
                            label_step(headers@, d, step)
                        } else {
                            step matches OutboundStep::Done(Ok(out)) && out.decision == d
                                && out.injection is None && same_request(out.request, *request)
                        }
                    },
                }
            },
    {
        let ghost hs = headers@;
        let found = find_header(&headers, IDENTITY_LABEL_HEADER);
        let label_text: Option<&str> = match found {
            Some(i) => Some(headers[i].1),
            None => None,
        };
        let ir = self.interceptor.intercept(headers);
        proof {
            reveal_strlit("x-identity-label");
        }
        match ir {
            Err(e) => OutboundStep::Done(Err(OutboundError::Interception(e))),
            Ok(res) => {
                let allowed = matches!(res, InterceptResult::Allow) || matches!(res, InterceptResult::HardOverride { .. });
                let decision = OutboundDecision::from_intercept(res);
                if allowed {
                    match label_text {
                        None => OutboundStep::Done(Err(OutboundError::MissingIdentityLabel)),
                        Some(t) => {
                            let ghost i = found.unwrap() as int;
                            assert(first_named(hs, "x-identity-label"@, i));
                            match IdentityLabel::parse(t) {
                                Ok(label) => OutboundStep::Resolve { decision, label },
                                Err(e) => OutboundStep::Done(Err(OutboundError::Credential(e))),
                            }
                        },
                    }
                } else {
                    OutboundStep::Done(
                        Ok(OutboundResult { decision, injection: None, request: request.duplicate() }),
                    )
                }
            },
        }
    }

    /// Finish an allowed request once the credential of `label` was
    /// resolved: a store failure is the error; a resolved credential is
    /// placed at `target` and the injection reported (the credential's
    /// length, never its bytes).
    pub fn finish(
        &self,
        decision: OutboundDecision,
        label: &IdentityLabel,
        target: &InjectionTarget,
        request: &mut OutboundRequest,
        credential: Result<Vec<u8>, CredentialError>,
    ) -> (r: Result<OutboundResult, OutboundError>)
        ensures
            finished(decision, *label, *target, credential, *old(request), *final(request), r),
    {
        match credential {
            Err(e) => Err(OutboundError::Credential(e)),
            Ok(secret) => {
                let outcome = inject_into_request(secret.as_slice(), target, request);
                let ghost o = outcome;
                let inj = InjectionResult::from_outcome(label, target, secret.len(), outcome);
                let res = OutboundResult { decision, injection: Some(inj), request: request.duplicate() };
                assert(injected(secret@, *target, *old(request), *request, o));
                Ok(res)
            },
        }
    }

    /// The policy.
    pub fn policy(&self) -> (p: &SecurityPolicy)
        ensures
            *p == self.spec_policy(),
    {
        self.interceptor.policy()
    }
}

} // verus!
