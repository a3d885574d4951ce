//! The security guard the orchestrator asks before it acts: the hard
//! real-time decision on the request's PFP header (and SAP header, when
//! present), the credential handed out or injected on a pass, and an audit
//! entry for every request.
//!
//! A request is handled in two steps, because resolving a credential is
//! work outside this module: `begin` parses and decides; when a credential
//! is wanted it names the label to resolve, and `complete` takes the
//! outcome of resolving it, logs the decision and builds the response. A
//! request with an invalid PFP header is rejected (fail-closed) by `begin`
//! alone.

use vstd::prelude::*;

use crate::audit::{keep_newest, opt_str, AuditEntry, AuditLog};
use crate::credential::{label_outcome, spec_parse_label, CredentialError, IdentityLabel};
use crate::injection::InjectionTarget;
use crate::pfp::{
    decide, is_valid_pfp, pfp_error, spec_decide, spec_effective_risk, Decision, PfpHeader, RiskLevel,
    SecurityPolicy,
};
use crate::sap::{is_valid_sap, verify_sap, verify_sap_post, InMemoryReplayCache, ReplayCache, SapError, SapHeader};

verus! {

/// Where Tuck should inject a credential, as the wire format names it.
#[derive(Debug, Clone)]
pub enum InjectionTargetConfig {
    /// An HTTP header.
    HttpHeader {
        /// Header name.
        name: String,
    },
    /// `Authorization: Bearer`.
    BearerToken,
    /// A query parameter.
    QueryParam {
        /// Parameter name.
        name: String,
    },
    /// A JSON body field.
    BodyField {
        /// Field path.
        path: String,
    },
    /// Basic authentication.
    BasicAuth {
        /// User name.
        username: String,
    },
}

/// The injection target a wire-format target stands for.
pub open spec fn spec_target(c: InjectionTargetConfig) -> InjectionTarget {
    match c {
        InjectionTargetConfig::HttpHeader { name } => InjectionTarget::HttpHeader { name },
        InjectionTargetConfig::BearerToken => InjectionTarget::BearerToken,
        InjectionTargetConfig::QueryParam { name } => InjectionTarget::QueryParam { name },
        InjectionTargetConfig::BodyField { path } => InjectionTarget::BodyField { path },
        InjectionTargetConfig::BasicAuth { username } => InjectionTarget::BasicAuth { username },
    }
}

impl InjectionTargetConfig {
    /// The injection target this stands for.
    pub fn target(&self) -> (t: InjectionTarget)
        ensures
            t == spec_target(*self),
    {
        match self {
            InjectionTargetConfig::HttpHeader { name } => InjectionTarget::HttpHeader { name: name.clone() },
            InjectionTargetConfig::BearerToken => InjectionTarget::BearerToken,
            InjectionTargetConfig::QueryParam { name } => InjectionTarget::QueryParam { name: name.clone() },
            InjectionTargetConfig::BodyField { path } => InjectionTarget::BodyField { path: path.clone() },
            InjectionTargetConfig::BasicAuth { username } => InjectionTarget::BasicAuth {
                username: username.clone(),
            },
        }
    }
}

impl<'a> From<&'a InjectionTargetConfig> for InjectionTarget {
    fn from(config: &'a InjectionTargetConfig) -> Self {
        config.target()
    }
}

impl<'a> vstd::std_specs::convert::FromSpecImpl<&'a InjectionTargetConfig> for InjectionTarget {
    open spec fn obeys_from_spec() -> bool {
        true
    }

    open spec fn from_spec(v: &'a InjectionTargetConfig) -> Self {
        spec_target(*v)
    }
}

/// Tuck's answer, in the orchestrator's terms.
#[derive(Debug, Clone, Copy, PartialEq, Eq, Structural)]
pub enum GateDecision {
    /// The action may proceed.
    Pass,
    /// The action is blocked.
    Reject,
    /// The action needs a human (escalate to the confirmation guard).
    HitlRequired,
    /// Emergency pass.
    HardOverride,
}

/// Tuck answer for a decision.
pub open spec fn spec_gate_decision(d: Decision) -> GateDecision {
    match d {
        Decision::Pass => GateDecision::Pass,
        Decision::Reject => GateDecision::Reject,
        Decision::NeedHumanConfirm => GateDecision::HitlRequired,
        Decision::HardOverridePass => GateDecision::HardOverride,
    }
}

impl GateDecision {
    /// Tuck answer for a decision.
    pub fn of(d: Decision) -> (g: GateDecision)
        ensures
            g == spec_gate_decision(d),
    {
        match d {
            Decision::Pass => GateDecision::Pass,
            Decision::Reject => GateDecision::Reject,
            Decision::NeedHumanConfirm => GateDecision::HitlRequired,
            Decision::HardOverridePass => GateDecision::HardOverride,
        }
    }
}

impl From<Decision> for GateDecision {
    fn from(d: Decision) -> Self {
        GateDecision::of(d)
    }
}

impl vstd::std_specs::convert::FromSpecImpl<Decision> for GateDecision {
    open spec fn obeys_from_spec() -> bool {
        true
    }

    open spec fn from_spec(v: Decision) -> Self {
        spec_gate_decision(v)
    }
}

/// A request to Tuck.
#[derive(Debug, Clone)]
pub struct SecurityGateRequest {
    /// Trace ID (UUID bytes).
    pub trace_id: [u8; 16],
    /// The requesting source.
    pub source_id: String,
    /// PFP header bytes.
    pub pfp: [u8; 4],
    /// SAP header bytes, if any.
    pub sap: Option<[u8; 28]>,
    /// Label of the credential to hand out or inject on a pass.
    pub identity_label: Option<String>,
    /// Action type.
    pub action_type: String,
    /// Action description (recorded in the audit log).
    pub action_description: String,
    /// Where to inject the credential; without one it is handed out.
    pub injection_target: Option<InjectionTargetConfig>,
}

/// Tuck's response.
#[derive(Debug, Clone)]
pub struct SecurityGateResponse {
    /// The request's trace ID.
    pub trace_id: [u8; 16],
    /// The answer.
    pub decision: GateDecision,
    /// Whether the credential was injected.
    pub credential_injected: bool,
    /// The credential handed out, if any.
    pub credential: Option<Vec<u8>>,
    /// ID of the audit entry recording the decision.
    pub audit_entry_id: Option<[u8; 16]>,
    /// Why the action is blocked or waits.
    pub reason: Option<String>,
    /// The effective risk level's name.
    pub effective_risk_level: String,
}

/// The first step's outcome.
#[derive(Debug)]
pub enum GateStep {
    /// The request is answered (an invalid PFP header).
    Done(SecurityGateResponse),
    /// The decision is made; `lookup` is the label whose credential to
    /// resolve before completing, if one is wanted.
    Decided {
        /// The decision.
        decision: Decision,
        /// The effective risk level.
        effective_risk: RiskLevel,
        /// The credential label to resolve.
        lookup: Option<IdentityLabel>,
    },
}

/// Whether a decision lets the action proceed (a pass or a hard override).
pub open spec fn allows(d: Decision) -> bool {
    d == Decision::Pass || d == Decision::HardOverridePass
}

/// Whether Tuck injects a credential itself for this target (headers,
/// bearer tokens and query parameters); for other targets, and without a
/// target, the credential is handed out.
pub open spec fn injects_at(t: Option<InjectionTargetConfig>) -> bool {
    match t {
        Some(InjectionTargetConfig::HttpHeader { .. }) => true,
        Some(InjectionTargetConfig::BearerToken) => true,
        Some(InjectionTargetConfig::QueryParam { .. }) => true,
        _ => false,
    }
}

/// The reason given for a decision.
pub open spec fn reason_for(d: Decision) -> Option<Seq<char>> {
    match d {
        Decision::Reject => Some("Security policy rejected this action"@),
        Decision::NeedHumanConfirm => Some("Human confirmation required (HITL gate)"@),
        _ => None,
    }
}

/// The audit entry recording a guard decision: the decision, the risk level
/// given, executive modality, normal override flag, the action description
/// as source, and the identity label.
pub open spec fn gate_entry(e: AuditEntry, d: Decision, risk: Seq<char>, request: SecurityGateRequest) -> bool {
    &&& e.decision@ == d.spec_name()
    &&& e.risk_level@ == risk
    &&& e.modality@ == "Executive"@
    &&& e.override_flag@ == "Normal"@
    &&& e.source@ == request.action_description@
    &&& opt_str(e.identity_label) == opt_str(request.identity_label)
}

/// The label to resolve for a decision: when the action may proceed and the
/// request carries a label that parses.
pub open spec fn lookup_for(d: Decision, label: Option<String>, l: Option<IdentityLabel>) -> bool {
    match label {
        Some(s) if allows(d) => match spec_parse_label(s@) {
            Ok(p) => l matches Some(x) && x.scheme == p.0 && x.path@ == p.1,
            Err(_) => l is None,
        },
        _ => l is None,
    }
}

/// The security guard.
#[derive(Debug)]
pub struct TuckSecurityGate {
    policy: SecurityPolicy,
    audit_log: AuditLog,
    replay_cache: InMemoryReplayCache,
    source_id: String,
}

fn entry_label(l: &Option<String>) -> (r: Option<&str>)
    ensures
        match (l, r) {
            (Some(s), Some(t)) => s@ == t@,
            (None, None) => true,
            _ => false,
        },
{
    match l {
        Some(s) => Some(s.as_str()),
        None => None,
    }
}

impl TuckSecurityGate {
    /// The policy.
    pub closed spec fn spec_policy(&self) -> SecurityPolicy {
        self.policy
    }

    /// The audit log.
    pub closed spec fn spec_audit(&self) -> AuditLog {
        self.audit_log
    }

    /// The replay cache for SAP headers.
    pub closed spec fn spec_cache(&self) -> InMemoryReplayCache {
        self.replay_cache
    }

    /// A guard with this policy, an empty audit log and an empty replay cache.
    pub fn new(policy: SecurityPolicy, source_id: &str) -> (g: TuckSecurityGate)
        ensures
            g.spec_policy() == policy,
            g.spec_audit()@.len() == 0,
            g.spec_audit().spec_max_entries() is None,
            forall|k: Seq<char>| g.spec_cache().spec_last_seen(k) is None,
    {
        TuckSecurityGate {
            policy,
            audit_log: AuditLog::new(),
            replay_cache: InMemoryReplayCache::new(),
            source_id: String::from_str(source_id),
        }
    }

    fn log_audit(&mut self, decision: Decision, risk_level: &str, request: &SecurityGateRequest) -> (e: AuditEntry)
        ensures
            gate_entry(e, decision, risk_level@, *request),
            final(self).spec_audit()@ == keep_newest(old(self).spec_audit()@.push(e), old(self).spec_audit().spec_max_entries()),
            final(self).spec_audit().spec_max_entries() == old(self).spec_audit().spec_max_entries(),
            final(self).spec_policy() == old(self).spec_policy(),
            final(self).spec_cache() == old(self).spec_cache(),
    {
        let e = self.audit_log.append(
            decision,
            risk_level,
            "Executive",
            "Normal",
            request.action_description.as_str(),
            entry_label(&request.identity_label),
        );
        e
    }

    /// Decide a request. An invalid PFP header is rejected at once (and
    /// logged with risk `Unknown`). Otherwise the decision is the policy's
    /// for the header; with a SAP header, the SAP header must parse and pass
    /// verification (which records its sequence number), else the request is
    /// rejected.
    pub fn begin(&mut self, request: &SecurityGateRequest) -> (step: GateStep)
        ensures
            final(self).spec_policy() == old(self).spec_policy(),
            final(self).spec_audit().spec_max_entries() == old(self).spec_audit().spec_max_entries(),
            !is_valid_pfp(request.pfp@) ==> {
                &&& step matches GateStep::Done(resp)
                &&& resp.trace_id == request.trace_id
                &&& resp.decision == GateDecision::Reject
                &&& !resp.credential_injected
                &&& resp.credential is None
                &&& resp.audit_entry_id is None
                &&& resp.reason matches Some(m) && m@ == "Invalid PFP: "@ + pfp_error(request.pfp@).spec_text()
                &&& resp.effective_risk_level@ == "Unknown"@
                &&& exists|e: AuditEntry| gate_entry(e, Decision::Reject, "Unknown"@, *request)
                    && #[trigger] final(self).spec_audit()@ == keep_newest(
                        old(self).spec_audit()@.push(e),
                        old(self).spec_audit().spec_max_entries(),
                    )
                &&& final(self).spec_cache() == old(self).spec_cache()
            },
            is_valid_pfp(request.pfp@) ==> {
                &&& step matches GateStep::Decided { decision, effective_risk, lookup }
                &&& effective_risk == spec_effective_risk(request.pfp@)
                &&& lookup_for(decision, request.identity_label, lookup)
                &&& final(self).spec_audit() == old(self).spec_audit()
                &&& match request.sap {
                    None => decision == spec_decide(request.pfp@, old(self).spec_policy())
                        && final(self).spec_cache() == old(self).spec_cache(),
                    Some(sap) => if !is_valid_sap(sap@) {
                        decision == Decision::Reject && final(self).spec_cache() == old(self).spec_cache()
                    } else {
                        exists|r: Result<(), SapError>| {
                            &&& #[trigger] verify_sap_post(sap@, request.source_id@, old(self).spec_cache(), final(self).spec_cache(), r)
                            &&& decision == if r is Ok { spec_decide(request.pfp@, old(self).spec_policy()) } else { Decision::Reject }
                        }
                    },
                }
            },
    {
        let pfp = match PfpHeader::from_bytes(request.pfp) {
            Ok(p) => p,
            Err(e) => {
                let mut reason = String::from_str("Invalid PFP: ");
                let t = e.to_string();
                reason.append(t.as_str());
                let _ = self.log_audit(Decision::Reject, "Unknown", request);
                return GateStep::Done(SecurityGateResponse {
                    trace_id: request.trace_id,
                    decision: GateDecision::Reject,
                    credential_injected: false,
                    credential: None,
                    audit_entry_id: None,
                    reason: Some(reason),
                    effective_risk_level: String::from_str("Unknown"),
                });
            },
        };
        let effective_risk = pfp.effective_risk_level();
        let decision = match request.sap {
            None => decide(&pfp, &self.policy),
            Some(sap_bytes) => match SapHeader::from_bytes(sap_bytes) {
                Ok(sap) => {
                    let ghost before = self.replay_cache;
                    let r = verify_sap(&sap, request.source_id.as_str(), &mut self.replay_cache);
                    let d = match r {
                        Ok(()) => decide(&pfp, &self.policy),
                        Err(_) => Decision::Reject,
                    };
                    assert(before == old(self).spec_cache());
                    assert(self.spec_cache() == self.replay_cache);
                    assert(verify_sap_post(sap_bytes@, request.source_id@, old(self).spec_cache(), self.spec_cache(), r));
                    assert(exists|r2: Result<(), SapError>| {
                        &&& #[trigger] verify_sap_post(sap_bytes@, request.source_id@, old(self).spec_cache(), self.spec_cache(), r2)
                        &&& d == if r2 is Ok { spec_decide(request.pfp@, old(self).spec_policy()) } else { Decision::Reject }
                    });
                    d
                },
                Err(_) => Decision::Reject,
            },
        };
        let lookup = if decision == Decision::Pass || decision == Decision::HardOverridePass {
            match &request.identity_label {
                Some(label_text) => match IdentityLabel::parse(label_text.as_str()) {
                    Ok(label) => Some(label),
                    Err(_) => None,
                },
                None => None,
            }
        } else {
            None
        };
        GateStep::Decided { decision, effective_risk, lookup }
    }

    /// Finish a decided request: `credential` is the outcome of resolving
    /// the label `begin` named (`None` when it named none). When the action
    /// may proceed and the credential was resolved, it is injected for a
    /// header, bearer or query target and handed out otherwise; a failed
    /// resolution still lets the action proceed, without a credential. The
    /// decision is logged with the effective risk level.
    pub fn complete(
        &mut self,
        request: &SecurityGateRequest,
        decision: Decision,
        effective_risk: RiskLevel,
        credential: Option<Result<Vec<u8>, CredentialError>>,
    ) -> (resp: SecurityGateResponse)
        ensures
            resp.trace_id == request.trace_id,
            resp.decision == spec_gate_decision(decision),
            resp.effective_risk_level@ == effective_risk.spec_name(),
            match reason_for(decision) {
                Some(t) => resp.reason matches Some(m) && m@ == t,
                None => resp.reason is None,
            },
            match credential {
                Some(Ok(bytes)) if allows(decision) => if injects_at(request.injection_target) {
                    resp.credential_injected && resp.credential is None
                } else {
                    !resp.credential_injected && resp.credential == Some(bytes)
                },
                _ => !resp.credential_injected && resp.credential is None,
            },
            exists|e: AuditEntry| {
                &&& gate_entry(e, decision, effective_risk.spec_name(), *request)
                &&& resp.audit_entry_id == Some(e.entry_id)
                &&& #[trigger] final(self).spec_audit()@ == keep_newest(
                    old(self).spec_audit()@.push(e),
                    old(self).spec_audit().spec_max_entries(),
                )
            },
            final(self).spec_policy() == old(self).spec_policy(),
            final(self).spec_audit().spec_max_entries() == old(self).spec_audit().spec_max_entries(),
            final(self).spec_cache() == old(self).spec_cache(),
    {
        let allowed = decision == Decision::Pass || decision == Decision::HardOverridePass;
        let (credential_injected, handed_out) = match credential {
            Some(Ok(bytes)) => {
                if allowed {
                    let injects = match &request.injection_target {
                        Some(InjectionTargetConfig::HttpHeader { .. }) => true,
                        Some(InjectionTargetConfig::BearerToken) => true,
                        Some(InjectionTargetConfig::QueryParam { .. }) => true,
                        _ => false,
                    };
                    if injects {
                        (true, None)
                    } else {
                        (false, Some(bytes))
                    }
                } else {
                    (false, None)
                }
            },
            _ => (false, None),
        };
        let risk_name = effective_risk.name();
        let e = self.log_audit(decision, risk_name, request);
        let reason = match decision {
            Decision::Reject => Some(String::from_str("Security policy rejected this action")),
            Decision::NeedHumanConfirm => Some(String::from_str("Human confirmation required (HITL gate)")),
            _ => None,
        };
        SecurityGateResponse {
            trace_id: request.trace_id,
            decision: GateDecision::of(decision),
            credential_injected,
            credential: handed_out,
            audit_entry_id: Some(e.entry_id),
            reason,
            effective_risk_level: String::from_str(risk_name),
        }
    }

    /// The audit log.
    pub fn audit_log(&self) -> (l: &AuditLog)
        ensures
            *l == self.spec_audit(),
    {
        &self.audit_log
    }

    /// The policy.
    pub fn policy(&self) -> (p: &SecurityPolicy)
        ensures
            *p == self.spec_policy(),
    {
        &self.policy
    }
}

/// The name of the effective risk level of PFP bytes, or `Unknown` for an
/// invalid header.
pub fn pfp_effective_risk_str(bytes: &[u8; 4]) -> (s: String)
    ensures
        is_valid_pfp(bytes@) ==> s@ == spec_effective_risk(bytes@).spec_name(),
        !is_valid_pfp(bytes@) ==> s@ == "Unknown"@,
{
    match PfpHeader::from_bytes(*bytes) {
        Ok(pfp) => String::from_str(pfp.effective_risk_level().name()),
        Err(_) => String::from_str("Unknown"),
    }
}

/// Error of a bridge to the orchestrator.
#[derive(Debug, Clone)]
pub enum BridgeError {
    /// The connection failed.
    ConnectionFailed(String),
    /// The request timed out.
    Timeout,
    /// The orchestrator answered with an error.
    AnaphaseError(String),
}

impl BridgeError {
    /// The error's message.
    pub open spec fn spec_text(self) -> Seq<char> {
        match self {
            BridgeError::ConnectionFailed(m) => "connection failed: "@ + m@,
            BridgeError::Timeout => "request timed out"@,
            BridgeError::AnaphaseError(m) => "anaphase error: "@ + m@,
        }
    }

    /// The error's message.
    pub fn to_string(&self) -> (s: String)
        ensures
            s@ == self.spec_text(),
    {
        match self {
            BridgeError::ConnectionFailed(m) => {
                let mut s = String::from_str("connection failed: ");
                s.append(m.as_str());
                s
            },
            BridgeError::Timeout => String::from_str("request timed out"),
            BridgeError::AnaphaseError(m) => {
                let mut s = String::from_str("anaphase error: ");
                s.append(m.as_str());
                s
            },
        }
    }
}

/// A bridge that is never connected, for standalone deployments.
#[derive(Debug, Clone, Copy, Default)]
pub struct NoopAnaphaseBridge;

} // verus!
