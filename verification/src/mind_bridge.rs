//! Exchange with the cognitive layer (Helix-Mind).
//!
//! Only non-Pass decisions are reported, as security events; the
//! cognitive layer may query the audit log; and it builds the PFP header of
//! an action from the action's kind and its own risk assessment. The
//! transport is the deployment's part.

use vstd::prelude::*;

use crate::audit_query::{AuditQuery, QueryResult};
use crate::digest::{new_uuid_v4, unix_now};
use crate::pfp::{
    is_valid_pfp, spec_body_stance, spec_modality, spec_output_dest, spec_override, spec_proximity,
    spec_replay, spec_risk, BodyStance, Decision, Modality, OutputDest, OverrideFlag, PfpHeader,
    ProximityEdge, ReplayEnable, RiskLevel, MAGIC_HI, MAGIC_LO,
};

verus! {

/// A reported decision, in event terms.
#[derive(Debug, Clone, Copy, PartialEq, Eq, Structural)]
pub enum SecurityDecision {
    /// The request was rejected.
    Rejected,
    /// The request waits for a human.
    NeedHumanConfirm,
    /// Emergency pass under the hard override.
    HardOverridePass,
}

/// The event decision for a guard decision (`Pass` is never reported; it
/// maps to `Rejected`).
pub open spec fn spec_security_decision(d: Decision) -> SecurityDecision {
    match d {
        Decision::Reject => SecurityDecision::Rejected,
        Decision::NeedHumanConfirm => SecurityDecision::NeedHumanConfirm,
        Decision::HardOverridePass => SecurityDecision::HardOverridePass,
        Decision::Pass => SecurityDecision::Rejected,
    }
}

impl SecurityDecision {
    /// The event decision for a guard decision.
    pub fn of(d: Decision) -> (s: SecurityDecision)
        ensures
            s == spec_security_decision(d),
    {
        match d {
            Decision::Reject => SecurityDecision::Rejected,
            Decision::NeedHumanConfirm => SecurityDecision::NeedHumanConfirm,
            Decision::HardOverridePass => SecurityDecision::HardOverridePass,
            Decision::Pass => SecurityDecision::Rejected,
        }
    }

    /// The name events carry (snake case).
    pub open spec fn spec_name(self) -> Seq<char> {
        match self {
            SecurityDecision::Rejected => "rejected"@,
            SecurityDecision::NeedHumanConfirm => "need_human_confirm"@,
            SecurityDecision::HardOverridePass => "hard_override_pass"@,
        }
    }

    /// The name events carry (snake case).
    pub fn name(self) -> (s: &'static str)
        ensures
            s@ == self.spec_name(),
    {
        match self {
            SecurityDecision::Rejected => "rejected",
            SecurityDecision::NeedHumanConfirm => "need_human_confirm",
            SecurityDecision::HardOverridePass => "hard_override_pass",
        }
    }
}

impl From<Decision> for SecurityDecision {
    fn from(d: Decision) -> Self {
        SecurityDecision::of(d)
    }
}

impl vstd::std_specs::convert::FromSpecImpl<Decision> for SecurityDecision {
    open spec fn obeys_from_spec() -> bool {
        true
    }

    open spec fn from_spec(v: Decision) -> Self {
        spec_security_decision(v)
    }
}

/// A security event, sent for every non-Pass decision.
#[derive(Debug, Clone)]
pub struct SecurityEvent {
    /// Event ID (UUID bytes).
    pub event_id: [u8; 16],
    /// Trace ID of the request (UUID bytes).
    pub trace_id: [u8; 16],
    /// Who decided.
    pub source_id: String,
    /// The decision.
    pub decision: SecurityDecision,
    /// The risk level's name.
    pub risk_level: String,
    /// The override flag's name.
    pub override_flag: String,
    /// Why.
    pub reason: String,
    /// Unix time, in seconds.
    pub timestamp: u64,
    /// The identity label involved, if any.
    pub identity_label: Option<String>,
}

impl SecurityEvent {
    /// The event for a decision, or `None` for `Pass`: a fresh event ID,
    /// the current time, the decision in event terms and the names of the
    /// risk level and override flag.
    pub fn from_decision(
        decision: Decision,
        trace_id: [u8; 16],
        source_id: &str,
        risk_level: RiskLevel,
        override_flag: OverrideFlag,
        reason: &str,
        identity_label: Option<String>,
    ) -> (r: Option<SecurityEvent>)
        ensures
            r is None <==> decision == Decision::Pass,
            r matches Some(e) ==> {
                &&& e.trace_id == trace_id
                &&& e.source_id@ == source_id@
                &&& e.decision == spec_security_decision(decision)
                &&& e.risk_level@ == risk_level.spec_name()
                &&& e.override_flag@ == override_flag.spec_name()
                &&& e.reason@ == reason@
                &&& e.identity_label == identity_label
            },
    {
        if decision == Decision::Pass {
            return None;
        }
        Some(SecurityEvent {
            event_id: new_uuid_v4(),
            trace_id,
            source_id: String::from_str(source_id),
            decision: SecurityDecision::of(decision),
            risk_level: String::from_str(risk_level.name()),
            override_flag: String::from_str(override_flag.name()),
            reason: String::from_str(reason),
            timestamp: unix_now(),
            identity_label,
        })
    }

    /// Whether the event is an emergency (hard-override pass).
    pub fn is_emergency(&self) -> (b: bool)
        ensures
            b == (self.decision == SecurityDecision::HardOverridePass),
    {
        self.decision == SecurityDecision::HardOverridePass
    }

    /// Whether the event needs a human: a pending confirmation or an
    /// emergency.
    pub fn needs_human_attention(&self) -> (b: bool)
        ensures
            b == (self.decision == SecurityDecision::NeedHumanConfirm || self.decision
                == SecurityDecision::HardOverridePass),
    {
        self.decision == SecurityDecision::NeedHumanConfirm || self.is_emergency()
    }
}

/// An audit query from the cognitive layer.
#[derive(Debug, Clone)]
pub struct AuditQueryRequest {
    /// Trace ID (UUID bytes).
    pub trace_id: [u8; 16],
    /// Who asks.
    pub source_id: String,
    /// The query.
    pub query: AuditQuery,
}

/// The answer to an audit query.
#[derive(Debug, Clone)]
pub struct AuditQueryResponse {
    /// The request's trace ID.
    pub trace_id: [u8; 16],
    /// Whether the query succeeded.
    pub success: bool,
    /// The page of entries, on success.
    pub result: Option<QueryResult>,
    /// What went wrong, on failure.
    pub error: Option<String>,
}

/// The kind of an action the cognitive layer starts.
#[derive(Debug, Clone, Copy, PartialEq, Eq, Structural)]
pub enum ActionType {
    /// Thinking, reasoning, recall: no effect outside.
    Cognitive,
    /// Text, image or speech for the user.
    Render,
    /// A tool call, an API call or a physical action.
    Executive,
    /// A sensor feed.
    SensorFeed,
}

impl ActionType {
    /// The default risk of an action kind.
    pub open spec fn spec_default_risk(self) -> RiskLevel {
        match self {
            ActionType::Cognitive => RiskLevel::Low,
            ActionType::Render => RiskLevel::Medium,
            ActionType::Executive => RiskLevel::Critical,
            ActionType::SensorFeed => RiskLevel::Medium,
        }
    }

    /// The modality of an action kind.
    pub open spec fn spec_modality(self) -> Modality {
        match self {
            ActionType::Cognitive => Modality::Cognitive,
            ActionType::Render => Modality::Render,
            ActionType::Executive => Modality::Executive,
            ActionType::SensorFeed => Modality::SensorFeed,
        }
    }

    /// The default risk of this kind of action: low for cognitive work,
    /// medium for rendering and sensor feeds, critical for executive
    /// actions.
    pub fn default_risk(&self) -> (r: RiskLevel)
        ensures
            r == self.spec_default_risk(),
    {
        match self {
            ActionType::Cognitive => RiskLevel::Low,
            ActionType::Render => RiskLevel::Medium,
            ActionType::Executive => RiskLevel::Critical,
            ActionType::SensorFeed => RiskLevel::Medium,
        }
    }

    /// Whether the action must pass Tuck: every kind but cognitive
    /// work.
    pub fn requires_security_gate(&self) -> (b: bool)
        ensures
            b == (*self != ActionType::Cognitive),
    {
        !matches!(self, ActionType::Cognitive)
    }

    /// The modality of this kind of action.
    pub fn modality(self) -> (m: Modality)
        ensures
            m == self.spec_modality(),
    {
        match self {
            ActionType::Cognitive => Modality::Cognitive,
            ActionType::Render => Modality::Render,
            ActionType::Executive => Modality::Executive,
            ActionType::SensorFeed => Modality::SensorFeed,
        }
    }
}

impl From<ActionType> for Modality {
    fn from(a: ActionType) -> Self {
        a.modality()
    }
}

impl vstd::std_specs::convert::FromSpecImpl<ActionType> for Modality {
    open spec fn obeys_from_spec() -> bool {
        true
    }

    open spec fn from_spec(v: ActionType) -> Self {
        v.spec_modality()
    }
}

/// How the cognitive layer builds the PFP header of an action.
#[derive(Debug, Clone, Copy)]
pub struct PfpConstructionGuide {
    /// The kind of action.
    pub action_type: ActionType,
    /// The assessed risk (may exceed the kind's default).
    pub risk_level: RiskLevel,
    /// Whether the output leaves the system.
    pub external_output: bool,
    /// Whether the hard override is requested (emergencies only).
    pub hard_override: bool,
    /// Whether replay protection is on.
    pub replay_enabled: bool,
}

/// The byte packing four 2-bit fields, lowest first.
pub open spec fn pack_quad(a: u8, b: u8, c: u8, d: u8) -> u8 {
    (a | (b << 2u8) | (c << 4u8) | (d << 6u8)) as u8
}

/// The byte packing three flags in its lowest bits.
pub open spec fn pack_flags(a: u8, b: u8, c: u8) -> u8 {
    (a | (b << 1u8) | (c << 2u8)) as u8
}

proof fn lemma_pack_quad(a: u8, b: u8, c: u8, d: u8)
    requires
        a < 4,
        b < 4,
        c < 4,
        d < 4,
    ensures
        pack_quad(a, b, c, d) & 3u8 == a,
        (pack_quad(a, b, c, d) >> 2u8) & 3u8 == b,
        (pack_quad(a, b, c, d) >> 4u8) & 3u8 == c,
        (pack_quad(a, b, c, d) >> 6u8) & 3u8 == d,
{
    assert(a < 4 && b < 4 && c < 4 && d < 4 ==> {
        let p = (a | (b << 2u8) | (c << 4u8) | (d << 6u8)) as u8;
        &&& p & 3u8 == a
        &&& (p >> 2u8) & 3u8 == b
        &&& (p >> 4u8) & 3u8 == c
        &&& (p >> 6u8) & 3u8 == d
    }) by (bit_vector);
}

proof fn lemma_pack_flags(a: u8, b: u8, c: u8)
    requires
        a < 2,
        b < 2,
        c < 2,
    ensures
        pack_flags(a, b, c) & 1u8 == a,
        (pack_flags(a, b, c) >> 1u8) & 1u8 == b,
        (pack_flags(a, b, c) >> 2u8) & 1u8 == c,
        (pack_flags(a, b, c) >> 3u8) & 0x1fu8 == 0,
{
    assert(a < 2 && b < 2 && c < 2 ==> {
        let p = (a | (b << 1u8) | (c << 2u8)) as u8;
        &&& p & 1u8 == a
        &&& (p >> 1u8) & 1u8 == b
        &&& (p >> 2u8) & 1u8 == c
        &&& (p >> 3u8) & 0x1fu8 == 0
    }) by (bit_vector);
}

impl PfpConstructionGuide {
    /// The output destination the guide asks for.
    pub open spec fn spec_output_dest(self) -> OutputDest {
        if self.external_output { OutputDest::External } else { OutputDest::Internal }
    }

    /// The override flag the guide asks for.
    pub open spec fn spec_override(self) -> OverrideFlag {
        if self.hard_override { OverrideFlag::HardOverride } else { OverrideFlag::Normal }
    }

    /// The replay setting the guide asks for.
    pub open spec fn spec_replay(self) -> ReplayEnable {
        if self.replay_enabled { ReplayEnable::Enabled } else { ReplayEnable::Disabled }
    }

    /// The header bytes the guide builds: the family magic, then the
    /// action's modality, the risk, an unknown body stance and a safe
    /// proximity edge, then the destination, override and replay flags.
    pub open spec fn spec_bytes(self) -> Seq<u8> {
        seq![
            MAGIC_HI,
            MAGIC_LO,
            pack_quad(
                self.action_type.spec_modality().spec_bits(),
                self.risk_level.spec_bits(),
                BodyStance::Unknown.spec_bits(),
                ProximityEdge::Safe.spec_bits(),
            ),
            pack_flags(
                self.spec_output_dest().spec_bits(),
                self.spec_override().spec_bits(),
                self.spec_replay().spec_bits(),
            ),
        ]
    }

    /// A guide with the defaults of an action kind: its default risk,
    /// external output for all but cognitive work, no override, replay
    /// protection on.
    pub fn new(action_type: ActionType) -> (g: PfpConstructionGuide)
        ensures
            g.action_type == action_type,
            g.risk_level == action_type.spec_default_risk(),
            g.external_output == (action_type != ActionType::Cognitive),
            !g.hard_override,
            g.replay_enabled,
    {
        PfpConstructionGuide {
            action_type,
            risk_level: action_type.default_risk(),
            external_output: !matches!(action_type, ActionType::Cognitive),
            hard_override: false,
            replay_enabled: true,
        }
    }

    /// The same guide at another risk level.
    pub fn escalate_risk(self, risk: RiskLevel) -> (g: PfpConstructionGuide)
        ensures
            g == (PfpConstructionGuide { risk_level: risk, ..self }),
    {
        PfpConstructionGuide { risk_level: risk, ..self }
    }

    /// The same guide as an emergency: hard override at catastrophic risk.
    pub fn emergency_override(self) -> (g: PfpConstructionGuide)
        ensures
            g == (PfpConstructionGuide { hard_override: true, risk_level: RiskLevel::Catastrophic, ..self }),
    {
        PfpConstructionGuide { hard_override: true, risk_level: RiskLevel::Catastrophic, ..self }
    }

    /// Build the PFP header, which is always valid; each field reads back
    /// as the guide set it.
    pub fn build_pfp(&self) -> (h: PfpHeader)
        ensures
            h@ == self.spec_bytes(),
            is_valid_pfp(h@),
            spec_modality(h@[2]) == self.action_type.spec_modality(),
            spec_risk(h@[2]) == self.risk_level,
            spec_body_stance(h@[2]) == BodyStance::Unknown,
            spec_proximity(h@[2]) == ProximityEdge::Safe,
            spec_output_dest(h@[3]) == self.spec_output_dest(),
            spec_override(h@[3]) == self.spec_override(),
            spec_replay(h@[3]) == self.spec_replay(),
    {
        let modality = self.action_type.modality().bits();
        let risk = self.risk_level.bits();
        let stance = BodyStance::Unknown.bits();
        let edge = ProximityEdge::Safe.bits();
        let dest = if self.external_output { OutputDest::External } else { OutputDest::Internal }.bits();
        let flag = if self.hard_override { OverrideFlag::HardOverride } else { OverrideFlag::Normal }.bits();
        let replay = if self.replay_enabled { ReplayEnable::Enabled } else { ReplayEnable::Disabled }.bits();
        let b2: u8 = modality | (risk << 2u8) | (stance << 4u8) | (edge << 6u8);
        let b3: u8 = dest | (flag << 1u8) | (replay << 2u8);
        proof {
            lemma_pack_quad(modality, risk, stance, edge);
            lemma_pack_flags(dest, flag, replay);
        }
        let bytes: [u8; 4] = [MAGIC_HI, MAGIC_LO, b2, b3];
        assert(bytes@ =~= self.spec_bytes());
        match PfpHeader::from_bytes(bytes) {
            Ok(h) => h,
            Err(_) => {
                assert(false);
                PfpHeader::from_bytes([MAGIC_HI, MAGIC_LO, 0, 0]).unwrap()
            },
        }
    }
}

/// Error of a bridge to the cognitive layer.
#[derive(Debug, Clone)]
pub enum MindBridgeError {
    /// The connection failed.
    ConnectionFailed(String),
    /// The request timed out.
    Timeout,
    /// The cognitive layer answered with an error.
    MindError(String),
    /// A message could not be (de)serialised.
    Serialization(String),
}

impl MindBridgeError {
    /// The error's message.
    pub open spec fn spec_text(self) -> Seq<char> {
        match self {
            MindBridgeError::ConnectionFailed(m) => "connection failed: "@ + m@,
            MindBridgeError::Timeout => "request timed out"@,
            MindBridgeError::MindError(m) => "mind error: "@ + m@,
            MindBridgeError::Serialization(m) => "serialization error: "@ + m@,
        }
    }

    /// The error's message.
    pub fn to_string(&self) -> (s: String)
        ensures
            s@ == self.spec_text(),
    {
        match self {
            MindBridgeError::ConnectionFailed(m) => {
                let mut s = String::from_str("connection failed: ");
                s.append(m.as_str());
                s
            },
            MindBridgeError::Timeout => String::from_str("request timed out"),
            MindBridgeError::MindError(m) => {
                let mut s = String::from_str("mind error: ");
                s.append(m.as_str());
                s
            },
            MindBridgeError::Serialization(m) => {
                let mut s = String::from_str("serialization error: ");
                s.append(m.as_str());
                s
            },
        }
    }
}

/// A bridge that discards events and is never connected, for standalone
/// deployments.
#[derive(Debug, Clone, Copy, Default)]
pub struct NoopMindBridge;

} // verus!
