//! Policy configuration: the versioned, file-shaped form of the security
//! policy, and its conversion to the policy the decision path reads.
//!
//! Parsing and writing TOML happen outside this module; here a parsed
//! configuration is checked and converted.

use vstd::prelude::*;

use crate::digest::unix_now;
use crate::pfp::{Decision, SecurityPolicy};
use crate::text::{decimal, push_char, push_decimal};

verus! {

/// Semantic version of a policy file.
#[derive(Debug, Clone, Copy, PartialEq, Eq, PartialOrd, Ord, Hash, Structural)]
pub struct PolicyVersion {
    /// Incompatible format changes.
    pub major: u32,
    /// Compatible additions.
    pub minor: u32,
    /// Fixes and tuning.
    pub patch: u32,
}

impl PolicyVersion {
    /// The policy format version this library reads: 1.0.0.
    pub open spec fn spec_current() -> PolicyVersion {
        PolicyVersion { major: 1, minor: 0, patch: 0 }
    }

    /// The policy format version this library reads: 1.0.0.
    pub fn current() -> (v: PolicyVersion)
        ensures
            v == PolicyVersion::spec_current(),
    {
        PolicyVersion { major: 1, minor: 0, patch: 0 }
    }

    /// A version from its three parts.
    pub fn new(major: u32, minor: u32, patch: u32) -> (v: PolicyVersion)
        ensures
            v == (PolicyVersion { major, minor, patch }),
    {
        PolicyVersion { major, minor, patch }
    }

    /// Whether two versions share their major version.
    pub fn is_compatible_with(&self, other: &PolicyVersion) -> (b: bool)
        ensures
            b == (self.major == other.major),
    {
        self.major == other.major
    }

    /// The text `major.minor.patch`.
    pub open spec fn spec_text(self) -> Seq<char> {
        decimal(self.major as nat) + seq!['.'] + decimal(self.minor as nat) + seq!['.'] + decimal(self.patch as nat)
    }

    /// The text `major.minor.patch`.
    pub fn to_string(&self) -> (s: String)
        ensures
            s@ == self.spec_text(),
    {
        let mut s = String::new();
        push_decimal(&mut s, self.major as u64);
        push_char(&mut s, '.');
        push_decimal(&mut s, self.minor as u64);
        push_char(&mut s, '.');
        push_decimal(&mut s, self.patch as u64);
        assert(s@ =~= self.spec_text());
        s
    }
}

impl Default for PolicyVersion {
    fn default() -> (v: Self)
        ensures
            v == PolicyVersion::spec_current(),
    {
        PolicyVersion::current()
    }
}

/// A decision as policy files name it.
#[derive(Debug, Clone, Copy, PartialEq, Eq, Structural)]
pub enum DecisionConfig {
    /// The frame continues.
    Pass,
    /// The frame is dropped.
    Reject,
    /// The frame waits for a human.
    NeedHumanConfirm,
    /// Unconditional pass.
    HardOverridePass,
}

impl DecisionConfig {
    /// The decision this name stands for.
    pub open spec fn spec_decision(self) -> Decision {
        match self {
            DecisionConfig::Pass => Decision::Pass,
            DecisionConfig::Reject => Decision::Reject,
            DecisionConfig::NeedHumanConfirm => Decision::NeedHumanConfirm,
            DecisionConfig::HardOverridePass => Decision::HardOverridePass,
        }
    }

    /// The name of a decision.
    pub open spec fn spec_of(d: Decision) -> DecisionConfig {
        match d {
            Decision::Pass => DecisionConfig::Pass,
            Decision::Reject => DecisionConfig::Reject,
            Decision::NeedHumanConfirm => DecisionConfig::NeedHumanConfirm,
            Decision::HardOverridePass => DecisionConfig::HardOverridePass,
        }
    }

    /// The decision this name stands for.
    pub fn decision(self) -> (d: Decision)
        ensures
            d == self.spec_decision(),
    {
        match self {
            DecisionConfig::Pass => Decision::Pass,
            DecisionConfig::Reject => Decision::Reject,
            DecisionConfig::NeedHumanConfirm => Decision::NeedHumanConfirm,
            DecisionConfig::HardOverridePass => Decision::HardOverridePass,
        }
    }

    /// The name of a decision.
    pub fn of(d: Decision) -> (c: DecisionConfig)
        ensures
            c == DecisionConfig::spec_of(d),
    {
        match d {
            Decision::Pass => DecisionConfig::Pass,
            Decision::Reject => DecisionConfig::Reject,
            Decision::NeedHumanConfirm => DecisionConfig::NeedHumanConfirm,
            Decision::HardOverridePass => DecisionConfig::HardOverridePass,
        }
    }
}

impl From<DecisionConfig> for Decision {
    fn from(value: DecisionConfig) -> Self {
        value.decision()
    }
}

impl vstd::std_specs::convert::FromSpecImpl<DecisionConfig> for Decision {
    open spec fn obeys_from_spec() -> bool {
        true
    }

    open spec fn from_spec(v: DecisionConfig) -> Self {
        v.spec_decision()
    }
}

impl From<Decision> for DecisionConfig {
    fn from(value: Decision) -> Self {
        DecisionConfig::of(value)
    }
}

impl vstd::std_specs::convert::FromSpecImpl<Decision> for DecisionConfig {
    open spec fn obeys_from_spec() -> bool {
        true
    }

    open spec fn from_spec(v: Decision) -> Self {
        DecisionConfig::spec_of(v)
    }
}

/// Policy metadata.
#[derive(Debug, Clone)]
pub struct PolicyMeta {
    /// Policy version.
    pub version: PolicyVersion,
    /// Description.
    pub description: String,
    /// Creation time.
    pub created_at: String,
    /// Last update time.
    pub updated_at: String,
}

/// The decision for each risk level.
#[derive(Debug, Clone, Copy, PartialEq, Eq, Structural)]
pub struct RiskLevelConfig {
    /// LOW risk.
    pub low: DecisionConfig,
    /// MEDIUM risk.
    pub medium: DecisionConfig,
    /// CRITICAL risk.
    pub critical: DecisionConfig,
    /// CATASTROPHIC risk without override.
    pub catastrophic: DecisionConfig,
    /// CATASTROPHIC risk with hard override.
    pub catastrophic_override: DecisionConfig,
}

/// Further policy options.
#[derive(Debug, Clone, Copy, PartialEq, Eq, Structural)]
pub struct PolicyOptions {
    /// Whether external output needs an additional check.
    pub external_additional_check: bool,
    /// Human confirmation timeout, in seconds.
    pub human_confirm_timeout_secs: u64,
    /// Whether SAP replay protection is on.
    pub enable_sap_replay_protection: bool,
}

impl Default for PolicyOptions {
    fn default() -> (o: Self)
        ensures
            o == (PolicyOptions {
                external_additional_check: true,
                human_confirm_timeout_secs: 30,
                enable_sap_replay_protection: false,
            }),
    {
        PolicyOptions {
            external_additional_check: true,
            human_confirm_timeout_secs: 30,
            enable_sap_replay_protection: false,
        }
    }
}

/// A policy as a file holds it.
#[derive(Debug, Clone)]
pub struct PolicyConfig {
    /// Metadata.
    pub policy: PolicyMeta,
    /// Decisions by risk level.
    pub risk_levels: RiskLevelConfig,
    /// Options.
    pub options: PolicyOptions,
}

/// Policy configuration error.
#[derive(Debug, Clone)]
pub enum PolicyConfigError {
    /// The file could not be read or written.
    Io(String),
    /// The text is not a valid policy.
    Parse(String),
    /// The policy could not be written as text.
    Serialize(String),
    /// The policy's major version is not the one this library reads.
    IncompatibleVersion {
        /// The file's version.
        found: PolicyVersion,
        /// The version read here.
        expected: PolicyVersion,
    },
}

impl PolicyConfigError {
    /// The error's message.
    pub open spec fn spec_text(self) -> Seq<char> {
        match self {
            PolicyConfigError::Io(m) => "I/O error: "@ + m@,
            PolicyConfigError::Parse(m) => "parse error: "@ + m@,
            PolicyConfigError::Serialize(m) => "serialize error: "@ + m@,
            PolicyConfigError::IncompatibleVersion { found, expected } => "incompatible policy version: found "@
                + found.spec_text() + ", expected major "@ + expected.spec_text(),
        }
    }

    /// The error's message.
    pub fn to_string(&self) -> (s: String)
        ensures
            s@ == self.spec_text(),
    {
        match self {
            PolicyConfigError::Io(m) => {
                let mut s = String::from_str("I/O error: ");
                s.append(m.as_str());
                s
            },
            PolicyConfigError::Parse(m) => {
                let mut s = String::from_str("parse error: ");
                s.append(m.as_str());
                s
            },
            PolicyConfigError::Serialize(m) => {
                let mut s = String::from_str("serialize error: ");
                s.append(m.as_str());
                s
            },
            PolicyConfigError::IncompatibleVersion { found, expected } => {
                let mut s = String::from_str("incompatible policy version: found ");
                let f = found.to_string();
                s.append(f.as_str());
                s.append(", expected major ");
                let e = expected.to_string();
                s.append(e.as_str());
                s
            },
        }
    }
}

/// The security policy a configuration stands for.
pub open spec fn spec_to_policy(c: RiskLevelConfig, o: PolicyOptions) -> SecurityPolicy {
    SecurityPolicy {
        low: c.low.spec_decision(),
        medium: c.medium.spec_decision(),
        critical: c.critical.spec_decision(),
        catastrophic: c.catastrophic.spec_decision(),
        catastrophic_override: c.catastrophic_override.spec_decision(),
        external_additional_check: o.external_additional_check,
    }
}

/// The default decisions: LOW and MEDIUM pass, CRITICAL waits for a human,
/// CATASTROPHIC is rejected unless hard-overridden.
pub open spec fn default_risk_levels() -> RiskLevelConfig {
    RiskLevelConfig {
        low: DecisionConfig::Pass,
        medium: DecisionConfig::Pass,
        critical: DecisionConfig::NeedHumanConfirm,
        catastrophic: DecisionConfig::Reject,
        catastrophic_override: DecisionConfig::HardOverridePass,
    }
}

/// The creation stamp of a default policy: `unix-` and the seconds.
pub open spec fn unix_stamp(secs: u64) -> Seq<char> {
    "unix-"@ + decimal(secs as nat)
}

fn stamp(secs: u64) -> (s: String)
    ensures
        s@ == unix_stamp(secs),
{
    let mut s = String::from_str("unix-");
    push_decimal(&mut s, secs);
    s
}

impl PolicyConfig {
    /// The security policy for the decision path: the decisions by risk
    /// level and the external-output check; metadata is dropped.
    pub fn to_policy(&self) -> (p: SecurityPolicy)
        ensures
            p == spec_to_policy(self.risk_levels, self.options),
    {
        SecurityPolicy {
            low: self.risk_levels.low.decision(),
            medium: self.risk_levels.medium.decision(),
            critical: self.risk_levels.critical.decision(),
            catastrophic: self.risk_levels.catastrophic.decision(),
            catastrophic_override: self.risk_levels.catastrophic_override.decision(),
            external_additional_check: self.options.external_additional_check,
        }
    }

    /// A field-by-field copy.
    pub fn duplicate(&self) -> (c: PolicyConfig)
        ensures
            c == *self,
    {
        PolicyConfig {
            policy: PolicyMeta {
                version: self.policy.version,
                description: self.policy.description.clone(),
                created_at: self.policy.created_at.clone(),
                updated_at: self.policy.updated_at.clone(),
            },
            risk_levels: self.risk_levels,
            options: self.options,
        }
    }

    /// The policy's version.
    pub fn version(&self) -> (v: PolicyVersion)
        ensures
            v == self.policy.version,
    {
        self.policy.version
    }

    /// Accept a parsed policy if its major version is the one read here,
    /// else report the incompatible version.
    pub fn from_parsed(config: PolicyConfig) -> (r: Result<PolicyConfig, PolicyConfigError>)
        ensures
            config.policy.version.major == PolicyVersion::spec_current().major ==> r == Ok::<PolicyConfig, PolicyConfigError>(config),
            config.policy.version.major != PolicyVersion::spec_current().major ==> r == Err::<PolicyConfig, PolicyConfigError>(
                PolicyConfigError::IncompatibleVersion {
                    found: config.policy.version,
                    expected: PolicyVersion::spec_current(),
                },
            ),
    {
        let current = PolicyVersion::current();
        if !config.policy.version.is_compatible_with(&current) {
            return Err(PolicyConfigError::IncompatibleVersion {
                found: config.policy.version,
                expected: current,
            });
        }
        Ok(config)
    }
}

impl Default for PolicyConfig {
    /// The default policy, stamped with the current time.
    fn default() -> (c: Self)
        ensures
            c.policy.version == PolicyVersion::spec_current(),
            c.policy.description@ == "Default Tuck security policy"@,
            c.policy.created_at@ == c.policy.updated_at@,
            exists|secs: u64| c.policy.created_at@ == unix_stamp(secs),
            c.risk_levels == default_risk_levels(),
            c.options == (PolicyOptions {
                external_additional_check: true,
                human_confirm_timeout_secs: 30,
                enable_sap_replay_protection: false,
            }),
    {
        let secs = unix_now();
        let now = stamp(secs);
        PolicyConfig {
            policy: PolicyMeta {
                version: PolicyVersion::current(),
                description: String::from_str("Default Tuck security policy"),
                created_at: now.clone(),
                updated_at: now,
            },
            risk_levels: RiskLevelConfig {
                low: DecisionConfig::Pass,
                medium: DecisionConfig::Pass,
                critical: DecisionConfig::NeedHumanConfirm,
                catastrophic: DecisionConfig::Reject,
                catastrophic_override: DecisionConfig::HardOverridePass,
            },
            options: PolicyOptions::default(),
        }
    }
}

/// Naming a decision and reading the name back gives the decision, and the
/// other way round.
pub proof fn law_decision_config_roundtrip(d: Decision, c: DecisionConfig)
    ensures
        DecisionConfig::spec_of(d).spec_decision() == d,
        DecisionConfig::spec_of(c.spec_decision()) == c,
{
}

/// The default policy file converts to the default security policy.
pub proof fn law_default_config_is_default_policy(o: PolicyOptions)
    requires
        o.external_additional_check,
    ensures
        spec_to_policy(default_risk_levels(), o) == SecurityPolicy::spec_default(),
{
}

} // verus!
