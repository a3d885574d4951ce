use tuck::pfp::{Decision, SecurityPolicy};
use tuck::policy::{
    DecisionConfig, PolicyConfig, PolicyConfigError, PolicyMeta, PolicyOptions, PolicyVersion, RiskLevelConfig,
};

fn config_with(version: PolicyVersion, risk_levels: RiskLevelConfig, options: PolicyOptions) -> PolicyConfig {
    PolicyConfig {
        policy: PolicyMeta {
            version,
            description: "Strict policy".to_string(),
            created_at: String::new(),
            updated_at: String::new(),
        },
        risk_levels,
        options,
    }
}

#[test]
fn test_default_policy_config() {
    let config = PolicyConfig::default();
    assert_eq!(config.version(), PolicyVersion::current());
    assert_eq!(config.risk_levels.low, DecisionConfig::Pass);
    assert_eq!(config.risk_levels.critical, DecisionConfig::NeedHumanConfirm);
    assert_eq!(config.risk_levels.catastrophic, DecisionConfig::Reject);
    assert_eq!(config.risk_levels.catastrophic_override, DecisionConfig::HardOverridePass);
}

#[test]
fn test_to_policy_conversion() {
    let config = PolicyConfig::default();
    let policy = config.to_policy();
    assert_eq!(policy.low, Decision::Pass);
    assert_eq!(policy.medium, Decision::Pass);
    assert_eq!(policy.critical, Decision::NeedHumanConfirm);
    assert_eq!(policy.catastrophic, Decision::Reject);
    assert_eq!(policy.catastrophic_override, Decision::HardOverridePass);
    assert!(policy.external_additional_check);
}

#[test]
fn test_incompatible_version() {
    let config = config_with(
        PolicyVersion::new(2, 0, 0),
        RiskLevelConfig {
            low: DecisionConfig::Pass,
            medium: DecisionConfig::Pass,
            critical: DecisionConfig::Reject,
            catastrophic: DecisionConfig::Reject,
            catastrophic_override: DecisionConfig::HardOverridePass,
        },
        PolicyOptions::default(),
    );
    let result = PolicyConfig::from_parsed(config);
    assert!(matches!(result, Err(PolicyConfigError::IncompatibleVersion { .. })));
}

#[test]
fn test_decision_config_conversion() {
    for dc in [
        DecisionConfig::Pass,
        DecisionConfig::Reject,
        DecisionConfig::NeedHumanConfirm,
        DecisionConfig::HardOverridePass,
    ] {
        let d: Decision = dc.into();
        let dc2: DecisionConfig = d.into();
        assert_eq!(dc, dc2);
    }
}

#[test]
fn test_policy_version_display() {
    let v = PolicyVersion::new(1, 2, 3);
    assert_eq!(v.to_string(), "1.2.3");
    assert!(v.is_compatible_with(&PolicyVersion::new(1, 99, 99)));
    assert!(!v.is_compatible_with(&PolicyVersion::new(2, 0, 0)));
}

#[test]
fn test_custom_policy() {
    let config = config_with(
        PolicyVersion::new(1, 0, 0),
        RiskLevelConfig {
            low: DecisionConfig::Pass,
            medium: DecisionConfig::NeedHumanConfirm,
            critical: DecisionConfig::Reject,
            catastrophic: DecisionConfig::Reject,
            catastrophic_override: DecisionConfig::HardOverridePass,
        },
        PolicyOptions {
            external_additional_check: true,
            human_confirm_timeout_secs: 60,
            enable_sap_replay_protection: true,
        },
    );
    let config = PolicyConfig::from_parsed(config).unwrap();
    assert_eq!(config.risk_levels.medium, DecisionConfig::NeedHumanConfirm);
    assert_eq!(config.risk_levels.critical, DecisionConfig::Reject);
    assert_eq!(config.options.human_confirm_timeout_secs, 60);
    assert!(config.options.enable_sap_replay_protection);
    let policy = config.to_policy();
    assert_eq!(policy.medium, Decision::NeedHumanConfirm);
    assert_eq!(policy.critical, Decision::Reject);
}

#[test]
fn default_config_gives_default_policy_and_error_text() {
    assert_eq!(PolicyConfig::default().to_policy(), SecurityPolicy::default());
    let e = PolicyConfigError::IncompatibleVersion {
        found: PolicyVersion::new(2, 0, 0),
        expected: PolicyVersion::current(),
    };
    assert_eq!(e.to_string(), "incompatible policy version: found 2.0.0, expected major 1.0.0");
    let stamp = PolicyConfig::default().policy.created_at;
    assert!(stamp.starts_with("unix-"));
}
