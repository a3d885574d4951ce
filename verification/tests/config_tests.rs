use tuck::config::{ConfigError, EnvOverrides, TuckConfig};

fn no_env() -> EnvOverrides {
    EnvOverrides {
        server_host: None,
        server_port: None,
        security_fail_closed: None,
        audit_enabled: None,
        audit_log_path: None,
        log_level: None,
        log_format: None,
    }
}

#[test]
fn test_default_config() {
    let config = TuckConfig::default();
    assert_eq!(config.server.host, "127.0.0.1");
    assert_eq!(config.server.port, 8443);
    assert!(config.security.fail_closed);
    assert!(config.audit.enabled);
    assert_eq!(config.credential.store_type, "file");
    assert!(!config.hsm.enabled);
    assert!(!config.hot_reload.enabled);
    assert_eq!(config.log.level, "info");
    assert!(config.metrics.enabled);
}

#[test]
fn test_default_config_validates() {
    let config = TuckConfig::default();
    assert!(config.validate().is_ok());
}

#[test]
fn test_validate_invalid_port() {
    let mut config = TuckConfig::default();
    config.server.port = 0;
    assert!(config.validate().is_err());
}

#[test]
fn test_validate_invalid_risk_level() {
    let mut config = TuckConfig::default();
    config.security.default_risk_level = "Invalid".to_string();
    assert!(config.validate().is_err());
}

#[test]
fn test_validate_invalid_log_level() {
    let mut config = TuckConfig::default();
    config.log.level = "verbose".to_string();
    assert!(config.validate().is_err());
}

#[test]
fn test_validate_invalid_store_type() {
    let mut config = TuckConfig::default();
    config.credential.store_type = "redis".to_string();
    assert!(config.validate().is_err());
}

#[test]
fn test_validate_audit_enabled_without_path() {
    let mut config = TuckConfig::default();
    config.audit.enabled = true;
    config.audit.log_path = String::new();
    assert!(config.validate().is_err());
}

#[test]
fn test_sandbox_constraints_not_in_config() {
    let config = TuckConfig::default();
    let _ = config;
}

#[test]
fn test_env_override_port() {
    let mut env = no_env();
    env.server_port = Some("9999".to_string());
    let config = TuckConfig::load(None, &env).unwrap();
    assert_eq!(config.server.port, 9999);
}

#[test]
fn test_env_override_log_level() {
    let mut env = no_env();
    env.log_level = Some("debug".to_string());
    let config = TuckConfig::load(None, &env).unwrap();
    assert_eq!(config.log.level, "debug");
}

#[test]
fn validation_messages_name_the_field() {
    let mut config = TuckConfig::default();
    config.log.level = "verbose".to_string();
    match config.validate() {
        Err(ConfigError::Validation(m)) => assert_eq!(
            m,
            "log.level must be one of [\"trace\", \"debug\", \"info\", \"warn\", \"error\"], got 'verbose'"
        ),
        other => panic!("unexpected {:?}", other),
    }
    let mut config = TuckConfig::default();
    config.server.port = 0;
    match config.validate() {
        Err(ConfigError::Validation(m)) => assert_eq!(m, "server.port must be between 1 and 65535, got 0"),
        other => panic!("unexpected {:?}", other),
    }
}

#[test]
fn env_overrides_flags_and_bad_port() {
    let mut env = no_env();
    env.server_port = Some("not-a-port".to_string());
    env.security_fail_closed = Some("0".to_string());
    env.audit_enabled = Some("1".to_string());
    env.server_host = Some("0.0.0.0".to_string());
    let config = TuckConfig::load(None, &env).unwrap();
    assert_eq!(config.server.port, 8443);
    assert!(!config.security.fail_closed);
    assert!(config.audit.enabled);
    assert_eq!(config.server.host, "0.0.0.0");
}

#[test]
fn load_refuses_invalid_override() {
    let mut env = no_env();
    env.log_format = Some("xml".to_string());
    assert!(matches!(TuckConfig::load(None, &env), Err(ConfigError::Validation(_))));
}
