//! Server configuration: defaults, overrides from the environment, and the
//! validation that a configuration must pass before it is used.
//!
//! Reading the file, parsing TOML and reading the environment happen
//! outside this module; here the values are plain data.

use vstd::prelude::*;

use crate::text::{decimal, parse_u16, push_decimal, spec_parse_u16, str_eq};

verus! {

/// Configuration error.
#[derive(Debug)]
pub enum ConfigError {
    /// The configuration file could not be read.
    Io(String),
    /// The configuration text is not valid TOML for this schema.
    Toml(String),
    /// A value is out of its allowed range.
    Validation(String),
    /// A required field is missing.
    MissingField(String),
}

/// Server configuration.
#[derive(Debug, Clone)]
pub struct ServerConfig {
    /// Listen host.
    pub host: String,
    /// Listen port.
    pub port: u16,
    /// Maximum concurrent connections.
    pub max_connections: usize,
    /// Request timeout in milliseconds.
    pub request_timeout_ms: u64,
    /// Shutdown timeout in seconds.
    pub shutdown_timeout_s: u64,
}

impl ServerConfig {
    /// The built-in server settings.
    pub open spec fn spec_is_default(&self) -> bool {
        &&& self.host@ == "127.0.0.1"@
        &&& self.port == 8443
        &&& self.max_connections == 1024
        &&& self.request_timeout_ms == 5000
        &&& self.shutdown_timeout_s == 30
    }
}

impl Default for ServerConfig {
    fn default() -> (c: Self)
        ensures
            c.spec_is_default(),
    {
        ServerConfig {
            host: String::from_str("127.0.0.1"),
            port: 8443,
            max_connections: 1024,
            request_timeout_ms: 5000,
            shutdown_timeout_s: 30,
        }
    }
}

/// Security policy configuration.
#[derive(Debug, Clone)]
pub struct SecurityConfig {
    /// Reject on any error.
    pub fail_closed: bool,
    /// Risk level for requests without a PFP header.
    pub default_risk_level: String,
    /// Require a PFP header on every request.
    pub require_pfp: bool,
    /// Require a SAP header on high-risk requests.
    pub require_sap_for_high_risk: bool,
    /// Audit entries kept before rotation.
    pub max_audit_entries: usize,
}

impl SecurityConfig {
    /// The built-in security settings.
    pub open spec fn spec_is_default(&self) -> bool {
        &&& self.fail_closed
        &&& self.default_risk_level@ == "Medium"@
        &&& !self.require_pfp
        &&& !self.require_sap_for_high_risk
        &&& self.max_audit_entries == 100_000
    }
}

impl Default for SecurityConfig {
    fn default() -> (c: Self)
        ensures
            c.spec_is_default(),
    {
        SecurityConfig {
            fail_closed: true,
            default_risk_level: String::from_str("Medium"),
            require_pfp: false,
            require_sap_for_high_risk: false,
            max_audit_entries: 100_000,
        }
    }
}

/// Audit log configuration.
#[derive(Debug, Clone)]
pub struct AuditConfig {
    /// Whether the audit log is written.
    pub enabled: bool,
    /// Audit log file path.
    pub log_path: String,
    /// Audit entries kept in memory.
    pub max_entries: usize,
    /// Flush interval in milliseconds.
    pub flush_interval_ms: u64,
    /// Whether request payloads go into the audit log.
    pub include_payload: bool,
}

impl AuditConfig {
    /// The built-in audit settings.
    pub open spec fn spec_is_default(&self) -> bool {
        &&& self.enabled
        &&& self.log_path@ == "/var/log/tuck/audit.log"@
        &&& self.max_entries == 100_000
        &&& self.flush_interval_ms == 1000
        &&& !self.include_payload
    }
}

impl Default for AuditConfig {
    fn default() -> (c: Self)
        ensures
            c.spec_is_default(),
    {
        AuditConfig {
            enabled: true,
            log_path: String::from_str("/var/log/tuck/audit.log"),
            max_entries: 100_000,
            flush_interval_ms: 1000,
            include_payload: false,
        }
    }
}

/// Credential store configuration.
#[derive(Debug, Clone)]
pub struct CredentialConfig {
    /// Store type: `file`, `memory` or `hsm`.
    pub store_type: String,
    /// Store path (file store).
    pub store_path: String,
    /// Master key (file store encryption).
    pub master_key: String,
    /// Largest credential, in bytes.
    pub max_credential_size: usize,
}

impl CredentialConfig {
    /// The built-in credential store settings.
    pub open spec fn spec_is_default(&self) -> bool {
        &&& self.store_type@ == "file"@
        &&& self.store_path@ == "/etc/tuck/credentials.enc"@
        &&& self.master_key@.len() == 0
        &&& self.max_credential_size == 4096
    }
}

impl Default for CredentialConfig {
    fn default() -> (c: Self)
        ensures
            c.spec_is_default(),
    {
        CredentialConfig {
            store_type: String::from_str("file"),
            store_path: String::from_str("/etc/tuck/credentials.enc"),
            master_key: String::new(),
            max_credential_size: 4096,
        }
    }
}

/// Hardware security module configuration.
#[derive(Debug, Clone)]
pub struct HsmConfig {
    /// Whether an HSM is used.
    pub enabled: bool,
    /// PKCS#11 library path.
    pub library_path: String,
    /// HSM slot.
    pub slot_id: u64,
    /// HSM PIN.
    pub pin: String,
}

impl HsmConfig {
    /// The built-in HSM settings.
    pub open spec fn spec_is_default(&self) -> bool {
        &&& !self.enabled
        &&& self.library_path@.len() == 0
        &&& self.slot_id == 0
        &&& self.pin@.len() == 0
    }
}

impl Default for HsmConfig {
    fn default() -> (c: Self)
        ensures
            c.spec_is_default(),
    {
        HsmConfig { enabled: false, library_path: String::new(), slot_id: 0, pin: String::new() }
    }
}

/// Hot reload configuration.
#[derive(Debug, Clone)]
pub struct HotReloadConfig {
    /// Whether credentials and policies are reloaded when they change.
    pub enabled: bool,
    /// Watch interval in seconds.
    pub watch_interval_s: u64,
    /// Watched paths.
    pub watch_paths: Vec<String>,
}

impl HotReloadConfig {
    /// The built-in hot reload settings.
    pub open spec fn spec_is_default(&self) -> bool {
        &&& !self.enabled
        &&& self.watch_interval_s == 30
        &&& self.watch_paths@.len() == 0
    }
}

impl Default for HotReloadConfig {
    fn default() -> (c: Self)
        ensures
            c.spec_is_default(),
    {
        HotReloadConfig { enabled: false, watch_interval_s: 30, watch_paths: Vec::new() }
    }
}

/// Logging configuration.
#[derive(Debug, Clone)]
pub struct LogConfig {
    /// Level: `trace`, `debug`, `info`, `warn` or `error`.
    pub level: String,
    /// Format: `json` or `text`.
    pub format: String,
    /// Log file (standard output when absent).
    pub file_path: Option<String>,
    /// Whether lines carry a timestamp.
    pub include_timestamp: bool,
    /// Whether lines carry the module path.
    pub include_target: bool,
}

impl LogConfig {
    /// The built-in logging settings.
    pub open spec fn spec_is_default(&self) -> bool {
        &&& self.level@ == "info"@
        &&& self.format@ == "json"@
        &&& self.file_path is None
        &&& self.include_timestamp
        &&& self.include_target
    }
}

impl Default for LogConfig {
    fn default() -> (c: Self)
        ensures
            c.spec_is_default(),
    {
        LogConfig {
            level: String::from_str("info"),
            format: String::from_str("json"),
            file_path: None,
            include_timestamp: true,
            include_target: true,
        }
    }
}

/// Metrics endpoint configuration.
#[derive(Debug, Clone)]
pub struct MetricsConfig {
    /// Whether Prometheus metrics are served.
    pub enabled: bool,
    /// Endpoint path.
    pub path: String,
    /// Listen port (0: the server's own port).
    pub port: u16,
}

impl MetricsConfig {
    /// The built-in metrics settings.
    pub open spec fn spec_is_default(&self) -> bool {
        &&& self.enabled
        &&& self.path@ == "/metrics"@
        &&& self.port == 0
    }
}

impl Default for MetricsConfig {
    fn default() -> (c: Self)
        ensures
            c.spec_is_default(),
    {
        MetricsConfig { enabled: true, path: String::from_str("/metrics"), port: 0 }
    }
}

/// The whole server configuration.
#[derive(Debug, Clone)]
pub struct TuckConfig {
    pub server: ServerConfig,
    pub security: SecurityConfig,
    pub audit: AuditConfig,
    pub credential: CredentialConfig,
    pub hsm: HsmConfig,
    pub hot_reload: HotReloadConfig,
    pub log: LogConfig,
    pub metrics: MetricsConfig,
}

impl TuckConfig {
    /// The built-in configuration: every section at its defaults.
    pub open spec fn spec_is_default(&self) -> bool {
        &&& self.server.spec_is_default()
        &&& self.security.spec_is_default()
        &&& self.audit.spec_is_default()
        &&& self.credential.spec_is_default()
        &&& self.hsm.spec_is_default()
        &&& self.hot_reload.spec_is_default()
        &&& self.log.spec_is_default()
        &&& self.metrics.spec_is_default()
    }
}

impl Default for TuckConfig {
    fn default() -> (c: Self)
        ensures
            c.spec_is_default(),
    {
        TuckConfig {
            server: ServerConfig::default(),
            security: SecurityConfig::default(),
            audit: AuditConfig::default(),
            credential: CredentialConfig::default(),
            hsm: HsmConfig::default(),
            hot_reload: HotReloadConfig::default(),
            log: LogConfig::default(),
            metrics: MetricsConfig::default(),
        }
    }
}

/// Overrides read from the environment, one per variable; a variable that
/// is unset (or not Unicode) is `None`.
#[derive(Debug, Clone)]
pub struct EnvOverrides {
    /// `TUCK_SERVER__HOST`.
    pub server_host: Option<String>,
    /// `TUCK_SERVER__PORT`.
    pub server_port: Option<String>,
    /// `TUCK_SECURITY__FAIL_CLOSED`.
    pub security_fail_closed: Option<String>,
    /// `TUCK_AUDIT__ENABLED`.
    pub audit_enabled: Option<String>,
    /// `TUCK_AUDIT__LOG_PATH`.
    pub audit_log_path: Option<String>,
    /// `TUCK_LOG__LEVEL`.
    pub log_level: Option<String>,
    /// `TUCK_LOG__FORMAT`.
    pub log_format: Option<String>,
}

/// Whether a flag's text turns it on: `true` or `1`.
pub open spec fn flag_on(v: Seq<char>) -> bool {
    v == "true"@ || v == "1"@
}

/// The server section with the environment's overrides: a set host
/// replaces the host; a set port that parses replaces the port.
pub open spec fn server_with_env(c: ServerConfig, env: EnvOverrides) -> ServerConfig {
    ServerConfig {
        host: match env.server_host {
            Some(h) => h,
            None => c.host,
        },
        port: match env.server_port {
            Some(p) => match spec_parse_u16(p@) {
                Some(n) => n,
                None => c.port,
            },
            None => c.port,
        },
        ..c
    }
}

/// The security section with the environment's fail-closed flag.
pub open spec fn security_with_env(c: SecurityConfig, env: EnvOverrides) -> SecurityConfig {
    SecurityConfig {
        fail_closed: match env.security_fail_closed {
            Some(v) => flag_on(v@),
            None => c.fail_closed,
        },
        ..c
    }
}

/// The audit section with the environment's flag and path.
pub open spec fn audit_with_env(c: AuditConfig, env: EnvOverrides) -> AuditConfig {
    AuditConfig {
        enabled: match env.audit_enabled {
            Some(v) => flag_on(v@),
            None => c.enabled,
        },
        log_path: match env.audit_log_path {
            Some(p) => p,
            None => c.log_path,
        },
        ..c
    }
}

/// The logging section with the environment's level and format.
pub open spec fn log_with_env(c: LogConfig, env: EnvOverrides) -> LogConfig {
    LogConfig {
        level: match env.log_level {
            Some(l) => l,
            None => c.level,
        },
        format: match env.log_format {
            Some(f) => f,
            None => c.format,
        },
        ..c
    }
}

/// `c` with the environment's overrides applied: each variable that is set
/// replaces its field; a port that does not parse leaves the port as it was.
pub open spec fn with_env(c: TuckConfig, env: EnvOverrides) -> TuckConfig {
    TuckConfig {
        server: server_with_env(c.server, env),
        security: security_with_env(c.security, env),
        audit: audit_with_env(c.audit, env),
        log: log_with_env(c.log, env),
        ..c
    }
}

/// The accepted risk level names.
pub open spec fn is_risk_level_name(v: Seq<char>) -> bool {
    v == "Low"@ || v == "Medium"@ || v == "Critical"@ || v == "Catastrophic"@
}

/// The accepted credential store types.
pub open spec fn is_store_type(v: Seq<char>) -> bool {
    v == "file"@ || v == "memory"@ || v == "hsm"@
}

/// The accepted log levels.
pub open spec fn is_log_level(v: Seq<char>) -> bool {
    v == "trace"@ || v == "debug"@ || v == "info"@ || v == "warn"@ || v == "error"@
}

/// The accepted log formats.
pub open spec fn is_log_format(v: Seq<char>) -> bool {
    v == "json"@ || v == "text"@
}

/// The message of the first check that `c` fails, in the order the checks
/// are made; `None` when it passes them all.
pub open spec fn validation_error(c: TuckConfig) -> Option<Seq<char>> {
    if c.server.port == 0 {
        Some("server.port must be between 1 and 65535, got "@ + decimal(c.server.port as nat))
    } else if c.server.host@.len() == 0 {
        Some("server.host must not be empty"@)
    } else if !is_risk_level_name(c.security.default_risk_level@) {
        Some("security.default_risk_level must be one of [\"Low\", \"Medium\", \"Critical\", \"Catastrophic\"], got '"@
            + c.security.default_risk_level@ + "'"@)
    } else if c.audit.enabled && c.audit.log_path@.len() == 0 {
        Some("audit.log_path must not be empty when audit is enabled"@)
    } else if c.audit.max_entries == 0 {
        Some("audit.max_entries must be greater than 0"@)
    } else if !is_store_type(c.credential.store_type@) {
        Some("credential.store_type must be one of [\"file\", \"memory\", \"hsm\"], got '"@
            + c.credential.store_type@ + "'"@)
    } else if !is_log_level(c.log.level@) {
        Some("log.level must be one of [\"trace\", \"debug\", \"info\", \"warn\", \"error\"], got '"@
            + c.log.level@ + "'"@)
    } else if !is_log_format(c.log.format@) {
        Some("log.format must be one of [\"json\", \"text\"], got '"@ + c.log.format@ + "'"@)
    } else {
        None
    }
}

/// Whether `r` is what validating `c` gives: `c` itself when it passes,
/// else the validation error carrying the first failing check's message.
pub open spec fn validated(c: TuckConfig, r: Result<TuckConfig, ConfigError>) -> bool {
    match r {
        Ok(x) => x == c && validation_error(c) is None,
        Err(e) => validation_error(c) matches Some(msg) && e matches ConfigError::Validation(m) && m@ == msg,
    }
}

fn flag(v: &String) -> (b: bool)
    ensures
        b == flag_on(v@),
{
    str_eq(v.as_str(), "true") || str_eq(v.as_str(), "1")
}

fn one_of_risk_levels(v: &str) -> (b: bool)
    ensures
        b == is_risk_level_name(v@),
{
    str_eq(v, "Low") || str_eq(v, "Medium") || str_eq(v, "Critical") || str_eq(v, "Catastrophic")
}

fn one_of_store_types(v: &str) -> (b: bool)
    ensures
        b == is_store_type(v@),
{
    str_eq(v, "file") || str_eq(v, "memory") || str_eq(v, "hsm")
}

fn one_of_log_levels(v: &str) -> (b: bool)
    ensures
        b == is_log_level(v@),
{
    str_eq(v, "trace") || str_eq(v, "debug") || str_eq(v, "info") || str_eq(v, "warn") || str_eq(v, "error")
}

fn one_of_log_formats(v: &str) -> (b: bool)
    ensures
        b == is_log_format(v@),
{
    str_eq(v, "json") || str_eq(v, "text")
}

fn quoted_error(prefix: &str, value: &String) -> (e: ConfigError)
    ensures
        e matches ConfigError::Validation(m) && m@ == prefix@ + value@ + "'"@,
{
    let mut m = String::from_str(prefix);
    m.append(value.as_str());
    m.append("'");
    ConfigError::Validation(m)
}

fn override_server(c: &mut ServerConfig, env: &EnvOverrides)
    ensures
        *final(c) == server_with_env(*old(c), *env),
{
    if let Some(host) = &env.server_host {
        c.host = host.clone();
    }
    if let Some(port) = &env.server_port {
        if let Some(p) = parse_u16(port.as_str()) {
            c.port = p;
        }
    }
}

fn override_security(c: &mut SecurityConfig, env: &EnvOverrides)
    ensures
        *final(c) == security_with_env(*old(c), *env),
{
    if let Some(fc) = &env.security_fail_closed {
        c.fail_closed = flag(fc);
    }
}

fn override_audit(c: &mut AuditConfig, env: &EnvOverrides)
    ensures
        *final(c) == audit_with_env(*old(c), *env),
{
    if let Some(enabled) = &env.audit_enabled {
        c.enabled = flag(enabled);
    }
    if let Some(path) = &env.audit_log_path {
        c.log_path = path.clone();
    }
}

fn override_log(c: &mut LogConfig, env: &EnvOverrides)
    ensures
        *final(c) == log_with_env(*old(c), *env),
{
    if let Some(level) = &env.log_level {
        c.level = level.clone();
    }
    if let Some(format) = &env.log_format {
        c.format = format.clone();
    }
}

impl TuckConfig {
    /// Apply the environment's overrides.
    pub fn apply_env_overrides(&mut self, env: &EnvOverrides)
        ensures
            *final(self) == with_env(*old(self), *env),
    {
        override_server(&mut self.server, env);
        override_security(&mut self.security, env);
        override_audit(&mut self.audit, env);
        override_log(&mut self.log, env);
    }

    /// Check every constraint on the configuration, in order, and report the
    /// first that fails.
    pub fn validate(&self) -> (r: Result<(), ConfigError>)
        ensures
            r is Ok <==> validation_error(*self) is None,
            r matches Err(e) ==> (validation_error(*self) matches Some(msg)
                && e matches ConfigError::Validation(m) && m@ == msg),
    {
        if self.server.port == 0 {
            let mut m = String::from_str("server.port must be between 1 and 65535, got ");
            push_decimal(&mut m, self.server.port as u64);
            return Err(ConfigError::Validation(m));
        }
        if self.server.host.as_str().is_empty() {
            return Err(ConfigError::Validation(String::from_str("server.host must not be empty")));
        }
        if !one_of_risk_levels(self.security.default_risk_level.as_str()) {
            return Err(quoted_error(
                "security.default_risk_level must be one of [\"Low\", \"Medium\", \"Critical\", \"Catastrophic\"], got '",
                &self.security.default_risk_level,
            ));
        }
        if self.audit.enabled && self.audit.log_path.as_str().is_empty() {
            return Err(ConfigError::Validation(
                String::from_str("audit.log_path must not be empty when audit is enabled"),
            ));
        }
        if self.audit.max_entries == 0 {
            return Err(ConfigError::Validation(String::from_str("audit.max_entries must be greater than 0")));
        }
        if !one_of_store_types(self.credential.store_type.as_str()) {
            return Err(quoted_error(
                "credential.store_type must be one of [\"file\", \"memory\", \"hsm\"], got '",
                &self.credential.store_type,
            ));
        }
        if !one_of_log_levels(self.log.level.as_str()) {
            return Err(quoted_error(
                "log.level must be one of [\"trace\", \"debug\", \"info\", \"warn\", \"error\"], got '",
                &self.log.level,
            ));
        }
        if !one_of_log_formats(self.log.format.as_str()) {
            return Err(quoted_error("log.format must be one of [\"json\", \"text\"], got '", &self.log.format));
        }
        Ok(())
    }

    /// The configuration in force: `base` (a configuration read from a file)
    /// or the defaults, with the environment's overrides applied, validated.
    pub fn load(base: Option<TuckConfig>, env: &EnvOverrides) -> (r: Result<TuckConfig, ConfigError>)
        ensures
            base matches Some(b) ==> validated(with_env(b, *env), r),
            base is None ==> exists|d: TuckConfig| d.spec_is_default() && #[trigger] validated(with_env(d, *env), r),
    {
        let mut config = match base {
            Some(b) => b,
            None => TuckConfig::default(),
        };
        let ghost start = config;
        config.apply_env_overrides(env);
        match config.validate() {
            Ok(()) => {
                assert(validated(with_env(start, *env), Ok(config)));
                Ok(config)
            },
            Err(e) => {
                assert(validated(with_env(start, *env), Err(e)));
                Err(e)
            },
        }
    }
}

} // verus!
