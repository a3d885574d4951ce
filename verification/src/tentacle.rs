//! The guards a plugin host passes through: the audit of a plugin before it
//! is loaded, and the decision on each tool call before it runs.
//!
//! A plugin is rejected when its binary does not match its manifest hash or
//! it asks for more memory or CPU time than allowed; it needs a human when
//! it asks for execution, network and file system access together, or (by
//! default) when it is critical. A tool call is decided as a frame is, from
//! its PFP header; an invalid header rejects it under strict constraints.

use vstd::prelude::*;

use crate::audit::{keep_newest, opt_str, AuditEntry, AuditLog};
use crate::credential::{CredentialError, IdentityLabel};
use crate::pfp::{decide, is_valid_pfp, pfp_error, spec_decide, spec_effective_risk, Decision, PfpHeader, RiskLevel, SecurityPolicy};
use crate::text::{decimal, push_decimal};
use crate::anaphase::{allows, lookup_for};

pub use crate::anaphase::BridgeError;

verus! {

#[verifier::external_type_specification]
#[verifier::external_body]
pub struct ExJsonValue(serde_json::Value);

/// Security level a plugin's manifest declares.
#[derive(Debug, Clone, Copy, PartialEq, Eq, Structural)]
pub enum PluginSecurityLevel {
    /// Read-only, low risk.
    Normal,
    /// Writes, network or credential use.
    Critical,
}

impl Default for PluginSecurityLevel {
    fn default() -> (l: Self)
        ensures
            l == PluginSecurityLevel::Normal,
    {
        PluginSecurityLevel::Normal
    }
}

/// Permissions a plugin's manifest asks for.
#[derive(Debug, Clone)]
pub struct PluginPermissions {
    /// Network destinations (none: no network).
    pub network: Vec<String>,
    /// File system paths (none: no file system).
    pub filesystem: Vec<String>,
    /// Whether it runs external commands.
    pub execute: bool,
    /// Memory limit in MB, if any.
    pub max_memory_mb: Option<u32>,
    /// CPU time limit in ms, if any.
    pub max_cpu_time_ms: Option<u32>,
}

impl Default for PluginPermissions {
    fn default() -> (p: Self)
        ensures
            p.network@.len() == 0,
            p.filesystem@.len() == 0,
            !p.execute,
            p.max_memory_mb is None,
            p.max_cpu_time_ms is None,
    {
        PluginPermissions {
            network: Vec::new(),
            filesystem: Vec::new(),
            execute: false,
            max_memory_mb: None,
            max_cpu_time_ms: None,
        }
    }
}

/// Identity a plugin's manifest requires.
#[derive(Debug, Clone)]
pub struct PluginIdentityRequirement {
    /// Identity type, such as `cookie` or `token`.
    pub identity_type: Option<String>,
    /// Target domain.
    pub domain: Option<String>,
    /// Fields to redact in audit logs.
    pub sensitive_fields: Vec<String>,
}

impl Default for PluginIdentityRequirement {
    fn default() -> (r: Self)
        ensures
            r.identity_type is None,
            r.domain is None,
            r.sensitive_fields@.len() == 0,
    {
        PluginIdentityRequirement { identity_type: None, domain: None, sensitive_fields: Vec::new() }
    }
}

/// Where a plugin comes from.
#[derive(Debug, Clone)]
pub enum PluginSource {
    /// A local directory.
    Local {
        /// Directory.
        path: String,
    },
    /// A remote URL.
    Remote {
        /// URL.
        url: String,
    },
    /// A registry.
    Registry {
        /// Package name.
        name: String,
        /// Package version.
        version: String,
    },
}

/// A request to audit a plugin before it is loaded.
#[derive(Debug, Clone)]
pub struct PluginAuditRequest {
    /// Trace ID (UUID bytes).
    pub trace_id: [u8; 16],
    /// The requesting source.
    pub source_id: String,
    /// Plugin name.
    pub plugin_name: String,
    /// Plugin version.
    pub plugin_version: String,
    /// Declared security level.
    pub security_level: PluginSecurityLevel,
    /// Hash the manifest declares.
    pub integrity_hash: String,
    /// Hash computed from the binary.
    pub computed_hash: String,
    /// Permissions asked for.
    pub permissions: PluginPermissions,
    /// Identity required.
    pub requires_identity: Option<PluginIdentityRequirement>,
    /// Origin.
    pub source: PluginSource,
}

/// Verdict on a plugin.
#[derive(Debug, Clone, Copy, PartialEq, Eq, Structural)]
pub enum PluginAuditDecision {
    /// Safe to load.
    Pass,
    /// Blocked.
    Reject,
    /// Needs a human review.
    NeedHumanConfirm,
}

impl PluginAuditDecision {
    /// The verdict's name.
    pub open spec fn spec_name(self) -> Seq<char> {
        match self {
            PluginAuditDecision::Pass => "Pass"@,
            PluginAuditDecision::Reject => "Reject"@,
            PluginAuditDecision::NeedHumanConfirm => "NeedHumanConfirm"@,
        }
    }

    /// The verdict's name.
    pub fn name(self) -> (s: &'static str)
        ensures
            s@ == self.spec_name(),
    {
        match self {
            PluginAuditDecision::Pass => "Pass",
            PluginAuditDecision::Reject => "Reject",
            PluginAuditDecision::NeedHumanConfirm => "NeedHumanConfirm",
        }
    }
}

/// Limits the host enforces while a plugin or tool runs.
#[derive(Debug, Clone)]
pub struct SandboxConstraints {
    /// Memory limit in MB.
    pub max_memory_mb: u32,
    /// CPU time limit per call in ms.
    pub max_cpu_time_ms: u32,
    /// Whether network access is allowed.
    pub network_allowed: bool,
    /// Allowed destinations (none: all, when network is allowed).
    pub allowed_network: Vec<String>,
    /// Whether file system access is allowed.
    pub filesystem_allowed: bool,
    /// Allowed paths.
    pub allowed_filesystem: Vec<String>,
    /// Whether external commands may run.
    pub execute_allowed: bool,
    /// Whether it runs in a WASM sandbox.
    pub wasm_sandbox: bool,
    /// Whether it runs in a JS sandbox.
    pub js_sandbox: bool,
}

/// Whether constraints have these limits and flags and no allowed
/// destinations or paths.
pub open spec fn constraints_are(
    c: SandboxConstraints,
    mem: u32,
    cpu: u32,
    network: bool,
    filesystem: bool,
    execute: bool,
    sandboxed: bool,
) -> bool {
    &&& c.max_memory_mb == mem
    &&& c.max_cpu_time_ms == cpu
    &&& c.network_allowed == network
    &&& c.allowed_network@.len() == 0
    &&& c.filesystem_allowed == filesystem
    &&& c.allowed_filesystem@.len() == 0
    &&& c.execute_allowed == execute
    &&& c.wasm_sandbox == sandboxed
    &&& c.js_sandbox == sandboxed
}

impl SandboxConstraints {
    /// Maximum security: 64 MB, 5 s, no network, file system or commands,
    /// sandboxed.
    pub fn strict() -> (c: SandboxConstraints)
        ensures
            constraints_are(c, 64, 5000, false, false, false, true),
    {
        SandboxConstraints {
            max_memory_mb: 64,
            max_cpu_time_ms: 5000,
            network_allowed: false,
            allowed_network: Vec::new(),
            filesystem_allowed: false,
            allowed_filesystem: Vec::new(),
            execute_allowed: false,
            wasm_sandbox: true,
            js_sandbox: true,
        }
    }

    /// For trusted plugins: 512 MB, 30 s, network, file system and commands,
    /// not sandboxed.
    pub fn relaxed() -> (c: SandboxConstraints)
        ensures
            constraints_are(c, 512, 30000, true, true, true, false),
    {
        SandboxConstraints {
            max_memory_mb: 512,
            max_cpu_time_ms: 30000,
            network_allowed: true,
            allowed_network: Vec::new(),
            filesystem_allowed: true,
            allowed_filesystem: Vec::new(),
            execute_allowed: true,
            wasm_sandbox: false,
            js_sandbox: false,
        }
    }
}

impl Default for SandboxConstraints {
    /// No limits, nothing allowed, not sandboxed.
    fn default() -> (c: Self)
        ensures
            constraints_are(c, 0, 0, false, false, false, false),
    {
        SandboxConstraints {
            max_memory_mb: 0,
            max_cpu_time_ms: 0,
            network_allowed: false,
            allowed_network: Vec::new(),
            filesystem_allowed: false,
            allowed_filesystem: Vec::new(),
            execute_allowed: false,
            wasm_sandbox: false,
            js_sandbox: false,
        }
    }
}

/// The answer to a plugin audit.
#[derive(Debug, Clone)]
pub struct PluginAuditResponse {
    /// The request's trace ID.
    pub trace_id: [u8; 16],
    /// Verdict.
    pub decision: PluginAuditDecision,
    /// ID of the audit entry recording it.
    pub audit_entry_id: Option<[u8; 16]>,
    /// Why it is blocked or needs review.
    pub reason: Option<String>,
    /// Limits for the plugin.
    pub sandbox_constraints: SandboxConstraints,
    /// Whether the binary matches the manifest hash.
    pub integrity_verified: bool,
}

/// What the permissions alone call for, with the reason: more memory or
/// CPU time than allowed rejects; execution with network and file system
/// access needs a human.
pub open spec fn permission_verdict(p: PluginPermissions, max_mem: u32, max_cpu: u32)
    -> (PluginAuditDecision, Option<Seq<char>>)
{
    if p.max_memory_mb is Some && p.max_memory_mb.unwrap() > max_mem {
        (PluginAuditDecision::Reject, Some("Excessive memory request: "@ + decimal(p.max_memory_mb.unwrap() as nat)
            + "MB exceeds maximum allowed "@ + decimal(max_mem as nat) + "MB"@))
    } else if p.max_cpu_time_ms is Some && p.max_cpu_time_ms.unwrap() > max_cpu {
        (PluginAuditDecision::Reject, Some("Excessive CPU time request: "@ + decimal(p.max_cpu_time_ms.unwrap() as nat)
            + "ms exceeds maximum allowed "@ + decimal(max_cpu as nat) + "ms"@))
    } else if p.execute && p.network@.len() > 0 && p.filesystem@.len() > 0 {
        (PluginAuditDecision::NeedHumanConfirm,
            Some("Plugin requests execute + network + filesystem access (dangerous combination)"@))
    } else {
        (PluginAuditDecision::Pass, None)
    }
}

/// The verdict on a plugin: a failed integrity check or a rejected
/// permission rejects; otherwise a permission needing a human, or a critical
/// plugin when that calls for review, needs one; else it passes.
pub open spec fn plugin_verdict(integrity: bool, perm: PluginAuditDecision, level: PluginSecurityLevel, hitl_for_critical: bool)
    -> PluginAuditDecision
{
    if !integrity {
        PluginAuditDecision::Reject
    } else if perm == PluginAuditDecision::Reject {
        PluginAuditDecision::Reject
    } else if perm == PluginAuditDecision::NeedHumanConfirm || (level == PluginSecurityLevel::Critical && hitl_for_critical) {
        PluginAuditDecision::NeedHumanConfirm
    } else {
        PluginAuditDecision::Pass
    }
}

/// The reason given with a verdict.
pub open spec fn plugin_reason(integrity: bool, perm: (PluginAuditDecision, Option<Seq<char>>), verdict: PluginAuditDecision)
    -> Option<Seq<char>>
{
    if !integrity {
        Some("Integrity verification failed: manifest hash does not match computed hash"@)
    } else if perm.0 == PluginAuditDecision::Reject {
        perm.1
    } else if verdict == PluginAuditDecision::NeedHumanConfirm {
        match perm.1 {
            Some(r) => Some(r),
            None => Some("Plugin requires human review (Critical security level or unusual permissions)"@),
        }
    } else {
        None
    }
}

/// Whether `c` are the constraints for a plugin: its limits, or 128 MB and
/// 10 s (256 MB and 30 s when critical) where it sets none, clamped to the
/// auditor's maximums; network and file system allowed when it names
/// destinations or paths, which become the allowed ones; commands as it
/// asks; always sandboxed.
pub open spec fn plugin_constraints(c: SandboxConstraints, p: PluginPermissions, level: PluginSecurityLevel, max_mem: u32, max_cpu: u32) -> bool {
    let mem = match p.max_memory_mb {
        Some(m) => m,
        None => if level == PluginSecurityLevel::Critical { 256u32 } else { 128u32 },
    };
    let cpu = match p.max_cpu_time_ms {
        Some(t) => t,
        None => if level == PluginSecurityLevel::Critical { 30000u32 } else { 10000u32 },
    };
    &&& c.max_memory_mb == if mem < max_mem { mem } else { max_mem }
    &&& c.max_cpu_time_ms == if cpu < max_cpu { cpu } else { max_cpu }
    &&& c.network_allowed == (p.network@.len() > 0)
    &&& c.allowed_network@ == p.network@
    &&& c.filesystem_allowed == (p.filesystem@.len() > 0)
    &&& c.allowed_filesystem@ == p.filesystem@
    &&& c.execute_allowed == p.execute
    &&& c.wasm_sandbox
    &&& c.js_sandbox
}

/// The audit source text of a plugin audit: `name:version (integrity=...)`.
pub open spec fn plugin_source_text(name: Seq<char>, version: Seq<char>, integrity: bool) -> Seq<char> {
    name + ":"@ + version + " (integrity="@ + (if integrity { "true"@ } else { "false"@ }) + ")"@
}

fn clone_strings(v: &Vec<String>) -> (r: Vec<String>)
    ensures
        r@ == v@,
{
    let mut r: Vec<String> = Vec::new();
    let mut i: usize = 0;
    while i < v.len()
        invariant
            0 <= i <= v@.len(),
            r@ == v@.subrange(0, i as int),
        decreases v@.len() - i,
    {
        r.push(v[i].clone());
        i = i + 1;
        assert(r@ =~= v@.subrange(0, i as int));
    }
    assert(r@ =~= v@);
    r
}

fn limit_text(prefix: &str, asked: u32, unit_and_middle: &str, max: u32, unit: &str) -> (s: String)
    ensures
        s@ == prefix@ + decimal(asked as nat) + unit_and_middle@ + decimal(max as nat) + unit@,
{
    let mut s = String::from_str(prefix);
    push_decimal(&mut s, asked as u64);
    s.append(unit_and_middle);
    push_decimal(&mut s, max as u64);
    s.append(unit);
    s
}

/// The plugin auditor.
#[derive(Debug)]
pub struct TuckPluginAuditor {
    audit_log: AuditLog,
    source_id: String,
    /// Whether critical plugins need a human review.
    pub require_hitl_for_critical: bool,
    /// Memory limit any plugin may ask for, in MB.
    pub max_allowed_memory_mb: u32,
    /// CPU time limit any plugin may ask for, in ms.
    pub max_allowed_cpu_ms: u32,
}

impl TuckPluginAuditor {
    /// The audit log.
    pub closed spec fn spec_audit(&self) -> AuditLog {
        self.audit_log
    }

    /// Whether critical plugins need a human review.
    pub closed spec fn spec_hitl_for_critical(&self) -> bool {
        self.require_hitl_for_critical
    }

    /// Memory limit any plugin may ask for, in MB.
    pub closed spec fn spec_max_memory(&self) -> u32 {
        self.max_allowed_memory_mb
    }

    /// CPU time limit any plugin may ask for, in ms.
    pub closed spec fn spec_max_cpu(&self) -> u32 {
        self.max_allowed_cpu_ms
    }

    /// An auditor with an empty log that sends critical plugins to review
    /// and allows at most 1024 MB and 60 s.
    pub fn new(source_id: &str) -> (a: TuckPluginAuditor)
        ensures
            a.spec_audit()@.len() == 0,
            a.spec_audit().spec_max_entries() is None,
            a.spec_hitl_for_critical(),
            a.spec_max_memory() == 1024,
            a.spec_max_cpu() == 60000,
    {
        TuckPluginAuditor {
            audit_log: AuditLog::new(),
            source_id: String::from_str(source_id),
            require_hitl_for_critical: true,
            max_allowed_memory_mb: 1024,
            max_allowed_cpu_ms: 60000,
        }
    }

    fn analyze_permissions(&self, perms: &PluginPermissions) -> (r: (PluginAuditDecision, Option<String>))
        ensures
            r.0 == permission_verdict(*perms, self.max_allowed_memory_mb, self.max_allowed_cpu_ms).0,
            opt_str(r.1) == permission_verdict(*perms, self.max_allowed_memory_mb, self.max_allowed_cpu_ms).1,
    {
        if let Some(max_mem) = perms.max_memory_mb {
            if max_mem > self.max_allowed_memory_mb {
                return (
                    PluginAuditDecision::Reject,
                    Some(limit_text("Excessive memory request: ", max_mem, "MB exceeds maximum allowed ",
                        self.max_allowed_memory_mb, "MB")),
                );
            }
        }
        if let Some(max_cpu) = perms.max_cpu_time_ms {
            if max_cpu > self.max_allowed_cpu_ms {
                return (
                    PluginAuditDecision::Reject,
                    Some(limit_text("Excessive CPU time request: ", max_cpu, "ms exceeds maximum allowed ",
                        self.max_allowed_cpu_ms, "ms")),
                );
            }
        }
        if perms.execute && perms.network.len() > 0 && perms.filesystem.len() > 0 {
            return (
                PluginAuditDecision::NeedHumanConfirm,
                Some(String::from_str("Plugin requests execute + network + filesystem access (dangerous combination)")),
            );
        }
        (PluginAuditDecision::Pass, None)
    }

    fn generate_constraints(&self, perms: &PluginPermissions, level: PluginSecurityLevel) -> (c: SandboxConstraints)
        ensures
            plugin_constraints(c, *perms, level, self.max_allowed_memory_mb, self.max_allowed_cpu_ms),
    {
        let critical = level == PluginSecurityLevel::Critical;
        let mem = match perms.max_memory_mb {
            Some(m) => m,
            None => if critical { 256 } else { 128 },
        };
        let cpu = match perms.max_cpu_time_ms {
            Some(t) => t,
            None => if critical { 30000 } else { 10000 },
        };
        SandboxConstraints {
            max_memory_mb: if mem < self.max_allowed_memory_mb { mem } else { self.max_allowed_memory_mb },
            max_cpu_time_ms: if cpu < self.max_allowed_cpu_ms { cpu } else { self.max_allowed_cpu_ms },
            network_allowed: perms.network.len() > 0,
            allowed_network: clone_strings(&perms.network),
            filesystem_allowed: perms.filesystem.len() > 0,
            allowed_filesystem: clone_strings(&perms.filesystem),
            execute_allowed: perms.execute,
            wasm_sandbox: true,
            js_sandbox: true,
        }
    }

    /// Audit a plugin: check its binary against the manifest hash, weigh its
    /// permissions and security level, set its constraints, and log the
    /// verdict.
    pub fn audit_plugin(&mut self, request: &PluginAuditRequest) -> (r: PluginAuditResponse)
        ensures
            ({
                let integrity = request.integrity_hash@ == request.computed_hash@;
                let perm = permission_verdict(request.permissions, old(self).spec_max_memory(), old(self).spec_max_cpu());
                let verdict = plugin_verdict(integrity, perm.0, request.security_level, old(self).spec_hitl_for_critical());
                &&& r.trace_id == request.trace_id
                &&& r.integrity_verified == integrity
                &&& r.decision == verdict
                &&& opt_str(r.reason) == plugin_reason(integrity, perm, verdict)
                &&& plugin_constraints(r.sandbox_constraints, request.permissions, request.security_level,
                    old(self).spec_max_memory(), old(self).spec_max_cpu())
                &&& exists|e: AuditEntry| {
                    &&& e.decision@ == "Pass"@
                    &&& e.risk_level@ == "Low"@
                    &&& e.modality@ == "PluginAudit"@
                    &&& e.override_flag@ == "Normal"@
                    &&& e.source@ == plugin_source_text(request.plugin_name@, request.plugin_version@, integrity)
                    &&& opt_str(e.identity_label) == Some(verdict.spec_name())
                    &&& r.audit_entry_id == Some(e.entry_id)
                    &&& #[trigger] final(self).spec_audit()@ == keep_newest(old(self).spec_audit()@.push(e),
                        old(self).spec_audit().spec_max_entries())
                }
            }),
            final(self).spec_hitl_for_critical() == old(self).spec_hitl_for_critical(),
            final(self).spec_max_memory() == old(self).spec_max_memory(),
            final(self).spec_max_cpu() == old(self).spec_max_cpu(),
            final(self).spec_audit().spec_max_entries() == old(self).spec_audit().spec_max_entries(),
    {
        let integrity_verified = request.integrity_hash == request.computed_hash;
        let (permission_decision, permission_reason) = self.analyze_permissions(&request.permissions);
        let critical_review = request.security_level == PluginSecurityLevel::Critical && self.require_hitl_for_critical;
        let decision = if !integrity_verified {
            PluginAuditDecision::Reject
        } else if permission_decision == PluginAuditDecision::Reject {
            PluginAuditDecision::Reject
        } else if permission_decision == PluginAuditDecision::NeedHumanConfirm || critical_review {
            PluginAuditDecision::NeedHumanConfirm
        } else {
            PluginAuditDecision::Pass
        };
        let sandbox_constraints = self.generate_constraints(&request.permissions, request.security_level);
        let reason = if !integrity_verified {
            Some(String::from_str("Integrity verification failed: manifest hash does not match computed hash"))
        } else if permission_decision == PluginAuditDecision::Reject {
            permission_reason
        } else if decision == PluginAuditDecision::NeedHumanConfirm {
            match permission_reason {
                Some(r) => Some(r),
                None => Some(String::from_str("Plugin requires human review (Critical security level or unusual permissions)")),
            }
        } else {
            None
        };
        let mut source = request.plugin_name.clone();
        source.append(":");
        source.append(request.plugin_version.as_str());
        source.append(" (integrity=");
        source.append(if integrity_verified { "true" } else { "false" });
        source.append(")");
        let e = self.audit_log.append(
            Decision::Pass,
            "Low",
            "PluginAudit",
            "Normal",
            source.as_str(),
            Some(decision.name()),
        );
        PluginAuditResponse {
            trace_id: request.trace_id,
            decision,
            audit_entry_id: Some(e.entry_id),
            reason,
            sandbox_constraints,
            integrity_verified,
        }
    }

    /// The audit log.
    pub fn audit_log(&self) -> (l: &AuditLog)
        ensures
            *l == self.spec_audit(),
    {
        &self.audit_log
    }
}

/// A tool call to decide.
#[derive(Debug)]
pub struct ToolExecutionRequest {
    /// Trace ID (UUID bytes).
    pub trace_id: [u8; 16],
    /// The requesting source.
    pub source_id: String,
    /// Tool name.
    pub tool_name: String,
    /// Tool arguments (JSON).
    pub args: serde_json::Value,
    /// PFP header bytes.
    pub pfp: [u8; 4],
    /// Label of the credential to hand out on a pass.
    pub identity_label: Option<String>,
    /// The plugin's security level.
    pub plugin_security_level: PluginSecurityLevel,
    /// Whether the call uses the network.
    pub involves_network: bool,
    /// Whether the call writes to the file system.
    pub involves_filesystem_write: bool,
    /// Whether the call uses a credential.
    pub involves_credential: bool,
}

/// Verdict on a tool call.
#[derive(Debug, Clone, Copy, PartialEq, Eq, Structural)]
pub enum ToolExecutionDecision {
    /// May run.
    Pass,
    /// Blocked.
    Reject,
    /// Needs a human.
    NeedHumanConfirm,
    /// Emergency pass.
    HardOverridePass,
}

/// The tool verdict for a decision.
pub open spec fn spec_tool_decision(d: Decision) -> ToolExecutionDecision {
    match d {
        Decision::Pass => ToolExecutionDecision::Pass,
        Decision::Reject => ToolExecutionDecision::Reject,
        Decision::NeedHumanConfirm => ToolExecutionDecision::NeedHumanConfirm,
        Decision::HardOverridePass => ToolExecutionDecision::HardOverridePass,
    }
}

impl ToolExecutionDecision {
    /// The tool verdict for a decision.
    pub fn of(d: Decision) -> (t: ToolExecutionDecision)
        ensures
            t == spec_tool_decision(d),
    {
        match d {
            Decision::Pass => ToolExecutionDecision::Pass,
            Decision::Reject => ToolExecutionDecision::Reject,
            Decision::NeedHumanConfirm => ToolExecutionDecision::NeedHumanConfirm,
            Decision::HardOverridePass => ToolExecutionDecision::HardOverridePass,
        }
    }
}

impl From<Decision> for ToolExecutionDecision {
    fn from(d: Decision) -> Self {
        ToolExecutionDecision::of(d)
    }
}

impl vstd::std_specs::convert::FromSpecImpl<Decision> for ToolExecutionDecision {
    open spec fn obeys_from_spec() -> bool {
        true
    }

    open spec fn from_spec(v: Decision) -> Self {
        spec_tool_decision(v)
    }
}

/// The answer to a tool call.
#[derive(Debug, Clone)]
pub struct ToolExecutionResponse {
    /// The request's trace ID.
    pub trace_id: [u8; 16],
    /// Verdict.
    pub decision: ToolExecutionDecision,
    /// Whether a credential was injected (the tool guard hands credentials
    /// out instead).
    pub credential_injected: bool,
    /// The credential handed out, if any.
    pub credential: Option<Vec<u8>>,
    /// ID of the audit entry recording the verdict.
    pub audit_entry_id: Option<[u8; 16]>,
    /// Why the call is blocked or waits.
    pub reason: Option<String>,
    /// The effective risk level's name.
    pub effective_risk_level: String,
    /// Limits for the call.
    pub sandbox_constraints: SandboxConstraints,
}

/// The first step's outcome for a tool call.
#[derive(Debug)]
pub enum ToolStep {
    /// Answered (an invalid PFP header).
    Done(ToolExecutionResponse),
    /// Decided; `lookup` is the label whose credential to resolve.
    Decided {
        /// The decision.
        decision: Decision,
        /// The effective risk level.
        effective_risk: RiskLevel,
        /// The credential label to resolve.
        lookup: Option<IdentityLabel>,
    },
}

/// Whether `c` are a tool call's constraints: 256 MB and 30 s for a
/// critical plugin, with the file system allowed only when the call does
/// not write to it; 128 MB and 10 s otherwise, file system allowed; network
/// as the call uses it; no commands; sandboxed.
pub open spec fn tool_constraints(c: SandboxConstraints, r: ToolExecutionRequest) -> bool {
    if r.plugin_security_level == PluginSecurityLevel::Critical {
        constraints_are(c, 256, 30000, r.involves_network, !r.involves_filesystem_write, false, true)
    } else {
        constraints_are(c, 128, 10000, r.involves_network, true, false, true)
    }
}

/// The reason given for a tool verdict.
pub open spec fn tool_reason(d: Decision) -> Option<Seq<char>> {
    match d {
        Decision::Reject => Some("Security policy rejected this tool execution"@),
        Decision::NeedHumanConfirm => Some("Human confirmation required (HITL gate)"@),
        _ => None,
    }
}

/// The tool execution guard.
#[derive(Debug)]
pub struct TuckToolGate {
    policy: SecurityPolicy,
    audit_log: AuditLog,
    source_id: String,
}

impl TuckToolGate {
    /// The policy.
    pub closed spec fn spec_policy(&self) -> SecurityPolicy {
        self.policy
    }

    /// The audit log.
    pub closed spec fn spec_audit(&self) -> AuditLog {
        self.audit_log
    }

    /// A guard with this policy and an empty audit log.
    pub fn new(policy: SecurityPolicy, source_id: &str) -> (g: TuckToolGate)
        ensures
            g.spec_policy() == policy,
            g.spec_audit()@.len() == 0,
            g.spec_audit().spec_max_entries() is None,
    {
        TuckToolGate { policy, audit_log: AuditLog::new(), source_id: String::from_str(source_id) }
    }

    /// Decide a tool call. An invalid PFP header rejects it at once, under
    /// strict constraints and without an audit entry; otherwise the policy
    /// decides on the header.
    pub fn begin(&mut self, request: &ToolExecutionRequest) -> (step: ToolStep)
        ensures
            *final(self) == *old(self),
            !is_valid_pfp(request.pfp@) ==> {
                &&& step matches ToolStep::Done(resp)
                &&& resp.trace_id == request.trace_id
                &&& resp.decision == ToolExecutionDecision::Reject
                &&& !resp.credential_injected
                &&& resp.credential is None
                &&& resp.audit_entry_id is None
                &&& resp.reason matches Some(m) && m@ == "Invalid PFP: "@ + pfp_error(request.pfp@).spec_text()
                &&& resp.effective_risk_level@ == "Unknown"@
                &&& constraints_are(resp.sandbox_constraints, 64, 5000, false, false, false, true)
            },
            is_valid_pfp(request.pfp@) ==> {
                &&& step matches ToolStep::Decided { decision, effective_risk, lookup }
                &&& decision == spec_decide(request.pfp@, old(self).spec_policy())
                &&& effective_risk == spec_effective_risk(request.pfp@)
                &&& lookup_for(decision, request.identity_label, lookup)
            },
    {
        let pfp = match PfpHeader::from_bytes(request.pfp) {
            Ok(p) => p,
            Err(e) => {
                let mut reason = String::from_str("Invalid PFP: ");
                let t = e.to_string();
                reason.append(t.as_str());
                return ToolStep::Done(ToolExecutionResponse {
                    trace_id: request.trace_id,
                    decision: ToolExecutionDecision::Reject,
                    credential_injected: false,
                    credential: None,
                    audit_entry_id: None,
                    reason: Some(reason),
                    effective_risk_level: String::from_str("Unknown"),
                    sandbox_constraints: SandboxConstraints::strict(),
                });
            },
        };
        let effective_risk = pfp.effective_risk_level();
        let decision = decide(&pfp, &self.policy);
        let lookup = if decision == Decision::Pass || decision == Decision::HardOverridePass {
            match &request.identity_label {
                Some(label_text) => match IdentityLabel::parse(label_text.as_str()) {
                    Ok(label) => Some(label),
                    Err(_) => None,
                },
                None => None,
            }
        } else {
            None
        };
        ToolStep::Decided { decision, effective_risk, lookup }
    }

    /// Finish a decided tool call: `credential` is the outcome of resolving
    /// the label `begin` named. A resolved credential is handed out when the
    /// call may proceed. The verdict is logged with the tool name as source.
    pub fn complete(
        &mut self,
        request: &ToolExecutionRequest,
        decision: Decision,
        effective_risk: RiskLevel,
        credential: Option<Result<Vec<u8>, CredentialError>>,
    ) -> (resp: ToolExecutionResponse)
        ensures
            resp.trace_id == request.trace_id,
            resp.decision == spec_tool_decision(decision),
            !resp.credential_injected,
            match credential {
                Some(Ok(bytes)) if allows(decision) => resp.credential == Some(bytes),
                _ => resp.credential is None,
            },
            match tool_reason(decision) {
                Some(t) => resp.reason matches Some(m) && m@ == t,
                None => resp.reason is None,
            },
            resp.effective_risk_level@ == effective_risk.spec_name(),
            tool_constraints(resp.sandbox_constraints, *request),
            exists|e: AuditEntry| {
                &&& e.decision@ == decision.spec_name()
                &&& e.risk_level@ == effective_risk.spec_name()
                &&& e.modality@ == "Executive"@
                &&& e.override_flag@ == "Normal"@
                &&& e.source@ == request.tool_name@
                &&& e.identity_label is None
                &&& resp.audit_entry_id == Some(e.entry_id)
                &&& #[trigger] final(self).spec_audit()@ == keep_newest(old(self).spec_audit()@.push(e),
                    old(self).spec_audit().spec_max_entries())
            },
            final(self).spec_policy() == old(self).spec_policy(),
            final(self).spec_audit().spec_max_entries() == old(self).spec_audit().spec_max_entries(),
    {
        let allowed = decision == Decision::Pass || decision == Decision::HardOverridePass;
        let handed_out = match credential {
            Some(Ok(bytes)) => if allowed { Some(bytes) } else { None },
            _ => None,
        };
        let sandbox_constraints = if request.plugin_security_level == PluginSecurityLevel::Critical {
            SandboxConstraints {
                max_memory_mb: 256,
                max_cpu_time_ms: 30000,
                network_allowed: request.involves_network,
                allowed_network: Vec::new(),
                filesystem_allowed: !request.involves_filesystem_write,
                allowed_filesystem: Vec::new(),
                execute_allowed: false,
                wasm_sandbox: true,
                js_sandbox: true,
            }
        } else {
            SandboxConstraints {
                max_memory_mb: 128,
                max_cpu_time_ms: 10000,
                network_allowed: request.involves_network,
                allowed_network: Vec::new(),
                filesystem_allowed: true,
                allowed_filesystem: Vec::new(),
                execute_allowed: false,
                wasm_sandbox: true,
                js_sandbox: true,
            }
        };
        let risk_name = effective_risk.name();
        let e = self.audit_log.append(decision, risk_name, "Executive", "Normal", request.tool_name.as_str(), None);
        let reason = match decision {
            Decision::Reject => Some(String::from_str("Security policy rejected this tool execution")),
            Decision::NeedHumanConfirm => Some(String::from_str("Human confirmation required (HITL gate)")),
            _ => None,
        };
        ToolExecutionResponse {
            trace_id: request.trace_id,
            decision: ToolExecutionDecision::of(decision),
            credential_injected: false,
            credential: handed_out,
            audit_entry_id: Some(e.entry_id),
            reason,
            effective_risk_level: String::from_str(risk_name),
            sandbox_constraints,
        }
    }

    /// The audit log.
    pub fn audit_log(&self) -> (l: &AuditLog)
        ensures
            *l == self.spec_audit(),
    {
        &self.audit_log
    }
}

/// A bridge that is never connected, for standalone deployments.
#[derive(Debug, Clone, Copy, Default)]
pub struct NoopTentacleBridge;

} // verus!
