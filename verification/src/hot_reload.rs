//! Policy hot reload: the policy in force, the file state it was read from,
//! and the record of every reload attempt.
//!
//! Reading the file and its modification time happens outside this module.
//! A reload first checks whether loading is needed; when it is, the outcome
//! of loading is applied. A failed load leaves the policy in force as it
//! was.

use vstd::prelude::*;

use crate::digest::unix_now;
use crate::pfp::SecurityPolicy;
use crate::policy::{spec_to_policy, PolicyConfig, PolicyConfigError, PolicyVersion};

verus! {

/// Outcome of a reload attempt.
#[derive(Debug, Clone, Copy, PartialEq, Eq, Structural)]
pub enum ReloadStatus {
    /// The file has not changed.
    UpToDate,
    /// The policy was replaced.
    Reloaded,
    /// The reload failed; the policy in force is unchanged.
    Failed,
}

/// Record of a reload attempt.
#[derive(Debug, Clone)]
pub struct ReloadEvent {
    /// Time of the attempt (Unix seconds).
    pub timestamp: u64,
    /// Version in force before.
    pub old_version: PolicyVersion,
    /// Version in force after.
    pub new_version: PolicyVersion,
    /// Outcome.
    pub status: ReloadStatus,
    /// Error message, for a failure.
    pub error: Option<String>,
    /// File modification time seen.
    pub file_modified: Option<u64>,
}

impl ReloadEvent {
    /// A field-by-field copy.
    pub fn duplicate(&self) -> (e: ReloadEvent)
        ensures
            e == *self,
    {
        ReloadEvent {
            timestamp: self.timestamp,
            old_version: self.old_version,
            new_version: self.new_version,
            status: self.status,
            error: match &self.error {
                Some(m) => Some(m.clone()),
                None => None,
            },
            file_modified: self.file_modified,
        }
    }
}

/// The policy in force and its reload record.
#[derive(Debug)]
pub struct PolicyState {
    config: PolicyConfig,
    security: SecurityPolicy,
    last_modified: Option<u64>,
    history: Vec<ReloadEvent>,
}

impl PolicyState {
    #[verifier::type_invariant]
    spec fn inv(self) -> bool {
        self.security == spec_to_policy(self.config.risk_levels, self.config.options)
    }

    /// The configuration in force.
    pub closed spec fn spec_config(&self) -> PolicyConfig {
        self.config
    }

    /// The modification time of the file the configuration was read from.
    pub closed spec fn spec_last_modified(&self) -> Option<u64> {
        self.last_modified
    }

    /// The reload attempts that loaded the file, oldest first.
    pub closed spec fn spec_history(&self) -> Seq<ReloadEvent> {
        self.history@
    }

    /// A state holding `config`, read from a file last modified at
    /// `last_modified` (if known), with no reload yet.
    pub fn new(config: PolicyConfig, last_modified: Option<u64>) -> (s: PolicyState)
        ensures
            s.spec_config() == config,
            s.spec_last_modified() == last_modified,
            s.spec_history().len() == 0,
    {
        let security = config.to_policy();
        PolicyState { config, security, last_modified, history: Vec::new() }
    }

    /// A state holding `config`, not read from a file.
    pub fn from_config(config: PolicyConfig) -> (s: PolicyState)
        ensures
            s.spec_config() == config,
            s.spec_last_modified() is None,
            s.spec_history().len() == 0,
    {
        PolicyState::new(config, None)
    }

    /// The security policy in force: always the conversion of the
    /// configuration in force.
    pub fn current_policy(&self) -> (p: SecurityPolicy)
        ensures
            p == spec_to_policy(self.spec_config().risk_levels, self.spec_config().options),
    {
        proof {
            use_type_invariant(self);
        }
        self.security
    }

    /// The configuration in force.
    pub fn current_config(&self) -> (c: PolicyConfig)
        ensures
            c == self.spec_config(),
    {
        self.config.duplicate()
    }

    /// The version in force.
    pub fn version(&self) -> (v: PolicyVersion)
        ensures
            v == self.spec_config().policy.version,
    {
        self.config.version()
    }

    /// The reload attempts that loaded the file, oldest first.
    pub fn history(&self) -> (v: Vec<ReloadEvent>)
        ensures
            v@ == self.spec_history(),
    {
        let mut out: Vec<ReloadEvent> = Vec::new();
        let mut i: usize = 0;
        while i < self.history.len()
            invariant
                0 <= i <= self.history@.len(),
                out@ == self.history@.subrange(0, i as int),
            decreases self.history@.len() - i,
        {
            out.push(self.history[i].duplicate());
            i = i + 1;
            assert(out@ =~= self.history@.subrange(0, i as int));
        }
        assert(out@ =~= self.history@);
        out
    }

    /// The first step of a reload. Without a policy file path the attempt
    /// fails; when the file's modification time is known and the same as
    /// the one in force, the policy is up to date. Either way the event is
    /// returned (and not recorded). `None`: the file must be loaded, and its
    /// outcome given to `finish_reload`.
    pub fn check_reload(&self, path_is_empty: bool, current_modified: Option<u64>) -> (r: Option<ReloadEvent>)
        ensures
            path_is_empty ==> (r matches Some(e) && e.status == ReloadStatus::Failed
                && e.old_version == self.spec_config().policy.version
                && e.new_version == self.spec_config().policy.version
                && (e.error matches Some(m) && m@ == "No policy file path"@)
                && e.file_modified is None),
            !path_is_empty && current_modified is Some && current_modified == self.spec_last_modified() ==>
                (r matches Some(e) && e.status == ReloadStatus::UpToDate
                && e.old_version == self.spec_config().policy.version
                && e.new_version == self.spec_config().policy.version
                && e.error is None
                && e.file_modified == current_modified),
            !path_is_empty && !(current_modified is Some && current_modified == self.spec_last_modified()) ==> r is None,
    {
        if path_is_empty {
            return Some(ReloadEvent {
                timestamp: unix_now(),
                old_version: self.version(),
                new_version: self.version(),
                status: ReloadStatus::Failed,
                error: Some(String::from_str("No policy file path")),
                file_modified: None,
            });
        }
        if current_modified.is_some() && current_modified == self.last_modified {
            return Some(ReloadEvent {
                timestamp: unix_now(),
                old_version: self.version(),
                new_version: self.version(),
                status: ReloadStatus::UpToDate,
                error: None,
                file_modified: current_modified,
            });
        }
        None
    }

    /// The second step of a reload: apply the outcome of loading the file
    /// (modified at `current_modified`). A loaded policy replaces the one in
    /// force; a failure leaves it as it was. The event is recorded and
    /// returned.
    pub fn finish_reload(&mut self, loaded: Result<PolicyConfig, PolicyConfigError>, current_modified: Option<u64>)
        -> (e: ReloadEvent)
        ensures
            e.old_version == old(self).spec_config().policy.version,
            e.file_modified == current_modified,
            final(self).spec_history() == old(self).spec_history().push(e),
            match loaded {
                Ok(c) => {
                    &&& final(self).spec_config() == c
                    &&& final(self).spec_last_modified() == current_modified
                    &&& e.status == ReloadStatus::Reloaded
                    &&& e.new_version == c.policy.version
                    &&& e.error is None
                },
                Err(err) => {
                    &&& final(self).spec_config() == old(self).spec_config()
                    &&& final(self).spec_last_modified() == old(self).spec_last_modified()
                    &&& e.status == ReloadStatus::Failed
                    &&& e.new_version == old(self).spec_config().policy.version
                    &&& e.error matches Some(m) && m@ == err.spec_text()
                },
            },
    {
        let old_version = self.version();
        let event = match loaded {
            Ok(new_config) => {
                let new_version = new_config.version();
                let security = new_config.to_policy();
                let history = self.take_history();
                *self = PolicyState { config: new_config, security, last_modified: current_modified, history };
                ReloadEvent {
                    timestamp: unix_now(),
                    old_version,
                    new_version,
                    status: ReloadStatus::Reloaded,
                    error: None,
                    file_modified: current_modified,
                }
            },
            Err(err) => ReloadEvent {
                timestamp: unix_now(),
                old_version,
                new_version: old_version,
                status: ReloadStatus::Failed,
                error: Some(err.to_string()),
                file_modified: current_modified,
            },
        };
        let recorded = event.duplicate();
        let mut history = self.take_history();
        history.push(recorded);
        proof {
            use_type_invariant(&*self);
        }
        self.history = history;
        event
    }

    fn take_history(&mut self) -> (h: Vec<ReloadEvent>)
        ensures
            h@ == old(self).spec_history(),
            final(self).spec_history().len() == 0,
            final(self).spec_config() == old(self).spec_config(),
            final(self).spec_last_modified() == old(self).spec_last_modified(),
    {
        proof {
            use_type_invariant(&*self);
        }
        let mut h: Vec<ReloadEvent> = Vec::new();
        std::mem::swap(&mut h, &mut self.history);
        h
    }
}

} // verus!
