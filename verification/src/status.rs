//! Status read-out for operators: aggregate decision and risk counts from
//! the runtime metrics, and the most recent decisions from the audit chain,
//! newest first. Nothing here changes the log or the metrics.

use vstd::prelude::*;

use crate::audit::{AuditEntry, AuditLog};
use crate::metrics::{DecisionCounts, Metrics, RiskCounts};

verus! {

/// One decision as the status view shows it.
#[derive(Debug, Clone, PartialEq, Eq)]
pub struct DecisionEvent {
    /// Unix time, in seconds.
    pub timestamp: u64,
    /// The decision's name.
    pub decision: String,
    /// The risk level's name.
    pub risk_level: String,
    /// The modality's name.
    pub modality: String,
    /// Who asked.
    pub source: String,
}

/// Aggregate counts and the latest decision.
#[derive(Debug, Clone, PartialEq, Eq)]
pub struct DecisionSummary {
    /// Decisions by kind.
    pub decisions: DecisionCounts,
    /// Observations by risk level.
    pub risks: RiskCounts,
    /// The newest decision in the audit chain.
    pub latest_decision: Option<String>,
}

/// A source of status information.
pub trait StatusProvider {
    /// Aggregate counts and the latest decision.
    fn summary(&self) -> DecisionSummary;

    /// Up to `limit` of the newest decisions, newest first.
    fn recent_decisions(&self, limit: usize) -> Vec<DecisionEvent>;
}

/// Whether `ev` shows audit entry `e`.
pub open spec fn shows(ev: DecisionEvent, e: AuditEntry) -> bool {
    &&& ev.timestamp == e.timestamp
    &&& ev.decision@ == e.decision@
    &&& ev.risk_level@ == e.risk_level@
    &&& ev.modality@ == e.modality@
    &&& ev.source@ == e.source@
}

/// Status over an audit log and a metrics registry.
pub struct AuditStatusProvider<'a> {
    log: &'a AuditLog,
    metrics: &'a Metrics,
}

impl<'a> AuditStatusProvider<'a> {
    /// The entries of the log read.
    pub closed spec fn spec_log(&self) -> Seq<AuditEntry> {
        self.log@
    }

    /// Status over this log and these metrics.
    pub fn new(log: &'a AuditLog, metrics: &'a Metrics) -> (p: AuditStatusProvider<'a>)
        ensures
            p.spec_log() == log@,
    {
        AuditStatusProvider { log, metrics }
    }
}

fn event_of(e: &AuditEntry) -> (ev: DecisionEvent)
    ensures
        shows(ev, *e),
{
    DecisionEvent {
        timestamp: e.timestamp,
        decision: e.decision.clone(),
        risk_level: e.risk_level.clone(),
        modality: e.modality.clone(),
        source: e.source.clone(),
    }
}

impl<'a> StatusProvider for AuditStatusProvider<'a> {
    /// The metrics' decision and risk counters (what the counters hold is
    /// not tracked: they are shared atomics) and the decision of the newest
    /// audit entry.
    fn summary(&self) -> (s: DecisionSummary)
        ensures
            match s.latest_decision {
                Some(d) => self.spec_log().len() > 0 && d@ == self.spec_log().last().decision@,
                None => self.spec_log().len() == 0,
            },
    {
        let decisions = self.metrics.decision_counts();
        let risks = self.metrics.risk_counts();
        let latest_decision = match self.log.latest() {
            Some(e) => Some(e.decision.clone()),
            None => None,
        };
        DecisionSummary { decisions, risks, latest_decision }
    }

    /// The newest `limit` entries of the log (all of them if it holds
    /// fewer), newest first.
    fn recent_decisions(&self, limit: usize) -> (v: Vec<DecisionEvent>)
        ensures
            v@.len() == if limit < self.spec_log().len() { limit as nat } else { self.spec_log().len() },
            forall|k: int| 0 <= k < v@.len() ==> #[trigger] shows(v@[k], self.spec_log()[self.spec_log().len() - 1 - k]),
    {
        let mut out: Vec<DecisionEvent> = Vec::new();
        let n = self.log.len();
        let mut k: usize = 0;
        while k < n && k < limit
            invariant
                n == self.log@.len(),
                0 <= k <= n,
                k <= limit,
                out@.len() == k,
                forall|j: int| 0 <= j < k ==> #[trigger] shows(out@[j], self.log@[n - 1 - j]),
            decreases n - k,
        {
            match self.log.get(n - 1 - k) {
                Some(e) => {
                    out.push(event_of(e));
                },
                None => {
                    assert(false);
                },
            }
            k = k + 1;
        }
        out
    }
}

} // verus!
