//! Human confirmation: the requests raised when a decision needs a human,
//! and their resolution.
//!
//! A request is pending until it is confirmed, rejected or timed out; it
//! resolves once, moving to the history with its final status. Only a
//! confirmation passes the frame: a rejection or a timeout rejects it.

use vstd::prelude::*;

use crate::audit::bytes_eq;
use crate::digest::{new_uuid_v4, unix_now};
use crate::pfp::Decision;

verus! {

/// Status of a confirmation request.
#[derive(Debug, Clone, Copy, PartialEq, Eq, Structural)]
pub enum ConfirmStatus {
    /// Waiting for a human.
    Pending,
    /// Confirmed by a human.
    Confirmed,
    /// Rejected by a human.
    Rejected,
    /// No answer in time.
    TimedOut,
}

impl ConfirmStatus {
    /// The variant name.
    pub open spec fn spec_name(self) -> Seq<char> {
        match self {
            ConfirmStatus::Pending => "Pending"@,
            ConfirmStatus::Confirmed => "Confirmed"@,
            ConfirmStatus::Rejected => "Rejected"@,
            ConfirmStatus::TimedOut => "TimedOut"@,
        }
    }

    /// The variant name.
    pub fn name(self) -> (s: &'static str)
        ensures
            s@ == self.spec_name(),
    {
        match self {
            ConfirmStatus::Pending => "Pending",
            ConfirmStatus::Confirmed => "Confirmed",
            ConfirmStatus::Rejected => "Rejected",
            ConfirmStatus::TimedOut => "TimedOut",
        }
    }

    /// What a request resolved with this status delivers: a pass only for a
    /// confirmation; anything else rejects (fail-closed).
    pub open spec fn spec_result(self) -> ConfirmResult {
        match self {
            ConfirmStatus::Confirmed => ConfirmResult::Pass,
            _ => ConfirmResult::Reject,
        }
    }

    /// What a request resolved with this status delivers.
    pub fn result(self) -> (r: ConfirmResult)
        ensures
            r == self.spec_result(),
    {
        match self {
            ConfirmStatus::Confirmed => ConfirmResult::Pass,
            _ => ConfirmResult::Reject,
        }
    }
}

/// Result delivered to the waiting frame.
#[derive(Debug, Clone, Copy, PartialEq, Eq, Structural)]
pub enum ConfirmResult {
    /// Confirmed: the frame passes.
    Pass,
    /// Rejected or timed out: the frame is rejected.
    Reject,
}

impl ConfirmResult {
    /// The decision this result amounts to.
    pub open spec fn spec_decision(self) -> Decision {
        match self {
            ConfirmResult::Pass => Decision::Pass,
            ConfirmResult::Reject => Decision::Reject,
        }
    }

    /// The decision this result amounts to.
    pub fn decision(self) -> (d: Decision)
        ensures
            d == self.spec_decision(),
    {
        match self {
            ConfirmResult::Pass => Decision::Pass,
            ConfirmResult::Reject => Decision::Reject,
        }
    }
}

impl From<ConfirmResult> for Decision {
    fn from(value: ConfirmResult) -> Self {
        value.decision()
    }
}

impl vstd::std_specs::convert::FromSpecImpl<ConfirmResult> for Decision {
    open spec fn obeys_from_spec() -> bool {
        true
    }

    open spec fn from_spec(v: ConfirmResult) -> Self {
        v.spec_decision()
    }
}

/// A human confirmation request.
#[derive(Debug, Clone)]
pub struct ConfirmRequest {
    /// Request ID (UUID bytes).
    pub id: [u8; 16],
    /// Risk level shown to the human.
    pub risk_level: String,
    /// Modality shown to the human.
    pub modality: String,
    /// What the frame would do.
    pub description: String,
    /// Creation time (Unix seconds).
    pub created_at: u64,
    /// Timeout in seconds.
    pub timeout_secs: u64,
    /// Current status.
    pub status: ConfirmStatus,
}

impl ConfirmRequest {
    /// A field-by-field copy.
    pub fn duplicate(&self) -> (r: ConfirmRequest)
        ensures
            r == *self,
    {
        ConfirmRequest {
            id: self.id,
            risk_level: self.risk_level.clone(),
            modality: self.modality.clone(),
            description: self.description.clone(),
            created_at: self.created_at,
            timeout_secs: self.timeout_secs,
            status: self.status,
        }
    }
}

/// Whether no two requests share an ID.
pub open spec fn ids_distinct(s: Seq<ConfirmRequest>) -> bool {
    forall|i: int, j: int| 0 <= i < j < s.len() ==> #[trigger] s[i].id@ != #[trigger] s[j].id@
}

/// Whether a request with this ID is among `s`.
pub open spec fn has_id(s: Seq<ConfirmRequest>, id: Seq<u8>) -> bool {
    exists|i: int| 0 <= i < s.len() && #[trigger] s[i].id@ == id
}

/// `s` after a request is recorded: one with the same ID is replaced.
pub open spec fn with_request(s: Seq<ConfirmRequest>, r: ConfirmRequest) -> Seq<ConfirmRequest> {
    if has_id(s, r.id@) {
        s.remove(choose|i: int| 0 <= i < s.len() && #[trigger] s[i].id@ == r.id@).push(r)
    } else {
        s.push(r)
    }
}

fn find_request(s: &Vec<ConfirmRequest>, id: &[u8; 16]) -> (r: Option<usize>)
    ensures
        match r {
            Some(i) => i < s@.len() && s@[i as int].id@ == id@
                && forall|j: int| 0 <= j < i ==> s@[j].id@ != id@,
            None => !has_id(s@, id@),
        },
{
    let mut i: usize = 0;
    while i < s.len()
        invariant
            0 <= i <= s@.len(),
            forall|j: int| 0 <= j < i ==> s@[j].id@ != id@,
        decreases s@.len() - i,
    {
        if bytes_eq(&s[i].id, id) {
            return Some(i);
        }
        i = i + 1;
    }
    None
}

fn copy_requests(s: &Vec<ConfirmRequest>) -> (out: Vec<ConfirmRequest>)
    ensures
        out@ == s@,
{
    let mut out: Vec<ConfirmRequest> = Vec::new();
    let mut i: usize = 0;
    while i < s.len()
        invariant
            0 <= i <= s@.len(),
            out@ == s@.subrange(0, i as int),
        decreases s@.len() - i,
    {
        out.push(s[i].duplicate());
        i = i + 1;
        assert(out@ =~= s@.subrange(0, i as int));
    }
    assert(out@ =~= s@);
    out
}

proof fn lemma_remove_keeps_distinct(s: Seq<ConfirmRequest>, k: int)
    requires
        ids_distinct(s),
        0 <= k < s.len(),
    ensures
        ids_distinct(s.remove(k)),
        !has_id(s.remove(k), s[k].id@),
{
    let t = s.remove(k);
    assert forall|a: int, b: int| 0 <= a < b < t.len() implies #[trigger] t[a].id@ != #[trigger] t[b].id@ by {
        let a0 = if a < k { a } else { a + 1 };
        let b0 = if b < k { b } else { b + 1 };
        assert(t[a] == s[a0] && t[b] == s[b0]);
        assert(s[a0].id@ != s[b0].id@);
    }
    assert forall|j: int| 0 <= j < t.len() implies #[trigger] t[j].id@ != s[k].id@ by {
        let j0 = if j < k { j } else { j + 1 };
        assert(t[j] == s[j0]);
        if j0 < k {
            assert(s[j0].id@ != s[k].id@);
        } else {
            assert(s[k].id@ != s[j0].id@);
        }
    }
}

proof fn lemma_push_keeps_distinct(s: Seq<ConfirmRequest>, r: ConfirmRequest)
    requires
        ids_distinct(s),
        !has_id(s, r.id@),
    ensures
        ids_distinct(s.push(r)),
{
    let t = s.push(r);
    assert forall|a: int, b: int| 0 <= a < b < t.len() implies #[trigger] t[a].id@ != #[trigger] t[b].id@ by {
        if b < s.len() {
            assert(s[a].id@ != s[b].id@);
        } else {
            assert(t[a] == s[a]);
        }
    }
}

/// The bookkeeping of a confirmation guard: the pending requests, whose IDs
/// are distinct, and the resolved ones in the order they resolved.
#[derive(Debug)]
pub struct ConfirmBook {
    pending: Vec<ConfirmRequest>,
    history: Vec<ConfirmRequest>,
}

impl ConfirmBook {
    #[verifier::type_invariant]
    spec fn inv(self) -> bool {
        ids_distinct(self.pending@)
    }

    /// The pending requests.
    pub closed spec fn spec_pending(&self) -> Seq<ConfirmRequest> {
        self.pending@
    }

    /// The resolved requests, oldest first.
    pub closed spec fn spec_history(&self) -> Seq<ConfirmRequest> {
        self.history@
    }

    /// An empty book.
    pub fn new() -> (b: ConfirmBook)
        ensures
            b.spec_pending().len() == 0,
            b.spec_history().len() == 0,
    {
        ConfirmBook { pending: Vec::new(), history: Vec::new() }
    }

    /// Record a pending request; one with the same ID is replaced.
    pub fn insert_pending(&mut self, request: ConfirmRequest)
        ensures
            final(self).spec_pending() == with_request(old(self).spec_pending(), request),
            final(self).spec_history() == old(self).spec_history(),
            ids_distinct(final(self).spec_pending()),
    {
        proof {
            use_type_invariant(&*self);
        }
        let mut pending: Vec<ConfirmRequest> = Vec::new();
        std::mem::swap(&mut pending, &mut self.pending);
        let ghost old_p = pending@;
        match find_request(&pending, &request.id) {
            Some(i) => {
                proof {
                    lemma_remove_keeps_distinct(old_p, i as int);
                    let c = choose|j: int| 0 <= j < old_p.len() && #[trigger] old_p[j].id@ == request.id@;
                    if c != i as int {
                        if c < i as int {
                            assert(old_p[c].id@ != request.id@);
                        } else {
                            assert(old_p[i as int].id@ != old_p[c].id@);
                        }
                    }
                }
                pending.remove(i);
                proof {
                    lemma_push_keeps_distinct(pending@, request);
                }
                pending.push(request);
            },
            None => {
                proof {
                    lemma_push_keeps_distinct(pending@, request);
                }
                pending.push(request);
            },
        }
        self.pending = pending;
    }

    /// Open a request for a human: a fresh ID, the current time, pending.
    /// Returns the request.
    pub fn open_request(&mut self, risk_level: &str, modality: &str, description: &str, timeout_secs: u64)
        -> (r: ConfirmRequest)
        ensures
            r.risk_level@ == risk_level@,
            r.modality@ == modality@,
            r.description@ == description@,
            r.timeout_secs == timeout_secs,
            r.status == ConfirmStatus::Pending,
            final(self).spec_pending() == with_request(old(self).spec_pending(), r),
            final(self).spec_history() == old(self).spec_history(),
    {
        let request = ConfirmRequest {
            id: new_uuid_v4(),
            risk_level: String::from_str(risk_level),
            modality: String::from_str(modality),
            description: String::from_str(description),
            created_at: unix_now(),
            timeout_secs,
            status: ConfirmStatus::Pending,
        };
        let r = request.duplicate();
        self.insert_pending(request);
        r
    }

    /// Resolve the pending request `id` with `status`: it leaves the pending
    /// requests and joins the history with that status. Returns whether it
    /// was pending; otherwise nothing changes.
    pub fn resolve(&mut self, id: &[u8; 16], status: ConfirmStatus) -> (found: bool)
        ensures
            found == has_id(old(self).spec_pending(), id@),
            found ==> exists|k: int| {
                &&& 0 <= k < old(self).spec_pending().len()
                &&& #[trigger] old(self).spec_pending()[k].id@ == id@
                &&& final(self).spec_pending() == old(self).spec_pending().remove(k)
                &&& final(self).spec_history() == old(self).spec_history().push(
                    ConfirmRequest { status, ..old(self).spec_pending()[k] },
                )
            },
            !found ==> final(self).spec_pending() == old(self).spec_pending()
                && final(self).spec_history() == old(self).spec_history(),
            !has_id(final(self).spec_pending(), id@),
    {
        proof {
            use_type_invariant(&*self);
        }
        let mut pending: Vec<ConfirmRequest> = Vec::new();
        std::mem::swap(&mut pending, &mut self.pending);
        let ghost old_p = pending@;
        match find_request(&pending, id) {
            Some(i) => {
                proof {
                    lemma_remove_keeps_distinct(old_p, i as int);
                }
                let mut request = pending.remove(i);
                request.status = status;
                let mut history: Vec<ConfirmRequest> = Vec::new();
                std::mem::swap(&mut history, &mut self.history);
                history.push(request);
                self.history = history;
                self.pending = pending;
                true
            },
            None => {
                self.pending = pending;
                false
            },
        }
    }

    /// The pending request `id`, if any.
    pub fn get_pending(&self, id: &[u8; 16]) -> (r: Option<ConfirmRequest>)
        ensures
            match r {
                Some(q) => q.id@ == id@ && self.spec_pending().contains(q),
                None => !has_id(self.spec_pending(), id@),
            },
    {
        match find_request(&self.pending, id) {
            Some(i) => Some(self.pending[i].duplicate()),
            None => None,
        }
    }

    /// The pending requests.
    pub fn list_pending(&self) -> (v: Vec<ConfirmRequest>)
        ensures
            v@ == self.spec_pending(),
    {
        copy_requests(&self.pending)
    }

    /// The number of pending requests.
    pub fn pending_count(&self) -> (n: usize)
        ensures
            n == self.spec_pending().len(),
    {
        self.pending.len()
    }

    /// The resolved requests, oldest first.
    pub fn history(&self) -> (v: Vec<ConfirmRequest>)
        ensures
            v@ == self.spec_history(),
    {
        copy_requests(&self.history)
    }
}

/// A request resolves once: once resolved it is no longer pending, so
/// resolving it again reports that it was not found.
pub proof fn law_resolves_once(pending: Seq<ConfirmRequest>, k: int)
    requires
        ids_distinct(pending),
        0 <= k < pending.len(),
    ensures
        !has_id(pending.remove(k), pending[k].id@),
{
    lemma_remove_keeps_distinct(pending, k);
}

/// Only a human confirmation passes the frame: a rejection, a timeout or a
/// request still pending rejects it.
pub proof fn law_fail_closed_confirmation(status: ConfirmStatus)
    ensures
        status.spec_result().spec_decision() == Decision::Pass <==> status == ConfirmStatus::Confirmed,
{
}

} // verus!
