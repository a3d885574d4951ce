//! Catastrophic hard overrides: the record of the emergencies raised when a
//! decision is a hard-override pass, and their acknowledgement and
//! resolution.
//!
//! Every triggered event stays in the history; an event is active from its
//! trigger until it is resolved.

use vstd::prelude::*;

use crate::audit::bytes_eq;
use crate::digest::{new_uuid_v4, unix_now};

verus! {

/// Status of a catastrophic event.
#[derive(Debug, Clone, Copy, PartialEq, Eq, Structural)]
pub enum CatastrophicStatus {
    /// Raised, being handled.
    Triggered,
    /// Seen by a human.
    Acknowledged,
    /// Handled.
    Resolved,
}

/// A catastrophic event.
#[derive(Debug, Clone)]
pub struct CatastrophicEvent {
    /// Event ID (UUID bytes).
    pub id: [u8; 16],
    /// Risk level of the frame.
    pub risk_level: String,
    /// Modality of the frame.
    pub modality: String,
    /// Override flag of the frame.
    pub override_flag: String,
    /// Description of the frame or source.
    pub description: String,
    /// Creation time (Unix seconds).
    pub created_at: u64,
    /// Whether humans have been notified.
    pub humans_notified: bool,
    /// Current status.
    pub status: CatastrophicStatus,
}

impl CatastrophicEvent {
    /// A field-by-field copy.
    pub fn duplicate(&self) -> (e: CatastrophicEvent)
        ensures
            e == *self,
    {
        CatastrophicEvent {
            id: self.id,
            risk_level: self.risk_level.clone(),
            modality: self.modality.clone(),
            override_flag: self.override_flag.clone(),
            description: self.description.clone(),
            created_at: self.created_at,
            humans_notified: self.humans_notified,
            status: self.status,
        }
    }
}

/// Whether `i` is the first index of `s` whose event has this ID.
pub open spec fn first_event(s: Seq<CatastrophicEvent>, id: Seq<u8>, i: int) -> bool {
    &&& 0 <= i < s.len()
    &&& s[i].id@ == id
    &&& forall|j: int| 0 <= j < i ==> s[j].id@ != id
}

/// Whether an event with this ID is among `s`.
pub open spec fn has_event(s: Seq<CatastrophicEvent>, id: Seq<u8>) -> bool {
    exists|i: int| 0 <= i < s.len() && #[trigger] s[i].id@ == id
}

/// The events of `s` that are not resolved, in order.
pub open spec fn unresolved(s: Seq<CatastrophicEvent>) -> Seq<CatastrophicEvent>
    decreases s.len(),
{
    if s.len() == 0 {
        Seq::empty()
    } else {
        let r = unresolved(s.drop_last());
        if s.last().status != CatastrophicStatus::Resolved { r.push(s.last()) } else { r }
    }
}

/// The IDs of `s` other than `id`, in order.
pub open spec fn without(s: Seq<[u8; 16]>, id: Seq<u8>) -> Seq<[u8; 16]>
    decreases s.len(),
{
    if s.len() == 0 {
        Seq::empty()
    } else {
        let r = without(s.drop_last(), id);
        if s.last()@ != id { r.push(s.last()) } else { r }
    }
}

/// What changing the status of event `id` does to the history: the first
/// event with that ID takes the status; with none, nothing changes.
pub open spec fn with_status(s: Seq<CatastrophicEvent>, id: Seq<u8>, status: CatastrophicStatus) -> Seq<CatastrophicEvent> {
    if has_event(s, id) {
        let i = choose|i: int| first_event(s, id, i);
        s.update(i, CatastrophicEvent { status, ..s[i] })
    } else {
        s
    }
}

fn find_event(s: &Vec<CatastrophicEvent>, id: &[u8; 16]) -> (r: Option<usize>)
    ensures
        match r {
            Some(i) => first_event(s@, id@, i as int),
            None => !has_event(s@, id@),
        },
{
    let mut i: usize = 0;
    while i < s.len()
        invariant
            0 <= i <= s@.len(),
            forall|j: int| 0 <= j < i ==> s@[j].id@ != id@,
        decreases s@.len() - i,
    {
        if bytes_eq(&s[i].id, id) {
            return Some(i);
        }
        i = i + 1;
    }
    None
}

proof fn lemma_first_unique(s: Seq<CatastrophicEvent>, id: Seq<u8>, i: int, j: int)
    requires
        first_event(s, id, i),
        first_event(s, id, j),
    ensures
        i == j,
{
    if i < j {
        assert(s[i].id@ != id);
    } else if j < i {
        assert(s[j].id@ != id);
    }
}

/// The record of a catastrophic guard: every event raised, oldest first, and
/// the IDs of the active (unresolved) ones.
#[derive(Debug)]
pub struct CatastrophicLog {
    history: Vec<CatastrophicEvent>,
    active: Vec<[u8; 16]>,
}

impl CatastrophicLog {
    /// Every event raised, oldest first.
    pub closed spec fn spec_history(&self) -> Seq<CatastrophicEvent> {
        self.history@
    }

    /// The IDs of the active events.
    pub closed spec fn spec_active(&self) -> Seq<[u8; 16]> {
        self.active@
    }

    /// An empty record.
    pub fn new() -> (l: CatastrophicLog)
        ensures
            l.spec_history().len() == 0,
            l.spec_active().len() == 0,
    {
        CatastrophicLog { history: Vec::new(), active: Vec::new() }
    }

    /// Raise an event: a fresh ID, the current time, humans not yet
    /// notified, triggered. It joins the history and the active events.
    /// Returns the event.
    pub fn trigger(&mut self, risk_level: &str, modality: &str, override_flag: &str, description: &str)
        -> (e: CatastrophicEvent)
        ensures
            e.risk_level@ == risk_level@,
            e.modality@ == modality@,
            e.override_flag@ == override_flag@,
            e.description@ == description@,
            !e.humans_notified,
            e.status == CatastrophicStatus::Triggered,
            final(self).spec_history() == old(self).spec_history().push(e),
            final(self).spec_active() == old(self).spec_active().push(e.id),
    {
        let event = CatastrophicEvent {
            id: new_uuid_v4(),
            risk_level: String::from_str(risk_level),
            modality: String::from_str(modality),
            override_flag: String::from_str(override_flag),
            description: String::from_str(description),
            created_at: unix_now(),
            humans_notified: false,
            status: CatastrophicStatus::Triggered,
        };
        let e = event.duplicate();
        self.active.push(event.id);
        self.history.push(event);
        e
    }

    fn set_status(&mut self, id: &[u8; 16], status: CatastrophicStatus) -> (found: bool)
        ensures
            found == has_event(old(self).spec_history(), id@),
            final(self).spec_history() == with_status(old(self).spec_history(), id@, status),
            final(self).spec_active() == old(self).spec_active(),
    {
        match find_event(&self.history, id) {
            Some(i) => {
                let ghost s = self.history@;
                proof {
                    let c = choose|c: int| first_event(s, id@, c);
                    lemma_first_unique(s, id@, c, i as int);
                }
                let mut e = self.history[i].duplicate();
                e.status = status;
                self.history.set(i, e);
                true
            },
            None => false,
        }
    }

    /// A human has seen event `id`: the first event with that ID becomes
    /// acknowledged. Returns whether there was one.
    pub fn acknowledge(&mut self, id: &[u8; 16]) -> (found: bool)
        ensures
            found == has_event(old(self).spec_history(), id@),
            final(self).spec_history() == with_status(old(self).spec_history(), id@, CatastrophicStatus::Acknowledged),
            final(self).spec_active() == old(self).spec_active(),
    {
        self.set_status(id, CatastrophicStatus::Acknowledged)
    }

    /// Event `id` is handled: the first event with that ID becomes resolved
    /// and the ID leaves the active events. Returns whether there was one;
    /// otherwise nothing changes.
    pub fn resolve(&mut self, id: &[u8; 16]) -> (found: bool)
        ensures
            found == has_event(old(self).spec_history(), id@),
            final(self).spec_history() == with_status(old(self).spec_history(), id@, CatastrophicStatus::Resolved),
            found ==> final(self).spec_active() == without(old(self).spec_active(), id@),
            !found ==> final(self).spec_active() == old(self).spec_active(),
    {
        let found = self.set_status(id, CatastrophicStatus::Resolved);
        if found {
            let mut kept: Vec<[u8; 16]> = Vec::new();
            let mut i: usize = 0;
            while i < self.active.len()
                invariant
                    0 <= i <= self.active@.len(),
                    kept@ == without(self.active@.subrange(0, i as int), id@),
                decreases self.active@.len() - i,
            {
                assert(self.active@.subrange(0, i + 1).drop_last() =~= self.active@.subrange(0, i as int));
                if !bytes_eq(&self.active[i], id) {
                    kept.push(self.active[i]);
                }
                i = i + 1;
            }
            assert(self.active@.subrange(0, self.active@.len() as int) =~= self.active@);
            self.active = kept;
        }
        found
    }

    /// The first event with this ID, if any.
    pub fn get_event(&self, id: &[u8; 16]) -> (r: Option<CatastrophicEvent>)
        ensures
            match r {
                Some(e) => exists|i: int| #[trigger] first_event(self.spec_history(), id@, i) && e == self.spec_history()[i],
                None => !has_event(self.spec_history(), id@),
            },
    {
        match find_event(&self.history, id) {
            Some(i) => {
                let e = self.history[i].duplicate();
                assert(first_event(self.spec_history(), id@, i as int));
                Some(e)
            },
            None => None,
        }
    }

    /// The events not resolved, oldest first.
    pub fn active_events(&self) -> (v: Vec<CatastrophicEvent>)
        ensures
            v@ == unresolved(self.spec_history()),
    {
        let mut out: Vec<CatastrophicEvent> = Vec::new();
        let mut i: usize = 0;
        while i < self.history.len()
            invariant
                0 <= i <= self.history@.len(),
                out@ == unresolved(self.history@.subrange(0, i as int)),
            decreases self.history@.len() - i,
        {
            assert(self.history@.subrange(0, i + 1).drop_last() =~= self.history@.subrange(0, i as int));
            if self.history[i].status != CatastrophicStatus::Resolved {
                out.push(self.history[i].duplicate());
            }
            i = i + 1;
        }
        assert(self.history@.subrange(0, self.history@.len() as int) =~= self.history@);
        out
    }

    /// Every event raised, oldest first.
    pub fn history(&self) -> (v: Vec<CatastrophicEvent>)
        ensures
            v@ == self.spec_history(),
    {
        let mut out: Vec<CatastrophicEvent> = Vec::new();
        let mut i: usize = 0;
        while i < self.history.len()
            invariant
                0 <= i <= self.history@.len(),
                out@ == self.history@.subrange(0, i as int),
            decreases self.history@.len() - i,
        {
            out.push(self.history[i].duplicate());
            i = i + 1;
            assert(out@ =~= self.history@.subrange(0, i as int));
        }
        assert(out@ =~= self.history@);
        out
    }

    /// The number of active events.
    pub fn active_count(&self) -> (n: usize)
        ensures
            n == self.spec_active().len(),
    {
        self.active.len()
    }
}

proof fn lemma_without_absent(s: Seq<[u8; 16]>, id: Seq<u8>)
    ensures
        forall|i: int| 0 <= i < without(s, id).len() ==> #[trigger] without(s, id)[i]@ != id,
    decreases s.len(),
{
    if s.len() > 0 {
        lemma_without_absent(s.drop_last(), id);
        let r = without(s.drop_last(), id);
        assert forall|i: int| 0 <= i < without(s, id).len() implies #[trigger] without(s, id)[i]@ != id by {
            if i < r.len() {
                assert(without(s, id)[i] == r[i]);
            }
        }
    }
}

/// A resolved event is no longer active, and every event, resolved or not,
/// stays in the history.
pub proof fn law_resolve_deactivates(h: Seq<CatastrophicEvent>, active: Seq<[u8; 16]>, id: Seq<u8>)
    requires
        has_event(h, id),
    ensures
        forall|i: int| 0 <= i < without(active, id).len() ==> #[trigger] without(active, id)[i]@ != id,
        with_status(h, id, CatastrophicStatus::Resolved).len() == h.len(),
        has_event(with_status(h, id, CatastrophicStatus::Resolved), id),
{
    lemma_without_absent(active, id);
    let i = choose|i: int| first_event(h, id, i);
    assert(first_event(h, id, i)) by {
        let k = choose|k: int| 0 <= k < h.len() && #[trigger] h[k].id@ == id;
        lemma_first_exists(h, id, k);
    }
    let h2 = with_status(h, id, CatastrophicStatus::Resolved);
    assert(h2[i].id@ == id);
}

proof fn lemma_first_exists(s: Seq<CatastrophicEvent>, id: Seq<u8>, k: int)
    requires
        0 <= k < s.len(),
        s[k].id@ == id,
    ensures
        exists|i: int| first_event(s, id, i),
    decreases k,
{
    if exists|j: int| 0 <= j < k && #[trigger] s[j].id@ == id {
        let j = choose|j: int| 0 <= j < k && #[trigger] s[j].id@ == id;
        lemma_first_exists(s, id, j);
    } else {
        assert(first_event(s, id, k));
    }
}

} // verus!
