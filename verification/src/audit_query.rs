//! Audit query: filter, sort and paginate audit entries.
//!
//! Filters combine by conjunction; sorting is stable by timestamp;
//! pagination skips `offset` matches and keeps at most `limit`.

use vstd::prelude::*;

use crate::audit::{AuditEntry, AuditLog};
use crate::text::{contains_str, contains_sub};

verus! {

/// Sort order of query results.
#[derive(Debug, Clone, Copy, PartialEq, Eq, Structural)]
pub enum SortOrder {
    /// Oldest first.
    Ascending,
    /// Newest first (the default).
    Descending,
}

impl Default for SortOrder {
    fn default() -> (s: Self)
        ensures
            s == SortOrder::Descending,
    {
        SortOrder::Descending
    }
}

/// Audit query: filters and pagination.
#[derive(Debug, Clone)]
pub struct AuditQuery {
    /// Minimum timestamp (inclusive).
    pub from_timestamp: Option<u64>,
    /// Maximum timestamp (inclusive).
    pub to_timestamp: Option<u64>,
    /// Exact risk level.
    pub risk_level: Option<String>,
    /// Exact decision.
    pub decision: Option<String>,
    /// Exact source.
    pub source: Option<String>,
    /// Substring of the identity label (entries without label never match).
    pub identity_label_contains: Option<String>,
    /// Page offset (0-based).
    pub offset: usize,
    /// Page size.
    pub limit: usize,
    /// Sort order.
    pub sort: SortOrder,
}

/// Whether an optional exact filter admits a value.
pub open spec fn admits_eq(f: Option<String>, v: Seq<char>) -> bool {
    match f {
        Some(x) => x@ == v,
        None => true,
    }
}

/// Whether an entry meets every filter of a query.
pub open spec fn spec_matches(q: AuditQuery, e: AuditEntry) -> bool {
    &&& (q.from_timestamp matches Some(from) ==> e.timestamp >= from)
    &&& (q.to_timestamp matches Some(to) ==> e.timestamp <= to)
    &&& admits_eq(q.risk_level, e.risk_level@)
    &&& admits_eq(q.decision, e.decision@)
    &&& admits_eq(q.source, e.source@)
    &&& match q.identity_label_contains {
        Some(sub) => match e.identity_label {
            Some(label) => contains_sub(label@, sub@),
            None => false,
        },
        None => true,
    }
}

/// The entries of `s` meeting the query, in order.
pub open spec fn filter_matching(s: Seq<AuditEntry>, q: AuditQuery) -> Seq<AuditEntry>
    decreases s.len(),
{
    if s.len() == 0 {
        Seq::empty()
    } else {
        let r = filter_matching(s.drop_last(), q);
        if spec_matches(q, s.last()) { r.push(s.last()) } else { r }
    }
}

/// Where a stable insertion puts an entry with timestamp `ts`: before the
/// first entry that must come after it.
pub open spec fn insert_pos(t: Seq<AuditEntry>, ts: u64, order: SortOrder) -> int
    decreases t.len(),
{
    if t.len() == 0 {
        0
    } else if (match order {
        SortOrder::Ascending => t[0].timestamp > ts,
        SortOrder::Descending => t[0].timestamp < ts,
    }) {
        0
    } else {
        1 + insert_pos(t.drop_first(), ts, order)
    }
}

/// Stable insertion of `e` into `t`.
pub open spec fn insert_stable(t: Seq<AuditEntry>, e: AuditEntry, order: SortOrder) -> Seq<AuditEntry> {
    let k = insert_pos(t, e.timestamp, order);
    t.subrange(0, k).push(e) + t.subrange(k, t.len() as int)
}

/// Stable sort by timestamp in the given order.
pub open spec fn sort_stable(s: Seq<AuditEntry>, order: SortOrder) -> Seq<AuditEntry>
    decreases s.len(),
{
    if s.len() == 0 {
        Seq::empty()
    } else {
        insert_stable(sort_stable(s.drop_last(), order), s.last(), order)
    }
}

/// The page of a sorted sequence: skip `offset`, keep at most `limit`.
pub open spec fn page(s: Seq<AuditEntry>, offset: int, limit: int) -> Seq<AuditEntry> {
    let start = if offset < s.len() { offset } else { s.len() as int };
    let end = if start + limit < s.len() { start + limit } else { s.len() as int };
    s.subrange(start, end)
}

/// Paginated query result.
#[derive(Debug, Clone)]
pub struct QueryResult {
    /// Matching entries of this page.
    pub entries: Vec<AuditEntry>,
    /// Number of matching entries over all pages.
    pub total: usize,
    /// Page offset.
    pub offset: usize,
    /// Page size.
    pub limit: usize,
    /// Whether more pages follow.
    pub has_more: bool,
}

impl QueryResult {
    /// Entries in this page.
    pub fn len(&self) -> (n: usize)
        ensures
            n == self.entries@.len(),
    {
        self.entries.len()
    }

    /// Whether this page is empty.
    pub fn is_empty(&self) -> (b: bool)
        ensures
            b == (self.entries@.len() == 0),
    {
        self.entries.len() == 0
    }
}

fn opt_eq(f: &Option<String>, v: &String) -> (b: bool)
    ensures
        b == admits_eq(*f, v@),
{
    match f {
        Some(x) => *x == *v,
        None => true,
    }
}

impl AuditQuery {
    /// The default query: no filters, offset 0, limit 50, newest first.
    pub open spec fn spec_default() -> AuditQuery {
        AuditQuery {
            from_timestamp: None,
            to_timestamp: None,
            risk_level: None,
            decision: None,
            source: None,
            identity_label_contains: None,
            offset: 0,
            limit: 50,
            sort: SortOrder::Descending,
        }
    }

    /// The default query.
    pub fn new() -> (q: AuditQuery)
        ensures
            q == AuditQuery::spec_default(),
    {
        AuditQuery {
            from_timestamp: None,
            to_timestamp: None,
            risk_level: None,
            decision: None,
            source: None,
            identity_label_contains: None,
            offset: 0,
            limit: 50,
            sort: SortOrder::Descending,
        }
    }

    /// Set the inclusive time range.
    pub fn with_time_range(self, from: u64, to: u64) -> (q: AuditQuery)
        ensures
            q == (AuditQuery { from_timestamp: Some(from), to_timestamp: Some(to), ..self }),
    {
        AuditQuery { from_timestamp: Some(from), to_timestamp: Some(to), ..self }
    }

    /// Set the risk level filter.
    pub fn with_risk_level(self, level: &str) -> (q: AuditQuery)
        ensures
            q.risk_level matches Some(r) && r@ == level@,
            q == (AuditQuery { risk_level: q.risk_level, ..self }),
    {
        AuditQuery { risk_level: Some(String::from_str(level)), ..self }
    }

    /// Set the decision filter.
    pub fn with_decision(self, decision: &str) -> (q: AuditQuery)
        ensures
            q.decision matches Some(r) && r@ == decision@,
            q == (AuditQuery { decision: q.decision, ..self }),
    {
        AuditQuery { decision: Some(String::from_str(decision)), ..self }
    }

    /// Set the source filter.
    pub fn with_source(self, source: &str) -> (q: AuditQuery)
        ensures
            q.source matches Some(r) && r@ == source@,
            q == (AuditQuery { source: q.source, ..self }),
    {
        AuditQuery { source: Some(String::from_str(source)), ..self }
    }

    /// Set the pagination.
    pub fn with_pagination(self, offset: usize, limit: usize) -> (q: AuditQuery)
        ensures
            q == (AuditQuery { offset, limit, ..self }),
    {
        AuditQuery { offset, limit, ..self }
    }

    /// Set the sort order.
    pub fn with_sort(self, sort: SortOrder) -> (q: AuditQuery)
        ensures
            q == (AuditQuery { sort, ..self }),
    {
        AuditQuery { sort, ..self }
    }

    /// Whether an entry meets every filter.
    pub fn matches(&self, entry: &AuditEntry) -> (b: bool)
        ensures
            b == spec_matches(*self, *entry),
    {
        if let Some(from) = self.from_timestamp {
            if entry.timestamp < from {
                return false;
            }
        }
        if let Some(to) = self.to_timestamp {
            if entry.timestamp > to {
                return false;
            }
        }
        if !opt_eq(&self.risk_level, &entry.risk_level) {
            return false;
        }
        if !opt_eq(&self.decision, &entry.decision) {
            return false;
        }
        if !opt_eq(&self.source, &entry.source) {
            return false;
        }
        if let Some(sub) = &self.identity_label_contains {
            match &entry.identity_label {
                Some(label) => {
                    if !contains_str(label.as_str(), sub.as_str()) {
                        return false;
                    }
                },
                None => return false,
            }
        }
        true
    }
}

impl Default for AuditQuery {
    fn default() -> (q: Self)
        ensures
            q == AuditQuery::spec_default(),
    {
        AuditQuery::new()
    }
}

proof fn lemma_insert_pos(t: Seq<AuditEntry>, ts: u64, order: SortOrder, k: int)
    requires
        0 <= k <= t.len(),
        forall|j: int| 0 <= j < k ==> !(match order {
            SortOrder::Ascending => #[trigger] t[j].timestamp > ts,
            SortOrder::Descending => t[j].timestamp < ts,
        }),
        k < t.len() ==> (match order {
            SortOrder::Ascending => t[k].timestamp > ts,
            SortOrder::Descending => t[k].timestamp < ts,
        }),
    ensures
        insert_pos(t, ts, order) == k,
    decreases k,
{
    if k > 0 {
        let t2 = t.drop_first();
        assert forall|j: int| 0 <= j < k - 1 implies !(match order {
            SortOrder::Ascending => #[trigger] t2[j].timestamp > ts,
            SortOrder::Descending => t2[j].timestamp < ts,
        }) by {
            assert(t2[j] == t[j + 1]);
        }
        lemma_insert_pos(t2, ts, order, k - 1);
    }
}

fn comes_after(a: u64, b: u64, order: SortOrder) -> (r: bool)
    ensures
        r == match order {
            SortOrder::Ascending => a > b,
            SortOrder::Descending => a < b,
        },
{
    match order {
        SortOrder::Ascending => a > b,
        SortOrder::Descending => a < b,
    }
}

fn insert_sorted(t: &mut Vec<AuditEntry>, e: AuditEntry, order: SortOrder)
    ensures
        final(t)@ == insert_stable(old(t)@, e, order),
{
    let ghost t0 = t@;
    let ts = e.timestamp;
    let mut k: usize = 0;
    while k < t.len()
        invariant
            t@ == t0,
            0 <= k <= t@.len(),
            forall|j: int| 0 <= j < k ==> !(match order {
                SortOrder::Ascending => #[trigger] t0[j].timestamp > ts,
                SortOrder::Descending => t0[j].timestamp < ts,
            }),
        ensures
            t@ == t0,
            0 <= k <= t@.len(),
            forall|j: int| 0 <= j < k ==> !(match order {
                SortOrder::Ascending => #[trigger] t0[j].timestamp > ts,
                SortOrder::Descending => t0[j].timestamp < ts,
            }),
            k < t@.len() ==> (match order {
                SortOrder::Ascending => t0[k as int].timestamp > ts,
                SortOrder::Descending => t0[k as int].timestamp < ts,
            }),
        decreases t@.len() - k,
    {
        if comes_after(t[k].timestamp, ts, order) {
            break;
        }
        k = k + 1;
    }
    proof {
        lemma_insert_pos(t0, ts, order, k as int);
    }
    t.insert(k, e);
    assert(t@ =~= insert_stable(t0, e, order));
}

/// Pluggable query interface over audit entries.
pub trait Queryable {
    /// The entries queried, oldest first.
    spec fn spec_entries(&self) -> Seq<AuditEntry>;

    /// The page of matching entries, sorted stably by timestamp in the
    /// query's order, with the total number of matches and whether more
    /// pages follow.
    fn query(&self, query: &AuditQuery) -> (r: QueryResult)
        ensures
            r.total == filter_matching(self.spec_entries(), *query).len(),
            r.entries@ == page(
                sort_stable(filter_matching(self.spec_entries(), *query), query.sort),
                query.offset as int,
                query.limit as int,
            ),
            r.offset == query.offset,
            r.limit == query.limit,
            r.has_more == (query.offset + r.entries@.len() < r.total),
    ;

    /// Number of matching entries.
    fn count(&self, query: &AuditQuery) -> (n: usize)
        ensures
            n == filter_matching(self.spec_entries(), *query).len(),
    ;
}

fn filtered(entries: &Vec<AuditEntry>, query: &AuditQuery) -> (out: Vec<AuditEntry>)
    ensures
        out@ == filter_matching(entries@, *query),
{
    let mut out: Vec<AuditEntry> = Vec::new();
    let mut i: usize = 0;
    while i < entries.len()
        invariant
            0 <= i <= entries@.len(),
            out@ == filter_matching(entries@.subrange(0, i as int), *query),
        decreases entries@.len() - i,
    {
        let e = &entries[i];
        assert(entries@.subrange(0, i + 1).drop_last() =~= entries@.subrange(0, i as int));
        if query.matches(e) {
            out.push(e.duplicate());
        }
        i = i + 1;
    }
    assert(entries@.subrange(0, entries@.len() as int) =~= entries@);
    out
}

impl Queryable for AuditLog {
    closed spec fn spec_entries(&self) -> Seq<AuditEntry> {
        self@
    }

    fn query(&self, query: &AuditQuery) -> (r: QueryResult) {
        let matching = filtered(&self.entries(), query);
        let total = matching.len();
        let mut sorted: Vec<AuditEntry> = Vec::new();
        let mut i: usize = 0;
        while i < matching.len()
            invariant
                0 <= i <= matching@.len(),
                sorted@ == sort_stable(matching@.subrange(0, i as int), query.sort),
            decreases matching@.len() - i,
        {
            assert(matching@.subrange(0, i + 1).drop_last() =~= matching@.subrange(0, i as int));
            insert_sorted(&mut sorted, matching[i].duplicate(), query.sort);
            i = i + 1;
        }
        assert(matching@.subrange(0, matching@.len() as int) =~= matching@);
        let n = sorted.len();
        let start = if query.offset < n { query.offset } else { n };
        let room = n - start;
        let end = if query.limit < room { start + query.limit } else { n };
        let mut entries: Vec<AuditEntry> = Vec::new();
        let mut j: usize = start;
        while j < end
            invariant
                start <= j <= end,
                end <= sorted@.len(),
                entries@ == sorted@.subrange(start as int, j as int),
            decreases end - j,
        {
            entries.push(sorted[j].duplicate());
            j = j + 1;
            assert(entries@ =~= sorted@.subrange(start as int, j as int));
        }
        let has_more = if query.offset >= total { false } else { query.offset + entries.len() < total };
        QueryResult { entries, total, offset: query.offset, limit: query.limit, has_more }
    }

    fn count(&self, query: &AuditQuery) -> (n: usize) {
        filtered(&self.entries(), query).len()
    }
}

/// The identity-label filter is a substring test: under a query whose only
/// filter is the label text `sub`, an entry matches exactly when it has a
/// label of the form `x + sub + y`, the text occurring anywhere in it (such
/// as `API_KEY` in `env:API_KEY`), not only at its start.
pub proof fn law_label_filter_is_substring(q: AuditQuery, e: AuditEntry)
    requires
        q.from_timestamp is None,
        q.to_timestamp is None,
        q.risk_level is None,
        q.decision is None,
        q.source is None,
        q.identity_label_contains is Some,
    ensures
        spec_matches(q, e) <==> (e.identity_label is Some && exists|x: Seq<char>, y: Seq<char>|
            #[trigger] (x + q.identity_label_contains.unwrap()@ + y) == e.identity_label.unwrap()@),
{
    let sub = q.identity_label_contains.unwrap()@;
    if e.identity_label is Some {
        let l = e.identity_label.unwrap()@;
        if contains_sub(l, sub) {
            let i = choose|i: int| 0 <= i && i + sub.len() <= l.len() && #[trigger] l.subrange(i, i + sub.len()) == sub;
            let x = l.subrange(0, i);
            let y = l.subrange(i + sub.len(), l.len() as int);
            assert(x + sub + y =~= l);
        }
        if exists|x: Seq<char>, y: Seq<char>| #[trigger] (x + sub + y) == l {
            let (x, y) = choose|x: Seq<char>, y: Seq<char>| #[trigger] (x + sub + y) == l;
            assert(l.subrange(x.len() as int, (x.len() + sub.len()) as int) =~= sub);
        }
    }
}

} // verus!
