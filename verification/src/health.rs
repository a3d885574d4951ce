//! Health check: the state of each component of Tuck, read from the
//! Prometheus text the metrics export.
//!
//! The decision engine is always healthy; the credential store is degraded
//! when more than half of its lookups miss; the audit log is unhealthy after
//! any chain failure; signature verification is degraded when more than a
//! tenth of verifications fail; metrics are degraded when disabled. The
//! service is unhealthy if a component is, else degraded if one is.

use vstd::prelude::*;

use crate::metrics::{elapsed_since, instant_now, whole_secs, Metrics};
use crate::prometheus::{prometheus_text, MetricsSnapshot};
use crate::text::{
    contains_chars, contains_sub, decimal, digit_char, is_digit, parse_u64_chars, push_char, push_decimal,
    spec_parse_u64,
};
use crate::base64::{is_white_space, white_space};

verus! {

/// The state of a component or of the service.
#[derive(Debug, Clone, Copy, PartialEq, Eq, Structural)]
pub enum HealthStatus {
    /// Working.
    Healthy,
    /// Working, with a problem.
    Degraded,
    /// Not working.
    Unhealthy,
}

impl HealthStatus {
    /// The name the health endpoint reports (lower case).
    pub open spec fn spec_name(self) -> Seq<char> {
        match self {
            HealthStatus::Healthy => "healthy"@,
            HealthStatus::Degraded => "degraded"@,
            HealthStatus::Unhealthy => "unhealthy"@,
        }
    }

    /// The name the health endpoint reports (lower case).
    pub fn name(self) -> (s: &'static str)
        ensures
            s@ == self.spec_name(),
    {
        match self {
            HealthStatus::Healthy => "healthy",
            HealthStatus::Degraded => "degraded",
            HealthStatus::Unhealthy => "unhealthy",
        }
    }
}

/// The health of one component.
#[derive(Debug, Clone)]
pub struct ComponentHealth {
    /// The component's name.
    pub name: String,
    /// Its state.
    pub status: HealthStatus,
    /// Details, if any.
    pub message: Option<String>,
}

/// Whether `c` has this name, state and message.
pub open spec fn component_is(c: ComponentHealth, name: Seq<char>, status: HealthStatus, message: Option<Seq<char>>) -> bool {
    &&& c.name@ == name
    &&& c.status == status
    &&& match message {
        Some(m) => c.message matches Some(s) && s@ == m,
        None => c.message is None,
    }
}

// ---------------------------------------------------------------------------
// Reading values out of Prometheus text
// ---------------------------------------------------------------------------

/// `l` without one trailing carriage return.
pub open spec fn strip_cr(l: Seq<char>) -> Seq<char> {
    if l.len() > 0 && l.last() == '\r' { l.drop_last() } else { l }
}

/// The lines of `s[i..]`, after the lines `acc` and the start `cur` of the
/// current line: split at `\n`, a trailing `\r` dropped from each, and no
/// empty last line after a final `\n` (as `str::lines`).
pub open spec fn lines_acc(s: Seq<char>, i: int, cur: Seq<char>, acc: Seq<Seq<char>>) -> Seq<Seq<char>>
    decreases s.len() - i,
{
    if i < 0 || i >= s.len() {
        if cur.len() > 0 { acc.push(strip_cr(cur)) } else { acc }
    } else if s[i] == '\n' {
        lines_acc(s, i + 1, Seq::empty(), acc.push(strip_cr(cur)))
    } else {
        lines_acc(s, i + 1, cur.push(s[i]), acc)
    }
}

/// The lines of a text, as `str::lines` gives them.
pub open spec fn text_lines(s: Seq<char>) -> Seq<Seq<char>> {
    lines_acc(s, 0, Seq::empty(), Seq::empty())
}

/// `s` without its trailing white space.
pub open spec fn trim_end_ws(s: Seq<char>) -> Seq<char>
    decreases s.len(),
{
    if s.len() > 0 && is_white_space(s.last()) { trim_end_ws(s.drop_last()) } else { s }
}

/// The run of non-white-space characters that ends `s`.
pub open spec fn trailing_token(s: Seq<char>) -> Seq<char>
    decreases s.len(),
{
    if s.len() > 0 && !is_white_space(s.last()) {
        trailing_token(s.drop_last()).push(s.last())
    } else {
        Seq::empty()
    }
}

/// The last white-space-separated word of a line, if it has one.
pub open spec fn last_token(s: Seq<char>) -> Option<Seq<char>> {
    let t = trim_end_ws(s);
    if t.len() == 0 { None } else { Some(trailing_token(t)) }
}

/// Whether `s` starts with `p`.
pub open spec fn starts_with(s: Seq<char>, p: Seq<char>) -> bool {
    p.len() <= s.len() && s.subrange(0, p.len() as int) == p
}

/// The value a line gives for a metric and a label value: the line starts
/// with the metric's name, holds `="<label>"`, and its last word is a
/// `u64`.
pub open spec fn line_value(line: Seq<char>, name: Seq<char>, label: Seq<char>) -> Option<u64> {
    if starts_with(line, name) && contains_sub(line, "=\""@ + label + "\""@) {
        match last_token(line) {
            Some(t) => spec_parse_u64(t),
            None => None,
        }
    } else {
        None
    }
}

/// The value of the first line that gives one, or 0.
pub open spec fn first_value(lines: Seq<Seq<char>>, name: Seq<char>, label: Seq<char>) -> u64
    decreases lines.len(),
{
    if lines.len() == 0 {
        0
    } else {
        match line_value(lines[0], name, label) {
            Some(v) => v,
            None => first_value(lines.drop_first(), name, label),
        }
    }
}

/// The value a Prometheus text gives for a counter and a label value.
pub open spec fn metric_value(text: Seq<char>, name: Seq<char>, label: Seq<char>) -> u64 {
    first_value(text_lines(text), name, label)
}

/// The views of a vector of character vectors.
pub open spec fn char_views(v: Seq<Vec<char>>) -> Seq<Seq<char>> {
    v.map_values(|l: Vec<char>| l@)
}

fn strip_cr_vec(cur: Vec<char>) -> (r: Vec<char>)
    ensures
        r@ == strip_cr(cur@),
{
    let mut c = cur;
    if c.len() > 0 && c[c.len() - 1] == '\r' {
        c.pop();
    }
    c
}

/// The lines of a text, as `str::lines` gives them.
pub fn split_lines(s: &str) -> (v: Vec<Vec<char>>)
    ensures
        char_views(v@) == text_lines(s@),
{
    let cs = crate::text::chars_vec(s);
    let mut acc: Vec<Vec<char>> = Vec::new();
    let mut cur: Vec<char> = Vec::new();
    let mut i: usize = 0;
    assert(char_views(acc@) =~= Seq::<Seq<char>>::empty());
    assert(cur@ =~= Seq::<char>::empty());
    while i < cs.len()
        invariant
            cs@ == s@,
            0 <= i <= cs@.len(),
            text_lines(s@) == lines_acc(s@, i as int, cur@, char_views(acc@)),
        decreases cs@.len() - i,
    {
        if cs[i] == '\n' {
            let line = strip_cr_vec(cur);
            let ghost before = char_views(acc@);
            acc.push(line);
            assert(char_views(acc@) =~= before.push(line@));
            cur = Vec::new();
            assert(cur@ =~= Seq::<char>::empty());
        } else {
            cur.push(cs[i]);
        }
        i = i + 1;
    }
    if cur.len() > 0 {
        let line = strip_cr_vec(cur);
        let ghost before = char_views(acc@);
        acc.push(line);
        assert(char_views(acc@) =~= before.push(line@));
    }
    acc
}

fn starts_with_chars(s: &Vec<char>, p: &Vec<char>) -> (b: bool)
    ensures
        b == starts_with(s@, p@),
{
    if p.len() > s.len() {
        return false;
    }
    let mut i: usize = 0;
    while i < p.len()
        invariant
            p@.len() <= s@.len(),
            0 <= i <= p@.len(),
            forall|k: int| 0 <= k < i ==> s@[k] == p@[k],
        decreases p@.len() - i,
    {
        if s[i] != p[i] {
            assert(s@.subrange(0, p@.len() as int)[i as int] != p@[i as int]);
            return false;
        }
        i = i + 1;
    }
    assert(s@.subrange(0, p@.len() as int) =~= p@);
    true
}

/// The last white-space-separated word of a line, if it has one.
fn last_word(l: &Vec<char>) -> (r: Option<Vec<char>>)
    ensures
        match last_token(l@) {
            Some(t) => r matches Some(w) && w@ == t,
            None => r is None,
        },
{
    let mut e: usize = l.len();
    assert(l@.subrange(0, e as int) =~= l@);
    while e > 0 && white_space(l[e - 1])
        invariant
            0 <= e <= l@.len(),
            trim_end_ws(l@) == trim_end_ws(l@.subrange(0, e as int)),
        decreases e,
    {
        assert(l@.subrange(0, e as int).drop_last() =~= l@.subrange(0, e - 1));
        e = e - 1;
    }
    assert(trim_end_ws(l@) == l@.subrange(0, e as int));
    if e == 0 {
        return None;
    }
    let mut b: usize = e;
    while b > 0 && !white_space(l[b - 1])
        invariant
            0 <= b <= e <= l@.len(),
            trailing_token(l@.subrange(0, e as int)) == trailing_token(l@.subrange(0, b as int))
                + l@.subrange(b as int, e as int),
        decreases b,
    {
        assert(l@.subrange(0, b as int).drop_last() =~= l@.subrange(0, b - 1));
        assert(l@.subrange(b - 1, e as int) =~= seq![l@[b - 1]] + l@.subrange(b as int, e as int));
        assert(trailing_token(l@.subrange(0, b as int)) == trailing_token(l@.subrange(0, b - 1)).push(l@[b - 1]));
        assert(trailing_token(l@.subrange(0, b - 1)).push(l@[b - 1]) + l@.subrange(b as int, e as int)
            =~= trailing_token(l@.subrange(0, b - 1)) + l@.subrange(b - 1, e as int));
        b = b - 1;
    }
    assert(trailing_token(l@.subrange(0, b as int)) =~= Seq::<char>::empty());
    let mut w: Vec<char> = Vec::new();
    let mut k: usize = b;
    while k < e
        invariant
            b <= k <= e <= l@.len(),
            w@ == l@.subrange(b as int, k as int),
        decreases e - k,
    {
        w.push(l[k]);
        k = k + 1;
        assert(w@ =~= l@.subrange(b as int, k as int));
    }
    assert(Seq::<char>::empty() + l@.subrange(b as int, e as int) =~= l@.subrange(b as int, e as int));
    Some(w)
}

fn label_needle(label: &str) -> (v: Vec<char>)
    ensures
        v@ == "=\""@ + label@ + "\""@,
{
    let mut v: Vec<char> = Vec::new();
    v.push('=');
    v.push('"');
    let l = crate::text::chars_vec(label);
    let mut i: usize = 0;
    while i < l.len()
        invariant
            0 <= i <= l@.len(),
            v@ == seq!['=', '"'] + l@.subrange(0, i as int),
        decreases l@.len() - i,
    {
        v.push(l[i]);
        i = i + 1;
        assert(v@ =~= seq!['=', '"'] + l@.subrange(0, i as int));
    }
    v.push('"');
    proof {
        reveal_strlit("=\"");
        reveal_strlit("\"");
    }
    assert(v@ =~= "=\""@ + label@ + "\""@);
    v
}

/// The value a Prometheus text gives for a counter and a label value: the
/// last word of the first line that starts with the counter's name, holds
/// `="<label>"` and ends in a `u64`; 0 where no line does.
pub fn extract_metric_value(output: &str, metric_name: &str, label_value: &str) -> (v: u64)
    ensures
        v == metric_value(output@, metric_name@, label_value@),
{
    let lines = split_lines(output);
    let name = crate::text::chars_vec(metric_name);
    let needle = label_needle(label_value);
    let ghost all = char_views(lines@);
    let mut j: usize = 0;
    assert(all.subrange(0, all.len() as int) =~= all);
    while j < lines.len()
        invariant
            0 <= j <= lines@.len(),
            all == char_views(lines@),
            all.len() == lines@.len(),
            name@ == metric_name@,
            needle@ == "=\""@ + label_value@ + "\""@,
            metric_value(output@, metric_name@, label_value@) == first_value(
                all.subrange(j as int, all.len() as int),
                metric_name@,
                label_value@,
            ),
        decreases lines@.len() - j,
    {
        let line = &lines[j];
        let ghost rest = all.subrange(j as int, all.len() as int);
        assert(rest[0] == line@);
        assert(rest.drop_first() =~= all.subrange(j + 1, all.len() as int));
        if starts_with_chars(line, &name) && contains_chars(line, &needle) {
            match last_word(line) {
                Some(w) => match parse_u64_chars(&w) {
                    Some(v) => {
                        return v;
                    },
                    None => {},
                },
                None => {},
            }
        }
        j = j + 1;
    }
    0
}

// ---------------------------------------------------------------------------
// Component rules
// ---------------------------------------------------------------------------

/// A rate `part / total` in tenths of a percent, rounded to the nearest
/// tenth, a tie to the even tenth (as one-decimal formatting of the exact
/// rate rounds).
pub open spec fn rate_tenths(part: nat, total: nat) -> nat {
    let q = (1000 * part) / total;
    let r = (1000 * part) % total;
    if 2 * r > total || (2 * r == total && q % 2 == 1) {
        (q + 1) as nat
    } else {
        q as nat
    }
}

/// A rate in percent with one decimal.
pub open spec fn percent_text(part: nat, total: nat) -> Seq<char> {
    let t = rate_tenths(part, total);
    decimal(t / 10) + seq!['.', digit_char(t % 10)]
}

fn push_percent(s: &mut String, part: u64, total: u128)
    requires
        total > 0,
        part <= total,
        total <= 2 * u64::MAX,
    ensures
        final(s)@ == old(s)@ + percent_text(part as nat, total as nat),
{
    let n: u128 = 1000 * (part as u128);
    let q: u128 = n / total;
    let r: u128 = n % total;
    assert(q <= 1000) by (nonlinear_arith)
        requires
            q == n / total,
            n == 1000 * part,
            part <= total,
            total > 0,
    ;
    assert(r < total) by (nonlinear_arith)
        requires
            r == n % total,
            total > 0,
    ;
    let t: u128 = if 2 * r > total || (2 * r == total && q % 2 == 1) { q + 1 } else { q };
    assert(t == rate_tenths(part as nat, total as nat));
    push_decimal(s, (t / 10) as u64);
    push_char(s, '.');
    push_char(s, crate::text::digit((t % 10) as u64));
    assert(s@ =~= old(s)@ + percent_text(part as nat, total as nat));
}

/// The credential store's health from its lookup counts.
pub open spec fn credential_store_spec(hits: nat, misses: nat) -> (HealthStatus, Option<Seq<char>>) {
    let total = hits + misses;
    if total == 0 {
        (HealthStatus::Healthy, Some("no lookups yet"@))
    } else if 2 * misses > total {
        (HealthStatus::Degraded, Some("high miss rate: "@ + percent_text(misses, total) + "%"@))
    } else {
        (HealthStatus::Healthy, None)
    }
}

/// The audit log's health from its chain-failure count.
pub open spec fn audit_log_spec(failures: nat) -> (HealthStatus, Option<Seq<char>>) {
    if failures > 0 {
        (HealthStatus::Unhealthy, Some(decimal(failures) + " audit chain failures detected"@))
    } else {
        (HealthStatus::Healthy, None)
    }
}

/// Signature verification's health from its counts.
pub open spec fn sap_spec(failed: nat, success: nat) -> (HealthStatus, Option<Seq<char>>) {
    let total = failed + success;
    if total == 0 {
        (HealthStatus::Healthy, Some("no verifications yet"@))
    } else if 10 * failed > total {
        (HealthStatus::Degraded, Some("high failure rate: "@ + percent_text(failed, total) + "%"@))
    } else {
        (HealthStatus::Healthy, None)
    }
}

/// The metrics' health.
pub open spec fn metrics_spec(enabled: bool) -> (HealthStatus, Option<Seq<char>>) {
    if enabled { (HealthStatus::Healthy, None) } else { (HealthStatus::Degraded, Some("metrics disabled"@)) }
}

fn component(name: &str, status: HealthStatus, message: Option<String>) -> (c: ComponentHealth)
    ensures
        c.name@ == name@,
        c.status == status,
        c.message == message,
{
    ComponentHealth { name: String::from_str(name), status, message }
}

/// The credential store's health: degraded when more than half of its
/// lookups miss.
pub fn credential_store_health(hits: u64, misses: u64) -> (c: ComponentHealth)
    ensures
        component_is(c, "credential_store"@, credential_store_spec(hits as nat, misses as nat).0,
            credential_store_spec(hits as nat, misses as nat).1),
{
    let total: u128 = hits as u128 + misses as u128;
    if total == 0 {
        return component("credential_store", HealthStatus::Healthy, Some(String::from_str("no lookups yet")));
    }
    if 2 * (misses as u128) > total {
        let mut m = String::from_str("high miss rate: ");
        push_percent(&mut m, misses, total);
        m.append("%");
        component("credential_store", HealthStatus::Degraded, Some(m))
    } else {
        component("credential_store", HealthStatus::Healthy, None)
    }
}

/// The audit log's health: unhealthy after any chain failure.
pub fn audit_log_health(failures: u64) -> (c: ComponentHealth)
    ensures
        component_is(c, "audit_log"@, audit_log_spec(failures as nat).0, audit_log_spec(failures as nat).1),
{
    if failures > 0 {
        let mut m = String::new();
        push_decimal(&mut m, failures);
        m.append(" audit chain failures detected");
        component("audit_log", HealthStatus::Unhealthy, Some(m))
    } else {
        component("audit_log", HealthStatus::Healthy, None)
    }
}

/// Signature verification's health: degraded when more than a tenth of
/// verifications fail.
pub fn sap_health(failed: u64, success: u64) -> (c: ComponentHealth)
    ensures
        component_is(c, "sap_verification"@, sap_spec(failed as nat, success as nat).0,
            sap_spec(failed as nat, success as nat).1),
{
    let total: u128 = failed as u128 + success as u128;
    if total == 0 {
        return component("sap_verification", HealthStatus::Healthy, Some(String::from_str("no verifications yet")));
    }
    if 10 * (failed as u128) > total {
        let mut m = String::from_str("high failure rate: ");
        push_percent(&mut m, failed, total);
        m.append("%");
        component("sap_verification", HealthStatus::Degraded, Some(m))
    } else {
        component("sap_verification", HealthStatus::Healthy, None)
    }
}

/// The metrics' health: degraded when disabled.
pub fn metrics_health(enabled: bool) -> (c: ComponentHealth)
    ensures
        component_is(c, "metrics"@, metrics_spec(enabled).0, metrics_spec(enabled).1),
{
    if enabled {
        component("metrics", HealthStatus::Healthy, None)
    } else {
        component("metrics", HealthStatus::Degraded, Some(String::from_str("metrics disabled")))
    }
}

/// Whether `cs` are the components a Prometheus text and the metrics
/// switch give, in order: decision engine, credential store, audit log,
/// signature verification, metrics.
pub open spec fn components_of(text: Seq<char>, metrics_enabled: bool, cs: Seq<ComponentHealth>) -> bool {
    let hits = metric_value(text, "tuck_credential_lookups_total"@, "hit"@) as nat;
    let misses = metric_value(text, "tuck_credential_lookups_total"@, "miss"@) as nat;
    let failures = metric_value(text, "tuck_audit_chain_verifications_total"@, "failure"@) as nat;
    let failed = metric_value(text, "tuck_sap_verifications_total"@, "failed"@) as nat;
    let success = metric_value(text, "tuck_sap_verifications_total"@, "success"@) as nat;
    &&& cs.len() == 5
    &&& component_is(cs[0], "decision_engine"@, HealthStatus::Healthy, None)
    &&& component_is(cs[1], "credential_store"@, credential_store_spec(hits, misses).0,
        credential_store_spec(hits, misses).1)
    &&& component_is(cs[2], "audit_log"@, audit_log_spec(failures).0, audit_log_spec(failures).1)
    &&& component_is(cs[3], "sap_verification"@, sap_spec(failed, success).0, sap_spec(failed, success).1)
    &&& component_is(cs[4], "metrics"@, metrics_spec(metrics_enabled).0, metrics_spec(metrics_enabled).1)
}

/// The components' health from a Prometheus text and the metrics switch.
pub fn components_from_text(text: &str, metrics_enabled: bool) -> (cs: Vec<ComponentHealth>)
    ensures
        components_of(text@, metrics_enabled, cs@),
{
    let mut cs: Vec<ComponentHealth> = Vec::new();
    cs.push(component("decision_engine", HealthStatus::Healthy, None));
    let misses = extract_metric_value(text, "tuck_credential_lookups_total", "miss");
    let hits = extract_metric_value(text, "tuck_credential_lookups_total", "hit");
    cs.push(credential_store_health(hits, misses));
    let failures = extract_metric_value(text, "tuck_audit_chain_verifications_total", "failure");
    cs.push(audit_log_health(failures));
    let failed = extract_metric_value(text, "tuck_sap_verifications_total", "failed");
    let success = extract_metric_value(text, "tuck_sap_verifications_total", "success");
    cs.push(sap_health(failed, success));
    cs.push(metrics_health(metrics_enabled));
    cs
}

/// The service's state from its components'.
pub open spec fn overall_spec(cs: Seq<ComponentHealth>) -> HealthStatus {
    if exists|i: int| 0 <= i < cs.len() && #[trigger] cs[i].status == HealthStatus::Unhealthy {
        HealthStatus::Unhealthy
    } else if exists|i: int| 0 <= i < cs.len() && #[trigger] cs[i].status == HealthStatus::Degraded {
        HealthStatus::Degraded
    } else {
        HealthStatus::Healthy
    }
}

/// The service's state: unhealthy if a component is, else degraded if one
/// is, else healthy.
pub fn overall_status(cs: &Vec<ComponentHealth>) -> (s: HealthStatus)
    ensures
        s == overall_spec(cs@),
{
    let mut unhealthy = false;
    let mut degraded = false;
    let mut i: usize = 0;
    while i < cs.len()
        invariant
            0 <= i <= cs@.len(),
            unhealthy == exists|k: int| 0 <= k < i && #[trigger] cs@[k].status == HealthStatus::Unhealthy,
            degraded == exists|k: int| 0 <= k < i && #[trigger] cs@[k].status == HealthStatus::Degraded,
        decreases cs@.len() - i,
    {
        if cs[i].status == HealthStatus::Unhealthy {
            unhealthy = true;
        }
        if cs[i].status == HealthStatus::Degraded {
            degraded = true;
        }
        i = i + 1;
    }
    if unhealthy {
        HealthStatus::Unhealthy
    } else if degraded {
        HealthStatus::Degraded
    } else {
        HealthStatus::Healthy
    }
}

/// The health checker of a running guard.
pub struct HealthChecker {
    start_time: std::time::Instant,
    metrics: Metrics,
    service_name: String,
    version: String,
}

impl HealthChecker {
    /// The service's name.
    pub closed spec fn spec_service_name(&self) -> Seq<char> {
        self.service_name@
    }

    /// The service's version.
    pub closed spec fn spec_version(&self) -> Seq<char> {
        self.version@
    }

    /// Whether the metrics it reads are enabled.
    pub closed spec fn spec_metrics_enabled(&self) -> bool {
        self.metrics.spec_enabled()
    }

    /// A checker over these metrics, started now.
    pub fn new(metrics: Metrics, service_name: &str, version: &str) -> (h: HealthChecker)
        ensures
            h.spec_service_name() == service_name@,
            h.spec_version() == version@,
            h.spec_metrics_enabled() == metrics.spec_enabled(),
    {
        HealthChecker {
            start_time: instant_now(),
            metrics,
            service_name: String::from_str(service_name),
            version: String::from_str(version),
        }
    }

    /// The service's name.
    pub fn service_name(&self) -> (s: &str)
        ensures
            s@ == self.spec_service_name(),
    {
        self.service_name.as_str()
    }

    /// The service's version.
    pub fn version(&self) -> (s: &str)
        ensures
            s@ == self.spec_version(),
    {
        self.version.as_str()
    }

    /// The metrics it reads.
    pub fn metrics(&self) -> (m: &Metrics)
        ensures
            m.spec_enabled() == self.spec_metrics_enabled(),
    {
        &self.metrics
    }

    /// Whole seconds since the checker started. Nothing is stated of the
    /// value: it depends on the clock.
    pub fn uptime_seconds(&self) -> u64 {
        let d = elapsed_since(&self.start_time);
        whole_secs(&d)
    }

    /// The components' health, read from a fresh export of the metrics.
    pub fn collect_components(&self) -> (cs: Vec<ComponentHealth>)
        ensures
            exists|m: MetricsSnapshot| components_of(prometheus_text(m), self.spec_metrics_enabled(), cs@),
    {
        let text = self.metrics.export_prometheus();
        let cs = components_from_text(text.as_str(), self.metrics.is_enabled());
        cs
    }
}

} // verus!
