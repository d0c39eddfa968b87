//! Error telemetry records: severities, error events, patterns, metric
//! settings and alerts, and the grouping of events by component.

use vstd::prelude::*;
use crate::error::context::ErrorContext;
use crate::error::recovery::duration_from_secs;
use crate::error::types::Error;
use crate::strmap::StrMap;
use crate::text::owned;

verus! {

/// Severities of errors.
#[derive(Debug, Clone, Copy, PartialEq, Eq, Hash, Structural)]
pub enum ErrorSeverity {
    Critical,
    High,
    Medium,
    Low,
    Info,
}

/// The severity of an error by its component: system errors are critical,
/// configuration errors high, data and processing errors medium, output and
/// plugin errors low.
pub open spec fn severity_of(e: Error) -> ErrorSeverity {
    match e {
        Error::System(_) => ErrorSeverity::Critical,
        Error::Config(_) => ErrorSeverity::High,
        Error::Data(_) => ErrorSeverity::Medium,
        Error::Processing(_) => ErrorSeverity::Medium,
        Error::Output(_) => ErrorSeverity::Low,
        Error::Plugin(_) => ErrorSeverity::Low,
    }
}

/// The severity of an error (see `severity_of`).
pub fn classify_error_severity(error: &Error) -> (s: ErrorSeverity)
    ensures
        s == severity_of(*error),
{
    match error {
        Error::System(_) => ErrorSeverity::Critical,
        Error::Config(_) => ErrorSeverity::High,
        Error::Data(_) => ErrorSeverity::Medium,
        Error::Processing(_) => ErrorSeverity::Medium,
        Error::Output(_) => ErrorSeverity::Low,
        Error::Plugin(_) => ErrorSeverity::Low,
    }
}

/// A recurring error pattern.
#[derive(Debug)]
pub struct ErrorPattern {
    pub id: String,
    pub description: String,
    pub count: u64,
    /// First seen, nanoseconds since the Unix epoch.
    pub first_seen: i64,
    /// Last seen, nanoseconds since the Unix epoch.
    pub last_seen: i64,
    pub affected_components: Vec<String>,
    pub resolution_hints: Vec<String>,
}

/// Settings of metric collection.
#[derive(Debug, Clone, Copy)]
pub struct MetricsConfig {
    pub enabled: bool,
    pub aggregation_window: core::time::Duration,
    pub max_patterns: usize,
    pub pattern_threshold: u64,
    pub collect_context: bool,
    pub collect_performance: bool,
    pub retention_period: core::time::Duration,
}

impl Default for MetricsConfig {
    /// Enabled, five-minute windows, 100 patterns, a pattern after 5
    /// occurrences, context and performance collected, kept for 30 days.
    fn default() -> (c: Self)
        ensures
            c.enabled,
            c.max_patterns == 100,
            c.pattern_threshold == 5,
            c.collect_context,
            c.collect_performance,
    {
        MetricsConfig {
            enabled: true,
            aggregation_window: duration_from_secs(5 * 60),
            max_patterns: 100,
            pattern_threshold: 5,
            collect_context: true,
            collect_performance: true,
            retention_period: duration_from_secs(30 * 24 * 60 * 60),
        }
    }
}

/// One recorded error.
#[derive(Debug)]
pub struct ErrorEvent {
    pub id: uuid::Uuid,
    pub error: Error,
    pub context: Option<ErrorContext>,
    pub component: String,
    pub operation: String,
    pub severity: ErrorSeverity,
    /// When, in nanoseconds since the Unix epoch.
    pub timestamp: i64,
    pub resolution_time: Option<core::time::Duration>,
    pub recovered: bool,
}

/// An alert.
#[derive(Debug)]
pub struct Alert {
    pub id: String,
    pub alert_type: AlertType,
    pub severity: AlertSeverity,
    pub message: String,
    /// When it was raised, in nanoseconds since the Unix epoch.
    pub triggered_at: i64,
    pub active: bool,
}

/// Kinds of alerts.
#[derive(Debug, Clone, Copy, PartialEq, Eq, Structural)]
pub enum AlertType {
    ErrorRate,
    CriticalErrors,
    Pattern,
    HealthDegraded,
}

/// Severities of alerts.
#[derive(Debug, Clone, Copy, PartialEq, Eq, Structural)]
pub enum AlertSeverity {
    Critical,
    Warning,
    Info,
}

/// An exporter of metrics to Prometheus.
#[derive(Debug)]
pub struct PrometheusExporter {
    pub endpoint: String,
    pub prefix: String,
}

impl PrometheusExporter {
    /// The exporter's name.
    pub fn name(&self) -> (r: &str)
        ensures
            r@ == "prometheus"@,
    {
        "prometheus"
    }
}

/// The events of a component, in order.
pub open spec fn events_of(events: Seq<ErrorEvent>, component: Seq<char>) -> Seq<ErrorEvent> {
    events.filter(|e: ErrorEvent| e.component@ == component)
}

/// The events grouped by component: one group per component that occurs,
/// holding that component's events in order.
pub fn group_by_component(events: &[ErrorEvent]) -> (r: StrMap<Vec<&ErrorEvent>>)
    ensures
        r@.dom() == events@.map_values(|e: ErrorEvent| e.component@).to_set(),
        forall|k: Seq<char>| #[trigger] r@.contains_key(k) ==> r@[k]@.map_values(|e: &ErrorEvent| *e)
            == events_of(events@, k),
{
    let ghost comps = events@.map_values(|e: ErrorEvent| e.component@);
    let mut groups: StrMap<Vec<&ErrorEvent>> = StrMap::new();
    let mut i: usize = 0;
    while i < events.len()
        invariant
            comps == events@.map_values(|e: ErrorEvent| e.component@),
            i <= events@.len(),
            groups@.dom() == comps.take(i as int).to_set(),
            forall|k: Seq<char>| #[trigger] groups@.contains_key(k) ==> groups@[k]@.map_values(
                |e: &ErrorEvent| *e,
            ) == events_of(events@.take(i as int), k),
        decreases events@.len() - i,
    {
        let e = &events[i];
        let ghost key = e.component@;
        let ghost before = groups@;
        let existing = groups.remove(e.component.as_str());
        let mut group = match existing {
            Some(g) => g,
            None => Vec::new(),
        };
        let ghost old_group = group@;
        group.push(e);
        groups.insert(e.component.clone(), group);
        proof {
            let es = events@.take(i + 1);
            assert(es =~= events@.take(i as int).push(*e));
            assert(comps.take(i + 1) =~= comps.take(i as int).push(key));
            comps.take(i as int).lemma_push_to_set_commute(key);
            assert forall|k: Seq<char>| #[trigger] groups@.contains_key(k) implies groups@[k]@.map_values(
                |x: &ErrorEvent| *x,
            ) == events_of(events@.take(i + 1), k) by {
                let pred = |x: ErrorEvent| x.component@ == k;
                events@.take(i as int).lemma_filter_push(*e, pred);
                if k == key {
                    if before.contains_key(k) {
                        assert(old_group.map_values(|x: &ErrorEvent| *x) == events_of(events@.take(i as int), k));
                    } else {
                        assert(!comps.take(i as int).to_set().contains(k));
                        assert(events_of(events@.take(i as int), k) =~= Seq::<ErrorEvent>::empty()) by {
                            broadcast use vstd::seq_lib::group_filter_ensures;
                            if events_of(events@.take(i as int), k).len() > 0 {
                                let x = events_of(events@.take(i as int), k)[0];
                                assert(events_of(events@.take(i as int), k).contains(x));
                                events@.take(i as int).lemma_filter_contains_rev(pred, x);
                                let j = choose|j: int| 0 <= j < i && events@.take(i as int)[j] == x;
                                assert(comps.take(i as int)[j] == k);
                                assert(comps.take(i as int).contains(k));
                            }
                        }
                        assert(old_group =~= Seq::<&ErrorEvent>::empty());
                    }
                    assert(groups@[k]@.map_values(|x: &ErrorEvent| *x) =~= old_group.map_values(
                        |x: &ErrorEvent| *x,
                    ).push(*e));
                } else {
                    assert(groups@[k] == before[k]);
                }
            }
        }
        i = i + 1;
    }
    proof {
        assert(events@.take(events@.len() as int) =~= events@);
        assert(comps.take(comps.len() as int) =~= comps);
    }
    groups
}

/// Patterns among events: none are found.
pub fn find_patterns(_events: &[ErrorEvent], _threshold: u64) -> (r: Vec<ErrorPattern>)
    ensures
        r@.len() == 0,
{
    Vec::new()
}

} // verus!
