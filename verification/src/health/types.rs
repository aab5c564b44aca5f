//! Health check results and per-service health tracking.

use vstd::prelude::*;

use crate::clock::now_millis;
use crate::policy::model::opt_text;
use crate::text::{decimal, owned, push_decimal};

verus! {

/// Health status of a service.
#[derive(Debug, Clone, Copy, PartialEq, Eq, Structural)]
pub enum HealthStatus {
    /// Service is healthy and responding correctly.
    Healthy,
    /// Service is unhealthy or not responding.
    Unhealthy,
    /// Health status is unknown (checks haven't run yet).
    Unknown,
    /// Service is starting up, health checks not yet applicable.
    Starting,
}

impl Default for HealthStatus {
    fn default() -> (r: Self)
        ensures
            r == HealthStatus::Unknown,
    {
        HealthStatus::Unknown
    }
}

/// The display name of a status.
pub open spec fn status_name(s: HealthStatus) -> Seq<char> {
    match s {
        HealthStatus::Healthy => "healthy"@,
        HealthStatus::Unhealthy => "unhealthy"@,
        HealthStatus::Unknown => "unknown"@,
        HealthStatus::Starting => "starting"@,
    }
}

impl HealthStatus {
    /// The status's display name, in lower case.
    pub fn to_string(&self) -> (r: String)
        ensures
            r@ == status_name(*self),
    {
        match self {
            HealthStatus::Healthy => owned("healthy"),
            HealthStatus::Unhealthy => owned("unhealthy"),
            HealthStatus::Unknown => owned("unknown"),
            HealthStatus::Starting => owned("starting"),
        }
    }
}

/// Result of a single health check.
#[derive(Debug)]
pub struct HealthCheckResult {
    /// When the check was performed, in milliseconds since the Unix epoch.
    pub timestamp: i64,
    /// The health status determined by the check.
    pub status: HealthStatus,
    /// Response time in milliseconds, if the check completed.
    pub response_time_ms: Option<u64>,
    /// Error message if the check failed.
    pub error: Option<String>,
    /// HTTP status code (for HTTP checks).
    pub http_status: Option<u16>,
}

/// Abstract value of a [`HealthCheckResult`].
pub struct CheckResultView {
    pub timestamp: i64,
    pub status: HealthStatus,
    pub response_time_ms: Option<u64>,
    pub error: Option<Seq<char>>,
    pub http_status: Option<u16>,
}

impl View for HealthCheckResult {
    type V = CheckResultView;

    open spec fn view(&self) -> CheckResultView {
        CheckResultView {
            timestamp: self.timestamp,
            status: self.status,
            response_time_ms: self.response_time_ms,
            error: opt_text(self.error),
            http_status: self.http_status,
        }
    }
}

/// The error text of a result whose HTTP status was unexpected.
pub open spec fn unexpected_status_text(code: u16) -> Seq<char> {
    "Unexpected HTTP status: "@ + decimal(code as nat)
}

impl HealthCheckResult {
    /// A healthy result taken now.
    pub fn healthy(response_time_ms: u64) -> (r: Self)
        ensures
            r.status == HealthStatus::Healthy,
            r.response_time_ms == Some(response_time_ms),
            r.error is None,
            r.http_status is None,
    {
        HealthCheckResult {
            timestamp: now_millis(),
            status: HealthStatus::Healthy,
            response_time_ms: Some(response_time_ms),
            error: None,
            http_status: None,
        }
    }

    /// A healthy HTTP result with its status code, taken now.
    pub fn healthy_http(response_time_ms: u64, status_code: u16) -> (r: Self)
        ensures
            r.status == HealthStatus::Healthy,
            r.response_time_ms == Some(response_time_ms),
            r.error is None,
            r.http_status == Some(status_code),
    {
        HealthCheckResult {
            timestamp: now_millis(),
            status: HealthStatus::Healthy,
            response_time_ms: Some(response_time_ms),
            error: None,
            http_status: Some(status_code),
        }
    }

    /// An unhealthy result with an error message, taken now.
    pub fn unhealthy(error: String) -> (r: Self)
        ensures
            r.status == HealthStatus::Unhealthy,
            r.response_time_ms is None,
            r.error == Some(error),
            r.http_status is None,
    {
        HealthCheckResult {
            timestamp: now_millis(),
            status: HealthStatus::Unhealthy,
            response_time_ms: None,
            error: Some(error),
            http_status: None,
        }
    }

    /// An unhealthy HTTP result for an unexpected status code, taken now.
    pub fn unhealthy_http(status_code: u16, response_time_ms: u64) -> (r: Self)
        ensures
            r.status == HealthStatus::Unhealthy,
            r.response_time_ms == Some(response_time_ms),
            r@.error == Some(unexpected_status_text(status_code)),
            r.http_status == Some(status_code),
    {
        let mut error = owned("Unexpected HTTP status: ");
        push_decimal(&mut error, status_code as u64);
        HealthCheckResult {
            timestamp: now_millis(),
            status: HealthStatus::Unhealthy,
            response_time_ms: Some(response_time_ms),
            error: Some(error),
            http_status: Some(status_code),
        }
    }

    /// A copy of the result.
    pub fn duplicate(&self) -> (r: Self)
        ensures
            r@ == self@,
    {
        HealthCheckResult {
            timestamp: self.timestamp,
            status: self.status,
            response_time_ms: self.response_time_ms,
            error: match &self.error {
                Some(e) => Some(e.clone()),
                None => None,
            },
            http_status: self.http_status,
        }
    }
}

/// The abstract values of a list of results.
pub open spec fn result_views(s: Seq<HealthCheckResult>) -> Seq<CheckResultView> {
    s.map_values(|r: HealthCheckResult| r@)
}

/// Health state of a service, with a limited history of check results.
#[derive(Debug)]
pub struct ServiceHealth {
    /// Service ID.
    pub service_id: String,
    /// Current health status.
    pub status: HealthStatus,
    /// Consecutive failures count.
    pub consecutive_failures: u32,
    /// Time of the last successful check, in milliseconds since the Unix epoch.
    pub last_healthy: Option<i64>,
    /// Recent check results, oldest first.
    pub history: Vec<HealthCheckResult>,
}

/// Abstract value of a [`ServiceHealth`].
pub struct ServiceHealthView {
    pub service_id: Seq<char>,
    pub status: HealthStatus,
    pub consecutive_failures: u32,
    pub last_healthy: Option<i64>,
    pub history: Seq<CheckResultView>,
}

impl View for ServiceHealth {
    type V = ServiceHealthView;

    open spec fn view(&self) -> ServiceHealthView {
        ServiceHealthView {
            service_id: self.service_id@,
            status: self.status,
            consecutive_failures: self.consecutive_failures,
            last_healthy: self.last_healthy,
            history: result_views(self.history@),
        }
    }
}

/// The history after recording `r`: appended, with the oldest entry
/// dropped when the history grows beyond `max`.
pub open spec fn history_after(h: Seq<CheckResultView>, r: CheckResultView, max: nat) -> Seq<CheckResultView> {
    if h.len() + 1 > max { h.push(r).drop_first() } else { h.push(r) }
}

/// The health state after recording the result `r`: a healthy result sets
/// the status, clears the failure count and stamps the last healthy time;
/// an unhealthy one sets the status and counts a failure; any other status
/// leaves them. The result always joins the history.
pub open spec fn health_after(h: ServiceHealthView, r: CheckResultView, max: nat) -> ServiceHealthView {
    ServiceHealthView {
        service_id: h.service_id,
        status: match r.status {
            HealthStatus::Healthy => HealthStatus::Healthy,
            HealthStatus::Unhealthy => HealthStatus::Unhealthy,
            _ => h.status,
        },
        consecutive_failures: match r.status {
            HealthStatus::Healthy => 0,
            HealthStatus::Unhealthy => (h.consecutive_failures + 1) as u32,
            _ => h.consecutive_failures,
        },
        last_healthy: match r.status {
            HealthStatus::Healthy => Some(r.timestamp),
            _ => h.last_healthy,
        },
        history: history_after(h.history, r, max),
    }
}

/// A result can be recorded without the failure count overflowing.
pub open spec fn can_record(h: ServiceHealthView, r: CheckResultView) -> bool {
    r.status == HealthStatus::Unhealthy ==> h.consecutive_failures < u32::MAX
}

impl ServiceHealth {
    /// A fresh tracker: status unknown, no failures, no history.
    pub fn new(service_id: String) -> (r: Self)
        ensures
            r@ == (ServiceHealthView {
                service_id: service_id@,
                status: HealthStatus::Unknown,
                consecutive_failures: 0,
                last_healthy: None,
                history: Seq::empty(),
            }),
    {
        let r = ServiceHealth {
            service_id,
            status: HealthStatus::Unknown,
            consecutive_failures: 0,
            last_healthy: None,
            history: Vec::new(),
        };
        assert(r@.history =~= Seq::<CheckResultView>::empty());
        r
    }

    /// Records a health check result, keeping at most `max_history` results.
    pub fn record(&mut self, result: HealthCheckResult, max_history: usize)
        requires
            can_record(old(self)@, result@),
        ensures
            final(self)@ == health_after(old(self)@, result@, max_history as nat),
    {
        match result.status {
            HealthStatus::Healthy => {
                self.status = HealthStatus::Healthy;
                self.consecutive_failures = 0;
                self.last_healthy = Some(result.timestamp);
            },
            HealthStatus::Unhealthy => {
                self.consecutive_failures = self.consecutive_failures + 1;
                self.status = HealthStatus::Unhealthy;
            },
            _ => {},
        }
        let ghost h0 = result_views(self.history@);
        let ghost rv = result@;
        self.history.push(result);
        proof {
            assert(result_views(self.history@) =~= h0.push(rv));
        }
        if self.history.len() > max_history {
            let ghost h1 = self.history@;
            let _ = self.history.remove(0);
            proof {
                assert(self.history@ =~= h1.drop_first());
                assert(result_views(self.history@) =~= h0.push(rv).drop_first());
            }
        }
    }

    /// The last check result.
    pub fn last_result(&self) -> (r: Option<&HealthCheckResult>)
        ensures
            self.history@.len() == 0 ==> r is None,
            self.history@.len() > 0 ==> r == Some(&self.history@.last()),
    {
        if self.history.len() == 0 {
            None
        } else {
            Some(&self.history[self.history.len() - 1])
        }
    }

    /// Whether the service should be restarted: at least `failure_threshold`
    /// consecutive failures.
    pub fn should_restart(&self, failure_threshold: u32) -> (r: bool)
        ensures
            r == (self.consecutive_failures >= failure_threshold),
    {
        self.consecutive_failures >= failure_threshold
    }

    /// A copy of the state.
    pub fn duplicate(&self) -> (r: Self)
        ensures
            r@ == self@,
    {
        let mut history: Vec<HealthCheckResult> = Vec::new();
        let mut i: usize = 0;
        while i < self.history.len()
            invariant
                i <= self.history.len(),
                result_views(history@) == result_views(self.history@).take(i as int),
            decreases self.history.len() - i,
        {
            let ghost before = history@;
            history.push(self.history[i].duplicate());
            proof {
                assert(result_views(history@) =~= result_views(before).push(self.history@[i as int]@));
                assert(result_views(self.history@).take(i + 1) =~= result_views(self.history@).take(i as int).push(self.history@[i as int]@));
            }
            i = i + 1;
        }
        proof {
            assert(result_views(self.history@).take(self.history@.len() as int) =~= result_views(self.history@));
        }
        ServiceHealth {
            service_id: self.service_id.clone(),
            status: self.status,
            consecutive_failures: self.consecutive_failures,
            last_healthy: self.last_healthy,
            history,
        }
    }
}

/// Configuration for the health monitor.
#[derive(Debug)]
pub struct HealthMonitorConfig {
    /// Default interval between health checks, in milliseconds.
    pub default_interval_ms: u64,
    /// Default timeout for health checks, in milliseconds.
    pub default_timeout_ms: u64,
    /// Maximum health history entries per service.
    pub max_history: usize,
    /// Number of consecutive failures before marking unhealthy.
    pub failure_threshold: u32,
}

impl Default for HealthMonitorConfig {
    fn default() -> (r: Self)
        ensures
            r.default_interval_ms == 30_000,
            r.default_timeout_ms == 5_000,
            r.max_history == 100,
            r.failure_threshold == 3,
    {
        HealthMonitorConfig {
            default_interval_ms: 30_000,
            default_timeout_ms: 5_000,
            max_history: 100,
            failure_threshold: 3,
        }
    }
}

/// Recording never lets the history grow beyond `max` once it is within it.
pub proof fn lemma_history_stays_bounded(h: ServiceHealthView, r: CheckResultView, max: nat)
    requires
        h.history.len() <= max,
    ensures
        health_after(h, r, max).history.len() <= max,
        max > 0 ==> health_after(h, r, max).history.last() == r,
{
}

/// The history keeps the most recent results: once a result is recorded
/// into a history within the limit, it holds the last `max` of the results
/// it held and the new one (all of them when there are no more), oldest
/// first.
pub proof fn lemma_history_keeps_recent(h: ServiceHealthView, r: CheckResultView, max: nat)
    requires
        h.history.len() <= max,
    ensures
        health_after(h, r, max).history == if h.history.len() + 1 <= max {
            h.history.push(r)
        } else {
            h.history.push(r).skip(h.history.len() + 1 - max)
        },
{
    if h.history.len() + 1 > max {
        assert(h.history.push(r).drop_first() =~= h.history.push(r).skip(h.history.len() + 1 - max));
    }
}

/// The health state after recording each of `rs` in turn.
pub open spec fn health_after_all(h: ServiceHealthView, rs: Seq<CheckResultView>, max: nat) -> ServiceHealthView
    decreases rs.len(),
{
    if rs.len() == 0 {
        h
    } else {
        health_after(health_after_all(h, rs.drop_last(), max), rs.last(), max)
    }
}

/// The last `m` results of `s` (all of them when there are no more).
pub open spec fn last_results(s: Seq<CheckResultView>, m: nat) -> Seq<CheckResultView> {
    if s.len() <= m { s } else { s.skip(s.len() - m) }
}

/// Over any run of recorded results, the history is a ring buffer: it holds
/// the last `max` of the results it held and those recorded, oldest first,
/// and so never more than `max`.
pub proof fn lemma_history_after_records(h: ServiceHealthView, rs: Seq<CheckResultView>, max: nat)
    requires
        h.history.len() <= max,
    ensures
        health_after_all(h, rs, max).history == last_results(h.history + rs, max),
        health_after_all(h, rs, max).history.len() <= max,
    decreases rs.len(),
{
    if rs.len() == 0 {
        assert(h.history + rs =~= h.history);
    } else {
        let rs1 = rs.drop_last();
        let r = rs.last();
        lemma_history_after_records(h, rs1, max);
        let whole1 = h.history + rs1;
        let whole = h.history + rs;
        assert(whole =~= whole1.push(r));
        let prev = last_results(whole1, max);
        if whole1.len() < max {
            assert(prev == whole1);
        } else {
            assert(prev.len() == max);
            assert(prev.push(r).drop_first() =~= whole.skip(whole.len() - max));
        }
    }
}

/// Every healthy result stamps the last healthy time with its own time,
/// whatever was recorded before; other results leave it.
pub proof fn lemma_healthy_stamps_time(h: ServiceHealthView, r: CheckResultView, max: nat)
    ensures
        r.status == HealthStatus::Healthy ==> health_after(h, r, max).last_healthy == Some(r.timestamp),
        r.status != HealthStatus::Healthy ==> health_after(h, r, max).last_healthy == h.last_healthy,
{
}

/// A healthy result clears the failure count, whatever came before.
pub proof fn lemma_healthy_resets_failures(h: ServiceHealthView, r: CheckResultView, max: nat)
    requires
        r.status == HealthStatus::Healthy,
    ensures
        health_after(h, r, max).consecutive_failures == 0,
        health_after(h, r, max).status == HealthStatus::Healthy,
{
}

/// Each unhealthy result counts one more consecutive failure.
pub proof fn lemma_unhealthy_counts_failure(h: ServiceHealthView, r: CheckResultView, max: nat)
    requires
        r.status == HealthStatus::Unhealthy,
        can_record(h, r),
    ensures
        health_after(h, r, max).consecutive_failures == h.consecutive_failures + 1,
        health_after(h, r, max).status == HealthStatus::Unhealthy,
{
}

} // verus!
