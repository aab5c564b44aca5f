//! Health monitor state: which services are checked, when, and what their
//! health is. The checks themselves are run by the daemon, which hands the
//! outcome back here.

use vstd::prelude::*;

use crate::clock::MonotonicClock;
use crate::keyed::KeyedList;
use crate::text::{decimal, owned, push_decimal, push_str};

use super::types::{
    can_record, health_after, HealthCheckResult, HealthMonitorConfig, HealthStatus, ServiceHealth,
    ServiceHealthView,
};

verus! {

/// HTTP method of a health check.
#[derive(Debug, Clone, Copy, PartialEq, Eq, Structural)]
pub enum CheckMethod {
    Get,
    Head,
    Post,
}

impl Default for CheckMethod {
    fn default() -> (r: Self)
        ensures
            r == CheckMethod::Get,
    {
        CheckMethod::Get
    }
}

/// HTTP health check configuration of a service.
pub struct HttpHealthCheck {
    /// Path of the health endpoint.
    pub path: String,
    /// Port to check, if different from the service port.
    pub port: Option<u16>,
    /// Interval between checks, in milliseconds.
    pub interval_ms: Option<u64>,
    /// Timeout of a check, in milliseconds.
    pub timeout_ms: Option<u64>,
    /// Retries before giving up.
    pub retries: Option<u32>,
    /// HTTP method of the check.
    pub method: Option<CheckMethod>,
    /// Status code a healthy service answers with.
    pub expected_status: Option<u16>,
}

impl HttpHealthCheck {
    /// A copy of the configuration.
    pub fn duplicate(&self) -> (r: Self)
        ensures
            r.path@ == self.path@,
            r.port == self.port,
            r.interval_ms == self.interval_ms,
            r.timeout_ms == self.timeout_ms,
            r.retries == self.retries,
            r.method == self.method,
            r.expected_status == self.expected_status,
    {
        HttpHealthCheck {
            path: self.path.clone(),
            port: self.port,
            interval_ms: self.interval_ms,
            timeout_ms: self.timeout_ms,
            retries: self.retries,
            method: self.method,
            expected_status: self.expected_status,
        }
    }
}

/// Registration of a service's health checks.
pub struct HealthCheckRegistration {
    /// Service ID.
    pub service_id: String,
    /// HTTP health check configuration.
    pub http_check: HttpHealthCheck,
    /// Port the service is listening on.
    pub port: u16,
    /// When the next check should run, in milliseconds since the Unix epoch.
    next_check: i64,
}

/// Abstract value of a [`HealthCheckRegistration`].
pub struct RegistrationView {
    pub service_id: Seq<char>,
    pub path: Seq<char>,
    pub check_port: Option<u16>,
    pub interval_ms: Option<u64>,
    pub timeout_ms: Option<u64>,
    pub retries: Option<u32>,
    pub method: Option<CheckMethod>,
    pub expected_status: Option<u16>,
    pub port: u16,
    pub next_check: i64,
}

impl View for HealthCheckRegistration {
    type V = RegistrationView;

    closed spec fn view(&self) -> RegistrationView {
        RegistrationView {
            service_id: self.service_id@,
            path: self.http_check.path@,
            check_port: self.http_check.port,
            interval_ms: self.http_check.interval_ms,
            timeout_ms: self.http_check.timeout_ms,
            retries: self.http_check.retries,
            method: self.http_check.method,
            expected_status: self.http_check.expected_status,
            port: self.port,
            next_check: self.next_check,
        }
    }
}

/// The interval of a registration's checks: 30 s unless configured.
pub open spec fn interval_of(r: RegistrationView) -> u64 {
    match r.interval_ms {
        Some(ms) => ms,
        None => 30_000,
    }
}

/// The timeout of a registration's checks: 5 s unless configured.
pub open spec fn timeout_of(r: RegistrationView) -> u64 {
    match r.timeout_ms {
        Some(ms) => ms,
        None => 5_000,
    }
}

/// A check is due once its time has come.
pub open spec fn due_at(r: RegistrationView, now: i64) -> bool {
    now >= r.next_check
}

/// One interval after `now`, or the end of time if that lies beyond it.
pub open spec fn next_after(now: i64, interval: u64) -> i64 {
    if now + interval <= i64::MAX { (now + interval) as i64 } else { i64::MAX }
}

/// The URL a registration's check requests: the service's port on the
/// loopback address, and the configured path.
pub open spec fn check_url_text(r: RegistrationView) -> Seq<char> {
    "http://127.0.0.1:"@ + decimal(r.port as nat) + r.path
}

impl HealthCheckRegistration {
    /// A registration whose first check is due at `now`.
    pub fn new_at(service_id: String, http_check: HttpHealthCheck, port: u16, now: i64) -> (r: Self)
        ensures
            r@.service_id == service_id@,
            r@.path == http_check.path@,
            r@.check_port == http_check.port,
            r@.interval_ms == http_check.interval_ms,
            r@.timeout_ms == http_check.timeout_ms,
            r@.retries == http_check.retries,
            r@.method == http_check.method,
            r@.expected_status == http_check.expected_status,
            r@.port == port,
            r@.next_check == now,
    {
        HealthCheckRegistration { service_id, http_check, port, next_check: now }
    }

    /// A registration whose first check is due right away, by `clock`.
    pub fn new(service_id: String, http_check: HttpHealthCheck, port: u16, clock: &MonotonicClock) -> (r: Self)
        ensures
            r@.service_id == service_id@,
            r@.path == http_check.path@,
            r@.check_port == http_check.port,
            r@.interval_ms == http_check.interval_ms,
            r@.timeout_ms == http_check.timeout_ms,
            r@.retries == http_check.retries,
            r@.method == http_check.method,
            r@.expected_status == http_check.expected_status,
            r@.port == port,
            r@.next_check >= 0,
    {
        let now = clock.now_ms();
        HealthCheckRegistration::new_at(service_id, http_check, port, now)
    }

    /// The interval between checks, in milliseconds.
    pub fn interval_ms(&self) -> (r: u64)
        ensures
            r == interval_of(self@),
    {
        match self.http_check.interval_ms {
            Some(ms) => ms,
            None => 30_000,
        }
    }

    /// The timeout of a check, in milliseconds.
    pub fn timeout_ms(&self) -> (r: u64)
        ensures
            r == timeout_of(self@),
    {
        match self.http_check.timeout_ms {
            Some(ms) => ms,
            None => 5_000,
        }
    }

    /// Schedules the next check one interval after `now`.
    pub fn schedule_next_at(&mut self, now: i64)
        requires
            now + interval_of(old(self)@) <= i64::MAX,
        ensures
            final(self)@ == (RegistrationView { next_check: (now + interval_of(old(self)@)) as i64, ..old(self)@ }),
    {
        let interval = self.interval_ms();
        self.next_check = (now as i128 + interval as i128) as i64;
    }

    /// Schedules the next check one interval after `now`, or at the end of
    /// time if that lies beyond it.
    pub fn schedule_next_from(&mut self, now: i64)
        ensures
            final(self)@ == (RegistrationView { next_check: next_after(now, interval_of(old(self)@)), ..old(self)@ }),
    {
        let interval = self.interval_ms();
        if interval as i128 + now as i128 <= i64::MAX as i128 {
            self.schedule_next_at(now);
        } else {
            self.next_check = i64::MAX;
        }
    }

    /// Schedules the next check one interval from now, by `clock`.
    pub fn schedule_next(&mut self, clock: &MonotonicClock)
        ensures
            exists|now: i64| now >= 0
                && final(self)@ == (RegistrationView { next_check: #[trigger] next_after(now, interval_of(old(self)@)), ..old(self)@ }),
    {
        let now = clock.now_ms();
        self.schedule_next_from(now);
    }

    /// Whether the check is due at `now`.
    pub fn is_due_at(&self, now: i64) -> (r: bool)
        ensures
            r == (now >= self@.next_check),
    {
        now >= self.next_check
    }

    /// Whether the check is due now, by `clock`.
    pub fn is_due(&self, clock: &MonotonicClock) -> (r: bool)
        ensures
            exists|now: i64| now >= 0 && r == #[trigger] due_at(self@, now),
    {
        let now = clock.now_ms();
        let r = self.is_due_at(now);
        assert(r == due_at(self@, now));
        r
    }

    /// The URL the check requests.
    pub fn check_url(&self) -> (r: String)
        ensures
            r@ == check_url_text(self@),
    {
        let mut url = owned("http://127.0.0.1:");
        push_decimal(&mut url, self.port as u64);
        push_str(&mut url, self.http_check.path.as_str());
        url
    }

    /// The method the check uses: GET unless configured.
    pub fn check_method(&self) -> (r: CheckMethod)
        ensures
            r == (match self@.method { Some(m) => m, None => CheckMethod::Get }),
    {
        match self.http_check.method {
            Some(m) => m,
            None => CheckMethod::Get,
        }
    }

    /// The status code a healthy service answers with: 200 unless configured.
    pub fn expected_status(&self) -> (r: u16)
        ensures
            r == (match self@.expected_status { Some(s) => s, None => 200u16 }),
    {
        match self.http_check.expected_status {
            Some(s) => s,
            None => 200,
        }
    }

    /// A copy of the registration.
    pub fn duplicate(&self) -> (r: Self)
        ensures
            r@ == self@,
    {
        HealthCheckRegistration {
            service_id: self.service_id.clone(),
            http_check: self.http_check.duplicate(),
            port: self.port,
            next_check: self.next_check,
        }
    }
}

/// The outcome of an HTTP check that got an answer with `status`: the status
/// if it is the expected one, else an error naming both.
pub open spec fn outcome_text(status: u16, expected: u16) -> Seq<char> {
    "Unexpected status: "@ + decimal(status as nat) + ", expected: "@ + decimal(expected as nat)
}

/// Judges the status code a health endpoint answered with.
pub fn check_outcome(status: u16, expected_status: u16) -> (r: Result<u16, String>)
    ensures
        status == expected_status ==> r == Ok::<u16, String>(status),
        status != expected_status ==> (r matches Err(e) && e@ == outcome_text(status, expected_status)),
{
    if status == expected_status {
        Ok(status)
    } else {
        let mut e = owned("Unexpected status: ");
        push_decimal(&mut e, status as u64);
        push_str(&mut e, ", expected: ");
        push_decimal(&mut e, expected_status as u64);
        Err(e)
    }
}

/// The result to record for a check's outcome: healthy with the status code
/// and the elapsed time, or unhealthy with the error.
pub fn result_of(outcome: Result<u16, String>, elapsed_ms: u64) -> (r: HealthCheckResult)
    ensures
        match outcome {
            Ok(code) => r.status == HealthStatus::Healthy && r.http_status == Some(code)
                && r.response_time_ms == Some(elapsed_ms) && r.error is None,
            Err(e) => r.status == HealthStatus::Unhealthy && r.error == Some(e)
                && r.response_time_ms is None && r.http_status is None,
        },
{
    match outcome {
        Ok(code) => HealthCheckResult::healthy_http(elapsed_ms, code),
        Err(e) => HealthCheckResult::unhealthy(e),
    }
}

/// The health states of a table, by service ID.
pub open spec fn health_views(m: Map<Seq<char>, ServiceHealth>) -> Map<Seq<char>, ServiceHealthView> {
    m.map_values(|h: ServiceHealth| h@)
}

/// The registrations of a table, by service ID.
pub open spec fn registration_views(m: Map<Seq<char>, HealthCheckRegistration>) -> Map<Seq<char>, RegistrationView> {
    m.map_values(|r: HealthCheckRegistration| r@)
}

/// The IDs of a list of registrations.
pub open spec fn registration_ids(s: Seq<HealthCheckRegistration>) -> Seq<Seq<char>> {
    s.map_values(|r: HealthCheckRegistration| r@.service_id)
}

/// The health status the monitor reports for a service: unknown for a
/// service it does not track.
pub open spec fn status_in(health: Map<Seq<char>, ServiceHealthView>, id: Seq<char>) -> HealthStatus {
    if health.contains_key(id) { health[id].status } else { HealthStatus::Unknown }
}

/// Tracks the health checks and health states of services.
pub struct HealthMonitor {
    config: HealthMonitorConfig,
    registrations: KeyedList<HealthCheckRegistration>,
    health_states: KeyedList<ServiceHealth>,
    /// The clock checks are scheduled by.
    clock: MonotonicClock,
}

impl HealthMonitor {
    /// The registrations by service ID.
    pub closed spec fn regs(&self) -> Map<Seq<char>, RegistrationView> {
        registration_views(self.registrations@)
    }

    /// The health states by service ID.
    pub closed spec fn health(&self) -> Map<Seq<char>, ServiceHealthView> {
        health_views(self.health_states@)
    }

    /// The configured history limit.
    pub closed spec fn max_history(&self) -> usize {
        self.config.max_history
    }

    /// The tables are well formed and every entry is stored under its
    /// service's ID.
    pub closed spec fn wf(&self) -> bool {
        &&& self.registrations.wf()
        &&& self.health_states.wf()
        &&& forall|k: Seq<char>| #[trigger] self.registrations@.contains_key(k) ==> self.registrations@[k]@.service_id == k
        &&& forall|k: Seq<char>| #[trigger] self.health_states@.contains_key(k) ==> self.health_states@[k]@.service_id == k
    }

    /// Creates a monitor that tracks no service.
    pub fn new(config: HealthMonitorConfig) -> (r: Self)
        ensures
            r.wf(),
            r.regs() == Map::<Seq<char>, RegistrationView>::empty(),
            r.health() == Map::<Seq<char>, ServiceHealthView>::empty(),
            r.max_history() == config.max_history,
    {
        let r = HealthMonitor {
            config,
            registrations: KeyedList::new(),
            health_states: KeyedList::new(),
            clock: MonotonicClock::start(),
        };
        assert(r.regs() =~= Map::<Seq<char>, RegistrationView>::empty());
        assert(r.health() =~= Map::<Seq<char>, ServiceHealthView>::empty());
        r
    }

    /// Registers a service for health monitoring with its first check due
    /// at `now`; its health starts afresh.
    pub fn register_at(&mut self, service_id: String, http_check: HttpHealthCheck, port: u16, now: i64)
        requires
            old(self).wf(),
        ensures
            final(self).wf(),
            final(self).max_history() == old(self).max_history(),
            final(self).regs() == old(self).regs().insert(service_id@, RegistrationView {
                service_id: service_id@,
                path: http_check.path@,
                check_port: http_check.port,
                interval_ms: http_check.interval_ms,
                timeout_ms: http_check.timeout_ms,
                retries: http_check.retries,
                method: http_check.method,
                expected_status: http_check.expected_status,
                port,
                next_check: now,
            }),
            final(self).health() == old(self).health().insert(service_id@, ServiceHealthView {
                service_id: service_id@,
                status: HealthStatus::Unknown,
                consecutive_failures: 0,
                last_healthy: None,
                history: Seq::empty(),
            }),
    {
        let key1 = service_id.clone();
        let key2 = service_id.clone();
        let id2 = service_id.clone();
        let reg = HealthCheckRegistration::new_at(service_id, http_check, port, now);
        let ghost rv = reg@;
        self.registrations.insert(key1, reg);
        let health = ServiceHealth::new(id2);
        let ghost hv = health@;
        self.health_states.insert(key2, health);
        proof {
            assert(self.regs() =~= old(self).regs().insert(key2@, rv));
            assert(self.health() =~= old(self).health().insert(key2@, hv));
        }
    }

    /// Registers a service for health monitoring with its first check due
    /// right away; its health starts afresh.
    pub fn register(&mut self, service_id: String, http_check: HttpHealthCheck, port: u16)
        requires
            old(self).wf(),
        ensures
            final(self).wf(),
            final(self).max_history() == old(self).max_history(),
            final(self).regs().dom() == old(self).regs().dom().insert(service_id@),
            final(self).health() == old(self).health().insert(service_id@, ServiceHealthView {
                service_id: service_id@,
                status: HealthStatus::Unknown,
                consecutive_failures: 0,
                last_healthy: None,
                history: Seq::empty(),
            }),
    {
        let now = self.clock.now_ms();
        self.register_at(service_id, http_check, port, now);
    }

    /// Unregisters a service: its checks and its health state go.
    pub fn unregister(&mut self, service_id: &str)
        requires
            old(self).wf(),
        ensures
            final(self).wf(),
            final(self).max_history() == old(self).max_history(),
            final(self).regs() == old(self).regs().remove(service_id@),
            final(self).health() == old(self).health().remove(service_id@),
    {
        let _ = self.registrations.remove(service_id);
        let _ = self.health_states.remove(service_id);
        proof {
            assert(self.regs() =~= old(self).regs().remove(service_id@));
            assert(self.health() =~= old(self).health().remove(service_id@));
        }
    }

    /// A copy of the health state of a service, if it is tracked.
    pub fn get_health(&self, service_id: &str) -> (r: Option<ServiceHealth>)
        requires
            self.wf(),
        ensures
            r is Some <==> self.health().contains_key(service_id@),
            r matches Some(h) ==> h@ == self.health()[service_id@],
    {
        match self.health_states.get(service_id) {
            Some(h) => Some(h.duplicate()),
            None => None,
        }
    }

    /// The health status of a service: unknown if it is not tracked.
    pub fn get_status(&self, service_id: &str) -> (r: HealthStatus)
        requires
            self.wf(),
        ensures
            r == status_in(self.health(), service_id@),
    {
        match self.health_states.get(service_id) {
            Some(h) => h.status,
            None => HealthStatus::Unknown,
        }
    }

    /// Whether a service is healthy.
    pub fn is_healthy(&self, service_id: &str) -> (r: bool)
        requires
            self.wf(),
        ensures
            r == (status_in(self.health(), service_id@) == HealthStatus::Healthy),
    {
        self.get_status(service_id) == HealthStatus::Healthy
    }

    /// A copy of all health states, by service ID.
    pub fn get_all_health(&self) -> (r: KeyedList<ServiceHealth>)
        requires
            self.wf(),
        ensures
            r.wf(),
            health_views(r@) == self.health(),
    {
        proof { self.health_states.lemma_view(); }
        let n = self.health_states.len();
        let mut out: KeyedList<ServiceHealth> = KeyedList::new();
        let mut i: usize = 0;
        while i < n
            invariant
                self.wf(),
                n == self.health_states.size(),
                i <= n,
                out.wf(),
                health_views(out@) == health_views(self.health_states@).restrict(self.health_states.keys().take(i as int).to_set()),
            decreases n - i,
        {
            proof { self.health_states.lemma_view(); }
            let key = self.health_states.key_at(i).clone();
            let value = self.health_states.value_at(i).duplicate();
            let ghost before = health_views(out@);
            let ghost k = key@;
            let ghost v = value@;
            out.insert(key, value);
            proof {
                let keys = self.health_states.keys();
                assert(keys[i as int] == k);
                assert(self.health_states@[k] == self.health_states.vals()[i as int]);
                assert(keys.take(i + 1) =~= keys.take(i as int).push(k));
                let t0 = keys.take(i as int);
                let t1 = keys.take(i + 1);
                assert(t1.to_set() =~= t0.to_set().insert(k)) by {
                    assert forall|x: Seq<char>| t1.contains(x) <==> x == k || t0.contains(x) by {
                        if t1.contains(x) && x != k {
                            let j = choose|j: int| 0 <= j < t1.len() && t1[j] == x;
                            assert(t0[j] == x);
                        }
                        if t0.contains(x) {
                            let j = choose|j: int| 0 <= j < t0.len() && t0[j] == x;
                            assert(t1[j] == x);
                        }
                        if x == k {
                            assert(t1[i as int] == x);
                        }
                    }
                }
                assert(health_views(out@) =~= before.insert(k, v));
                assert(health_views(out@) =~= health_views(self.health_states@).restrict(keys.take(i + 1).to_set()));
            }
            i = i + 1;
        }
        proof {
            self.health_states.lemma_view();
            assert(self.health_states.keys().take(n as int) =~= self.health_states.keys());
            assert(health_views(out@) =~= self.health());
        }
        out
    }

    /// Marks a tracked service as starting; an untracked one is ignored.
    pub fn mark_starting(&mut self, service_id: &str)
        requires
            old(self).wf(),
        ensures
            final(self).wf(),
            final(self).max_history() == old(self).max_history(),
            final(self).regs() == old(self).regs(),
            final(self).health() == (if old(self).health().contains_key(service_id@) {
                old(self).health().insert(service_id@, ServiceHealthView {
                    status: HealthStatus::Starting,
                    ..old(self).health()[service_id@]
                })
            } else {
                old(self).health()
            }),
    {
        match self.health_states.remove(service_id) {
            Some(h) => {
                let mut h = h;
                h.status = HealthStatus::Starting;
                let key = h.service_id.clone();
                self.health_states.insert(key, h);
                proof {
                    assert(self.health() =~= old(self).health().insert(service_id@, ServiceHealthView {
                        status: HealthStatus::Starting,
                        ..old(self).health()[service_id@]
                    }));
                }
            },
            None => {
                proof { assert(self.health() =~= old(self).health()); }
            },
        }
    }

    /// Records the result of a check of a service; an untracked service is
    /// ignored.
    pub fn record_result(&mut self, service_id: &str, result: HealthCheckResult)
        requires
            old(self).wf(),
            old(self).health().contains_key(service_id@) ==> can_record(old(self).health()[service_id@], result@),
        ensures
            final(self).wf(),
            final(self).max_history() == old(self).max_history(),
            final(self).regs() == old(self).regs(),
            final(self).health() == (if old(self).health().contains_key(service_id@) {
                old(self).health().insert(service_id@,
                    health_after(old(self).health()[service_id@], result@, old(self).max_history() as nat))
            } else {
                old(self).health()
            }),
    {
        match self.health_states.remove(service_id) {
            Some(h) => {
                let mut h = h;
                let ghost rv = result@;
                h.record(result, self.config.max_history);
                let key = h.service_id.clone();
                self.health_states.insert(key, h);
                proof {
                    assert(self.health() =~= old(self).health().insert(service_id@,
                        health_after(old(self).health()[service_id@], rv, old(self).max_history() as nat)));
                }
            },
            None => {
                proof { assert(self.health() =~= old(self).health()); }
            },
        }
    }

    /// Schedules the next check of a registered service one interval after
    /// `now`; an unregistered service is ignored.
    pub fn schedule_next_at(&mut self, service_id: &str, now: i64)
        requires
            old(self).wf(),
            old(self).regs().contains_key(service_id@) ==>
                now + interval_of(old(self).regs()[service_id@]) <= i64::MAX,
        ensures
            final(self).wf(),
            final(self).max_history() == old(self).max_history(),
            final(self).health() == old(self).health(),
            final(self).regs() == (if old(self).regs().contains_key(service_id@) {
                old(self).regs().insert(service_id@, RegistrationView {
                    next_check: (now + interval_of(old(self).regs()[service_id@])) as i64,
                    ..old(self).regs()[service_id@]
                })
            } else {
                old(self).regs()
            }),
    {
        match self.registrations.remove(service_id) {
            Some(r) => {
                let mut r = r;
                r.schedule_next_at(now);
                let key = r.service_id.clone();
                let ghost rv = r@;
                self.registrations.insert(key, r);
                proof {
                    assert(self.regs() =~= old(self).regs().insert(service_id@, rv));
                }
            },
            None => {
                proof { assert(self.regs() =~= old(self).regs()); }
            },
        }
    }

    /// A copy of the registration of a service, for a check run right away;
    /// `None` if the service is not registered.
    pub fn registration(&self, service_id: &str) -> (r: Option<HealthCheckRegistration>)
        requires
            self.wf(),
        ensures
            r is Some <==> self.regs().contains_key(service_id@),
            r matches Some(reg) ==> reg@ == self.regs()[service_id@],
    {
        match self.registrations.get(service_id) {
            Some(reg) => Some(reg.duplicate()),
            None => None,
        }
    }

    /// Copies of the registrations whose check is due at `now`, each once.
    pub fn due_checks(&self, now: i64) -> (r: Vec<HealthCheckRegistration>)
        requires
            self.wf(),
        ensures
            registration_ids(r@).no_duplicates(),
            forall|i: int| 0 <= i < r@.len() ==> self.regs().contains_key(#[trigger] r@[i]@.service_id)
                && self.regs()[r@[i]@.service_id] == r@[i]@ && now >= r@[i]@.next_check,
            forall|k: Seq<char>| #[trigger] self.regs().contains_key(k) && now >= self.regs()[k].next_check
                ==> registration_ids(r@).contains(k),
    {
        proof { self.registrations.lemma_view(); }
        let n = self.registrations.len();
        let mut out: Vec<HealthCheckRegistration> = Vec::new();
        let ghost mut idx: Seq<int> = Seq::empty();
        let mut i: usize = 0;
        while i < n
            invariant
                self.wf(),
                n == self.registrations.size(),
                i <= n,
                idx.len() == out@.len(),
                forall|k: int| 0 <= k < idx.len() ==> 0 <= #[trigger] idx[k] < i
                    && out@[k]@ == self.registrations.vals()[idx[k]]@
                    && now >= out@[k]@.next_check,
                forall|k: int, l: int| 0 <= k < l < idx.len() ==> idx[k] < idx[l],
                forall|j: int| 0 <= j < i && now >= (#[trigger] self.registrations.vals()[j])@.next_check ==> idx.contains(j),
            decreases n - i,
        {
            proof { self.registrations.lemma_view(); }
            let reg = self.registrations.value_at(i);
            if reg.is_due_at(now) {
                out.push(reg.duplicate());
                proof {
                    let old_idx = idx;
                    idx = idx.push(i as int);
                    assert forall|j: int| 0 <= j < i + 1 && now >= (#[trigger] self.registrations.vals()[j])@.next_check
                        implies idx.contains(j) by {
                        if j == i {
                            assert(idx[idx.len() - 1] == j);
                        } else {
                            assert(old_idx.contains(j));
                            let k = choose|k: int| 0 <= k < old_idx.len() && old_idx[k] == j;
                            assert(idx[k] == j);
                        }
                    }
                }
            }
            i = i + 1;
        }
        proof {
            self.registrations.lemma_view();
            let keys = self.registrations.keys();
            let vals = self.registrations.vals();
            assert forall|j: int| 0 <= j < n implies #[trigger] vals[j]@.service_id == keys[j] by {
                assert(self.registrations@.contains_key(keys[j]));
                assert(self.registrations@[keys[j]] == vals[j]);
            }
            assert forall|x: int, y: int| 0 <= x < y < registration_ids(out@).len() implies
                registration_ids(out@)[x] != registration_ids(out@)[y] by {
                assert(registration_ids(out@)[x] == keys[idx[x]]);
                assert(registration_ids(out@)[y] == keys[idx[y]]);
            }
            assert forall|x: int| 0 <= x < out@.len() implies self.regs().contains_key(#[trigger] out@[x]@.service_id)
                && self.regs()[out@[x]@.service_id] == out@[x]@ && now >= out@[x]@.next_check by {
                assert(out@[x]@.service_id == keys[idx[x]]);
                assert(self.registrations@[keys[idx[x]]] == vals[idx[x]]);
            }
            assert forall|k: Seq<char>| #[trigger] self.regs().contains_key(k) && now >= self.regs()[k].next_check
                implies registration_ids(out@).contains(k) by {
                let j = choose|j: int| 0 <= j < keys.len() && keys[j] == k;
                assert(self.registrations@[keys[j]] == vals[j]);
                assert(idx.contains(j));
                let x = choose|x: int| 0 <= x < idx.len() && idx[x] == j;
                assert(registration_ids(out@)[x] == k);
            }
        }
        out
    }
}

} // verus!
