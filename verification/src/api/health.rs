//! Health endpoints: the health of every monitored service with a summary,
//! the health of one service, and the proxy's port bindings.

use vstd::prelude::*;

use crate::error::cat3;
use crate::health::monitor::{health_views, HealthMonitor};
use crate::health::types::{HealthCheckResult, HealthStatus, ServiceHealth, ServiceHealthView};
use crate::keyed::KeyedList;
use crate::proxy::router::{binding_views, BindingView, ServiceRouter};

use super::response::{is_error, ApiResponse};

verus! {

/// Health status summary.
pub struct HealthSummary {
    /// Number of healthy services.
    pub healthy: usize,
    /// Number of unhealthy services.
    pub unhealthy: usize,
    /// Number of services with unknown status.
    pub unknown: usize,
    /// Number of services starting up.
    pub starting: usize,
    /// Total number of services being monitored.
    pub total: usize,
}

/// Response with the health of all services.
pub struct AllHealthResponse {
    /// Health states by service ID.
    pub services: KeyedList<ServiceHealth>,
    /// Summary counts.
    pub summary: HealthSummary,
}

/// The services in `h` whose status is `st`.
pub open spec fn with_status(h: Map<Seq<char>, ServiceHealthView>, st: HealthStatus) -> Set<Seq<char>> {
    Set::new(|k: Seq<char>| h.contains_key(k) && h[k].status == st)
}

/// The summary counts the services of each status, and all of them.
pub open spec fn summarizes(s: HealthSummary, h: Map<Seq<char>, ServiceHealthView>) -> bool {
    &&& s.healthy == with_status(h, HealthStatus::Healthy).len()
    &&& s.unhealthy == with_status(h, HealthStatus::Unhealthy).len()
    &&& s.unknown == with_status(h, HealthStatus::Unknown).len()
    &&& s.starting == with_status(h, HealthStatus::Starting).len()
    &&& s.total == h.len()
}

/// Every monitored service has exactly one status, so the counts per status
/// add up to the total.
pub proof fn lemma_summary_adds_up(s: HealthSummary, h: Map<Seq<char>, ServiceHealthView>)
    requires
        summarizes(s, h),
        h.dom().finite(),
    ensures
        s.healthy + s.unhealthy + s.unknown + s.starting == s.total,
{
    let a = with_status(h, HealthStatus::Healthy);
    let b = with_status(h, HealthStatus::Unhealthy);
    let c = with_status(h, HealthStatus::Unknown);
    let d = with_status(h, HealthStatus::Starting);
    vstd::set_lib::lemma_len_subset(a, h.dom());
    vstd::set_lib::lemma_len_subset(b, h.dom());
    vstd::set_lib::lemma_len_subset(c, h.dom());
    vstd::set_lib::lemma_len_subset(d, h.dom());
    vstd::set_lib::lemma_set_disjoint_lens(a, b);
    vstd::set_lib::lemma_set_disjoint_lens(a + b, c);
    vstd::set_lib::lemma_set_disjoint_lens(a + b + c, d);
    assert(a.disjoint(b));
    assert((a + b).disjoint(c));
    assert((a + b + c).disjoint(d));
    assert(a + b + c + d =~= h.dom());
}

/// Among the first `i` keys, those whose service has status `st`.
pub open spec fn counted(keys: Seq<Seq<char>>, i: int, h: Map<Seq<char>, ServiceHealthView>, st: HealthStatus) -> Set<Seq<char>> {
    Set::new(|k: Seq<char>| keys.take(i).contains(k) && h.contains_key(k) && h[k].status == st)
}

/// Counting one more key adds it to the set of its status, and to no other.
proof fn lemma_count_step(keys: Seq<Seq<char>>, i: int, h: Map<Seq<char>, ServiceHealthView>, st: HealthStatus)
    requires
        keys.no_duplicates(),
        0 <= i < keys.len(),
        h.contains_key(keys[i]),
    ensures
        counted(keys, i, h, st).finite(),
        h[keys[i]].status == st ==> counted(keys, i + 1, h, st).len() == counted(keys, i, h, st).len() + 1,
        h[keys[i]].status != st ==> counted(keys, i + 1, h, st).len() == counted(keys, i, h, st).len(),
    decreases i,
{
    let k = keys[i];
    let before = counted(keys, i, h, st);
    let after = counted(keys, i + 1, h, st);
    assert(before.subset_of(keys.take(i).to_set()));
    vstd::seq_lib::seq_to_set_is_finite(keys.take(i));
    assert(before.finite()) by {
        vstd::set_lib::lemma_set_subset_finite(keys.take(i).to_set(), before);
    }
    assert(!keys.take(i).contains(k)) by {
        if keys.take(i).contains(k) {
            let t = keys.take(i);
            let j = choose|j: int| 0 <= j < t.len() && t[j] == k;
            assert(keys[j] == keys[i]);
        }
    }
    let t0 = keys.take(i);
    let t1 = keys.take(i + 1);
    assert forall|x: Seq<char>| t1.contains(x) <==> t0.contains(x) || x == k by {
        if t1.contains(x) && x != k {
            let j = choose|j: int| 0 <= j < t1.len() && t1[j] == x;
            assert(t0[j] == x);
        }
        if t0.contains(x) {
            let j = choose|j: int| 0 <= j < t0.len() && t0[j] == x;
            assert(t1[j] == x);
        }
        if x == k {
            assert(t1[i] == x);
        }
    }
    if h[k].status == st {
        assert(after =~= before.insert(k));
    } else {
        assert(after =~= before);
    }
}

/// GET `/v1/health/services`: the health of every monitored service, with
/// a count of services per status.
pub fn get_all_health(monitor: &HealthMonitor) -> (r: AllHealthResponse)
    requires
        monitor.wf(),
    ensures
        r.services.wf(),
        health_views(r.services@) == monitor.health(),
        summarizes(r.summary, monitor.health()),
{
    let services = monitor.get_all_health();
    let ghost h = health_views(services@);
    proof { services.lemma_view(); }
    let n = services.len();
    let mut healthy: usize = 0;
    let mut unhealthy: usize = 0;
    let mut unknown: usize = 0;
    let mut starting: usize = 0;
    let mut i: usize = 0;
    proof {
        let keys = services.keys();
        assert(counted(keys, 0, h, HealthStatus::Healthy) =~= Set::<Seq<char>>::empty());
        assert(counted(keys, 0, h, HealthStatus::Unhealthy) =~= Set::<Seq<char>>::empty());
        assert(counted(keys, 0, h, HealthStatus::Unknown) =~= Set::<Seq<char>>::empty());
        assert(counted(keys, 0, h, HealthStatus::Starting) =~= Set::<Seq<char>>::empty());
    }
    while i < n
        invariant
            services.wf(),
            h == health_views(services@),
            n == services.size(),
            i <= n,
            healthy == counted(services.keys(), i as int, h, HealthStatus::Healthy).len(),
            unhealthy == counted(services.keys(), i as int, h, HealthStatus::Unhealthy).len(),
            unknown == counted(services.keys(), i as int, h, HealthStatus::Unknown).len(),
            starting == counted(services.keys(), i as int, h, HealthStatus::Starting).len(),
            healthy + unhealthy + unknown + starting == i,
        decreases n - i,
    {
        proof {
            services.lemma_view();
            let keys = services.keys();
            assert(services@.contains_key(keys[i as int]));
            assert(h.contains_key(keys[i as int]));
            assert(services@[keys[i as int]] == services.vals()[i as int]);
            lemma_count_step(keys, i as int, h, HealthStatus::Healthy);
            lemma_count_step(keys, i as int, h, HealthStatus::Unhealthy);
            lemma_count_step(keys, i as int, h, HealthStatus::Unknown);
            lemma_count_step(keys, i as int, h, HealthStatus::Starting);
        }
        match services.value_at(i).status {
            HealthStatus::Healthy => healthy = healthy + 1,
            HealthStatus::Unhealthy => unhealthy = unhealthy + 1,
            HealthStatus::Unknown => unknown = unknown + 1,
            HealthStatus::Starting => starting = starting + 1,
        }
        i = i + 1;
    }
    proof {
        services.lemma_view();
        let keys = services.keys();
        assert(keys.take(n as int) =~= keys);
        assert forall|st: HealthStatus| #[trigger] counted(keys, n as int, h, st) =~= with_status(h, st) by {
            assert forall|k: Seq<char>| counted(keys, n as int, h, st).contains(k) <==> with_status(h, st).contains(k) by {
                if h.contains_key(k) {
                    assert(services@.contains_key(k));
                    assert(keys.contains(k));
                }
            }
        }
        assert(counted(keys, n as int, h, HealthStatus::Healthy) =~= with_status(h, HealthStatus::Healthy));
        assert(counted(keys, n as int, h, HealthStatus::Unhealthy) =~= with_status(h, HealthStatus::Unhealthy));
        assert(counted(keys, n as int, h, HealthStatus::Unknown) =~= with_status(h, HealthStatus::Unknown));
        assert(counted(keys, n as int, h, HealthStatus::Starting) =~= with_status(h, HealthStatus::Starting));
        assert(h.dom() =~= services@.dom());
    }
    AllHealthResponse {
        services,
        summary: HealthSummary { healthy, unhealthy, unknown, starting, total: n },
    }
}

/// The message for a service that is not monitored.
pub open spec fn not_monitored_text(id: Seq<char>) -> Seq<char> {
    "Service '"@ + id + "' is not being monitored for health"@
}

/// GET `/v1/services/{id}/health`: the health of one service; 404
/// `SERVICE_NOT_MONITORED` if it is not monitored.
pub fn get_service_health(monitor: &HealthMonitor, id: &str) -> (r: (u16, ApiResponse<ServiceHealth>))
    requires
        monitor.wf(),
    ensures
        monitor.health().contains_key(id@) ==> r.0 == 200
            && (r.1 matches ApiResponse::Success { data } && data@ == monitor.health()[id@]),
        !monitor.health().contains_key(id@) ==> r.0 == 404
            && is_error(r.1, "SERVICE_NOT_MONITORED"@, not_monitored_text(id@)),
{
    match monitor.get_health(id) {
        Some(h) => (200, ApiResponse::success(h)),
        None => (404, ApiResponse::typed_error("SERVICE_NOT_MONITORED", cat3("Service '", id, "' is not being monitored for health"))),
    }
}

/// A single port binding.
pub struct PortBinding {
    /// Bound port.
    pub port: u16,
    /// Service ID.
    pub service_id: String,
    /// Service name.
    pub service_name: String,
}

/// Response with the proxy's port bindings.
pub struct ProxyBindingsResponse {
    /// Port bindings.
    pub bindings: Vec<PortBinding>,
    /// Total count.
    pub total: usize,
}

/// The binding's port, service ID and service name.
pub open spec fn port_binding_view(b: PortBinding) -> BindingView {
    BindingView { service_id: b.service_id@, service_name: b.service_name@, port: b.port, protocol: crate::proxy::router::BindingProtocol::Http }
}

/// GET `/v1/proxy/bindings`: every port binding of the proxy, each once.
pub fn get_proxy_bindings(router: &ServiceRouter) -> (r: ProxyBindingsResponse)
    requires
        router.wf(),
    ensures
        r.total == r.bindings@.len(),
        r.bindings@.len() == router.bindings_view().len(),
        forall|i: int| 0 <= i < r.bindings@.len() ==> router.bindings_view().contains_key(#[trigger] r.bindings@[i].port)
            && router.bindings_view()[r.bindings@[i].port].service_id == r.bindings@[i].service_id@
            && router.bindings_view()[r.bindings@[i].port].service_name == r.bindings@[i].service_name@,
        forall|p: u16| #[trigger] router.bindings_view().contains_key(p)
            ==> exists|i: int| 0 <= i < r.bindings@.len() && #[trigger] r.bindings@[i].port == p,
{
    let list = router.list_bindings();
    let ghost lv = binding_views(list@);
    let mut out: Vec<PortBinding> = Vec::new();
    let mut i: usize = 0;
    while i < list.len()
        invariant
            lv == binding_views(list@),
            i <= list.len(),
            out@.len() == i,
            forall|j: int| 0 <= j < i ==> (#[trigger] out@[j]).port == lv[j].port
                && out@[j].service_id@ == lv[j].service_id && out@[j].service_name@ == lv[j].service_name,
        decreases list.len() - i,
    {
        let b = &list[i];
        out.push(PortBinding { port: b.port, service_id: b.service_id.clone(), service_name: b.service_name.clone() });
        i = i + 1;
    }
    proof {
        let m = router.bindings_view();
        let ports = crate::proxy::router::binding_ports(lv);
        assert(ports.no_duplicates());
        assert forall|p: u16| #[trigger] m.contains_key(p) implies exists|i: int| 0 <= i < out@.len() && #[trigger] out@[i].port == p by {
            assert(ports.contains(p));
            let j = choose|j: int| 0 <= j < ports.len() && ports[j] == p;
            assert(out@[j].port == p);
        }
        assert forall|i: int| 0 <= i < out@.len() implies m.contains_key(#[trigger] out@[i].port)
            && m[out@[i].port].service_id == out@[i].service_id@ && m[out@[i].port].service_name == out@[i].service_name@ by {
            assert(m.contains_key(lv[i].port) && m[lv[i].port] == lv[i]);
        }
        assert(ports.to_set() =~= m.dom()) by {
            assert forall|p: u16| ports.to_set().contains(p) <==> m.contains_key(p) by {
                if ports.contains(p) {
                    let j = choose|j: int| 0 <= j < ports.len() && ports[j] == p;
                    assert(m.contains_key(lv[j].port));
                }
            }
        }
        ports.unique_seq_to_set();
    }
    let total = out.len();
    ProxyBindingsResponse { bindings: out, total }
}

/// POST `/v1/services/{id}/health/check`: the result of a check run now,
/// or 404 `SERVICE_NOT_MONITORED` when the service has no check.
pub fn check_service_health(id: &str, result: Option<HealthCheckResult>) -> (r: (u16, ApiResponse<HealthCheckResult>))
    ensures
        result matches Some(res) ==> r.0 == 200 && r.1 == (ApiResponse::<HealthCheckResult>::Success { data: res }),
        result is None ==> r.0 == 404 && is_error(r.1, "SERVICE_NOT_MONITORED"@, not_monitored_text(id@)),
{
    match result {
        Some(res) => (200, ApiResponse::success(res)),
        None => (404, ApiResponse::typed_error("SERVICE_NOT_MONITORED", cat3("Service '", id, "' is not being monitored for health"))),
    }
}

} // verus!
