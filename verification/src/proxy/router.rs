//! Service router: maps bound ports to services and selects instances.

use vstd::prelude::*;

use crate::error::DaemonError;

use super::loadbalancer::{counter_after, selection, LoadBalancer, Strategy};

verus! {

/// Protocol type for port binding.
#[derive(Debug, Clone, Copy, PartialEq, Eq, Structural)]
pub enum BindingProtocol {
    /// HTTP protocol: requests are parsed as HTTP and routed to handlers.
    Http,
    /// Raw TCP protocol: connections are passed directly to handlers.
    Tcp,
}

impl Default for BindingProtocol {
    fn default() -> (r: Self)
        ensures
            r == BindingProtocol::Http,
    {
        BindingProtocol::Http
    }
}

/// The display name of a protocol.
pub open spec fn protocol_name(p: BindingProtocol) -> Seq<char> {
    match p {
        BindingProtocol::Http => "http"@,
        BindingProtocol::Tcp => "tcp"@,
    }
}

impl BindingProtocol {
    /// The protocol's display name: "http" or "tcp".
    pub fn as_str(&self) -> (r: &'static str)
        ensures
            r@ == protocol_name(*self),
    {
        match self {
            BindingProtocol::Http => "http",
            BindingProtocol::Tcp => "tcp",
        }
    }
}

/// Binding information for a port.
#[derive(Debug)]
pub struct ServiceBinding {
    /// Service ID bound to this port.
    pub service_id: String,
    /// Service name for display.
    pub service_name: String,
    /// The port being listened on.
    pub port: u16,
    /// The protocol for this binding.
    pub protocol: BindingProtocol,
}

/// Abstract value of a [`ServiceBinding`].
pub struct BindingView {
    pub service_id: Seq<char>,
    pub service_name: Seq<char>,
    pub port: u16,
    pub protocol: BindingProtocol,
}

impl View for ServiceBinding {
    type V = BindingView;

    open spec fn view(&self) -> BindingView {
        BindingView {
            service_id: self.service_id@,
            service_name: self.service_name@,
            port: self.port,
            protocol: self.protocol,
        }
    }
}

impl ServiceBinding {
    /// A copy of the binding.
    pub fn duplicate(&self) -> (r: Self)
        ensures
            r@ == self@,
    {
        ServiceBinding {
            service_id: self.service_id.clone(),
            service_name: self.service_name.clone(),
            port: self.port,
            protocol: self.protocol,
        }
    }
}

/// The abstract values of a list of bindings.
pub open spec fn binding_views(s: Seq<ServiceBinding>) -> Seq<BindingView> {
    s.map_values(|b: ServiceBinding| b@)
}

/// The ports of a list of bindings.
pub open spec fn binding_ports(s: Seq<BindingView>) -> Seq<u16> {
    s.map_values(|b: BindingView| b.port)
}

/// The bound ports whose binding belongs to `service_id`.
pub open spec fn ports_of_service(m: Map<u16, BindingView>, service_id: Seq<char>) -> Set<u16> {
    Set::new(|p: u16| m.contains_key(p) && m[p].service_id == service_id)
}

/// The listed bindings are exactly the entries of `m` that satisfy the
/// filter `keep`, each once.
pub open spec fn lists_bindings(r: Seq<BindingView>, m: Map<u16, BindingView>, keep: spec_fn(BindingView) -> bool) -> bool {
    &&& binding_ports(r).no_duplicates()
    &&& forall|i: int| 0 <= i < r.len() ==> m.contains_key(#[trigger] r[i].port) && m[r[i].port] == r[i] && keep(r[i])
    &&& forall|p: u16| #[trigger] m.contains_key(p) && keep(m[p]) ==> binding_ports(r).contains(p)
}

/// Router for directing requests to services: a table from ports to
/// bindings, and a load balancer for instance selection.
pub struct ServiceRouter {
    bindings: Vec<ServiceBinding>,
    load_balancer: LoadBalancer,
}

impl ServiceRouter {
    /// The bindings by port.
    pub closed spec fn bindings_view(&self) -> Map<u16, BindingView> {
        Map::new(
            |p: u16| binding_ports(binding_views(self.bindings@)).contains(p),
            |p: u16| binding_views(self.bindings@)[binding_ports(binding_views(self.bindings@)).index_of(p)],
        )
    }

    /// The load balancer.
    pub closed spec fn balancer(&self) -> LoadBalancer {
        self.load_balancer
    }

    /// No port is bound twice.
    pub closed spec fn wf(&self) -> bool {
        binding_ports(binding_views(self.bindings@)).no_duplicates()
    }

    proof fn lemma_entries(&self)
        requires
            self.wf(),
        ensures
            forall|i: int| 0 <= i < self.bindings@.len() ==>
                #[trigger] self.bindings_view().contains_key(self.bindings@[i].port)
                && self.bindings_view()[self.bindings@[i].port] == self.bindings@[i]@,
            forall|p: u16| #[trigger] self.bindings_view().contains_key(p) ==>
                exists|i: int| 0 <= i < self.bindings@.len() && self.bindings@[i].port == p,
    {
        let ports = binding_ports(binding_views(self.bindings@));
        assert forall|i: int| 0 <= i < self.bindings@.len() implies
            #[trigger] self.bindings_view().contains_key(self.bindings@[i].port)
            && self.bindings_view()[self.bindings@[i].port] == self.bindings@[i]@ by {
            let p = self.bindings@[i].port;
            assert(ports[i] == p);
            assert(ports.contains(p));
            let j = ports.index_of(p);
            assert(0 <= j < ports.len() && ports[j] == p);
            assert(i == j);
        }
        assert forall|p: u16| #[trigger] self.bindings_view().contains_key(p) implies
            exists|i: int| 0 <= i < self.bindings@.len() && self.bindings@[i].port == p by {
            let i = choose|i: int| 0 <= i < ports.len() && ports[i] == p;
            assert(self.bindings@[i].port == p);
        }
    }
    /// Creates a router with no bindings and a round-robin load balancer.
    pub fn new() -> (r: Self)
        ensures
            r.wf(),
            r.bindings_view() == Map::<u16, BindingView>::empty(),
            r.balancer().strategy_spec() == Strategy::RoundRobin,
            r.balancer().counter() == 0,
    {
        let r = ServiceRouter { bindings: Vec::new(), load_balancer: LoadBalancer::round_robin() };
        assert(r.bindings_view() =~= Map::<u16, BindingView>::empty());
        r
    }

    /// Creates a router with no bindings and the given load balancer.
    pub fn with_load_balancer(load_balancer: LoadBalancer) -> (r: Self)
        ensures
            r.wf(),
            r.bindings_view() == Map::<u16, BindingView>::empty(),
            r.balancer() == load_balancer,
    {
        let r = ServiceRouter { bindings: Vec::new(), load_balancer };
        assert(r.bindings_view() =~= Map::<u16, BindingView>::empty());
        r
    }

    /// Position of the binding of `port`, if bound.
    fn find_port(&self, port: u16) -> (r: Option<usize>)
        requires
            self.wf(),
        ensures
            r is None <==> !self.bindings_view().contains_key(port),
            r matches Some(i) ==> i < self.bindings@.len() && self.bindings@[i as int].port == port
                && self.bindings_view()[port] == self.bindings@[i as int]@,
    {
        proof { self.lemma_entries(); }
        let mut i: usize = 0;
        while i < self.bindings.len()
            invariant
                self.wf(),
                i <= self.bindings.len(),
                forall|j: int| 0 <= j < i ==> (#[trigger] self.bindings@[j]).port != port,
            decreases self.bindings.len() - i,
        {
            if self.bindings[i].port == port {
                proof { self.lemma_entries(); }
                return Some(i);
            }
            i = i + 1;
        }
        proof {
            self.lemma_entries();
            if self.bindings_view().contains_key(port) {
                let j = choose|j: int| 0 <= j < self.bindings@.len() && self.bindings@[j].port == port;
                assert(self.bindings@[j].port != port);
            }
        }
        None
    }

    /// Binds a port to a service with the HTTP protocol.
    ///
    /// Fails with `PortAlreadyBound` if the port is already bound.
    pub fn bind(&mut self, port: u16, service_id: String, service_name: String) -> (r: Result<(), DaemonError>)
        requires
            old(self).wf(),
        ensures
            final(self).wf(),
            final(self).balancer() == old(self).balancer(),
            old(self).bindings_view().contains_key(port) ==> {
                &&& r matches Err(DaemonError::PortAlreadyBound { port: p, service_id: s })
                    && p == port && s@ == old(self).bindings_view()[port].service_id
                &&& final(self).bindings_view() == old(self).bindings_view()
            },
            !old(self).bindings_view().contains_key(port) ==> {
                &&& r is Ok
                &&& final(self).bindings_view() == old(self).bindings_view().insert(port, BindingView {
                    service_id: service_id@,
                    service_name: service_name@,
                    port,
                    protocol: BindingProtocol::Http,
                })
            },
    {
        self.bind_with_protocol(port, service_id, service_name, BindingProtocol::Http)
    }

    /// Binds a port to a service with the given protocol.
    ///
    /// Fails with `PortAlreadyBound` if the port is already bound.
    pub fn bind_with_protocol(
        &mut self,
        port: u16,
        service_id: String,
        service_name: String,
        protocol: BindingProtocol,
    ) -> (r: Result<(), DaemonError>)
        requires
            old(self).wf(),
        ensures
            final(self).wf(),
            final(self).balancer() == old(self).balancer(),
            old(self).bindings_view().contains_key(port) ==> {
                &&& r matches Err(DaemonError::PortAlreadyBound { port: p, service_id: s })
                    && p == port && s@ == old(self).bindings_view()[port].service_id
                &&& final(self).bindings_view() == old(self).bindings_view()
            },
            !old(self).bindings_view().contains_key(port) ==> {
                &&& r is Ok
                &&& final(self).bindings_view() == old(self).bindings_view().insert(port, BindingView {
                    service_id: service_id@,
                    service_name: service_name@,
                    port,
                    protocol,
                })
            },
    {
        match self.find_port(port) {
            Some(i) => {
                let existing = self.bindings[i].service_id.clone();
                return Err(DaemonError::PortAlreadyBound { port, service_id: existing });
            },
            None => {},
        }
        let ghost before = *self;
        let ghost b = BindingView { service_id: service_id@, service_name: service_name@, port, protocol };
        self.bindings.push(ServiceBinding { service_id, service_name, port, protocol });
        proof {
            before.lemma_entries();
            let ports0 = binding_ports(binding_views(before.bindings@));
            let ports1 = binding_ports(binding_views(self.bindings@));
            assert(ports1 =~= ports0.push(port));
            assert(!ports0.contains(port)) by {
                if ports0.contains(port) {
                    let j = choose|j: int| 0 <= j < ports0.len() && ports0[j] == port;
                    assert(before.bindings@[j].port == port);
                }
            }
            assert forall|x: int, y: int| 0 <= x < y < ports1.len() implies ports1[x] != ports1[y] by {
                if y == ports0.len() {
                    assert(ports0.contains(ports0[x]));
                }
            }
            self.lemma_entries();
            assert forall|q: u16| #[trigger] self.bindings_view().contains_key(q)
                <==> before.bindings_view().insert(port, b).contains_key(q) by {
                if self.bindings_view().contains_key(q) {
                    let i = choose|i: int| 0 <= i < self.bindings@.len() && self.bindings@[i].port == q;
                    if i < before.bindings@.len() {
                        assert(before.bindings@[i] == self.bindings@[i]);
                    }
                }
                if before.bindings_view().contains_key(q) {
                    let i = choose|i: int| 0 <= i < before.bindings@.len() && before.bindings@[i].port == q;
                    assert(self.bindings@[i] == before.bindings@[i]);
                }
                if q == port {
                    assert(self.bindings@[before.bindings@.len() as int].port == port);
                }
            }
            assert forall|q: u16| #[trigger] self.bindings_view().contains_key(q) implies
                self.bindings_view()[q] == before.bindings_view().insert(port, b)[q] by {
                let i = choose|i: int| 0 <= i < self.bindings@.len() && self.bindings@[i].port == q;
                if i < before.bindings@.len() {
                    assert(before.bindings@[i] == self.bindings@[i]);
                }
            }
            assert(self.bindings_view() =~= before.bindings_view().insert(port, b));
        }
        Ok(())
    }

    /// Removes a port binding.
    ///
    /// Fails with `PortNotBound` if the port is not bound.
    pub fn unbind(&mut self, port: u16) -> (r: Result<(), DaemonError>)
        requires
            old(self).wf(),
        ensures
            final(self).wf(),
            final(self).balancer() == old(self).balancer(),
            !old(self).bindings_view().contains_key(port) ==> {
                &&& r matches Err(DaemonError::PortNotBound { port: p }) && p == port
                &&& final(self).bindings_view() == old(self).bindings_view()
            },
            old(self).bindings_view().contains_key(port) ==> {
                &&& r is Ok
                &&& final(self).bindings_view() == old(self).bindings_view().remove(port)
            },
    {
        let i = match self.find_port(port) {
            Some(i) => i,
            None => {
                return Err(DaemonError::PortNotBound { port });
            },
        };
        let ghost before = *self;
        let _ = self.bindings.remove(i);
        proof {
            before.lemma_entries();
            let ports0 = binding_ports(binding_views(before.bindings@));
            let ports1 = binding_ports(binding_views(self.bindings@));
            assert(ports1 =~= ports0.remove(i as int));
            assert forall|x: int, y: int| 0 <= x < y < ports1.len() implies ports1[x] != ports1[y] by {
                let x2 = if x < i { x } else { x + 1 };
                let y2 = if y < i { y } else { y + 1 };
                assert(ports1[x] == ports0[x2]);
                assert(ports1[y] == ports0[y2]);
            }
            self.lemma_entries();
            assert forall|q: u16| #[trigger] self.bindings_view().contains_key(q)
                <==> before.bindings_view().remove(port).contains_key(q) by {
                if self.bindings_view().contains_key(q) {
                    let j = choose|j: int| 0 <= j < self.bindings@.len() && self.bindings@[j].port == q;
                    let j2 = if j < i { j } else { j + 1 };
                    assert(self.bindings@[j] == before.bindings@[j2]);
                    assert(ports0[j2] == q);
                    assert(ports0[i as int] == port);
                }
                if before.bindings_view().contains_key(q) && q != port {
                    let j = choose|j: int| 0 <= j < before.bindings@.len() && before.bindings@[j].port == q;
                    assert(j != i);
                    let j2 = if j < i { j } else { j - 1 };
                    assert(self.bindings@[j2] == before.bindings@[j]);
                }
            }
            assert forall|q: u16| #[trigger] self.bindings_view().contains_key(q) implies
                self.bindings_view()[q] == before.bindings_view().remove(port)[q] by {
                let j = choose|j: int| 0 <= j < self.bindings@.len() && self.bindings@[j].port == q;
                let j2 = if j < i { j } else { j + 1 };
                assert(self.bindings@[j] == before.bindings@[j2]);
            }
            assert(self.bindings_view() =~= before.bindings_view().remove(port));
        }
        Ok(())
    }

    /// Looks up the binding of a port.
    pub fn lookup(&self, port: u16) -> (r: Option<ServiceBinding>)
        requires
            self.wf(),
        ensures
            r is Some <==> self.bindings_view().contains_key(port),
            r matches Some(b) ==> b@ == self.bindings_view()[port],
    {
        match self.find_port(port) {
            Some(i) => Some(self.bindings[i].duplicate()),
            None => None,
        }
    }

    /// Whether a port is bound.
    pub fn is_bound(&self, port: u16) -> (r: bool)
        requires
            self.wf(),
        ensures
            r == self.bindings_view().contains_key(port),
    {
        self.find_port(port).is_some()
    }

    /// Copies of the bindings, in table order, that belong (`belongs`) or do
    /// not belong (`!belongs`) to the given service; all of them without one.
    fn collect(&self, service_id: Option<&str>, belongs: bool) -> (r: Vec<ServiceBinding>)
        requires
            self.wf(),
        ensures
            lists_bindings(binding_views(r@), self.bindings_view(), |b: BindingView| match service_id {
                Some(s) => (b.service_id == s@) == belongs,
                None => true,
            }),
    {
        let ghost keep = |b: BindingView| match service_id {
            Some(s) => (b.service_id == s@) == belongs,
            None => true,
        };
        proof { self.lemma_entries(); }
        let mut out: Vec<ServiceBinding> = Vec::new();
        let ghost mut idx: Seq<int> = Seq::empty();
        let mut i: usize = 0;
        while i < self.bindings.len()
            invariant
                self.wf(),
                i <= self.bindings.len(),
                idx.len() == out@.len(),
                forall|k: int| 0 <= k < idx.len() ==> 0 <= #[trigger] idx[k] < i
                    && binding_views(out@)[k] == self.bindings@[idx[k]]@,
                forall|k: int, l: int| 0 <= k < l < idx.len() ==> idx[k] < idx[l],
                forall|j: int| 0 <= j < i && keep(#[trigger] self.bindings@[j]@) ==> idx.contains(j),
                forall|k: int| 0 <= k < idx.len() ==> keep(self.bindings@[#[trigger] idx[k]]@),
                keep == (|b: BindingView| match service_id {
                    Some(s) => (b.service_id == s@) == belongs,
                    None => true,
                }),
            decreases self.bindings.len() - i,
        {
            let take = match service_id {
                Some(s) => crate::text::str_eq(self.bindings[i].service_id.as_str(), s) == belongs,
                None => true,
            };
            if take {
                out.push(self.bindings[i].duplicate());
                proof {
                    let old_idx = idx;
                    idx = idx.push(i as int);
                    assert forall|j: int| 0 <= j < i + 1 && keep(#[trigger] self.bindings@[j]@) implies idx.contains(j) by {
                        if j == i {
                            assert(idx[idx.len() - 1] == j);
                        } else {
                            assert(old_idx.contains(j));
                            let k = choose|k: int| 0 <= k < old_idx.len() && old_idx[k] == j;
                            assert(idx[k] == j);
                        }
                    }
                }
            }
            i = i + 1;
        }
        proof {
            self.lemma_entries();
            let r = binding_views(out@);
            let ports0 = binding_ports(binding_views(self.bindings@));
            assert forall|x: int, y: int| 0 <= x < y < binding_ports(r).len() implies
                binding_ports(r)[x] != binding_ports(r)[y] by {
                assert(binding_ports(r)[x] == ports0[idx[x]]);
                assert(binding_ports(r)[y] == ports0[idx[y]]);
            }
            assert forall|k: int| 0 <= k < r.len() implies self.bindings_view().contains_key(#[trigger] r[k].port)
                && self.bindings_view()[r[k].port] == r[k] && keep(r[k]) by {
                assert(r[k] == self.bindings@[idx[k]]@);
            }
            assert forall|p: u16| #[trigger] self.bindings_view().contains_key(p) && keep(self.bindings_view()[p])
                implies binding_ports(r).contains(p) by {
                let j = choose|j: int| 0 <= j < self.bindings@.len() && self.bindings@[j].port == p;
                assert(idx.contains(j));
                let k = choose|k: int| 0 <= k < idx.len() && idx[k] == j;
                assert(binding_ports(r)[k] == p);
            }
        }
        out
    }

    /// All current bindings, each once.
    pub fn list_bindings(&self) -> (r: Vec<ServiceBinding>)
        requires
            self.wf(),
        ensures
            lists_bindings(binding_views(r@), self.bindings_view(), |b: BindingView| true),
    {
        let r = self.collect(None, true);
        proof {
            assert((|b: BindingView| match None::<&str> { Some(s) => (b.service_id == s@) == true, None => true })
                =~= (|b: BindingView| true));
        }
        r
    }

    /// The bindings of a service, each once.
    pub fn bindings_for_service(&self, service_id: &str) -> (r: Vec<ServiceBinding>)
        requires
            self.wf(),
        ensures
            lists_bindings(binding_views(r@), self.bindings_view(), |b: BindingView| b.service_id == service_id@),
    {
        let r = self.collect(Some(service_id), true);
        proof {
            assert((|b: BindingView| match Some(service_id) { Some(s) => (b.service_id == s@) == true, None => true })
                =~= (|b: BindingView| b.service_id == service_id@));
        }
        r
    }

    /// Removes all bindings of a service and returns the ports that were
    /// unbound, each once.
    pub fn unbind_service(&mut self, service_id: &str) -> (r: Vec<u16>)
        requires
            old(self).wf(),
        ensures
            final(self).wf(),
            final(self).balancer() == old(self).balancer(),
            r@.no_duplicates(),
            r@.to_set() == ports_of_service(old(self).bindings_view(), service_id@),
            final(self).bindings_view() == old(self).bindings_view().remove_keys(
                ports_of_service(old(self).bindings_view(), service_id@)),
    {
        let ghost m = self.bindings_view();
        let ghost gone = ports_of_service(m, service_id@);
        let removed = self.collect(Some(service_id), true);
        let kept = self.collect(Some(service_id), false);
        let ghost keep_out = |b: BindingView| match Some(service_id) {
            Some(s) => (b.service_id == s@) == false,
            None => true,
        };
        let ghost keep_in = |b: BindingView| match Some(service_id) {
            Some(s) => (b.service_id == s@) == true,
            None => true,
        };
        let mut ports: Vec<u16> = Vec::new();
        let mut i: usize = 0;
        while i < removed.len()
            invariant
                i <= removed.len(),
                ports@ == binding_ports(binding_views(removed@)).take(i as int),
            decreases removed.len() - i,
        {
            ports.push(removed[i].port);
            proof {
                assert(ports@ =~= binding_ports(binding_views(removed@)).take(i + 1));
            }
            i = i + 1;
        }
        proof {
            let rp = binding_ports(binding_views(removed@));
            assert(ports@ =~= rp.take(removed@.len() as int));
            assert(rp.take(removed@.len() as int) =~= rp);
            assert forall|p: u16| ports@.contains(p) <==> gone.contains(p) by {
                if ports@.contains(p) {
                    let k = choose|k: int| 0 <= k < rp.len() && rp[k] == p;
                    assert(binding_views(removed@)[k].port == p);
                    assert(m.contains_key(binding_views(removed@)[k].port));
                    assert(keep_in(binding_views(removed@)[k]));
                }
                if gone.contains(p) {
                    assert(m.contains_key(p) && keep_in(m[p]));
                }
            }
            assert(ports@.to_set() =~= gone);
        }
        self.bindings = kept;
        proof {
            self.lemma_entries();
            let kv = binding_views(self.bindings@);
            assert forall|p: u16| #[trigger] self.bindings_view().contains_key(p) <==> m.remove_keys(gone).contains_key(p) by {
                if self.bindings_view().contains_key(p) {
                    let j = choose|j: int| 0 <= j < self.bindings@.len() && self.bindings@[j].port == p;
                    assert(kv[j].port == p);
                    assert(m.contains_key(kv[j].port) && m[kv[j].port] == kv[j] && keep_out(kv[j]));
                }
                if m.remove_keys(gone).contains_key(p) {
                    assert(m.contains_key(p) && keep_out(m[p]));
                    assert(binding_ports(kv).contains(p));
                    let j = choose|j: int| 0 <= j < binding_ports(kv).len() && binding_ports(kv)[j] == p;
                    assert(self.bindings@[j].port == p);
                }
            }
            assert forall|p: u16| #[trigger] self.bindings_view().contains_key(p) implies
                self.bindings_view()[p] == m.remove_keys(gone)[p] by {
                let j = choose|j: int| 0 <= j < self.bindings@.len() && self.bindings@[j].port == p;
                assert(kv[j].port == p);
                assert(m[kv[j].port] == kv[j]);
            }
            assert(self.bindings_view() =~= m.remove_keys(gone));
        }
        ports
    }

    /// Selects an instance index for load balancing.
    pub fn select_instance(&mut self, instance_count: usize) -> (r: Option<usize>)
        requires
            old(self).wf(),
        ensures
            final(self).wf(),
            final(self).bindings_view() == old(self).bindings_view(),
            r == selection(old(self).balancer().strategy_spec(), old(self).balancer().counter(), instance_count),
            final(self).balancer().strategy_spec() == old(self).balancer().strategy_spec(),
            final(self).balancer().counter() == counter_after(
                old(self).balancer().strategy_spec(), old(self).balancer().counter(), instance_count),
    {
        self.load_balancer.select(instance_count)
    }
}

/// Binding a free port makes its lookup give the new binding, and
/// unbinding it again gives back the table as it was.
pub proof fn lemma_bind_then_unbind(m: Map<u16, BindingView>, port: u16, b: BindingView)
    requires
        !m.contains_key(port),
    ensures
        m.insert(port, b).contains_key(port),
        m.insert(port, b)[port] == b,
        m.insert(port, b).remove(port) == m,
{
    assert(m.insert(port, b).remove(port) =~= m);
}

/// Unbinding a service leaves no port bound to it and every other binding
/// as it was.
pub proof fn lemma_unbind_service_leaves_none(m: Map<u16, BindingView>, service_id: Seq<char>)
    ensures
        forall|p: u16| #[trigger] m.remove_keys(ports_of_service(m, service_id)).contains_key(p) ==>
            m.remove_keys(ports_of_service(m, service_id))[p].service_id != service_id,
        forall|p: u16| #[trigger] m.contains_key(p) && m[p].service_id != service_id ==>
            m.remove_keys(ports_of_service(m, service_id)).contains_key(p)
            && m.remove_keys(ports_of_service(m, service_id))[p] == m[p],
{
}

} // verus!
