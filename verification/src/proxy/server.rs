//! Proxy server: the listeners on bound ports, and how each incoming
//! request or connection is routed.
//!
//! The server keeps, beside the router, the handle of each running
//! listener. Starting and stopping listeners, and speaking HTTP, is the
//! caller's part: the server decides which ports are bound, which handles
//! must be shut down, and what each request is answered.

use vstd::prelude::*;

use crate::error::DaemonError;
use crate::network::manager::{reachable_from_outside, NetworkManager};
use crate::network::validation::validate_ingress;
use crate::text::{owned, utf8, utf8_bytes};

use super::router::{
    binding_views, lists_bindings, ports_of_service, BindingProtocol, BindingView, ServiceBinding, ServiceRouter,
};

verus! {

/// A running listener on a port.
pub struct Listener<H> {
    /// Port being listened on.
    pub port: u16,
    /// Handle to the listener task.
    pub handle: H,
}

/// The ports of a list of listeners.
pub open spec fn listener_ports<H>(s: Seq<Listener<H>>) -> Seq<u16> {
    s.map_values(|l: Listener<H>| l.port)
}

/// The handles, in order, of the ports of `ports` that have one in `m`.
pub open spec fn handles_of<H>(ports: Seq<u16>, m: Map<u16, H>) -> Seq<H>
    decreases ports.len(),
{
    if ports.len() == 0 {
        Seq::empty()
    } else {
        let rest = handles_of(ports.drop_last(), m);
        if m.contains_key(ports.last()) {
            rest.push(m[ports.last()])
        } else {
            rest
        }
    }
}

/// Proxy server that manages port listeners and routes requests.
pub struct ProxyServer<H> {
    listeners: Vec<Listener<H>>,
    router: ServiceRouter,
}

impl<H> ProxyServer<H> {
    /// The handle of the listener on each port that has one.
    pub closed spec fn handles(&self) -> Map<u16, H> {
        Map::new(
            |p: u16| listener_ports(self.listeners@).contains(p),
            |p: u16| self.listeners@[listener_ports(self.listeners@).index_of(p)].handle,
        )
    }

    /// The service router.
    pub closed spec fn router_spec(&self) -> ServiceRouter {
        self.router
    }

    /// The router is well formed, no port has two listeners, and a port
    /// has a listener only while it is bound in the router.
    pub closed spec fn wf(&self) -> bool {
        &&& self.router.wf()
        &&& listener_ports(self.listeners@).no_duplicates()
        &&& forall|p: u16| #[trigger] self.handles().contains_key(p) ==> self.router.bindings_view().contains_key(p)
    }

    proof fn lemma_entries(&self)
        requires
            listener_ports(self.listeners@).no_duplicates(),
        ensures
            forall|i: int| 0 <= i < self.listeners@.len() ==>
                #[trigger] self.handles().contains_key(self.listeners@[i].port)
                && self.handles()[self.listeners@[i].port] == self.listeners@[i].handle,
            forall|p: u16| #[trigger] self.handles().contains_key(p) ==>
                exists|i: int| 0 <= i < self.listeners@.len() && self.listeners@[i].port == p,
    {
        let ports = listener_ports(self.listeners@);
        assert forall|i: int| 0 <= i < self.listeners@.len() implies
            #[trigger] self.handles().contains_key(self.listeners@[i].port)
            && self.handles()[self.listeners@[i].port] == self.listeners@[i].handle by {
            let p = self.listeners@[i].port;
            assert(ports[i] == p);
            assert(ports.contains(p));
            let j = ports.index_of(p);
            assert(i == j);
        }
        assert forall|p: u16| #[trigger] self.handles().contains_key(p) implies
            exists|i: int| 0 <= i < self.listeners@.len() && self.listeners@[i].port == p by {
            let i = choose|i: int| 0 <= i < ports.len() && ports[i] == p;
            assert(self.listeners@[i].port == p);
        }
    }

    /// Creates a proxy server with no listeners around the given router.
    pub fn new(router: ServiceRouter) -> (r: Self)
        requires
            router.wf(),
        ensures
            r.wf(),
            r.router_spec() == router,
            r.handles() == Map::<u16, H>::empty(),
    {
        let r = ProxyServer { listeners: Vec::new(), router };
        assert(r.handles() =~= Map::<u16, H>::empty());
        r
    }

    /// The router.
    pub fn router(&self) -> (r: &ServiceRouter)
        ensures
            *r == self.router_spec(),
    {
        &self.router
    }

    /// Position of the listener on `port`, if any.
    fn find_listener(&self, port: u16) -> (r: Option<usize>)
        requires
            listener_ports(self.listeners@).no_duplicates(),
        ensures
            r is None <==> !self.handles().contains_key(port),
            r matches Some(i) ==> i < self.listeners@.len() && self.listeners@[i as int].port == port,
    {
        proof { self.lemma_entries(); }
        let mut i: usize = 0;
        while i < self.listeners.len()
            invariant
                i <= self.listeners.len(),
                listener_ports(self.listeners@).no_duplicates(),
                forall|j: int| 0 <= j < i ==> (#[trigger] self.listeners@[j]).port != port,
            decreases self.listeners.len() - i,
        {
            if self.listeners[i].port == port {
                proof { self.lemma_entries(); }
                return Some(i);
            }
            i = i + 1;
        }
        proof {
            if self.handles().contains_key(port) {
                let j = choose|j: int| 0 <= j < self.listeners@.len() && self.listeners@[j].port == port;
                assert(self.listeners@[j].port != port);
            }
        }
        None
    }

    /// Removes the listener on `port`, if any, and hands its handle back.
    fn take_listener(&mut self, port: u16) -> (r: Option<H>)
        requires
            listener_ports(old(self).listeners@).no_duplicates(),
        ensures
            listener_ports(final(self).listeners@).no_duplicates(),
            final(self).router == old(self).router,
            final(self).handles() == old(self).handles().remove(port),
            r == (if old(self).handles().contains_key(port) { Some(old(self).handles()[port]) } else { None }),
    {
        let i = match self.find_listener(port) {
            Some(i) => i,
            None => {
                assert(self.handles().remove(port) =~= self.handles());
                return None;
            },
        };
        let ghost before = self.listeners@;
        proof { self.lemma_entries(); }
        let ghost old_handles = self.handles();
        let l = self.listeners.remove(i);
        proof {
            let ports0 = listener_ports(before);
            let ports1 = listener_ports(self.listeners@);
            assert(ports1 =~= ports0.remove(i as int));
            assert forall|x: int, y: int| 0 <= x < y < ports1.len() implies ports1[x] != ports1[y] by {
                let x2 = if x < i { x } else { x + 1 };
                let y2 = if y < i { y } else { y + 1 };
                assert(ports1[x] == ports0[x2]);
                assert(ports1[y] == ports0[y2]);
            }
            self.lemma_entries();
            assert forall|q: u16| #[trigger] self.handles().contains_key(q)
                <==> old_handles.remove(port).contains_key(q) by {
                if self.handles().contains_key(q) {
                    let j = choose|j: int| 0 <= j < self.listeners@.len() && self.listeners@[j].port == q;
                    let j2 = if j < i { j } else { j + 1 };
                    assert(self.listeners@[j] == before[j2]);
                    assert(ports0[j2] == q);
                    assert(ports0[i as int] == port);
                    assert(j2 != i);
                    assert(ports0[j2] != ports0[i as int]);
                    assert(ports0.contains(q));
                }
                if old_handles.remove(port).contains_key(q) {
                    let j = choose|j: int| 0 <= j < ports0.len() && ports0[j] == q;
                    assert(j != i);
                    let j2 = if j < i { j } else { j - 1 };
                    assert(self.listeners@[j2] == before[j]);
                    assert(self.listeners@[j2].port == q);
                }
            }
            assert forall|q: u16| #[trigger] self.handles().contains_key(q) implies
                self.handles()[q] == old_handles.remove(port)[q] by {
                let j = choose|j: int| 0 <= j < self.listeners@.len() && self.listeners@[j].port == q;
                let j2 = if j < i { j } else { j + 1 };
                assert(self.listeners@[j] == before[j2]);
                assert(ports0[j2] == q);
                assert(ports0.contains(q));
                let k = ports0.index_of(q);
                assert(k == j2);
            }
            assert(self.handles() =~= old_handles.remove(port));
        }
        Some(l.handle)
    }

    /// Binds the port a listener got for a service, for HTTP requests.
    ///
    /// `actual_port` is the port the operating system gave the listener
    /// (the requested one, or a fresh one when 0 was requested). Fails
    /// with `PortAlreadyBound` if the port is already bound; the caller
    /// then drops the listener.
    pub fn bind_port(&mut self, actual_port: u16, service_id: String, service_name: String) -> (r: Result<u16, DaemonError>)
        requires
            old(self).wf(),
        ensures
            final(self).wf(),
            final(self).handles() == old(self).handles(),
            old(self).router_spec().bindings_view().contains_key(actual_port) ==> {
                &&& r matches Err(DaemonError::PortAlreadyBound { port: p, service_id: s })
                    && p == actual_port && s@ == old(self).router_spec().bindings_view()[actual_port].service_id
                &&& final(self).router_spec() == old(self).router_spec()
            },
            !old(self).router_spec().bindings_view().contains_key(actual_port) ==> {
                &&& r == Ok::<u16, DaemonError>(actual_port)
                &&& final(self).router_spec().bindings_view() == old(self).router_spec().bindings_view().insert(
                    actual_port,
                    BindingView { service_id: service_id@, service_name: service_name@, port: actual_port, protocol: BindingProtocol::Http },
                )
                &&& final(self).router_spec().balancer() == old(self).router_spec().balancer()
            },
    {
        self.bind_port_with_protocol(actual_port, service_id, service_name, BindingProtocol::Http)
    }

    /// Binds the port a listener got for a service, for raw TCP
    /// connections.
    ///
    /// Fails with `PortAlreadyBound` if the port is already bound; the
    /// caller then drops the listener.
    pub fn bind_tcp_port(&mut self, actual_port: u16, service_id: String, service_name: String) -> (r: Result<u16, DaemonError>)
        requires
            old(self).wf(),
        ensures
            final(self).wf(),
            final(self).handles() == old(self).handles(),
            old(self).router_spec().bindings_view().contains_key(actual_port) ==> {
                &&& r matches Err(DaemonError::PortAlreadyBound { port: p, service_id: s })
                    && p == actual_port && s@ == old(self).router_spec().bindings_view()[actual_port].service_id
                &&& final(self).router_spec() == old(self).router_spec()
            },
            !old(self).router_spec().bindings_view().contains_key(actual_port) ==> {
                &&& r == Ok::<u16, DaemonError>(actual_port)
                &&& final(self).router_spec().bindings_view() == old(self).router_spec().bindings_view().insert(
                    actual_port,
                    BindingView { service_id: service_id@, service_name: service_name@, port: actual_port, protocol: BindingProtocol::Tcp },
                )
                &&& final(self).router_spec().balancer() == old(self).router_spec().balancer()
            },
    {
        self.bind_port_with_protocol(actual_port, service_id, service_name, BindingProtocol::Tcp)
    }

    fn bind_port_with_protocol(
        &mut self,
        actual_port: u16,
        service_id: String,
        service_name: String,
        protocol: BindingProtocol,
    ) -> (r: Result<u16, DaemonError>)
        requires
            old(self).wf(),
        ensures
            final(self).wf(),
            final(self).handles() == old(self).handles(),
            old(self).router_spec().bindings_view().contains_key(actual_port) ==> {
                &&& r matches Err(DaemonError::PortAlreadyBound { port: p, service_id: s })
                    && p == actual_port && s@ == old(self).router_spec().bindings_view()[actual_port].service_id
                &&& final(self).router_spec() == old(self).router_spec()
            },
            !old(self).router_spec().bindings_view().contains_key(actual_port) ==> {
                &&& r == Ok::<u16, DaemonError>(actual_port)
                &&& final(self).router_spec().bindings_view() == old(self).router_spec().bindings_view().insert(
                    actual_port,
                    BindingView { service_id: service_id@, service_name: service_name@, port: actual_port, protocol },
                )
                &&& final(self).router_spec().balancer() == old(self).router_spec().balancer()
            },
    {
        let ghost before = *self;
        if self.router.is_bound(actual_port) {
            let existing = match self.router.lookup(actual_port) {
                Some(b) => b.service_id,
                None => owned(""),
            };
            return Err(DaemonError::PortAlreadyBound { port: actual_port, service_id: existing });
        }
        let r = self.router.bind_with_protocol(actual_port, service_id, service_name, protocol);
        assert(r is Ok);
        proof {
            assert forall|p: u16| #[trigger] self.handles().contains_key(p) implies
                self.router.bindings_view().contains_key(p) by {
                assert(before.handles().contains_key(p));
            }
        }
        Ok(actual_port)
    }

    /// Records the listener started on a bound port.
    ///
    /// Gives the handle back, recording nothing, if the port is not bound
    /// or already has a listener.
    pub fn attach_listener(&mut self, port: u16, handle: H) -> (r: Option<H>)
        requires
            old(self).wf(),
        ensures
            final(self).wf(),
            final(self).router_spec() == old(self).router_spec(),
            (old(self).router_spec().bindings_view().contains_key(port) && !old(self).handles().contains_key(port)) ==> {
                &&& r is None
                &&& final(self).handles() == old(self).handles().insert(port, handle)
            },
            !(old(self).router_spec().bindings_view().contains_key(port) && !old(self).handles().contains_key(port)) ==> {
                &&& r == Some(handle)
                &&& final(self).handles() == old(self).handles()
            },
    {
        if !self.router.is_bound(port) {
            return Some(handle);
        }
        if self.find_listener(port).is_some() {
            return Some(handle);
        }
        let ghost before = *self;
        let ghost h = handle;
        proof { before.lemma_entries(); }
        self.listeners.push(Listener { port, handle });
        proof {
            let ports0 = listener_ports(before.listeners@);
            let ports1 = listener_ports(self.listeners@);
            assert(ports1 =~= ports0.push(port));
            assert(!ports0.contains(port)) by {
                if ports0.contains(port) {
                    let j = choose|j: int| 0 <= j < ports0.len() && ports0[j] == port;
                    assert(before.listeners@[j].port == port);
                }
            }
            assert forall|x: int, y: int| 0 <= x < y < ports1.len() implies ports1[x] != ports1[y] by {
                if y == ports0.len() {
                    assert(ports0.contains(ports0[x]));
                }
            }
            self.lemma_entries();
            assert forall|q: u16| #[trigger] self.handles().contains_key(q)
                <==> before.handles().insert(port, h).contains_key(q) by {
                if self.handles().contains_key(q) {
                    let i = choose|i: int| 0 <= i < self.listeners@.len() && self.listeners@[i].port == q;
                    if i < before.listeners@.len() {
                        assert(before.listeners@[i] == self.listeners@[i]);
                    }
                }
                if before.handles().contains_key(q) {
                    let i = choose|i: int| 0 <= i < before.listeners@.len() && before.listeners@[i].port == q;
                    assert(self.listeners@[i] == before.listeners@[i]);
                }
                if q == port {
                    assert(self.listeners@[before.listeners@.len() as int].port == port);
                }
            }
            assert forall|q: u16| #[trigger] self.handles().contains_key(q) implies
                self.handles()[q] == before.handles().insert(port, h)[q] by {
                let i = choose|i: int| 0 <= i < self.listeners@.len() && self.listeners@[i].port == q;
                if i < before.listeners@.len() {
                    assert(before.listeners@[i] == self.listeners@[i]);
                }
            }
            assert(self.handles() =~= before.handles().insert(port, h));
        }
        None
    }

    /// Unbinds a port and hands back the handle of its listener, which the
    /// caller then shuts down.
    ///
    /// Fails with `PortNotBound` if the port is not bound.
    pub fn unbind_port(&mut self, port: u16) -> (r: Result<Option<H>, DaemonError>)
        requires
            old(self).wf(),
        ensures
            final(self).wf(),
            !old(self).router_spec().bindings_view().contains_key(port) ==> {
                &&& r matches Err(DaemonError::PortNotBound { port: p }) && p == port
                &&& final(self).router_spec() == old(self).router_spec()
                &&& final(self).handles() == old(self).handles()
            },
            old(self).router_spec().bindings_view().contains_key(port) ==> {
                &&& r matches Ok(h) && h == (if old(self).handles().contains_key(port) {
                    Some(old(self).handles()[port])
                } else {
                    None
                })
                &&& final(self).router_spec().bindings_view() == old(self).router_spec().bindings_view().remove(port)
                &&& final(self).router_spec().balancer() == old(self).router_spec().balancer()
                &&& final(self).handles() == old(self).handles().remove(port)
            },
    {
        if !self.router.is_bound(port) {
            return Err(DaemonError::PortNotBound { port });
        }
        let ghost before = *self;
        let r = self.router.unbind(port);
        assert(r is Ok);
        let h = self.take_listener(port);
        proof {
            assert forall|p: u16| #[trigger] self.handles().contains_key(p) implies
                self.router.bindings_view().contains_key(p) by {
                assert(before.handles().contains_key(p));
            }
        }
        Ok(h)
    }

    /// Unbinds all ports of a service. Returns the ports that were unbound,
    /// each once, and the handles of their listeners, in the same order,
    /// which the caller then shuts down.
    pub fn unbind_service(&mut self, service_id: &str) -> (r: (Vec<u16>, Vec<H>))
        requires
            old(self).wf(),
        ensures
            final(self).wf(),
            r.0@.no_duplicates(),
            r.0@.to_set() == ports_of_service(old(self).router_spec().bindings_view(), service_id@),
            final(self).router_spec().bindings_view() == old(self).router_spec().bindings_view().remove_keys(
                ports_of_service(old(self).router_spec().bindings_view(), service_id@)),
            final(self).router_spec().balancer() == old(self).router_spec().balancer(),
            r.1@ == handles_of(r.0@, old(self).handles()),
            final(self).handles() == old(self).handles().remove_keys(r.0@.to_set()),
    {
        let ghost before = *self;
        let ports = self.router.unbind_service(service_id);
        let ghost unbound_router = self.router;
        let mut handles: Vec<H> = Vec::new();
        let mut i: usize = 0;
        while i < ports.len()
            invariant
                i <= ports.len(),
                ports@.no_duplicates(),
                listener_ports(self.listeners@).no_duplicates(),
                self.router == unbound_router,
                handles@ == handles_of(ports@.take(i as int), before.handles()),
                self.handles() == before.handles().remove_keys(ports@.take(i as int).to_set()),
            decreases ports.len() - i,
        {
            let ghost prev = self.handles();
            let p = ports[i];
            let h = self.take_listener(p);
            proof {
                let t0 = ports@.take(i as int);
                let t1 = ports@.take(i + 1);
                assert(t1.drop_last() =~= t0);
                assert(t1.last() == p);
                assert(!t0.contains(p)) by {
                    if t0.contains(p) {
                        let k = choose|k: int| 0 <= k < t0.len() && t0[k] == p;
                        assert(ports@[k] == ports@[i as int]);
                    }
                }
                assert(t1.to_set() =~= t0.to_set().insert(p));
                assert(prev.contains_key(p) <==> before.handles().contains_key(p));
                assert(prev.contains_key(p) ==> prev[p] == before.handles()[p]);
                assert(self.handles() =~= before.handles().remove_keys(t1.to_set()));
            }
            match h {
                Some(h) => {
                    handles.push(h);
                },
                None => {},
            }
            i = i + 1;
        }
        proof {
            assert(ports@.take(ports@.len() as int) =~= ports@);
            assert forall|p: u16| #[trigger] self.handles().contains_key(p) implies
                self.router.bindings_view().contains_key(p) by {
                assert(before.handles().contains_key(p));
                assert(!ports@.to_set().contains(p));
            }
        }
        (ports, handles)
    }

    /// The ports that have a listener, each once.
    pub fn bound_ports(&self) -> (r: Vec<u16>)
        requires
            self.wf(),
        ensures
            r@.no_duplicates(),
            r@.to_set() == self.handles().dom(),
    {
        proof { self.lemma_entries(); }
        let mut out: Vec<u16> = Vec::new();
        let mut i: usize = 0;
        while i < self.listeners.len()
            invariant
                i <= self.listeners.len(),
                listener_ports(self.listeners@).no_duplicates(),
                out@ == listener_ports(self.listeners@).take(i as int),
            decreases self.listeners.len() - i,
        {
            out.push(self.listeners[i].port);
            proof {
                assert(out@ =~= listener_ports(self.listeners@).take(i + 1));
            }
            i = i + 1;
        }
        proof {
            let ports = listener_ports(self.listeners@);
            assert(out@ =~= ports);
            assert forall|p: u16| out@.to_set().contains(p) <==> self.handles().dom().contains(p) by {
                if self.handles().contains_key(p) {
                    let j = choose|j: int| 0 <= j < self.listeners@.len() && self.listeners@[j].port == p;
                    assert(ports[j] == p);
                }
            }
            assert(out@.to_set() =~= self.handles().dom());
        }
        out
    }

    /// Whether a port has a listener.
    pub fn is_bound(&self, port: u16) -> (r: bool)
        requires
            self.wf(),
        ensures
            r == self.handles().contains_key(port),
    {
        self.find_listener(port).is_some()
    }

    /// All current port bindings, each once.
    pub fn list_bindings(&self) -> (r: Vec<ServiceBinding>)
        requires
            self.wf(),
        ensures
            lists_bindings(binding_views(r@), self.router_spec().bindings_view(), |b: BindingView| true),
    {
        self.router.list_bindings()
    }

    /// Stops all listeners: hands back every listener handle, in no
    /// particular order, for the caller to shut down. The bindings stay.
    pub fn shutdown(&mut self) -> (r: Vec<H>)
        requires
            old(self).wf(),
        ensures
            final(self).wf(),
            final(self).router_spec() == old(self).router_spec(),
            final(self).handles() == Map::<u16, H>::empty(),
            r@.len() == old(self).handles().len(),
            forall|p: u16| #[trigger] old(self).handles().contains_key(p) ==> r@.contains(old(self).handles()[p]),
    {
        let ghost before = *self;
        proof {
            before.lemma_entries();
            listener_ports(before.listeners@).unique_seq_to_set();
            assert(listener_ports(before.listeners@).to_set() =~= before.handles().dom());
        }
        let mut taken: Vec<Listener<H>> = Vec::new();
        std::mem::swap(&mut taken, &mut self.listeners);
        let mut out: Vec<H> = Vec::new();
        let mut rest = taken;
        let ghost all = before.listeners@;
        while rest.len() > 0
            invariant
                all == before.listeners@,
                rest@.len() + out@.len() == all.len(),
                forall|k: int| 0 <= k < out@.len() ==> #[trigger] out@[k] == all[all.len() - 1 - k].handle,
                rest@ == all.take(rest@.len() as int),
            decreases rest.len(),
        {
            let ghost n = rest@.len();
            let l = rest.pop().unwrap();
            proof {
                assert(l == all[n - 1]);
                assert(rest@ =~= all.take(n - 1));
            }
            out.push(l.handle);
        }
        proof {
            assert(self.handles() =~= Map::<u16, H>::empty());
            assert forall|p: u16| #[trigger] before.handles().contains_key(p) implies out@.contains(before.handles()[p]) by {
                let i = choose|i: int| 0 <= i < all.len() && all[i].port == p;
                let k = all.len() - 1 - i;
                assert(out@[k] == all[i].handle);
            }
            assert(listener_ports(all).len() == all.len());
        }
        out
    }
}

/// A response the proxy sends back for an HTTP request.
#[derive(Debug)]
pub struct ProxyResponse {
    /// HTTP status code.
    pub status: u16,
    /// Response headers, in order.
    pub headers: Vec<(String, String)>,
    /// Response body.
    pub body: Vec<u8>,
}

/// The response is a plain error response: the status, no headers, and
/// the message as its body.
pub open spec fn is_plain_response(r: ProxyResponse, status: u16, message: Seq<char>) -> bool {
    &&& r.status == status
    &&& r.headers@.len() == 0
    &&& r.body@ == utf8(message)
}

/// Creates an error response with the given status and message.
pub fn error_response(status: u16, message: &str) -> (r: ProxyResponse)
    ensures
        is_plain_response(r, status, message@),
{
    ProxyResponse { status, headers: Vec::new(), body: utf8_bytes(message) }
}

/// How an incoming HTTP request is handled.
#[derive(Debug)]
pub enum RequestRoute {
    /// Hand the request to the request handler, for this service.
    Forward { service_id: String },
    /// Answer at once with this response.
    Respond(ProxyResponse),
}

/// Why a forwarded request got no reply from its service.
#[derive(Debug)]
pub enum ForwardFailure {
    /// The request body could not be read.
    BodyUnreadable,
    /// The request handler failed.
    HandlerFailed(DaemonError),
}

/// The response to a forwarded request: the service's reply, "Bad
/// request" (400) when the body could not be read, or "Internal server
/// error" (500) when the handler failed.
pub fn request_reply(outcome: Result<ProxyResponse, ForwardFailure>) -> (r: ProxyResponse)
    ensures
        outcome matches Ok(reply) ==> r == reply,
        outcome matches Err(ForwardFailure::BodyUnreadable) ==> is_plain_response(r, 400, "Bad request"@),
        outcome matches Err(ForwardFailure::HandlerFailed(_)) ==> is_plain_response(r, 500, "Internal server error"@),
{
    match outcome {
        Ok(reply) => reply,
        Err(ForwardFailure::BodyUnreadable) => error_response(400, "Bad request"),
        Err(ForwardFailure::HandlerFailed(_)) => error_response(500, "Internal server error"),
    }
}

impl<H> ProxyServer<H> {
    /// Decides how a request arriving on `port` is handled: "Service
    /// unavailable" (503) when no service is bound to the port, "Forbidden"
    /// (403) when the service only allows internal access, "Service
    /// unavailable" (503) when no request handler is configured; otherwise
    /// the request goes to the bound service.
    pub fn route_request(&self, port: u16, network_manager: &NetworkManager, handler_configured: bool) -> (r: RequestRoute)
        requires
            self.wf(),
            network_manager.wf(),
        ensures
            !self.router_spec().bindings_view().contains_key(port) ==>
                (r matches RequestRoute::Respond(resp) && is_plain_response(resp, 503, "Service unavailable"@)),
            self.router_spec().bindings_view().contains_key(port) ==> {
                let sid = self.router_spec().bindings_view()[port].service_id;
                &&& !reachable_from_outside(network_manager.networks(), network_manager.memberships(), sid) ==>
                    (r matches RequestRoute::Respond(resp)
                        && is_plain_response(resp, 403, "Forbidden: Service only allows internal access"@))
                &&& reachable_from_outside(network_manager.networks(), network_manager.memberships(), sid)
                    && !handler_configured ==>
                    (r matches RequestRoute::Respond(resp) && is_plain_response(resp, 503, "Service unavailable"@))
                &&& reachable_from_outside(network_manager.networks(), network_manager.memberships(), sid)
                    && handler_configured ==>
                    (r matches RequestRoute::Forward { service_id } && service_id@ == sid)
            },
    {
        let binding = match self.router.lookup(port) {
            Some(b) => b,
            None => {
                return RequestRoute::Respond(error_response(503, "Service unavailable"));
            },
        };
        let ingress = validate_ingress(binding.service_id.as_str(), network_manager);
        if !ingress.is_allowed() {
            return RequestRoute::Respond(error_response(403, "Forbidden: Service only allows internal access"));
        }
        if !handler_configured {
            return RequestRoute::Respond(error_response(503, "Service unavailable"));
        }
        RequestRoute::Forward { service_id: binding.service_id }
    }

    /// Decides where a TCP connection arriving on `port` goes: to the bound
    /// service, or an error: `PortNotBound` when no service is bound to the
    /// port, `NetworkAccessDenied` when the service only allows internal
    /// access, an I/O error when no connection handler is configured.
    pub fn route_tcp_connection(&self, port: u16, network_manager: &NetworkManager, handler_configured: bool) -> (r: Result<String, DaemonError>)
        requires
            self.wf(),
            network_manager.wf(),
        ensures
            !self.router_spec().bindings_view().contains_key(port) ==>
                (r matches Err(DaemonError::PortNotBound { port: p }) && p == port),
            self.router_spec().bindings_view().contains_key(port) ==> {
                let sid = self.router_spec().bindings_view()[port].service_id;
                &&& !reachable_from_outside(network_manager.networks(), network_manager.memberships(), sid) ==>
                    (r matches Err(DaemonError::NetworkAccessDenied { service_id, reason })
                        && service_id@ == sid && reason@ == "Service only allows internal access"@)
                &&& reachable_from_outside(network_manager.networks(), network_manager.memberships(), sid)
                    && !handler_configured ==>
                    (r matches Err(DaemonError::IoError(m)) && m@ == "No TCP connection handler configured"@)
                &&& reachable_from_outside(network_manager.networks(), network_manager.memberships(), sid)
                    && handler_configured ==>
                    (r matches Ok(service_id) && service_id@ == sid)
            },
    {
        let binding = match self.router.lookup(port) {
            Some(b) => b,
            None => {
                return Err(DaemonError::PortNotBound { port });
            },
        };
        let ingress = validate_ingress(binding.service_id.as_str(), network_manager);
        if !ingress.is_allowed() {
            return Err(DaemonError::NetworkAccessDenied {
                service_id: binding.service_id,
                reason: owned("Service only allows internal access"),
            });
        }
        if !handler_configured {
            return Err(DaemonError::IoError(owned("No TCP connection handler configured")));
        }
        Ok(binding.service_id)
    }
}

/// A port has a listener only while it is bound in the router: every
/// operation of the server keeps this.
pub proof fn lemma_listeners_are_bound<H>(server: ProxyServer<H>, port: u16)
    requires
        server.wf(),
        server.handles().contains_key(port),
    ensures
        server.router_spec().bindings_view().contains_key(port),
{
}

} // verus!
