//! Capability grants of a service: what it may connect to and listen on.
//!
//! Fabricks is deny-by-default: a service may only use what its
//! capabilities grant.

use vstd::prelude::*;

use crate::policy::model::names_view;

verus! {

/// Network capability grants.
pub struct NetworkCapabilities {
    /// Targets ("host:port") the service may connect to.
    pub connect: Option<Vec<String>>,
    /// Ports the service may listen on.
    pub listen: Option<Vec<u16>>,
    /// Whether every outbound connection is allowed.
    pub allow_all_outbound: Option<bool>,
}

/// Filesystem capability grants.
pub struct FilesystemCapabilities {
    /// Paths the service may read.
    pub read: Option<Vec<String>>,
    /// Paths the service may write.
    pub write: Option<Vec<String>>,
    /// Paths the service may read and write.
    pub read_write: Option<Vec<String>>,
}

/// The capabilities granted to a service.
pub struct Capabilities {
    /// Environment variables the service may read.
    pub env: Option<Vec<String>>,
    /// Network grants.
    pub network: Option<NetworkCapabilities>,
    /// Filesystem grants.
    pub filesystem: Option<FilesystemCapabilities>,
    /// WASM imports the service may use.
    pub wasm: Option<Vec<String>>,
}

/// The capabilities allow connecting to `target` ("host:port"): every
/// outbound connection is allowed, or the target is listed.
pub open spec fn grants_connect(caps: Capabilities, target: Seq<char>) -> bool {
    match caps.network {
        Some(net) => {
            ||| net.allow_all_outbound == Some(true)
            ||| match net.connect {
                Some(list) => names_view(list@).contains(target),
                None => false,
            }
        }
        None => false,
    }
}

/// The capabilities allow listening on `port`.
pub open spec fn grants_listen(caps: Capabilities, port: u16) -> bool {
    match caps.network {
        Some(net) => match net.listen {
            Some(ports) => ports@.contains(port),
            None => false,
        },
        None => false,
    }
}

impl Capabilities {
    /// Whether the capabilities allow connecting to `target`.
    pub fn can_connect(&self, target: &str) -> (r: bool)
        ensures
            r == grants_connect(*self, target@),
    {
        match &self.network {
            None => false,
            Some(net) => {
                if net.allow_all_outbound == Some(true) {
                    return true;
                }
                match &net.connect {
                    None => false,
                    Some(list) => {
                        let ghost l = names_view(list@);
                        let mut i: usize = 0;
                        while i < list.len()
                            invariant
                                i <= list.len(),
                                l == names_view(list@),
                                self.network == Some(*net),
                                net.connect == Some(*list),
                                net.allow_all_outbound != Some(true),
                                forall|j: int| 0 <= j < i ==> l[j] != target@,
                            decreases list.len() - i,
                        {
                            assert(l[i as int] == list@[i as int]@);
                            if crate::text::str_eq(list[i].as_str(), target) {
                                assert(l.contains(target@));
                                return true;
                            }
                            i = i + 1;
                        }
                        false
                    }
                }
            }
        }
    }

    /// Whether the capabilities allow listening on `port`.
    pub fn can_listen(&self, port: u16) -> (r: bool)
        ensures
            r == grants_listen(*self, port),
    {
        match &self.network {
            None => false,
            Some(net) => match &net.listen {
                None => false,
                Some(ports) => {
                    let mut i: usize = 0;
                    while i < ports.len()
                        invariant
                            i <= ports.len(),
                            self.network == Some(*net),
                            net.listen == Some(*ports),
                            forall|j: int| 0 <= j < i ==> ports@[j] != port,
                        decreases ports.len() - i,
                    {
                        if ports[i] == port {
                            assert(ports@[i as int] == port);
                            return true;
                        }
                        i = i + 1;
                    }
                    false
                }
            },
        }
    }
}

} // verus!
