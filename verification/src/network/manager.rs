//! Network lifecycle and service membership.
//!
//! Networks provide isolation between services: services can only
//! communicate if they share at least one network. The manager keeps the
//! networks by ID, the networks each service has joined, and the service
//! registry used for name resolution.

use vstd::prelude::*;

use crate::clock::now_millis;
use crate::error::{cat2, DaemonError};
use crate::ids::{generate_network_id, is_network_id};
use crate::keyed::KeyedList;
use crate::policy::model::{clone_names, names_view, opt_text};
use crate::text::{owned, str_eq};

use super::registry::{extract_service_name, lookup, name_part, ServiceRegistry};
use super::types::{
    detail_matches, info_matches, NetworkAccess, NetworkConfig, NetworkDetail, NetworkInfo,
    NetworkOptions, NetworkState, NetworkStateView,
};

verus! {

/// The abstract values of a table of networks.
pub open spec fn state_views(m: Map<Seq<char>, NetworkState>) -> Map<Seq<char>, NetworkStateView> {
    m.map_values(|s: NetworkState| s@)
}

/// The texts of a table of network-ID lists.
pub open spec fn list_views(m: Map<Seq<char>, Vec<String>>) -> Map<Seq<char>, Seq<Seq<char>>> {
    m.map_values(|v: Vec<String>| names_view(v@))
}

/// Some network is called `name`.
pub open spec fn name_taken(nets: Map<Seq<char>, NetworkStateView>, name: Seq<char>) -> bool {
    exists|k: Seq<char>| #[trigger] nets.contains_key(k) && nets[k].name == name
}

/// The networks service `s` has joined, in the order it joined them.
pub open spec fn nets_of(ms: Map<Seq<char>, Seq<Seq<char>>>, s: Seq<char>) -> Seq<Seq<char>> {
    if ms.contains_key(s) { ms[s] } else { Seq::empty() }
}

/// Some network that `a` has joined is also one that `b` has joined.
pub open spec fn share_network(ms: Map<Seq<char>, Seq<Seq<char>>>, a: Seq<char>, b: Seq<char>) -> bool {
    exists|i: int| 0 <= i < nets_of(ms, a).len() && nets_of(ms, b).contains(#[trigger] nets_of(ms, a)[i])
}

/// Some existing network that `s` has joined allows external access.
pub open spec fn reachable_from_outside(
    nets: Map<Seq<char>, NetworkStateView>,
    ms: Map<Seq<char>, Seq<Seq<char>>>,
    s: Seq<char>,
) -> bool {
    exists|i: int|
        0 <= i < nets_of(ms, s).len() && nets.contains_key(#[trigger] nets_of(ms, s)[i])
            && nets[nets_of(ms, s)[i]].options.access != NetworkAccess::Internal
}

/// The network a fresh configuration becomes under `id` at time `now`.
pub open spec fn fresh_network(
    name: Seq<char>,
    description: Option<Seq<char>>,
    options: NetworkOptions,
    id: Seq<char>,
    now: i64,
) -> NetworkStateView {
    NetworkStateView {
        id,
        name,
        description,
        options,
        members: Set::empty(),
        created_at: now,
        updated_at: now,
    }
}

/// `after` is `before` with its member set replaced by `members`; only the
/// update time may differ besides.
pub open spec fn with_members(after: NetworkStateView, before: NetworkStateView, members: Set<Seq<char>>) -> bool {
    after == NetworkStateView { members, updated_at: after.updated_at, ..before }
}

/// `s` with every occurrence of each text in `gone` left out, order kept.
pub open spec fn drop_all(s: Seq<Seq<char>>, gone: Set<Seq<char>>) -> Seq<Seq<char>>
    decreases s.len(),
{
    if s.len() == 0 {
        s
    } else {
        let rest = drop_all(s.drop_last(), gone);
        if gone.contains(s.last()) { rest } else { rest.push(s.last()) }
    }
}

/// The network lists after `s` leaves `n`: `n` is dropped from the list, and
/// a list left empty goes altogether.
pub open spec fn leave_list(ms: Map<Seq<char>, Seq<Seq<char>>>, s: Seq<char>, n: Seq<char>) -> Map<Seq<char>, Seq<Seq<char>>> {
    if !ms.contains_key(s) {
        ms
    } else if drop_all(ms[s], set![n]).len() == 0 {
        ms.remove(s)
    } else {
        ms.insert(s, drop_all(ms[s], set![n]))
    }
}

/// The reason given when a service joins a network it is already a member of.
pub open spec fn already_member_text(network_id: Seq<char>) -> Seq<char> {
    "already a member of network "@ + network_id
}

/// Whether the list holds the text of `x`.
pub(crate) fn contains_text(v: &Vec<String>, x: &str) -> (r: bool)
    ensures
        r == names_view(v@).contains(x@),
{
    let mut i: usize = 0;
    while i < v.len()
        invariant
            i <= v.len(),
            forall|j: int| 0 <= j < i ==> (#[trigger] v@[j])@ != x@,
        decreases v.len() - i,
    {
        if str_eq(v[i].as_str(), x) {
            proof { assert(names_view(v@)[i as int] == x@); }
            return true;
        }
        i = i + 1;
    }
    proof {
        if names_view(v@).contains(x@) {
            let j = choose|j: int| 0 <= j < names_view(v@).len() && names_view(v@)[j] == x@;
            assert(v@[j]@ != x@);
        }
    }
    false
}

/// The list with every entry whose text is `x` left out, order kept.
fn without_text(v: &Vec<String>, x: &str) -> (r: Vec<String>)
    ensures
        names_view(r@) == drop_all(names_view(v@), set![x@]),
{
    let mut out: Vec<String> = Vec::new();
    let mut i: usize = 0;
    while i < v.len()
        invariant
            i <= v.len(),
            names_view(out@) == drop_all(names_view(v@).take(i as int), set![x@]),
        decreases v.len() - i,
    {
        let ghost before = names_view(out@);
        assert(names_view(v@).take(i + 1).drop_last() =~= names_view(v@).take(i as int));
        if !str_eq(v[i].as_str(), x) {
            out.push(v[i].clone());
            assert(names_view(out@) =~= before.push(v@[i as int]@));
        }
        i = i + 1;
    }
    assert(names_view(v@).take(v.len() as int) =~= names_view(v@));
    out
}

/// The network lists after `s` leaves every network in `gone`.
pub open spec fn leave_all(ms: Map<Seq<char>, Seq<Seq<char>>>, s: Seq<char>, gone: Set<Seq<char>>) -> Map<Seq<char>, Seq<Seq<char>>> {
    if !ms.contains_key(s) {
        ms
    } else if drop_all(ms[s], gone).len() == 0 {
        ms.remove(s)
    } else {
        ms.insert(s, drop_all(ms[s], gone))
    }
}

/// The networks among `listed` that exist and have `s` as a member.
pub open spec fn joined_among(nets: Map<Seq<char>, NetworkStateView>, s: Seq<char>, listed: Seq<Seq<char>>) -> Set<Seq<char>> {
    Set::new(|n: Seq<char>| listed.contains(n) && nets.contains_key(n) && nets[n].members.contains(s))
}

/// The member set a network has after `s` leaves the networks in `listed`.
pub open spec fn members_after_leaving(v: NetworkStateView, n: Seq<char>, s: Seq<char>, listed: Seq<Seq<char>>) -> Set<Seq<char>> {
    if listed.contains(n) { v.members.remove(s) } else { v.members }
}

/// A pushed sequence holds what it held before and the new entry.
proof fn lemma_push_contains(s: Seq<Seq<char>>, v: Seq<char>, x: Seq<char>)
    ensures
        s.push(v).contains(x) <==> s.contains(x) || x == v,
{
    if s.push(v).contains(x) && x != v {
        let i = choose|i: int| 0 <= i < s.push(v).len() && s.push(v)[i] == x;
        assert(s[i] == x);
    }
    if s.contains(x) {
        let i = choose|i: int| 0 <= i < s.len() && s[i] == x;
        assert(s.push(v)[i] == x);
    }
    if x == v {
        assert(s.push(v)[s.len() as int] == x);
    }
}

/// What `drop_all` keeps: the entries not in `gone`.
pub proof fn lemma_drop_all_contains(s: Seq<Seq<char>>, gone: Set<Seq<char>>, x: Seq<char>)
    ensures
        drop_all(s, gone).contains(x) <==> s.contains(x) && !gone.contains(x),
    decreases s.len(),
{
    if s.len() > 0 {
        lemma_drop_all_contains(s.drop_last(), gone, x);
        assert(s =~= s.drop_last().push(s.last()));
        lemma_push_contains(s.drop_last(), s.last(), x);
        lemma_push_contains(drop_all(s.drop_last(), gone), s.last(), x);
    }
}

/// Dropping nothing keeps the list.
pub proof fn lemma_drop_all_empty(s: Seq<Seq<char>>)
    ensures
        drop_all(s, Set::empty()) == s,
    decreases s.len(),
{
    if s.len() > 0 {
        lemma_drop_all_empty(s.drop_last());
        assert(s.drop_last().push(s.last()) =~= s);
    }
}

/// Dropping `a` and then `b` drops their union.
pub proof fn lemma_drop_all_twice(s: Seq<Seq<char>>, a: Set<Seq<char>>, b: Set<Seq<char>>)
    ensures
        drop_all(drop_all(s, a), b) == drop_all(s, a.union(b)),
    decreases s.len(),
{
    if s.len() > 0 {
        lemma_drop_all_twice(s.drop_last(), a, b);
        let r = drop_all(s.drop_last(), a);
        if !a.contains(s.last()) {
            assert(r.push(s.last()).drop_last() =~= r);
        }
    }
}

/// `drop_all` keeps a list free of repeats.
pub proof fn lemma_drop_all_no_duplicates(s: Seq<Seq<char>>, gone: Set<Seq<char>>)
    requires
        s.no_duplicates(),
    ensures
        drop_all(s, gone).no_duplicates(),
    decreases s.len(),
{
    if s.len() > 0 {
        assert(s.drop_last().no_duplicates());
        lemma_drop_all_no_duplicates(s.drop_last(), gone);
        if !gone.contains(s.last()) {
            let r = drop_all(s.drop_last(), gone);
            lemma_drop_all_contains(s.drop_last(), gone, s.last());
            if s.drop_last().contains(s.last()) {
                let i = choose|i: int| 0 <= i < s.drop_last().len() && s.drop_last()[i] == s.last();
                assert(s[i] == s[s.len() - 1]);
            }
            assert forall|i: int, j: int| 0 <= i < j < r.push(s.last()).len()
                implies r.push(s.last())[i] != r.push(s.last())[j] by {
                if j == r.len() {
                    assert(r.contains(r[i]));
                }
            }
        }
    }
}

/// Leaving one more network, one step after leaving the networks in `gone`.
proof fn lemma_leave_step(ms: Map<Seq<char>, Seq<Seq<char>>>, s: Seq<char>, gone: Set<Seq<char>>, n: Seq<char>)
    ensures
        leave_list(leave_all(ms, s, gone), s, n) == leave_all(ms, s, gone.insert(n)),
{
    if ms.contains_key(s) {
        lemma_drop_all_twice(ms[s], gone, set![n]);
        assert(gone.union(set![n]) =~= gone.insert(n));
        if drop_all(ms[s], gone).len() == 0 {
            assert(drop_all(ms[s], gone) =~= Seq::<Seq<char>>::empty());
            assert(drop_all(Seq::<Seq<char>>::empty(), set![n]) =~= Seq::<Seq<char>>::empty());
        } else if drop_all(ms[s], gone.insert(n)).len() == 0 {
            assert(ms.insert(s, drop_all(ms[s], gone)).remove(s) =~= ms.remove(s));
        } else {
            assert(ms.insert(s, drop_all(ms[s], gone)).insert(s, drop_all(ms[s], gone.insert(n)))
                =~= ms.insert(s, drop_all(ms[s], gone.insert(n))));
        }
    }
}

/// The network lists after each service in `members` joins network `id`.
pub open spec fn join_all(ms: Map<Seq<char>, Seq<Seq<char>>>, members: Set<Seq<char>>, id: Seq<char>) -> Map<Seq<char>, Seq<Seq<char>>> {
    Map::new(
        |k: Seq<char>| ms.contains_key(k) || members.contains(k),
        |k: Seq<char>| if members.contains(k) { nets_of(ms, k).push(id) } else { ms[k] },
    )
}

/// The abstract values of a list of networks.
pub open spec fn network_views(s: Seq<NetworkState>) -> Seq<NetworkStateView> {
    s.map_values(|n: NetworkState| n@)
}

/// The networks after loading `states` in order: each is stored under its
/// ID, a later one replacing an earlier one with the same ID.
pub open spec fn loaded_networks(nets: Map<Seq<char>, NetworkStateView>, states: Seq<NetworkStateView>) -> Map<Seq<char>, NetworkStateView>
    decreases states.len(),
{
    if states.len() == 0 {
        nets
    } else {
        loaded_networks(nets, states.drop_last()).insert(states.last().id, states.last())
    }
}

/// The network lists after loading `states` in order: each member of each
/// loaded network gets that network's ID appended to its list.
pub open spec fn loaded_memberships(ms: Map<Seq<char>, Seq<Seq<char>>>, states: Seq<NetworkStateView>) -> Map<Seq<char>, Seq<Seq<char>>>
    decreases states.len(),
{
    if states.len() == 0 {
        ms
    } else {
        join_all(loaded_memberships(ms, states.drop_last()), states.last().members, states.last().id)
    }
}

/// Manages networks, service membership and the service registry.
pub struct NetworkManager {
    networks: KeyedList<NetworkState>,
    service_networks: KeyedList<Vec<String>>,
    registry: ServiceRegistry,
}

impl NetworkManager {
    /// The networks, by ID.
    pub closed spec fn networks(&self) -> Map<Seq<char>, NetworkStateView> {
        state_views(self.networks@)
    }

    /// The networks each service has joined, by service ID.
    pub closed spec fn memberships(&self) -> Map<Seq<char>, Seq<Seq<char>>> {
        list_views(self.service_networks@)
    }

    /// The service registry.
    pub closed spec fn reg(&self) -> ServiceRegistry {
        self.registry
    }

    /// The tables are well formed and every network is stored under its ID.
    pub closed spec fn wf(&self) -> bool {
        &&& self.networks.wf()
        &&& self.service_networks.wf()
        &&& self.registry.wf()
        &&& forall|k: Seq<char>| #[trigger] self.networks@.contains_key(k)
                ==> self.networks@[k].wf() && self.networks@[k].id@ == k
        &&& forall|k: Seq<char>| #[trigger] self.service_networks@.contains_key(k)
                ==> self.service_networks@[k]@.len() > 0
    }

    /// Creates a manager with no networks, using the given registry.
    pub fn new(registry: ServiceRegistry) -> (r: Self)
        requires
            registry.wf(),
        ensures
            r.wf(),
            r.networks() == Map::<Seq<char>, NetworkStateView>::empty(),
            r.memberships() == Map::<Seq<char>, Seq<Seq<char>>>::empty(),
            r.reg() == registry,
    {
        let r = NetworkManager { networks: KeyedList::new(), service_networks: KeyedList::new(), registry };
        assert(r.networks() =~= Map::<Seq<char>, NetworkStateView>::empty());
        assert(r.memberships() =~= Map::<Seq<char>, Seq<Seq<char>>>::empty());
        r
    }

    /// Gets a reference to the service registry.
    pub fn registry(&self) -> (r: &ServiceRegistry)
        ensures
            *r == self.reg(),
    {
        &self.registry
    }

    /// Position in the network table of a network called `name`, if any.
    fn find_by_name(&self, name: &str) -> (r: Option<usize>)
        requires
            self.wf(),
        ensures
            r is None <==> !name_taken(self.networks(), name@),
            r matches Some(i) ==> i < self.networks.size()
                && self.networks.vals()[i as int].name@ == name@
                && self.networks@.contains_key(self.networks.keys()[i as int])
                && self.networks@[self.networks.keys()[i as int]] == self.networks.vals()[i as int],
    {
        proof { self.networks.lemma_view(); }
        let n = self.networks.len();
        let mut i: usize = 0;
        while i < n
            invariant
                self.wf(),
                n == self.networks.size(),
                i <= n,
                forall|j: int| 0 <= j < i ==> (#[trigger] self.networks.vals()[j]).name@ != name@,
            decreases n - i,
        {
            if str_eq(self.networks.value_at(i).name.as_str(), name) {
                proof {
                    self.networks.lemma_view();
                    let k = self.networks.keys()[i as int];
                    assert(self.networks@[k] == self.networks.vals()[i as int]);
                    assert(self.networks().contains_key(k) && self.networks()[k].name == name@);
                }
                return Some(i);
            }
            i = i + 1;
        }
        proof {
            self.networks.lemma_view();
            if name_taken(self.networks(), name@) {
                let k = choose|k: Seq<char>| #[trigger] self.networks().contains_key(k) && self.networks()[k].name == name@;
                assert(self.networks.keys().contains(k));
                let j = choose|j: int| 0 <= j < self.networks.keys().len() && self.networks.keys()[j] == k;
                assert(self.networks@[self.networks.keys()[j]] == self.networks.vals()[j]);
                assert(self.networks.vals()[j].name@ != name@);
            }
        }
        None
    }
    /// Creates a network from `config` under the given ID, created at `now`.
    ///
    /// Fails with `NetworkExists` if a network with the same name exists.
    pub fn create_network_with_id(&mut self, config: NetworkConfig, id: String, now: i64) -> (r: Result<String, DaemonError>)
        requires
            old(self).wf(),
        ensures
            final(self).wf(),
            final(self).memberships() == old(self).memberships(),
            final(self).reg() == old(self).reg(),
            name_taken(old(self).networks(), config.name@) ==> {
                &&& r == Err::<String, DaemonError>(DaemonError::NetworkExists(config.name))
                &&& final(self).networks() == old(self).networks()
            },
            !name_taken(old(self).networks(), config.name@) ==> {
                &&& r matches Ok(rid) && rid@ == id@
                &&& final(self).networks() == old(self).networks().insert(
                    id@,
                    fresh_network(config.name@, opt_text(config.description), config.options, id@, now),
                )
            },
    {
        if self.find_by_name(config.name.as_str()).is_some() {
            return Err(DaemonError::NetworkExists(config.name));
        }
        let key = id.clone();
        let rid = id.clone();
        let ghost cfg_name = config.name@;
        let ghost cfg_desc = opt_text(config.description);
        let ghost cfg_opts = config.options;
        let state = NetworkState::with_id(config, id, now);
        self.networks.insert(key, state);
        proof {
            assert(self.networks() =~= old(self).networks().insert(
                rid@,
                fresh_network(cfg_name, cfg_desc, cfg_opts, rid@, now),
            ));
        }
        Ok(rid)
    }

    /// Creates a new network with a fresh random ID and the current time.
    ///
    /// Fails with `NetworkExists` if a network with the same name exists.
    pub fn create_network(&mut self, config: NetworkConfig) -> (r: Result<String, DaemonError>)
        requires
            old(self).wf(),
        ensures
            final(self).wf(),
            final(self).memberships() == old(self).memberships(),
            final(self).reg() == old(self).reg(),
            name_taken(old(self).networks(), config.name@) ==> {
                &&& r == Err::<String, DaemonError>(DaemonError::NetworkExists(config.name))
                &&& final(self).networks() == old(self).networks()
            },
            !name_taken(old(self).networks(), config.name@) ==> {
                &&& (r matches Ok(rid) && is_network_id(rid@)
                    && final(self).networks() == old(self).networks().insert(
                        rid@,
                        fresh_network(config.name@, opt_text(config.description), config.options, rid@,
                            final(self).networks()[rid@].created_at),
                    ))
            },
    {
        let id = generate_network_id();
        let now = now_millis();
        self.create_network_with_id(config, id, now)
    }

    /// Deletes a network by ID.
    ///
    /// Fails with `NetworkNotFound` if there is no such network and with
    /// `NetworkHasMembers` if services are still members of it.
    pub fn delete_network(&mut self, id: &str) -> (r: Result<(), DaemonError>)
        requires
            old(self).wf(),
        ensures
            final(self).wf(),
            final(self).memberships() == old(self).memberships(),
            final(self).reg() == old(self).reg(),
            !old(self).networks().contains_key(id@) ==> {
                &&& r matches Err(DaemonError::NetworkNotFound(s)) && s@ == id@
                &&& final(self).networks() == old(self).networks()
            },
            old(self).networks().contains_key(id@) && !old(self).networks()[id@].members.is_empty() ==> {
                &&& r matches Err(DaemonError::NetworkHasMembers(s)) && s@ == id@
                &&& final(self).networks() == old(self).networks()
            },
            old(self).networks().contains_key(id@) && old(self).networks()[id@].members.is_empty() ==> {
                &&& r is Ok
                &&& final(self).networks() == old(self).networks().remove(id@)
            },
    {
        match self.networks.get(id) {
            None => {
                return Err(DaemonError::NetworkNotFound(owned(id)));
            },
            Some(n) => {
                proof { n.members.lemma_view(); }
                if n.member_count() != 0 {
                    proof {
                        if n@.members.is_empty() {
                            assert(n@.members.len() == 0);
                        }
                    }
                    return Err(DaemonError::NetworkHasMembers(owned(id)));
                }
                proof { assert(n@.members =~= Set::<Seq<char>>::empty()); }
            },
        }
        let _ = self.networks.remove(id);
        proof {
            assert(self.networks() =~= old(self).networks().remove(id@));
        }
        Ok(())
    }

    /// Gets a network by ID.
    pub fn get_network(&self, id: &str) -> (r: Option<NetworkDetail>)
        requires
            self.wf(),
        ensures
            r is Some <==> self.networks().contains_key(id@),
            r matches Some(d) ==> detail_matches(d, self.networks()[id@]),
    {
        match self.networks.get(id) {
            Some(n) => Some(NetworkDetail::from_state(n)),
            None => None,
        }
    }

    /// Gets a network by name.
    pub fn get_network_by_name(&self, name: &str) -> (r: Option<NetworkDetail>)
        requires
            self.wf(),
        ensures
            r is None <==> !name_taken(self.networks(), name@),
            r matches Some(d) ==> self.networks().contains_key(d.id@) && self.networks()[d.id@].name == name@
                && detail_matches(d, self.networks()[d.id@]),
    {
        match self.find_by_name(name) {
            Some(i) => {
                let d = NetworkDetail::from_state(self.networks.value_at(i));
                proof {
                    let k = self.networks.keys()[i as int];
                    assert(self.networks().contains_key(k));
                }
                Some(d)
            },
            None => None,
        }
    }

    /// Gets a network by ID or by name: an ID match comes first.
    pub fn get_network_by_id_or_name(&self, id_or_name: &str) -> (r: Option<NetworkDetail>)
        requires
            self.wf(),
        ensures
            self.networks().contains_key(id_or_name@) ==> (r matches Some(d)
                && detail_matches(d, self.networks()[id_or_name@])),
            !self.networks().contains_key(id_or_name@) ==> {
                &&& r is None <==> !name_taken(self.networks(), id_or_name@)
                &&& r matches Some(d) ==> exists|k: Seq<char>| #[trigger] self.networks().contains_key(k)
                    && self.networks()[k].name == id_or_name@ && detail_matches(d, self.networks()[k])
            },
    {
        match self.networks.get(id_or_name) {
            Some(n) => Some(NetworkDetail::from_state(n)),
            None => self.get_network_by_name(id_or_name),
        }
    }

    /// Resolves a network ID or name to an ID: an ID match comes first.
    pub fn resolve_network_id(&self, id_or_name: &str) -> (r: Option<String>)
        requires
            self.wf(),
        ensures
            self.networks().contains_key(id_or_name@) ==> opt_text(r) == Some(id_or_name@),
            !self.networks().contains_key(id_or_name@) ==> {
                &&& r is None <==> !name_taken(self.networks(), id_or_name@)
                &&& r matches Some(id) ==> self.networks().contains_key(id@)
                    && self.networks()[id@].name == id_or_name@
            },
    {
        if self.networks.contains_key(id_or_name) {
            return Some(owned(id_or_name));
        }
        match self.find_by_name(id_or_name) {
            Some(i) => {
                let id = self.networks.value_at(i).id.clone();
                proof {
                    let k = self.networks.keys()[i as int];
                    assert(self.networks@[k].id@ == k);
                }
                Some(id)
            },
            None => None,
        }
    }

    /// Lists all networks, each once.
    pub fn list_networks(&self) -> (r: Vec<NetworkInfo>)
        requires
            self.wf(),
        ensures
            r@.len() == self.networks().len(),
            forall|i: int| 0 <= i < r@.len() ==> self.networks().contains_key(#[trigger] r@[i].id@)
                && info_matches(r@[i], self.networks()[r@[i].id@]),
            forall|k: Seq<char>| #[trigger] self.networks().contains_key(k)
                ==> exists|i: int| 0 <= i < r@.len() && #[trigger] r@[i].id@ == k,
    {
        proof { self.networks.lemma_view(); }
        let n = self.networks.len();
        let mut out: Vec<NetworkInfo> = Vec::new();
        let mut i: usize = 0;
        while i < n
            invariant
                self.wf(),
                n == self.networks.size(),
                i <= n,
                out@.len() == i,
                forall|j: int| 0 <= j < i ==> (#[trigger] out@[j]).id@ == self.networks.keys()[j]
                    && info_matches(out@[j], self.networks@[self.networks.keys()[j]]@),
            decreases n - i,
        {
            proof {
                self.networks.lemma_view();
                let k = self.networks.keys()[i as int];
                assert(self.networks@.contains_key(k));
                assert(self.networks@[k] == self.networks.vals()[i as int]);
            }
            let info = NetworkInfo::from_state(self.networks.value_at(i));
            out.push(info);
            i = i + 1;
        }
        proof {
            self.networks.lemma_view();
            assert(self.networks().dom() =~= self.networks@.dom());
            assert forall|k: Seq<char>| #[trigger] self.networks().contains_key(k)
                implies exists|i: int| 0 <= i < out@.len() && #[trigger] out@[i].id@ == k by {
                let j = choose|j: int| 0 <= j < self.networks.keys().len() && self.networks.keys()[j] == k;
                assert(out@[j].id@ == k);
            }
            assert forall|i: int| 0 <= i < out@.len() implies self.networks().contains_key(#[trigger] out@[i].id@)
                && info_matches(out@[i], self.networks()[out@[i].id@]) by {
                assert(self.networks@.contains_key(self.networks.keys()[i]));
            }
        }
        out
    }
    /// Adds a service to a network and registers its name for discovery.
    ///
    /// Fails with `NetworkNotFound` if there is no such network, and with a
    /// `ServiceError` if the service is already a member of it; either way
    /// nothing changes.
    pub fn add_service(&mut self, network_id: &str, service_id: &str, service_name: &str) -> (r: Result<(), DaemonError>)
        requires
            old(self).wf(),
        ensures
            final(self).wf(),
            !old(self).networks().contains_key(network_id@) ==> {
                &&& r matches Err(DaemonError::NetworkNotFound(s)) && s@ == network_id@
                &&& final(self).networks() == old(self).networks()
                &&& final(self).memberships() == old(self).memberships()
                &&& final(self).reg() == old(self).reg()
            },
            old(self).networks().contains_key(network_id@)
                && old(self).networks()[network_id@].members.contains(service_id@) ==> {
                &&& r matches Err(DaemonError::ServiceError { id, reason })
                    && id@ == service_id@ && reason@ == already_member_text(network_id@)
                &&& final(self).networks() == old(self).networks()
                &&& final(self).memberships() == old(self).memberships()
                &&& final(self).reg() == old(self).reg()
            },
            old(self).networks().contains_key(network_id@)
                && !old(self).networks()[network_id@].members.contains(service_id@) ==> {
                &&& r is Ok
                &&& final(self).networks() == old(self).networks().insert(network_id@, final(self).networks()[network_id@])
                &&& with_members(final(self).networks()[network_id@], old(self).networks()[network_id@],
                        old(self).networks()[network_id@].members.insert(service_id@))
                &&& final(self).memberships() == old(self).memberships().insert(
                        service_id@, nets_of(old(self).memberships(), service_id@).push(network_id@))
                &&& final(self).reg().wf()
                &&& final(self).reg().names() == old(self).reg().names().insert(service_name@, service_id@)
                &&& final(self).reg().ids() == old(self).reg().ids().insert(service_id@, service_name@)
            },
    {
        match self.networks.get(network_id) {
            None => {
                return Err(DaemonError::NetworkNotFound(owned(network_id)));
            },
            Some(st) => {
                proof { assert(self.networks@.contains_key(network_id@)); }
                if st.has_member(service_id) {
                    return Err(DaemonError::ServiceError {
                        id: owned(service_id),
                        reason: cat2("already a member of network ", network_id),
                    });
                }
            },
        }
        let mut state = match self.networks.remove(network_id) {
            Some(st) => st,
            None => {
                return Err(DaemonError::NetworkNotFound(owned(network_id)));
            },
        };
        state.add_member(owned(service_id));
        self.networks.insert(owned(network_id), state);
        proof {
            assert(self.networks() =~= old(self).networks().insert(network_id@, self.networks()[network_id@]));
        }

        let ghost ms0 = self.service_networks@;
        let mut list = match self.service_networks.remove(service_id) {
            Some(l) => l,
            None => Vec::new(),
        };
        proof { assert(names_view(list@) == nets_of(list_views(ms0), service_id@)); }
        list.push(owned(network_id));
        self.service_networks.insert(owned(service_id), list);
        proof {
            assert(names_view(list@) =~= nets_of(list_views(ms0), service_id@).push(network_id@));
            assert(self.memberships() =~= list_views(ms0).insert(service_id@, names_view(list@)));
        }

        self.registry.register(owned(service_name), owned(service_id));
        Ok(())
    }

    /// Removes a service from a network. A service that is not a member is
    /// left as it is; the registry is not touched.
    ///
    /// Fails with `NetworkNotFound` if there is no such network.
    pub fn remove_service(&mut self, network_id: &str, service_id: &str) -> (r: Result<(), DaemonError>)
        requires
            old(self).wf(),
        ensures
            final(self).wf(),
            final(self).reg() == old(self).reg(),
            !old(self).networks().contains_key(network_id@) ==> {
                &&& r matches Err(DaemonError::NetworkNotFound(s)) && s@ == network_id@
                &&& final(self).networks() == old(self).networks()
                &&& final(self).memberships() == old(self).memberships()
            },
            old(self).networks().contains_key(network_id@)
                && !old(self).networks()[network_id@].members.contains(service_id@) ==> {
                &&& r is Ok
                &&& final(self).networks() == old(self).networks()
                &&& final(self).memberships() == old(self).memberships()
            },
            old(self).networks().contains_key(network_id@)
                && old(self).networks()[network_id@].members.contains(service_id@) ==> {
                &&& r is Ok
                &&& final(self).networks() == old(self).networks().insert(network_id@, final(self).networks()[network_id@])
                &&& with_members(final(self).networks()[network_id@], old(self).networks()[network_id@],
                        old(self).networks()[network_id@].members.remove(service_id@))
                &&& final(self).memberships() == leave_list(old(self).memberships(), service_id@, network_id@)
            },
    {
        match self.networks.get(network_id) {
            None => {
                return Err(DaemonError::NetworkNotFound(owned(network_id)));
            },
            Some(st) => {
                proof { assert(self.networks@.contains_key(network_id@)); }
                if !st.has_member(service_id) {
                    return Ok(());
                }
            },
        }
        let mut state = match self.networks.remove(network_id) {
            Some(st) => st,
            None => {
                return Err(DaemonError::NetworkNotFound(owned(network_id)));
            },
        };
        state.remove_member(service_id);
        self.networks.insert(owned(network_id), state);
        proof {
            assert(self.networks() =~= old(self).networks().insert(network_id@, self.networks()[network_id@]));
        }

        let ghost ms0 = self.service_networks@;
        match self.service_networks.remove(service_id) {
            Some(list) => {
                let kept = without_text(&list, network_id);
                if kept.len() > 0 {
                    self.service_networks.insert(owned(service_id), kept);
                    proof {
                        assert(self.memberships() =~= list_views(ms0).insert(service_id@, names_view(kept@)));
                    }
                } else {
                    proof {
                        assert(self.memberships() =~= list_views(ms0).remove(service_id@));
                    }
                }
            },
            None => {
                proof {
                    assert(self.memberships() =~= list_views(ms0));
                }
            },
        }
        Ok(())
    }

    /// The networks a service has joined, in the order it joined them.
    pub fn get_service_networks(&self, service_id: &str) -> (r: Vec<String>)
        requires
            self.wf(),
        ensures
            names_view(r@) == nets_of(self.memberships(), service_id@),
    {
        match self.service_networks.get(service_id) {
            Some(l) => clone_names(l),
            None => Vec::new(),
        }
    }

    /// Whether two services are members of at least one common network.
    pub fn services_share_network(&self, service_a: &str, service_b: &str) -> (r: bool)
        requires
            self.wf(),
        ensures
            r == share_network(self.memberships(), service_a@, service_b@),
    {
        let la = match self.service_networks.get(service_a) {
            Some(l) => l,
            None => {
                return false;
            },
        };
        let lb = match self.service_networks.get(service_b) {
            Some(l) => l,
            None => {
                return false;
            },
        };
        let ghost na = nets_of(self.memberships(), service_a@);
        let ghost nb = nets_of(self.memberships(), service_b@);
        assert(names_view(la@) == na);
        assert(names_view(lb@) == nb);
        let mut i: usize = 0;
        while i < la.len()
            invariant
                names_view(la@) == na,
                names_view(lb@) == nb,
                na == nets_of(self.memberships(), service_a@),
                nb == nets_of(self.memberships(), service_b@),
                i <= la.len(),
                forall|j: int| 0 <= j < i ==> !nb.contains(#[trigger] na[j]),
            decreases la.len() - i,
        {
            if contains_text(lb, la[i].as_str()) {
                proof {
                    assert(na[i as int] == la@[i as int]@);
                    assert(nb.contains(na[i as int]));
                }
                return true;
            }
            i = i + 1;
        }
        false
    }

    /// Whether a service can be reached from outside: it is a member of at
    /// least one existing network whose access is external.
    pub fn service_allows_external_access(&self, service_id: &str) -> (r: bool)
        requires
            self.wf(),
        ensures
            r == reachable_from_outside(self.networks(), self.memberships(), service_id@),
    {
        let list = match self.service_networks.get(service_id) {
            Some(l) => l,
            None => {
                return false;
            },
        };
        let ghost ns = nets_of(self.memberships(), service_id@);
        assert(names_view(list@) == ns);
        if list.len() == 0 {
            return false;
        }
        let mut i: usize = 0;
        while i < list.len()
            invariant
                self.wf(),
                names_view(list@) == ns,
                ns == nets_of(self.memberships(), service_id@),
                i <= list.len(),
                forall|j: int| 0 <= j < i ==> !(self.networks().contains_key(#[trigger] ns[j])
                    && self.networks()[ns[j]].options.access != NetworkAccess::Internal),
            decreases list.len() - i,
        {
            match self.networks.get(list[i].as_str()) {
                Some(n) => {
                    if !n.options.access.is_internal() {
                        proof { assert(ns[i as int] == list@[i as int]@); }
                        return true;
                    }
                },
                None => {},
            }
            i = i + 1;
        }
        false
    }

    /// Resolves the service named by a `host:port` target to its ID, through
    /// the registry; `None` for a name that is not registered.
    pub fn resolve_service(&self, target_host: &str) -> (r: Option<String>)
        requires
            self.wf(),
        ensures
            opt_text(r) == lookup(self.reg().names(), name_part(target_host@)),
    {
        let name = extract_service_name(target_host);
        self.registry.resolve(name)
    }

    /// Whether a host names an internal service: its name part is
    /// registered. External host names are never registered.
    pub fn is_internal_service(&self, host: &str) -> (r: bool)
        requires
            self.wf(),
        ensures
            r == self.reg().names().contains_key(name_part(host@)),
    {
        let name = extract_service_name(host);
        self.registry.is_internal_service(name)
    }
    /// Removes a service from every network it has joined, then unregisters
    /// its ID from the registry. Called when a service is deleted.
    pub fn remove_service_from_all(&mut self, service_id: &str)
        requires
            old(self).wf(),
        ensures
            final(self).wf(),
            final(self).networks().dom() == old(self).networks().dom(),
            forall|k: Seq<char>| #[trigger] old(self).networks().contains_key(k) ==> with_members(
                final(self).networks()[k], old(self).networks()[k],
                members_after_leaving(old(self).networks()[k], k, service_id@,
                    nets_of(old(self).memberships(), service_id@))),
            final(self).memberships() == leave_all(old(self).memberships(), service_id@,
                joined_among(old(self).networks(), service_id@, nets_of(old(self).memberships(), service_id@))),
            final(self).reg().wf(),
            final(self).reg().ids() == old(self).reg().ids().remove(service_id@),
            final(self).reg().names() == (if old(self).reg().ids().contains_key(service_id@) {
                old(self).reg().names().remove(old(self).reg().ids()[service_id@])
            } else {
                old(self).reg().names()
            }),
    {
        let list = self.get_service_networks(service_id);
        let ghost listed = names_view(list@);
        let ghost nets0 = self.networks();
        let ghost ms0 = self.memberships();
        proof {
            assert(listed.take(0) =~= Seq::<Seq<char>>::empty());
            assert(joined_among(nets0, service_id@, listed.take(0)) =~= Set::<Seq<char>>::empty());
            if ms0.contains_key(service_id@) {
                assert(drop_all(ms0[service_id@], Set::<Seq<char>>::empty()) == ms0[service_id@]) by {
                    lemma_drop_all_empty(ms0[service_id@]);
                }
                assert(self.service_networks@[service_id@]@.len() > 0);
                assert(ms0.insert(service_id@, ms0[service_id@]) =~= ms0);
            }
        }
        let mut i: usize = 0;
        while i < list.len()
            invariant
                self.wf(),
                i <= list.len(),
                listed == names_view(list@),
                listed == nets_of(ms0, service_id@),
                nets0 == old(self).networks(),
                ms0 == old(self).memberships(),
                self.reg() == old(self).reg(),
                self.networks().dom() == nets0.dom(),
                forall|k: Seq<char>| #[trigger] nets0.contains_key(k) ==> with_members(
                    self.networks()[k], nets0[k],
                    members_after_leaving(nets0[k], k, service_id@, listed.take(i as int))),
                self.memberships() == leave_all(ms0, service_id@,
                    joined_among(nets0, service_id@, listed.take(i as int))),
            decreases list.len() - i,
        {
            let ghost cur_nets = self.networks();
            let ghost cur_ms = self.memberships();
            let ghost n = listed[i as int];
            let ghost before = listed.take(i as int);
            let ghost after = listed.take(i + 1);
            proof {
                assert(after =~= before.push(n));
                assert forall|k: Seq<char>| after.contains(k) <==> before.contains(k) || k == n by {
                    if after.contains(k) && k != n {
                        let j = choose|j: int| 0 <= j < after.len() && after[j] == k;
                        assert(before[j] == k);
                    }
                    if before.contains(k) {
                        let j = choose|j: int| 0 <= j < before.len() && before[j] == k;
                        assert(after[j] == k);
                    }
                    if k == n {
                        assert(after[i as int] == n);
                    }
                }
            }
            let _ = self.remove_service(list[i].as_str(), service_id);
            proof {
                let g0 = joined_among(nets0, service_id@, before);
                let g1 = joined_among(nets0, service_id@, after);
                if !nets0.contains_key(n) {
                    assert(g1 =~= g0);
                } else if cur_nets[n].members.contains(service_id@) {
                    assert(!before.contains(n));
                    assert(g1 =~= g0.insert(n));
                    lemma_leave_step(ms0, service_id@, g0, n);
                } else {
                    if nets0[n].members.contains(service_id@) {
                        assert(before.contains(n));
                    }
                    assert(g1 =~= g0);
                    if !before.contains(n) {
                        assert(nets0[n].members.remove(service_id@) =~= nets0[n].members);
                    }
                }
                assert forall|k: Seq<char>| #[trigger] nets0.contains_key(k) implies with_members(
                    self.networks()[k], nets0[k],
                    members_after_leaving(nets0[k], k, service_id@, after)) by {
                    if k != n {
                        assert(after.contains(k) == before.contains(k));
                    }
                }
            }
            i = i + 1;
        }
        proof {
            assert(listed.take(list.len() as int) =~= listed);
        }
        self.registry.unregister_by_id(service_id);
    }
    /// Loads networks read back from storage, in order, rebuilding the
    /// network list of every member service.
    pub fn load_state(&mut self, states: Vec<NetworkState>)
        requires
            old(self).wf(),
            forall|i: int| 0 <= i < states@.len() ==> (#[trigger] states@[i]).wf(),
        ensures
            final(self).wf(),
            final(self).networks() == loaded_networks(old(self).networks(), network_views(states@)),
            final(self).memberships() == loaded_memberships(old(self).memberships(), network_views(states@)),
            final(self).reg() == old(self).reg(),
    {
        let ghost all = network_views(states@);
        let ghost n0 = states@.len();
        let mut rest = states;
        let ghost mut done: int = 0;
        proof {
            assert(all.take(0) =~= Seq::<NetworkStateView>::empty());
            assert(network_views(rest@) =~= all.skip(0));
        }
        while rest.len() > 0
            invariant
                self.wf(),
                0 <= done <= n0,
                all.len() == n0,
                rest@.len() == n0 - done,
                network_views(rest@) == all.skip(done),
                forall|i: int| 0 <= i < rest@.len() ==> (#[trigger] rest@[i]).wf(),
                self.networks() == loaded_networks(old(self).networks(), all.take(done)),
                self.memberships() == loaded_memberships(old(self).memberships(), all.take(done)),
                self.reg() == old(self).reg(),
            decreases rest@.len(),
        {
            let ghost rest0 = rest@;
            let state = rest.remove(0);
            proof {
                assert(state@ == all[done]) by {
                    assert(network_views(rest0)[0] == all.skip(done)[0]);
                }
                assert(network_views(rest@) =~= all.skip(done + 1)) by {
                    assert forall|i: int| 0 <= i < rest@.len() implies network_views(rest@)[i] == all.skip(done + 1)[i] by {
                        assert(rest@[i] == rest0[i + 1]);
                        assert(network_views(rest0)[i + 1] == all.skip(done)[i + 1]);
                    }
                }
                assert forall|i: int| 0 <= i < rest@.len() implies (#[trigger] rest@[i]).wf() by {
                    assert(rest@[i] == rest0[i + 1]);
                }
                assert(all.take(done + 1).drop_last() =~= all.take(done));
                assert(all.take(done + 1).last() == all[done]);
            }
            let members = state.member_list();
            let ghost ms_before = self.memberships();
            proof {
                assert(names_view(members@).take(0).to_set() =~= Set::<Seq<char>>::empty());
                assert(join_all(ms_before, Set::<Seq<char>>::empty(), state.id@) =~= ms_before);
            }
            let mut j: usize = 0;
            while j < members.len()
                invariant
                    self.wf(),
                    j <= members.len(),
                    names_view(members@).no_duplicates(),
                    self.memberships() == join_all(ms_before, names_view(members@).take(j as int).to_set(), state.id@),
                    self.networks() == loaded_networks(old(self).networks(), all.take(done)),
                    self.reg() == old(self).reg(),
                decreases members.len() - j,
            {
                let ghost cur = self.memberships();
                let ghost m = members@[j as int]@;
                let ghost p0 = names_view(members@).take(j as int).to_set();
                let ghost p1 = names_view(members@).take(j + 1).to_set();
                proof {
                    assert(names_view(members@).take(j + 1) =~= names_view(members@).take(j as int).push(m));
                    assert(p1 =~= p0.insert(m)) by {
                        assert forall|x: Seq<char>| p1.contains(x) <==> p0.contains(x) || x == m by {
                            lemma_push_contains(names_view(members@).take(j as int), m, x);
                        }
                    }
                    assert(!p0.contains(m)) by {
                        if p0.contains(m) {
                            let t = choose|t: int| 0 <= t < j && names_view(members@).take(j as int)[t] == m;
                            assert(names_view(members@)[t] == names_view(members@)[j as int]);
                        }
                    }
                }
                let mut list = match self.service_networks.remove(members[j].as_str()) {
                    Some(l) => l,
                    None => Vec::new(),
                };
                proof { assert(names_view(list@) == nets_of(cur, m)); }
                list.push(state.id.clone());
                self.service_networks.insert(members[j].clone(), list);
                proof {
                    assert(names_view(list@) =~= nets_of(cur, m).push(state.id@));
                    assert(self.memberships() =~= cur.insert(m, nets_of(cur, m).push(state.id@)));
                    assert(nets_of(cur, m) == nets_of(ms_before, m));
                    assert(self.memberships() =~= join_all(ms_before, p1, state.id@));
                }
                j = j + 1;
            }
            proof {
                assert(names_view(members@).take(members@.len() as int) =~= names_view(members@));
            }
            let key = state.id.clone();
            self.networks.insert(key, state);
            proof {
                assert(self.networks() =~= loaded_networks(old(self).networks(), all.take(done)).insert(all[done].id, all[done]));
                done = done + 1;
            }
        }
        proof {
            assert(all.take(done) =~= all);
        }
    }
}

/// Every service's network list names exactly the existing networks that
/// have it as a member, each once, and no list is empty.
pub open spec fn consistent(nets: Map<Seq<char>, NetworkStateView>, ms: Map<Seq<char>, Seq<Seq<char>>>) -> bool {
    &&& forall|s: Seq<char>, n: Seq<char>|
            #![trigger nets_of(ms, s).contains(n)]
            #![trigger nets[n].members.contains(s)]
            nets_of(ms, s).contains(n) <==> nets.contains_key(n) && nets[n].members.contains(s)
    &&& forall|s: Seq<char>| #[trigger] ms.contains_key(s) ==> ms[s].no_duplicates() && ms[s].len() > 0
}

/// A manager with no networks and no lists is consistent.
pub proof fn lemma_empty_consistent()
    ensures
        consistent(Map::empty(), Map::empty()),
{
}

/// Creating a network with no members under an ID that holds no members
/// keeps the lists consistent.
pub proof fn lemma_create_keeps_consistent(
    nets: Map<Seq<char>, NetworkStateView>,
    ms: Map<Seq<char>, Seq<Seq<char>>>,
    id: Seq<char>,
    v: NetworkStateView,
)
    requires
        consistent(nets, ms),
        v.members.is_empty(),
        nets.contains_key(id) ==> nets[id].members.is_empty(),
    ensures
        consistent(nets.insert(id, v), ms),
{
    let nets2 = nets.insert(id, v);
    assert forall|s: Seq<char>, n: Seq<char>|
        nets_of(ms, s).contains(n) <==> nets2.contains_key(n) && #[trigger] nets2[n].members.contains(s) by {
        if n == id {
            assert(!v.members.contains(s));
            if nets.contains_key(id) {
                assert(!nets[id].members.contains(s));
            }
        }
    }
}

/// Deleting a network without members keeps the lists consistent.
pub proof fn lemma_delete_keeps_consistent(
    nets: Map<Seq<char>, NetworkStateView>,
    ms: Map<Seq<char>, Seq<Seq<char>>>,
    id: Seq<char>,
)
    requires
        consistent(nets, ms),
        nets.contains_key(id),
        nets[id].members.is_empty(),
    ensures
        consistent(nets.remove(id), ms),
{
    let nets2 = nets.remove(id);
    assert forall|s: Seq<char>, n: Seq<char>|
        nets_of(ms, s).contains(n) <==> nets2.contains_key(n) && #[trigger] nets2[n].members.contains(s) by {
        if n == id {
            assert(!nets[id].members.contains(s));
        }
    }
}

/// Adding a service to a network it is not a member of keeps the lists
/// consistent.
pub proof fn lemma_add_keeps_consistent(
    nets: Map<Seq<char>, NetworkStateView>,
    ms: Map<Seq<char>, Seq<Seq<char>>>,
    n: Seq<char>,
    s: Seq<char>,
    after: NetworkStateView,
)
    requires
        consistent(nets, ms),
        nets.contains_key(n),
        !nets[n].members.contains(s),
        with_members(after, nets[n], nets[n].members.insert(s)),
    ensures
        consistent(nets.insert(n, after), ms.insert(s, nets_of(ms, s).push(n))),
{
    let nets2 = nets.insert(n, after);
    let ms2 = ms.insert(s, nets_of(ms, s).push(n));
    assert(!nets_of(ms, s).contains(n));
    assert forall|s2: Seq<char>, n2: Seq<char>|
        #![trigger nets_of(ms2, s2).contains(n2)]
        #![trigger nets2[n2].members.contains(s2)]
        nets_of(ms2, s2).contains(n2) <==> nets2.contains_key(n2) && nets2[n2].members.contains(s2) by {
        if s2 == s {
            lemma_push_contains(nets_of(ms, s), n, n2);
            if nets_of(ms, s).contains(n2) {
                assert(nets.contains_key(n2) && nets[n2].members.contains(s));
            }
            if n2 != n && nets2.contains_key(n2) && nets2[n2].members.contains(s2) {
                assert(nets[n2].members.contains(s));
            }
        } else {
            if nets_of(ms, s2).contains(n2) {
                assert(nets.contains_key(n2) && nets[n2].members.contains(s2));
            }
            if nets2.contains_key(n2) && nets2[n2].members.contains(s2) {
                assert(nets[n2].members.contains(s2));
            }
        }
    }
    assert forall|s2: Seq<char>| #[trigger] ms2.contains_key(s2) implies ms2[s2].no_duplicates() && ms2[s2].len() > 0 by {
        if s2 == s {
            let l = nets_of(ms, s);
            if ms.contains_key(s) {
                assert(l.no_duplicates());
            }
            assert forall|i: int, j: int| 0 <= i < j < l.push(n).len() implies l.push(n)[i] != l.push(n)[j] by {
                if j == l.len() {
                    assert(l.contains(l[i]));
                }
            }
        } else {
            assert(ms.contains_key(s2));
        }
    }
}

/// Removing a member from a network keeps the lists consistent.
pub proof fn lemma_remove_keeps_consistent(
    nets: Map<Seq<char>, NetworkStateView>,
    ms: Map<Seq<char>, Seq<Seq<char>>>,
    n: Seq<char>,
    s: Seq<char>,
    after: NetworkStateView,
)
    requires
        consistent(nets, ms),
        nets.contains_key(n),
        nets[n].members.contains(s),
        with_members(after, nets[n], nets[n].members.remove(s)),
    ensures
        consistent(nets.insert(n, after), leave_list(ms, s, n)),
{
    let nets2 = nets.insert(n, after);
    let ms2 = leave_list(ms, s, n);
    assert(nets_of(ms, s).contains(n));
    assert(ms.contains_key(s));
    let kept = drop_all(ms[s], set![n]);
    assert forall|s2: Seq<char>, n2: Seq<char>|
        #![trigger nets_of(ms2, s2).contains(n2)]
        #![trigger nets2[n2].members.contains(s2)]
        nets_of(ms2, s2).contains(n2) <==> nets2.contains_key(n2) && nets2[n2].members.contains(s2) by {
        if s2 == s {
            lemma_drop_all_contains(ms[s], set![n], n2);
            if kept.len() == 0 {
                assert(!kept.contains(n2));
            }
            if nets_of(ms, s).contains(n2) {
                assert(nets.contains_key(n2) && nets[n2].members.contains(s));
            }
            if n2 != n && nets2.contains_key(n2) && nets2[n2].members.contains(s2) {
                assert(nets[n2].members.contains(s));
            }
        } else {
            if nets_of(ms, s2).contains(n2) {
                assert(nets.contains_key(n2) && nets[n2].members.contains(s2));
            }
            if nets2.contains_key(n2) && nets2[n2].members.contains(s2) {
                assert(nets[n2].members.contains(s2));
            }
        }
    }
    assert forall|s2: Seq<char>| #[trigger] ms2.contains_key(s2) implies ms2[s2].no_duplicates() && ms2[s2].len() > 0 by {
        if s2 == s {
            lemma_drop_all_no_duplicates(ms[s], set![n]);
        } else {
            assert(ms.contains_key(s2));
        }
    }
}

/// Removing a service from all its networks, from a consistent state,
/// leaves it in no network and with no list, and keeps the lists consistent.
pub proof fn lemma_remove_all_leaves_nothing(
    nets: Map<Seq<char>, NetworkStateView>,
    ms: Map<Seq<char>, Seq<Seq<char>>>,
    s: Seq<char>,
    nets2: Map<Seq<char>, NetworkStateView>,
)
    requires
        consistent(nets, ms),
        nets2.dom() == nets.dom(),
        forall|k: Seq<char>| #[trigger] nets.contains_key(k) ==> with_members(
            nets2[k], nets[k], members_after_leaving(nets[k], k, s, nets_of(ms, s))),
    ensures
        !leave_all(ms, s, joined_among(nets, s, nets_of(ms, s))).contains_key(s),
        forall|k: Seq<char>| #[trigger] nets2.contains_key(k) ==> !nets2[k].members.contains(s),
        consistent(nets2, leave_all(ms, s, joined_among(nets, s, nets_of(ms, s)))),
{
    let l = nets_of(ms, s);
    let g = joined_among(nets, s, l);
    let ms2 = leave_all(ms, s, g);
    if ms.contains_key(s) {
        assert forall|x: Seq<char>| !(#[trigger] drop_all(ms[s], g).contains(x)) by {
            lemma_drop_all_contains(ms[s], g, x);
            if ms[s].contains(x) {
                assert(nets.contains_key(x) && nets[x].members.contains(s));
                assert(g.contains(x));
            }
        }
        if drop_all(ms[s], g).len() > 0 {
            assert(drop_all(ms[s], g).contains(drop_all(ms[s], g)[0]));
        }
    }
    assert forall|k: Seq<char>| #[trigger] nets2.contains_key(k) implies !nets2[k].members.contains(s) by {
        assert(nets.contains_key(k));
        if !l.contains(k) {
            assert(!nets[k].members.contains(s));
        }
    }
    assert forall|s2: Seq<char>, n2: Seq<char>|
        #![trigger nets_of(ms2, s2).contains(n2)]
        #![trigger nets2[n2].members.contains(s2)]
        nets_of(ms2, s2).contains(n2) <==> nets2.contains_key(n2) && nets2[n2].members.contains(s2) by {
        if s2 != s {
            assert(nets_of(ms2, s2) == nets_of(ms, s2));
            if nets_of(ms, s2).contains(n2) {
                assert(nets.contains_key(n2) && nets[n2].members.contains(s2));
            }
            if nets2.contains_key(n2) && nets2[n2].members.contains(s2) {
                assert(nets[n2].members.contains(s2));
            }
        }
    }
    assert forall|s2: Seq<char>| #[trigger] ms2.contains_key(s2) implies ms2[s2].no_duplicates() && ms2[s2].len() > 0 by {
        assert(s2 != s);
        assert(ms.contains_key(s2));
    }
}

/// Removing a deleted service from all its networks clears it everywhere:
/// from consistent lists, it is left a member of no network, with no network
/// list, and with its name no longer resolving to anything; every other
/// service keeps its network list and its memberships, and the lists stay
/// consistent.
pub proof fn lemma_remove_all_clears_service(
    nets: Map<Seq<char>, NetworkStateView>,
    ms: Map<Seq<char>, Seq<Seq<char>>>,
    names: Map<Seq<char>, Seq<char>>,
    ids: Map<Seq<char>, Seq<char>>,
    s: Seq<char>,
    nets2: Map<Seq<char>, NetworkStateView>,
    ms2: Map<Seq<char>, Seq<Seq<char>>>,
    names2: Map<Seq<char>, Seq<char>>,
    ids2: Map<Seq<char>, Seq<char>>,
)
    requires
        consistent(nets, ms),
        nets2.dom() == nets.dom(),
        forall|k: Seq<char>| #[trigger] nets.contains_key(k) ==> with_members(
            nets2[k], nets[k], members_after_leaving(nets[k], k, s, nets_of(ms, s))),
        ms2 == leave_all(ms, s, joined_among(nets, s, nets_of(ms, s))),
        ids2 == ids.remove(s),
        names2 == (if ids.contains_key(s) { names.remove(ids[s]) } else { names }),
    ensures
        forall|k: Seq<char>| #[trigger] nets2.contains_key(k) ==> !nets2[k].members.contains(s),
        nets_of(ms2, s) == Seq::<Seq<char>>::empty(),
        !ids2.contains_key(s),
        ids.contains_key(s) ==> lookup(names2, ids[s]) is None,
        forall|s2: Seq<char>| s2 != s ==> #[trigger] nets_of(ms2, s2) == nets_of(ms, s2),
        forall|k: Seq<char>, s2: Seq<char>| s2 != s && #[trigger] nets2.contains_key(k) ==>
            (#[trigger] nets2[k].members.contains(s2) <==> nets[k].members.contains(s2)),
        consistent(nets2, ms2),
{
    lemma_remove_all_leaves_nothing(nets, ms, s, nets2);
    assert forall|k: Seq<char>, s2: Seq<char>| s2 != s && #[trigger] nets2.contains_key(k) implies
        (#[trigger] nets2[k].members.contains(s2) <==> nets[k].members.contains(s2)) by {
        assert(nets.contains_key(k));
    }
}

/// With consistent lists, two services share a network exactly when some
/// existing network has both as members.
pub proof fn lemma_share_iff_common_network(
    nets: Map<Seq<char>, NetworkStateView>,
    ms: Map<Seq<char>, Seq<Seq<char>>>,
    a: Seq<char>,
    b: Seq<char>,
)
    requires
        consistent(nets, ms),
    ensures
        share_network(ms, a, b) <==> exists|n: Seq<char>| #[trigger] nets.contains_key(n)
            && nets[n].members.contains(a) && nets[n].members.contains(b),
{
    if share_network(ms, a, b) {
        let i = choose|i: int| 0 <= i < nets_of(ms, a).len() && nets_of(ms, b).contains(#[trigger] nets_of(ms, a)[i]);
        let n = nets_of(ms, a)[i];
        assert(nets_of(ms, a).contains(n));
        assert(nets.contains_key(n) && nets[n].members.contains(a) && nets[n].members.contains(b));
    }
    if exists|n: Seq<char>| #[trigger] nets.contains_key(n) && nets[n].members.contains(a) && nets[n].members.contains(b) {
        let n = choose|n: Seq<char>| #[trigger] nets.contains_key(n) && nets[n].members.contains(a) && nets[n].members.contains(b);
        assert(nets_of(ms, a).contains(n));
        assert(nets_of(ms, b).contains(n));
        let i = choose|i: int| 0 <= i < nets_of(ms, a).len() && nets_of(ms, a)[i] == n;
        assert(nets_of(ms, b).contains(nets_of(ms, a)[i]));
    }
}

/// With consistent lists, a service can be reached from outside exactly
/// when some existing network with external access has it as a member.
pub proof fn lemma_external_iff_external_network(
    nets: Map<Seq<char>, NetworkStateView>,
    ms: Map<Seq<char>, Seq<Seq<char>>>,
    s: Seq<char>,
)
    requires
        consistent(nets, ms),
    ensures
        reachable_from_outside(nets, ms, s) <==> exists|n: Seq<char>| #[trigger] nets.contains_key(n)
            && nets[n].members.contains(s) && nets[n].options.access != NetworkAccess::Internal,
{
    if reachable_from_outside(nets, ms, s) {
        let i = choose|i: int| 0 <= i < nets_of(ms, s).len() && nets.contains_key(#[trigger] nets_of(ms, s)[i])
            && nets[nets_of(ms, s)[i]].options.access != NetworkAccess::Internal;
        let n = nets_of(ms, s)[i];
        assert(nets_of(ms, s).contains(n));
        assert(nets[n].members.contains(s));
    }
    if exists|n: Seq<char>| #[trigger] nets.contains_key(n) && nets[n].members.contains(s)
        && nets[n].options.access != NetworkAccess::Internal {
        let n = choose|n: Seq<char>| #[trigger] nets.contains_key(n) && nets[n].members.contains(s)
            && nets[n].options.access != NetworkAccess::Internal;
        assert(nets_of(ms, s).contains(n));
        let i = choose|i: int| 0 <= i < nets_of(ms, s).len() && nets_of(ms, s)[i] == n;
        assert(nets.contains_key(nets_of(ms, s)[i]));
    }
}

} // verus!
