//! Network type definitions: configuration, options, state and membership.

use vstd::prelude::*;

use crate::clock::now_millis;
use crate::ids::{generate_network_id, is_network_id};
use crate::keyed::KeyedList;
use crate::policy::model::{clone_opt_string, names_view, opt_text};

verus! {

/// Network access mode determining external connectivity.
#[derive(Debug, Clone, Copy, PartialEq, Eq, Structural)]
pub enum NetworkAccess {
    /// Network allows external access (default).
    External,
    /// Internal network with no external access.
    Internal,
}

impl NetworkAccess {
    /// Returns true if this is an internal network.
    pub fn is_internal(self) -> (r: bool)
        ensures
            r == (self == NetworkAccess::Internal),
    {
        match self {
            NetworkAccess::Internal => true,
            NetworkAccess::External => false,
        }
    }
}

impl Default for NetworkAccess {
    fn default() -> (r: Self)
        ensures
            r == NetworkAccess::External,
    {
        NetworkAccess::External
    }
}

/// Network isolation mode.
#[derive(Debug, Clone, Copy, PartialEq, Eq, Structural)]
pub enum NetworkIsolation {
    /// Network can communicate with other networks (default).
    Connected,
    /// Network is completely isolated from other networks.
    Isolated,
}

impl NetworkIsolation {
    /// Returns true if this network is isolated.
    pub fn is_isolated(self) -> (r: bool)
        ensures
            r == (self == NetworkIsolation::Isolated),
    {
        match self {
            NetworkIsolation::Isolated => true,
            NetworkIsolation::Connected => false,
        }
    }
}

impl Default for NetworkIsolation {
    fn default() -> (r: Self)
        ensures
            r == NetworkIsolation::Connected,
    {
        NetworkIsolation::Connected
    }
}

/// Network encryption policy.
#[derive(Debug, Clone, Copy, PartialEq, Eq, Structural)]
pub enum NetworkEncryption {
    /// Encryption is optional (default).
    Optional,
    /// Encryption is required for all traffic.
    Required,
}

impl NetworkEncryption {
    /// Returns true if encryption is required.
    pub fn is_required(self) -> (r: bool)
        ensures
            r == (self == NetworkEncryption::Required),
    {
        match self {
            NetworkEncryption::Required => true,
            NetworkEncryption::Optional => false,
        }
    }
}

impl Default for NetworkEncryption {
    fn default() -> (r: Self)
        ensures
            r == NetworkEncryption::Optional,
    {
        NetworkEncryption::Optional
    }
}

/// Network audit policy.
#[derive(Debug, Clone, Copy, PartialEq, Eq, Structural)]
pub enum NetworkAudit {
    /// Auditing is disabled (default).
    Disabled,
    /// All traffic on this network is audited.
    Enabled,
}

impl NetworkAudit {
    /// Returns true if auditing is enabled.
    pub fn is_enabled(self) -> (r: bool)
        ensures
            r == (self == NetworkAudit::Enabled),
    {
        match self {
            NetworkAudit::Enabled => true,
            NetworkAudit::Disabled => false,
        }
    }
}

impl Default for NetworkAudit {
    fn default() -> (r: Self)
        ensures
            r == NetworkAudit::Disabled,
    {
        NetworkAudit::Disabled
    }
}

/// Network options controlling behavior and security policies.
#[derive(Debug, Clone, Copy, PartialEq, Eq, Structural)]
pub struct NetworkOptions {
    /// Network access mode.
    pub access: NetworkAccess,
    /// Network isolation mode.
    pub isolation: NetworkIsolation,
    /// Network encryption policy.
    pub encryption: NetworkEncryption,
    /// Network audit policy.
    pub audit: NetworkAudit,
}

/// The default options: external, connected, encryption optional, audit off.
pub open spec fn default_options() -> NetworkOptions {
    NetworkOptions {
        access: NetworkAccess::External,
        isolation: NetworkIsolation::Connected,
        encryption: NetworkEncryption::Optional,
        audit: NetworkAudit::Disabled,
    }
}

impl Default for NetworkOptions {
    fn default() -> (r: Self)
        ensures
            r == default_options(),
    {
        NetworkOptions {
            access: NetworkAccess::External,
            isolation: NetworkIsolation::Connected,
            encryption: NetworkEncryption::Optional,
            audit: NetworkAudit::Disabled,
        }
    }
}

impl NetworkOptions {
    /// Creates new network options with explicit settings.
    pub fn new(
        access: NetworkAccess,
        isolation: NetworkIsolation,
        encryption: NetworkEncryption,
        audit: NetworkAudit,
    ) -> (r: Self)
        ensures
            r == (NetworkOptions { access, isolation, encryption, audit }),
    {
        NetworkOptions { access, isolation, encryption, audit }
    }

    /// Creates options for an internal network.
    pub fn internal() -> (r: Self)
        ensures
            r == (NetworkOptions { access: NetworkAccess::Internal, ..default_options() }),
    {
        NetworkOptions {
            access: NetworkAccess::Internal,
            isolation: NetworkIsolation::Connected,
            encryption: NetworkEncryption::Optional,
            audit: NetworkAudit::Disabled,
        }
    }

    /// Creates options for an isolated network.
    pub fn isolated() -> (r: Self)
        ensures
            r == (NetworkOptions { isolation: NetworkIsolation::Isolated, ..default_options() }),
    {
        NetworkOptions {
            access: NetworkAccess::External,
            isolation: NetworkIsolation::Isolated,
            encryption: NetworkEncryption::Optional,
            audit: NetworkAudit::Disabled,
        }
    }
}

/// Network configuration for creating a network.
#[derive(Debug)]
pub struct NetworkConfig {
    /// Network name.
    pub name: String,
    /// Network description.
    pub description: Option<String>,
    /// Network options.
    pub options: NetworkOptions,
}

impl NetworkConfig {
    /// Creates a new network configuration with the given name and default options.
    pub fn new(name: String) -> (r: Self)
        ensures
            r.name == name,
            r.description is None,
            r.options == default_options(),
    {
        NetworkConfig { name, description: None, options: NetworkOptions::default() }
    }

    /// Creates a network configuration with custom options.
    pub fn with_options(name: String, options: NetworkOptions) -> (r: Self)
        ensures
            r.name == name,
            r.description is None,
            r.options == options,
    {
        NetworkConfig { name, description: None, options }
    }

    /// Creates a network configuration with description and options.
    pub fn with_description(name: String, description: String, options: NetworkOptions) -> (r: Self)
        ensures
            r.name == name,
            r.description == Some(description),
            r.options == options,
    {
        NetworkConfig { name, description: Some(description), options }
    }

    /// Creates an internal network configuration.
    pub fn internal(name: String) -> (r: Self)
        ensures
            r.name == name,
            r.description is None,
            r.options == (NetworkOptions { access: NetworkAccess::Internal, ..default_options() }),
    {
        NetworkConfig { name, description: None, options: NetworkOptions::internal() }
    }
}

/// Persisted network state.
#[derive(Debug)]
pub struct NetworkState {
    /// Unique network ID.
    pub id: String,
    /// Network name.
    pub name: String,
    /// Network description.
    pub description: Option<String>,
    /// Network options.
    pub options: NetworkOptions,
    /// Services that are members of this network.
    pub members: KeyedList<()>,
    /// When the network was created, in milliseconds since the Unix epoch.
    pub created_at: i64,
    /// When the network was last updated, in milliseconds since the Unix epoch.
    pub updated_at: i64,
}

/// Abstract value of a [`NetworkState`].
pub struct NetworkStateView {
    pub id: Seq<char>,
    pub name: Seq<char>,
    pub description: Option<Seq<char>>,
    pub options: NetworkOptions,
    pub members: Set<Seq<char>>,
    pub created_at: i64,
    pub updated_at: i64,
}

impl View for NetworkState {
    type V = NetworkStateView;

    open spec fn view(&self) -> NetworkStateView {
        NetworkStateView {
            id: self.id@,
            name: self.name@,
            description: opt_text(self.description),
            options: self.options,
            members: self.members@.dom(),
            created_at: self.created_at,
            updated_at: self.updated_at,
        }
    }
}

impl NetworkState {
    /// The member table is well formed.
    pub open spec fn wf(&self) -> bool {
        self.members.wf()
    }

    /// Creates a new network state from configuration with a fresh ID
    /// ("net-" and eight hexadecimal digits) and the current time.
    pub fn new(config: NetworkConfig) -> (r: Self)
        ensures
            r.wf(),
            r@.name == config.name@,
            r@.description == opt_text(config.description),
            r@.options == config.options,
            r@.members == Set::<Seq<char>>::empty(),
            r@.created_at == r@.updated_at,
            is_network_id(r@.id),
    {
        let id = generate_network_id();
        let now = now_millis();
        NetworkState::with_id(config, id, now)
    }

    /// Creates a network state from configuration with the given ID, created
    /// and updated at `now`.
    pub fn with_id(config: NetworkConfig, id: String, now: i64) -> (r: Self)
        ensures
            r.wf(),
            r.id == id,
            r@.name == config.name@,
            r@.description == opt_text(config.description),
            r@.options == config.options,
            r@.members == Set::<Seq<char>>::empty(),
            r@.created_at == now,
            r@.updated_at == now,
    {
        let members: KeyedList<()> = KeyedList::new();
        NetworkState {
            id,
            name: config.name,
            description: config.description,
            options: config.options,
            members,
            created_at: now,
            updated_at: now,
        }
    }

    /// Adds a service to this network.
    pub fn add_member(&mut self, service_id: String)
        requires
            old(self).wf(),
        ensures
            final(self).wf(),
            final(self)@.members == old(self)@.members.insert(service_id@),
            final(self)@.id == old(self)@.id,
            final(self)@.name == old(self)@.name,
            final(self)@.description == old(self)@.description,
            final(self)@.options == old(self)@.options,
            final(self)@.created_at == old(self)@.created_at,
    {
        self.members.insert(service_id, ());
        self.updated_at = now_millis();
    }

    /// Removes a service from this network.
    pub fn remove_member(&mut self, service_id: &str)
        requires
            old(self).wf(),
        ensures
            final(self).wf(),
            final(self)@.members == old(self)@.members.remove(service_id@),
            final(self)@.id == old(self)@.id,
            final(self)@.name == old(self)@.name,
            final(self)@.description == old(self)@.description,
            final(self)@.options == old(self)@.options,
            final(self)@.created_at == old(self)@.created_at,
    {
        let _ = self.members.remove(service_id);
        self.updated_at = now_millis();
    }

    /// Checks if a service is a member of this network.
    pub fn has_member(&self, service_id: &str) -> (r: bool)
        requires
            self.wf(),
        ensures
            r == self@.members.contains(service_id@),
    {
        self.members.contains_key(service_id)
    }

    /// Returns the number of members in this network.
    pub fn member_count(&self) -> (r: usize)
        requires
            self.wf(),
        ensures
            r == self@.members.len(),
    {
        self.members.len()
    }

    /// The member service IDs, in the order they joined.
    pub fn member_list(&self) -> (r: Vec<String>)
        requires
            self.wf(),
        ensures
            names_view(r@).to_set() == self@.members,
            names_view(r@).no_duplicates(),
            r@.len() == self@.members.len(),
    {
        let mut out: Vec<String> = Vec::new();
        let n = self.members.len();
        let mut i: usize = 0;
        proof { self.members.lemma_view(); }
        while i < n
            invariant
                self.wf(),
                n == self.members.size(),
                i <= n,
                out@.len() == i,
                forall|j: int| 0 <= j < i ==> #[trigger] out@[j]@ == self.members.keys()[j],
            decreases n - i,
        {
            out.push(self.members.key_at(i).clone());
            i = i + 1;
        }
        proof {
            self.members.lemma_view();
            assert(names_view(out@) =~= self.members.keys());
        }
        out
    }
}

/// `info` summarises the network `s`.
pub open spec fn info_matches(info: NetworkInfo, s: NetworkStateView) -> bool {
    &&& info.id@ == s.id
    &&& info.name@ == s.name
    &&& opt_text(info.description) == s.description
    &&& info.access == s.options.access
    &&& info.member_count == s.members.len()
    &&& info.created_at == s.created_at
}

/// `d` describes the network `s` in full; its member list holds each member once.
pub open spec fn detail_matches(d: NetworkDetail, s: NetworkStateView) -> bool {
    &&& d.id@ == s.id
    &&& d.name@ == s.name
    &&& opt_text(d.description) == s.description
    &&& d.options == s.options
    &&& names_view(d.members@).to_set() == s.members
    &&& names_view(d.members@).no_duplicates()
    &&& d.created_at == s.created_at
    &&& d.updated_at == s.updated_at
}

/// Information about a network for API responses.
#[derive(Debug)]
pub struct NetworkInfo {
    /// Network ID.
    pub id: String,
    /// Network name.
    pub name: String,
    /// Network description.
    pub description: Option<String>,
    /// Network access mode.
    pub access: NetworkAccess,
    /// Number of service members.
    pub member_count: usize,
    /// When the network was created, in milliseconds since the Unix epoch.
    pub created_at: i64,
}

impl NetworkInfo {
    /// Summarises a network.
    pub fn from_state(state: &NetworkState) -> (r: Self)
        requires
            state.wf(),
        ensures
            info_matches(r, state@),
    {
        NetworkInfo {
            id: state.id.clone(),
            name: state.name.clone(),
            description: clone_opt_string(&state.description),
            access: state.options.access,
            member_count: state.member_count(),
            created_at: state.created_at,
        }
    }
}

/// Detailed network information for API responses.
#[derive(Debug)]
pub struct NetworkDetail {
    /// Network ID.
    pub id: String,
    /// Network name.
    pub name: String,
    /// Network description.
    pub description: Option<String>,
    /// Network options.
    pub options: NetworkOptions,
    /// Service IDs that are members.
    pub members: Vec<String>,
    /// When the network was created, in milliseconds since the Unix epoch.
    pub created_at: i64,
    /// When the network was last updated, in milliseconds since the Unix epoch.
    pub updated_at: i64,
}

impl NetworkDetail {
    /// Describes a network in full.
    pub fn from_state(state: &NetworkState) -> (r: Self)
        requires
            state.wf(),
        ensures
            detail_matches(r, state@),
    {
        NetworkDetail {
            id: state.id.clone(),
            name: state.name.clone(),
            description: clone_opt_string(&state.description),
            options: state.options,
            members: state.member_list(),
            created_at: state.created_at,
            updated_at: state.updated_at,
        }
    }
}

} // verus!
