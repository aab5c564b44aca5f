//! Connection validation for network access control.
//!
//! Connections are validated on:
//! 1. Ingress (external to service): the access mode of the service's networks.
//! 2. Egress capabilities: may the service connect to this target?
//! 3. Network membership: do both services share a network?
//! 4. Policy rules: deny, require and warn rules of mortar policies.

use vstd::prelude::*;

use crate::policy::manager::{audit_recorded, connection_decision, PolicyManager};
use crate::policy::types::{DecisionView, EvaluatedPolicyView, PolicyDecision};
use crate::text::{decimal, owned, push_decimal, push_str};

use super::capability::{grants_connect, grants_listen, Capabilities};
use super::manager::{reachable_from_outside, share_network, NetworkManager};
use super::registry::{lookup, name_part};

verus! {

/// Result of connection validation.
#[derive(Debug, Clone, PartialEq, Eq)]
pub enum ConnectionDecision {
    /// Allow connection to an internal service.
    AllowInternal {
        /// The resolved service ID.
        service_id: String,
    },
    /// Allow connection to an external host.
    AllowExternal,
    /// Deny due to missing capability grant.
    DenyCapability {
        /// Reason for denial.
        reason: String,
    },
    /// Deny due to network isolation.
    DenyNetwork {
        /// Reason for denial.
        reason: String,
    },
    /// Deny due to policy violation.
    DenyPolicy {
        /// Reason for denial.
        reason: String,
    },
}

/// Abstract value of a [`ConnectionDecision`].
pub enum ConnectionDecisionView {
    AllowInternal { service_id: Seq<char> },
    AllowExternal,
    DenyCapability { reason: Seq<char> },
    DenyNetwork { reason: Seq<char> },
    DenyPolicy { reason: Seq<char> },
}

impl View for ConnectionDecision {
    type V = ConnectionDecisionView;

    open spec fn view(&self) -> ConnectionDecisionView {
        match self {
            ConnectionDecision::AllowInternal { service_id } => ConnectionDecisionView::AllowInternal { service_id: service_id@ },
            ConnectionDecision::AllowExternal => ConnectionDecisionView::AllowExternal,
            ConnectionDecision::DenyCapability { reason } => ConnectionDecisionView::DenyCapability { reason: reason@ },
            ConnectionDecision::DenyNetwork { reason } => ConnectionDecisionView::DenyNetwork { reason: reason@ },
            ConnectionDecision::DenyPolicy { reason } => ConnectionDecisionView::DenyPolicy { reason: reason@ },
        }
    }
}

/// The decision allows the connection.
pub open spec fn decision_allows(d: ConnectionDecisionView) -> bool {
    d is AllowInternal || d is AllowExternal
}

/// The reason of a denial, `None` for an allowing decision.
pub open spec fn denial_text(d: ConnectionDecisionView) -> Option<Seq<char>> {
    match d {
        ConnectionDecisionView::DenyCapability { reason } => Some(reason),
        ConnectionDecisionView::DenyNetwork { reason } => Some(reason),
        ConnectionDecisionView::DenyPolicy { reason } => Some(reason),
        _ => None,
    }
}

impl ConnectionDecision {
    /// Returns true if the connection is allowed.
    pub fn is_allowed(&self) -> (r: bool)
        ensures
            r == decision_allows(self@),
    {
        match self {
            ConnectionDecision::AllowInternal { .. } => true,
            ConnectionDecision::AllowExternal => true,
            _ => false,
        }
    }

    /// Returns the denial reason if this is a denial decision.
    pub fn denial_reason(&self) -> (r: Option<&str>)
        ensures
            match r {
                Some(s) => denial_text(self@) == Some(s@),
                None => denial_text(self@) is None,
            },
    {
        match self {
            ConnectionDecision::DenyCapability { reason } => Some(reason.as_str()),
            ConnectionDecision::DenyNetwork { reason } => Some(reason.as_str()),
            ConnectionDecision::DenyPolicy { reason } => Some(reason.as_str()),
            ConnectionDecision::AllowInternal { .. } => None,
            ConnectionDecision::AllowExternal => None,
        }
    }
}

/// The capabilities, if any, allow connecting to `target`. No capabilities
/// allow nothing.
pub open spec fn capability_allows(caps: Option<Capabilities>, target: Seq<char>) -> bool {
    match caps {
        Some(c) => grants_connect(c, target),
        None => false,
    }
}

/// The `host:port` text of a target.
pub open spec fn target_text(host: Seq<char>, port: u16) -> Seq<char> {
    host + ":"@ + decimal(port as nat)
}

/// An allowing decision, unless the policy decision denies.
pub open spec fn unless_policy_denies(policy: Option<DecisionView>, allow: ConnectionDecisionView) -> ConnectionDecisionView {
    match policy {
        Some(DecisionView::Deny { reason, .. }) => ConnectionDecisionView::DenyPolicy { reason },
        _ => allow,
    }
}

/// The policy decision for a connection, when policies are consulted.
pub open spec fn policy_for(
    tables: Option<(Map<Seq<char>, EvaluatedPolicyView>, Map<Seq<char>, Seq<char>>)>,
    from: Seq<char>,
    to: Seq<char>,
) -> Option<DecisionView> {
    match tables {
        Some((policies, s2m)) => Some(connection_decision(policies, s2m, from, to)),
        None => None,
    }
}

/// The target the policies are asked about, if the connection gets that
/// far: past the capability check and, for an internal target, the network
/// check. It is the service for an internal target and `host:port`
/// otherwise.
pub open spec fn consulted_target(
    from: Seq<char>,
    caps: Option<Capabilities>,
    host: Seq<char>,
    port: u16,
    names: Map<Seq<char>, Seq<char>>,
    memberships: Map<Seq<char>, Seq<Seq<char>>>,
) -> Option<Seq<char>> {
    let target = target_text(host, port);
    if !capability_allows(caps, target) {
        None
    } else {
        match lookup(names, name_part(host)) {
            Some(to) => if share_network(memberships, from, to) { Some(to) } else { None },
            None => Some(target),
        }
    }
}

/// The decision on an outbound connection from `from` to `host:port`.
///
/// In order: the capabilities must allow the target; a host whose name part
/// is a registered service is internal, and both services must share a
/// network; then the policies, if consulted, may deny.
pub open spec fn connection_outcome(
    from: Seq<char>,
    caps: Option<Capabilities>,
    host: Seq<char>,
    port: u16,
    names: Map<Seq<char>, Seq<char>>,
    memberships: Map<Seq<char>, Seq<Seq<char>>>,
    tables: Option<(Map<Seq<char>, EvaluatedPolicyView>, Map<Seq<char>, Seq<char>>)>,
) -> ConnectionDecisionView {
    let target = target_text(host, port);
    if !capability_allows(caps, target) {
        ConnectionDecisionView::DenyCapability {
            reason: "Service does not have capability to connect to '"@ + target + "'"@,
        }
    } else {
        match lookup(names, name_part(host)) {
            Some(to) => if !share_network(memberships, from, to) {
                ConnectionDecisionView::DenyNetwork {
                    reason: "Services '"@ + from + "' and '"@ + to + "' do not share a network"@,
                }
            } else {
                unless_policy_denies(policy_for(tables, from, to), ConnectionDecisionView::AllowInternal { service_id: to })
            },
            None => unless_policy_denies(policy_for(tables, from, target), ConnectionDecisionView::AllowExternal),
        }
    }
}

/// The policy tables of an optional policy manager.
pub open spec fn tables_of(pm: Option<&mut PolicyManager>) -> Option<(Map<Seq<char>, EvaluatedPolicyView>, Map<Seq<char>, Seq<char>>)> {
    match pm {
        Some(p) => Some((p.policies_view(), p.s2m_view())),
        None => None,
    }
}

/// Validates an outbound connection from a service.
///
/// Checks in order that the capabilities allow the target, that an internal
/// target shares a network with the source, and the policy rules (when a
/// policy manager is given; its evaluations are recorded in its audit
/// events).
pub fn validate_connection(
    from_service_id: &str,
    capabilities: &Option<Capabilities>,
    target_host: &str,
    target_port: u16,
    network_manager: &NetworkManager,
    policy_manager: Option<&mut PolicyManager>,
) -> (r: ConnectionDecision)
    requires
        network_manager.wf(),
        policy_manager matches Some(pm) ==> pm.wf(),
    ensures
        r@ == connection_outcome(
            from_service_id@,
            *capabilities,
            target_host@,
            target_port,
            network_manager.reg().names(),
            network_manager.memberships(),
            tables_of(policy_manager),
        ),
        policy_manager matches Some(pm) ==> {
            &&& final(pm).wf()
            &&& final(pm).policies_view() == pm.policies_view()
            &&& final(pm).s2m_view() == pm.s2m_view()
            &&& match consulted_target(
                from_service_id@,
                *capabilities,
                target_host@,
                target_port,
                network_manager.reg().names(),
                network_manager.memberships(),
            ) {
                Some(to) => audit_recorded(
                    pm.bus(),
                    final(pm).bus(),
                    pm.policies_view(),
                    pm.s2m_view(),
                    from_service_id@,
                    to,
                ),
                None => final(pm).bus() == pm.bus(),
            }
        },
{
    let mut target = owned(target_host);
    push_str(&mut target, ":");
    push_decimal(&mut target, target_port as u64);
    let ghost t = target_text(target_host@, target_port);
    assert(target@ == t);

    if !capability_allows_exec(capabilities, target.as_str()) {
        let mut reason = owned("Service does not have capability to connect to '");
        push_str(&mut reason, target.as_str());
        push_str(&mut reason, "'");
        return ConnectionDecision::DenyCapability { reason };
    }

    match network_manager.resolve_service(target_host) {
        Some(target_service_id) => {
            if !network_manager.services_share_network(from_service_id, target_service_id.as_str()) {
                let mut reason = owned("Services '");
                push_str(&mut reason, from_service_id);
                push_str(&mut reason, "' and '");
                push_str(&mut reason, target_service_id.as_str());
                push_str(&mut reason, "' do not share a network");
                return ConnectionDecision::DenyNetwork { reason };
            }
            match policy_manager {
                Some(pm) => {
                    let decision = pm.evaluate_connection(from_service_id, target_service_id.as_str());
                    match decision {
                        PolicyDecision::Deny { reason, .. } => {
                            return ConnectionDecision::DenyPolicy { reason };
                        },
                        _ => {},
                    }
                },
                None => {},
            }
            ConnectionDecision::AllowInternal { service_id: target_service_id }
        },
        None => {
            match policy_manager {
                Some(pm) => {
                    let decision = pm.evaluate_connection(from_service_id, target.as_str());
                    match decision {
                        PolicyDecision::Deny { reason, .. } => {
                            return ConnectionDecision::DenyPolicy { reason };
                        },
                        _ => {},
                    }
                },
                None => {},
            }
            ConnectionDecision::AllowExternal
        },
    }
}

/// Whether the capabilities, if any, allow connecting to `target`.
fn capability_allows_exec(capabilities: &Option<Capabilities>, target: &str) -> (r: bool)
    ensures
        r == capability_allows(*capabilities, target@),
{
    match capabilities {
        None => false,
        Some(caps) => caps.can_connect(target),
    }
}

/// The capabilities, if any, allow listening on `port`.
pub open spec fn listen_allowed(caps: Option<Capabilities>, port: u16) -> bool {
    match caps {
        Some(c) => grants_listen(c, port),
        None => false,
    }
}

/// Validates that a service can listen on a given port: its capabilities
/// must list the port among their listen grants.
pub fn validate_listen_port(capabilities: &Option<Capabilities>, port: u16) -> (r: bool)
    ensures
        r == listen_allowed(*capabilities, port),
{
    match capabilities {
        None => false,
        Some(caps) => caps.can_listen(port),
    }
}

/// Result of ingress validation.
#[derive(Debug, Clone, PartialEq, Eq)]
pub enum IngressDecision {
    /// Allow the incoming connection.
    Allow,
    /// Deny: service only allows internal access.
    DenyInternal {
        /// The service ID that rejected external access.
        service_id: String,
    },
}

impl IngressDecision {
    /// Returns true if the ingress is allowed.
    pub fn is_allowed(&self) -> (r: bool)
        ensures
            r == (self is Allow),
    {
        match self {
            IngressDecision::Allow => true,
            IngressDecision::DenyInternal { .. } => false,
        }
    }
}

/// Validates an incoming connection to a service: it is allowed only if the
/// service is a member of at least one network with external access.
pub fn validate_ingress(service_id: &str, network_manager: &NetworkManager) -> (r: IngressDecision)
    requires
        network_manager.wf(),
    ensures
        reachable_from_outside(network_manager.networks(), network_manager.memberships(), service_id@)
            ==> r is Allow,
        !reachable_from_outside(network_manager.networks(), network_manager.memberships(), service_id@)
            ==> (r matches IngressDecision::DenyInternal { service_id: s } && s@ == service_id@),
{
    if network_manager.service_allows_external_access(service_id) {
        IngressDecision::Allow
    } else {
        IngressDecision::DenyInternal { service_id: owned(service_id) }
    }
}

/// Deny by default: a connection is allowed only when the service's
/// capabilities grant the target, and a service with no capabilities may
/// connect nowhere.
pub proof fn lemma_deny_by_default(
    from: Seq<char>,
    caps: Option<Capabilities>,
    host: Seq<char>,
    port: u16,
    names: Map<Seq<char>, Seq<char>>,
    memberships: Map<Seq<char>, Seq<Seq<char>>>,
    tables: Option<(Map<Seq<char>, EvaluatedPolicyView>, Map<Seq<char>, Seq<char>>)>,
)
    ensures
        decision_allows(connection_outcome(from, caps, host, port, names, memberships, tables))
            ==> capability_allows(caps, target_text(host, port)),
        caps is None ==> connection_outcome(from, caps, host, port, names, memberships, tables) is DenyCapability,
{
}

/// Network segmentation: a connection to another service is allowed only
/// when both services share a network, and then it reaches that service.
pub proof fn lemma_internal_needs_shared_network(
    from: Seq<char>,
    caps: Option<Capabilities>,
    host: Seq<char>,
    port: u16,
    names: Map<Seq<char>, Seq<char>>,
    memberships: Map<Seq<char>, Seq<Seq<char>>>,
    tables: Option<(Map<Seq<char>, EvaluatedPolicyView>, Map<Seq<char>, Seq<char>>)>,
    to: Seq<char>,
)
    requires
        lookup(names, name_part(host)) == Some(to),
    ensures
        decision_allows(connection_outcome(from, caps, host, port, names, memberships, tables)) ==> {
            &&& share_network(memberships, from, to)
            &&& connection_outcome(from, caps, host, port, names, memberships, tables)
                == (ConnectionDecisionView::AllowInternal { service_id: to })
        },
        capability_allows(caps, target_text(host, port)) && !share_network(memberships, from, to)
            ==> connection_outcome(from, caps, host, port, names, memberships, tables) is DenyNetwork,
{
}

/// A policy denial wins: once capabilities and networks allow a
/// connection, a denying policy decision denies it with the policy's reason,
/// and any other decision lets it through.
pub proof fn lemma_policy_denial_wins(
    from: Seq<char>,
    caps: Option<Capabilities>,
    host: Seq<char>,
    port: u16,
    names: Map<Seq<char>, Seq<char>>,
    memberships: Map<Seq<char>, Seq<Seq<char>>>,
    tables: Option<(Map<Seq<char>, EvaluatedPolicyView>, Map<Seq<char>, Seq<char>>)>,
)
    requires
        capability_allows(caps, target_text(host, port)),
        match lookup(names, name_part(host)) {
            Some(to) => share_network(memberships, from, to),
            None => true,
        },
    ensures
        ({
            let to = match lookup(names, name_part(host)) {
                Some(t) => t,
                None => target_text(host, port),
            };
            &&& (policy_for(tables, from, to) matches Some(DecisionView::Deny { reason, .. }))
                ==> connection_outcome(from, caps, host, port, names, memberships, tables)
                    == (ConnectionDecisionView::DenyPolicy { reason: policy_for(tables, from, to)->0->Deny_reason })
            &&& !(policy_for(tables, from, to) matches Some(DecisionView::Deny { .. }))
                ==> decision_allows(connection_outcome(from, caps, host, port, names, memberships, tables))
        }),
{
}

} // verus!
