use fabricks::events::bus::EventBus;
use fabricks::error::DaemonError;
use fabricks::ids::generate_network_id;
use fabricks::network::capability::{Capabilities, NetworkCapabilities};
use fabricks::network::manager::NetworkManager;
use fabricks::network::registry::{extract_service_name, ServiceRegistry};
use fabricks::network::types::{NetworkAccess, NetworkConfig, NetworkInfo, NetworkOptions, NetworkState};
use fabricks::network::validation::{
    validate_connection, validate_ingress, validate_listen_port, ConnectionDecision, IngressDecision,
};
use fabricks::policy::manager::PolicyManager;
use fabricks::policy::model::{DenyRule, Policy};
use fabricks::keyed::KeyedList;

fn create_test_manager() -> NetworkManager {
    NetworkManager::new(ServiceRegistry::new())
}

fn capabilities_for_connect(targets: Vec<&str>) -> Option<Capabilities> {
    Some(Capabilities {
        env: None,
        network: Some(NetworkCapabilities {
            connect: Some(targets.into_iter().map(String::from).collect()),
            listen: None,
            allow_all_outbound: None,
        }),
        filesystem: None,
        wasm: None,
    })
}

fn capabilities_for_listen(ports: Vec<u16>) -> Option<Capabilities> {
    Some(Capabilities {
        env: None,
        network: Some(NetworkCapabilities { connect: None, listen: Some(ports), allow_all_outbound: None }),
        filesystem: None,
        wasm: None,
    })
}

fn capabilities_allow_all_outbound() -> Option<Capabilities> {
    Some(Capabilities {
        env: None,
        network: Some(NetworkCapabilities { connect: None, listen: None, allow_all_outbound: Some(true) }),
        filesystem: None,
        wasm: None,
    })
}

fn internal_options() -> NetworkOptions {
    let mut options = NetworkOptions::default();
    options.access = NetworkAccess::Internal;
    options
}

#[test]
fn test_network_options_default() {
    let opts = NetworkOptions::default();
    assert!(!opts.access.is_internal());
    assert!(!opts.isolation.is_isolated());
    assert!(!opts.encryption.is_required());
    assert!(!opts.audit.is_enabled());
}

#[test]
fn test_network_options_internal() {
    let opts = NetworkOptions::internal();
    assert!(opts.access.is_internal());
    assert!(!opts.isolation.is_isolated());
}

#[test]
fn test_network_options_isolated() {
    let opts = NetworkOptions::isolated();
    assert!(!opts.access.is_internal());
    assert!(opts.isolation.is_isolated());
}

#[test]
fn test_network_config_new() {
    let config = NetworkConfig::new("test-network".to_string());
    assert_eq!(config.name, "test-network");
    assert!(!config.options.access.is_internal());
    assert!(!config.options.isolation.is_isolated());
}

#[test]
fn test_network_config_internal() {
    let config = NetworkConfig::internal("internal-net".to_string());
    assert_eq!(config.name, "internal-net");
    assert!(config.options.access.is_internal());
}

#[test]
fn test_network_state_membership() {
    let config = NetworkConfig::new("test".to_string());
    let mut state = NetworkState::new(config);
    assert_eq!(state.member_count(), 0);
    assert!(!state.has_member("svc-1"));
    state.add_member("svc-1".to_string());
    assert_eq!(state.member_count(), 1);
    assert!(state.has_member("svc-1"));
    state.add_member("svc-2".to_string());
    assert_eq!(state.member_count(), 2);
    state.remove_member("svc-1");
    assert_eq!(state.member_count(), 1);
    assert!(!state.has_member("svc-1"));
    assert!(state.has_member("svc-2"));
}

#[test]
fn test_network_id_generation() {
    let id1 = generate_network_id();
    let id2 = generate_network_id();
    assert!(id1.starts_with("net-"));
    assert!(id2.starts_with("net-"));
    assert_ne!(id1, id2);
    assert_eq!(id1.len(), 12);
    assert!(id1[4..].chars().all(|c| c.is_ascii_hexdigit() && !c.is_ascii_uppercase()));
}

#[test]
fn test_network_info_from_state() {
    let config = NetworkConfig::new("my-network".to_string());
    let mut state = NetworkState::new(config);
    state.add_member("svc-1".to_string());
    state.add_member("svc-2".to_string());
    let info = NetworkInfo::from_state(&state);
    assert_eq!(info.name, "my-network");
    assert_eq!(info.member_count, 2);
}

#[test]
fn test_extract_service_name() {
    assert_eq!(extract_service_name("api-service"), "api-service");
    assert_eq!(extract_service_name("api-service:8080"), "api-service");
    assert_eq!(extract_service_name("api-service:"), "api-service");
    assert_eq!(extract_service_name(""), "");
}

#[test]
fn extract_service_name_stops_at_first_colon() {
    assert_eq!(extract_service_name("a:b:c"), "a");
    assert_eq!(extract_service_name(":8080"), "");
    assert_eq!(extract_service_name("ünïcode:1"), "ünïcode");
}

#[test]
fn test_registry_register_resolve() {
    let mut registry = ServiceRegistry::new();
    registry.register("api-service".to_string(), "svc-123".to_string());
    assert_eq!(registry.resolve("api-service"), Some("svc-123".to_string()));
    assert_eq!(registry.resolve("unknown"), None);
}

#[test]
fn test_registry_reverse_lookup() {
    let mut registry = ServiceRegistry::new();
    registry.register("api-service".to_string(), "svc-123".to_string());
    assert_eq!(registry.reverse_lookup("svc-123"), Some("api-service".to_string()));
}

#[test]
fn test_registry_unregister_by_id() {
    let mut registry = ServiceRegistry::new();
    registry.register("api-service".to_string(), "svc-123".to_string());
    assert!(registry.is_internal_service("api-service"));
    registry.unregister_by_id("svc-123");
    assert!(!registry.is_internal_service("api-service"));
}

#[test]
fn test_registry_unregister_by_name() {
    let mut registry = ServiceRegistry::new();
    registry.register("api-service".to_string(), "svc-123".to_string());
    registry.unregister_by_name("api-service");
    assert!(!registry.is_internal_service("api-service"));
    assert!(registry.reverse_lookup("svc-123").is_none());
}

#[test]
fn test_registry_is_internal_service() {
    let mut registry = ServiceRegistry::new();
    assert!(!registry.is_internal_service("api-service"));
    registry.register("api-service".to_string(), "svc-123".to_string());
    assert!(registry.is_internal_service("api-service"));
    assert!(!registry.is_internal_service("api.example.com"));
}

#[test]
fn test_registry_count() {
    let mut registry = ServiceRegistry::new();
    assert_eq!(registry.count(), 0);
    registry.register("svc-a".to_string(), "id-a".to_string());
    registry.register("svc-b".to_string(), "id-b".to_string());
    assert_eq!(registry.count(), 2);
    let mut names = registry.all_names();
    names.sort();
    assert_eq!(names, vec!["svc-a".to_string(), "svc-b".to_string()]);
}

#[test]
fn test_create_network() {
    let mut manager = create_test_manager();
    let id = manager.create_network(NetworkConfig::new("test-network".to_string())).unwrap();
    assert!(id.starts_with("net-"));
    let network = manager.get_network(&id).unwrap();
    assert_eq!(network.name, "test-network");
    assert!(!network.options.access.is_internal());
}

#[test]
fn test_create_duplicate_network_name() {
    let mut manager = create_test_manager();
    manager.create_network(NetworkConfig::new("my-network".to_string())).unwrap();
    let result = manager.create_network(NetworkConfig::new("my-network".to_string()));
    assert!(matches!(result, Err(DaemonError::NetworkExists(_))));
}

#[test]
fn test_delete_network() {
    let mut manager = create_test_manager();
    let id = manager.create_network(NetworkConfig::new("deletable".to_string())).unwrap();
    manager.delete_network(&id).unwrap();
    assert!(manager.get_network(&id).is_none());
}

#[test]
fn test_delete_network_with_members() {
    let mut manager = create_test_manager();
    let id = manager.create_network(NetworkConfig::new("with-members".to_string())).unwrap();
    manager.add_service(&id, "svc-1", "my-service").unwrap();
    let result = manager.delete_network(&id);
    assert!(matches!(result, Err(DaemonError::NetworkHasMembers(_))));
}

#[test]
fn delete_unknown_network_fails() {
    let mut manager = create_test_manager();
    let result = manager.delete_network("net-nothere");
    assert!(matches!(result, Err(DaemonError::NetworkNotFound(ref s)) if s == "net-nothere"));
}

#[test]
fn test_add_remove_service() {
    let mut manager = create_test_manager();
    let id = manager.create_network(NetworkConfig::new("test-net".to_string())).unwrap();
    manager.add_service(&id, "svc-123", "api-service").unwrap();
    let network = manager.get_network(&id).unwrap();
    assert!(network.members.contains(&"svc-123".to_string()));
    assert_eq!(manager.resolve_service("api-service"), Some("svc-123".to_string()));
    manager.remove_service(&id, "svc-123").unwrap();
    let network = manager.get_network(&id).unwrap();
    assert!(!network.members.contains(&"svc-123".to_string()));
}

#[test]
fn test_services_share_network() {
    let mut manager = create_test_manager();
    let id = manager.create_network(NetworkConfig::new("shared-net".to_string())).unwrap();
    manager.add_service(&id, "svc-a", "service-a").unwrap();
    manager.add_service(&id, "svc-b", "service-b").unwrap();
    assert!(manager.services_share_network("svc-a", "svc-b"));
    assert!(!manager.services_share_network("svc-a", "svc-c"));
}

#[test]
fn test_get_service_networks() {
    let mut manager = create_test_manager();
    let id1 = manager.create_network(NetworkConfig::new("net-1".to_string())).unwrap();
    let id2 = manager.create_network(NetworkConfig::new("net-2".to_string())).unwrap();
    manager.add_service(&id1, "svc-1", "my-service").unwrap();
    manager.add_service(&id2, "svc-1", "my-service").unwrap();
    let networks = manager.get_service_networks("svc-1");
    assert_eq!(networks.len(), 2);
    assert!(networks.contains(&id1));
    assert!(networks.contains(&id2));
}

#[test]
fn test_remove_service_from_all() {
    let mut manager = create_test_manager();
    let id1 = manager.create_network(NetworkConfig::new("net-a".to_string())).unwrap();
    let id2 = manager.create_network(NetworkConfig::new("net-b".to_string())).unwrap();
    manager.add_service(&id1, "svc-1", "my-svc").unwrap();
    manager.add_service(&id2, "svc-1", "my-svc").unwrap();
    manager.remove_service_from_all("svc-1");
    assert!(manager.get_service_networks("svc-1").is_empty());
    assert!(manager.resolve_service("my-svc").is_none());
    assert!(manager.get_network(&id1).unwrap().members.is_empty());
    assert!(manager.get_network(&id2).unwrap().members.is_empty());
}

#[test]
fn test_is_internal_service() {
    let mut manager = create_test_manager();
    let id = manager.create_network(NetworkConfig::new("test-net".to_string())).unwrap();
    manager.add_service(&id, "svc-1", "internal-api").unwrap();
    assert!(manager.is_internal_service("internal-api"));
    assert!(manager.is_internal_service("internal-api:8080"));
    assert!(!manager.is_internal_service("external.com"));
    assert!(!manager.is_internal_service("api.example.com:443"));
}

#[test]
fn test_get_network_by_name() {
    let mut manager = create_test_manager();
    let id = manager.create_network(NetworkConfig::new("named-network".to_string())).unwrap();
    let network = manager.get_network_by_name("named-network").unwrap();
    assert_eq!(network.id, id);
    assert_eq!(network.name, "named-network");
    assert!(manager.get_network_by_name("nonexistent").is_none());
    assert_eq!(manager.resolve_network_id("named-network"), Some(id.clone()));
    assert_eq!(manager.resolve_network_id(&id), Some(id.clone()));
    assert!(manager.get_network_by_id_or_name(&id).is_some());
}

#[test]
fn test_external_access_no_network() {
    let manager = create_test_manager();
    assert!(!manager.service_allows_external_access("orphan-svc"));
}

#[test]
fn test_external_access_on_external_network() {
    let mut manager = create_test_manager();
    let id = manager.create_network(NetworkConfig::new("external-net".to_string())).unwrap();
    manager.add_service(&id, "svc-1", "my-service").unwrap();
    assert!(manager.service_allows_external_access("svc-1"));
}

#[test]
fn test_external_access_on_internal_network() {
    let mut manager = create_test_manager();
    let config = NetworkConfig::with_options("internal-net".to_string(), internal_options());
    let id = manager.create_network(config).unwrap();
    manager.add_service(&id, "svc-1", "internal-svc").unwrap();
    assert!(!manager.service_allows_external_access("svc-1"));
}

#[test]
fn test_external_access_on_mixed_networks() {
    let mut manager = create_test_manager();
    let internal_id = manager.create_network(NetworkConfig::with_options("internal".to_string(), internal_options())).unwrap();
    let external_id = manager.create_network(NetworkConfig::new("external".to_string())).unwrap();
    manager.add_service(&internal_id, "svc-1", "mixed-svc").unwrap();
    manager.add_service(&external_id, "svc-1", "mixed-svc").unwrap();
    assert!(manager.service_allows_external_access("svc-1"));
}

#[test]
fn test_external_access_multiple_internal_networks() {
    let mut manager = create_test_manager();
    let id1 = manager.create_network(NetworkConfig::with_options("internal-1".to_string(), internal_options())).unwrap();
    let id2 = manager.create_network(NetworkConfig::with_options("internal-2".to_string(), internal_options())).unwrap();
    manager.add_service(&id1, "svc-1", "fully-internal").unwrap();
    manager.add_service(&id2, "svc-1", "fully-internal").unwrap();
    assert!(!manager.service_allows_external_access("svc-1"));
}

#[test]
fn load_state_rebuilds_memberships() {
    let mut state = NetworkState::with_id(NetworkConfig::new("persisted".to_string()), "net-0000beef".to_string(), 7);
    state.add_member("svc-9".to_string());
    let mut manager = create_test_manager();
    manager.load_state(vec![state]);
    assert_eq!(manager.get_service_networks("svc-9"), vec!["net-0000beef".to_string()]);
    assert_eq!(manager.list_networks().len(), 1);
    assert_eq!(manager.get_network("net-0000beef").unwrap().created_at, 7);
}

#[test]
fn create_network_with_id_is_exact() {
    let mut manager = create_test_manager();
    let id = manager
        .create_network_with_id(NetworkConfig::new("fixed".to_string()), "net-12345678".to_string(), 42)
        .unwrap();
    assert_eq!(id, "net-12345678");
    let detail = manager.get_network("net-12345678").unwrap();
    assert_eq!(detail.created_at, 42);
    assert_eq!(detail.updated_at, 42);
    assert!(detail.members.is_empty());
}

#[test]
fn test_deny_no_capability() {
    let manager = create_test_manager();
    let decision = validate_connection("svc-1", &None, "api.example.com", 443, &manager, None);
    assert!(matches!(decision, ConnectionDecision::DenyCapability { .. }));
    assert!(!decision.is_allowed());
    assert_eq!(
        decision.denial_reason(),
        Some("Service does not have capability to connect to 'api.example.com:443'")
    );
}

#[test]
fn test_deny_capability_not_granted() {
    let manager = create_test_manager();
    let cap = capabilities_for_connect(vec!["other.example.com:443"]);
    let decision = validate_connection("svc-1", &cap, "api.example.com", 443, &manager, None);
    assert!(matches!(decision, ConnectionDecision::DenyCapability { .. }));
}

#[test]
fn test_allow_external_with_capability() {
    let manager = create_test_manager();
    let cap = capabilities_for_connect(vec!["api.example.com:443"]);
    let decision = validate_connection("svc-1", &cap, "api.example.com", 443, &manager, None);
    assert_eq!(decision, ConnectionDecision::AllowExternal);
    assert!(decision.is_allowed());
}

#[test]
fn test_allow_external_with_allow_all_outbound() {
    let manager = create_test_manager();
    let cap = capabilities_allow_all_outbound();
    let decision = validate_connection("svc-1", &cap, "any.host.com", 8080, &manager, None);
    assert_eq!(decision, ConnectionDecision::AllowExternal);
}

#[test]
fn test_deny_internal_no_shared_network() {
    let mut manager = create_test_manager();
    let net1_id = manager.create_network(NetworkConfig::new("net-1".to_string())).unwrap();
    let net2_id = manager.create_network(NetworkConfig::new("net-2".to_string())).unwrap();
    manager.add_service(&net1_id, "svc-a", "service-a").unwrap();
    manager.add_service(&net2_id, "svc-b", "service-b").unwrap();
    let cap = capabilities_for_connect(vec!["service-b:8080"]);
    let decision = validate_connection("svc-a", &cap, "service-b", 8080, &manager, None);
    assert!(matches!(decision, ConnectionDecision::DenyNetwork { .. }));
    assert_eq!(decision.denial_reason(), Some("Services 'svc-a' and 'svc-b' do not share a network"));
}

#[test]
fn test_allow_internal_shared_network() {
    let mut manager = create_test_manager();
    let net_id = manager.create_network(NetworkConfig::new("shared-net".to_string())).unwrap();
    manager.add_service(&net_id, "svc-a", "service-a").unwrap();
    manager.add_service(&net_id, "svc-b", "service-b").unwrap();
    let cap = capabilities_for_connect(vec!["service-b:8080"]);
    let decision = validate_connection("svc-a", &cap, "service-b", 8080, &manager, None);
    match decision {
        ConnectionDecision::AllowInternal { service_id } => assert_eq!(service_id, "svc-b"),
        other => panic!("Expected AllowInternal, got {other:?}"),
    }
}

#[test]
fn policy_denial_overrides_shared_network() {
    let mut manager = create_test_manager();
    let net_id = manager.create_network(NetworkConfig::new("shared-net".to_string())).unwrap();
    manager.add_service(&net_id, "svc-a", "service-a").unwrap();
    manager.add_service(&net_id, "svc-b", "service-b").unwrap();
    let mut pm = PolicyManager::new(EventBus::new(100, 100));
    let mut mappings = KeyedList::new();
    mappings.insert("a".to_string(), "svc-a".to_string());
    mappings.insert("b".to_string(), "svc-b".to_string());
    let policy = Policy {
        description: None,
        deny: Some(vec![DenyRule {
            from: Some(vec!["a".to_string()]),
            to: Some(vec!["b".to_string()]),
            except: None,
            reason: Some("a may not call b".to_string()),
        }]),
        require: None,
        warn: None,
    };
    pm.load_policies("m", policy, mappings);
    let cap = capabilities_for_connect(vec!["service-b:8080"]);
    let decision = validate_connection("svc-a", &cap, "service-b", 8080, &manager, Some(&mut pm));
    assert_eq!(decision, ConnectionDecision::DenyPolicy { reason: "a may not call b".to_string() });
}

#[test]
fn test_validate_listen_port_allowed() {
    let cap = capabilities_for_listen(vec![8080, 9090]);
    assert!(validate_listen_port(&cap, 8080));
    assert!(validate_listen_port(&cap, 9090));
}

#[test]
fn test_validate_listen_port_denied() {
    let cap = capabilities_for_listen(vec![8080]);
    assert!(!validate_listen_port(&cap, 9090));
}

#[test]
fn test_validate_listen_port_no_capability() {
    assert!(!validate_listen_port(&None, 8080));
}

#[test]
fn test_decision_denial_reason() {
    let allow = ConnectionDecision::AllowExternal;
    assert!(allow.denial_reason().is_none());
    let deny = ConnectionDecision::DenyCapability { reason: "test reason".to_string() };
    assert_eq!(deny.denial_reason(), Some("test reason"));
}

#[test]
fn test_ingress_deny_no_network() {
    let manager = create_test_manager();
    let decision = validate_ingress("svc-orphan", &manager);
    assert!(!decision.is_allowed());
    assert!(matches!(decision, IngressDecision::DenyInternal { .. }));
}

#[test]
fn test_ingress_allow_external_network() {
    let mut manager = create_test_manager();
    let net_id = manager.create_network(NetworkConfig::new("external-net".to_string())).unwrap();
    manager.add_service(&net_id, "svc-public", "public-service").unwrap();
    let decision = validate_ingress("svc-public", &manager);
    assert!(decision.is_allowed());
    assert_eq!(decision, IngressDecision::Allow);
}

#[test]
fn test_ingress_deny_internal_only_network() {
    let mut manager = create_test_manager();
    let net_id = manager.create_network(NetworkConfig::with_options("internal-net".to_string(), internal_options())).unwrap();
    manager.add_service(&net_id, "svc-private", "private-service").unwrap();
    let decision = validate_ingress("svc-private", &manager);
    assert!(!decision.is_allowed());
    assert!(matches!(decision, IngressDecision::DenyInternal { .. }));
}

#[test]
fn test_ingress_allow_mixed_networks() {
    let mut manager = create_test_manager();
    let internal_net_id = manager.create_network(NetworkConfig::with_options("internal-net".to_string(), internal_options())).unwrap();
    let external_net_id = manager.create_network(NetworkConfig::new("external-net".to_string())).unwrap();
    manager.add_service(&internal_net_id, "svc-mixed", "mixed-service").unwrap();
    manager.add_service(&external_net_id, "svc-mixed", "mixed-service").unwrap();
    let decision = validate_ingress("svc-mixed", &manager);
    assert!(decision.is_allowed());
    assert_eq!(decision, IngressDecision::Allow);
}

#[test]
fn test_ingress_decision_is_allowed() {
    let allow = IngressDecision::Allow;
    assert!(allow.is_allowed());
    let deny = IngressDecision::DenyInternal { service_id: "svc-1".to_string() };
    assert!(!deny.is_allowed());
}

#[test]
fn add_service_twice_is_refused() {
    let mut manager = create_test_manager();
    let id = manager.create_network(NetworkConfig::new("test-net".to_string())).unwrap();
    manager.add_service(&id, "svc-1", "my-service").unwrap();
    match manager.add_service(&id, "svc-1", "other-name") {
        Err(DaemonError::ServiceError { id: service_id, reason }) => {
            assert_eq!(service_id, "svc-1");
            assert_eq!(reason, format!("already a member of network {id}"));
        }
        other => panic!("expected a refusal, got {other:?}"),
    }
    assert_eq!(manager.get_service_networks("svc-1"), vec![id.clone()]);
    assert_eq!(manager.get_network(&id).unwrap().members, vec!["svc-1".to_string()]);
    assert_eq!(manager.resolve_service("my-service"), Some("svc-1".to_string()));
    assert!(manager.resolve_service("other-name").is_none());
}

#[test]
fn remove_service_from_all_leaves_others_alone() {
    let mut manager = create_test_manager();
    let id1 = manager.create_network(NetworkConfig::new("net-a".to_string())).unwrap();
    let id2 = manager.create_network(NetworkConfig::new("net-b".to_string())).unwrap();
    manager.add_service(&id1, "svc-1", "my-svc").unwrap();
    manager.add_service(&id2, "svc-1", "my-svc").unwrap();
    manager.add_service(&id1, "svc-2", "other-svc").unwrap();
    manager.remove_service_from_all("svc-1");
    assert!(manager.get_service_networks("svc-1").is_empty());
    assert!(manager.resolve_service("my-svc").is_none());
    assert_eq!(manager.get_service_networks("svc-2"), vec![id1.clone()]);
    assert_eq!(manager.get_network(&id1).unwrap().members, vec!["svc-2".to_string()]);
    assert_eq!(manager.resolve_service("other-svc"), Some("svc-2".to_string()));
}
