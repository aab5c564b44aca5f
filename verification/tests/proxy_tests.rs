use fabricks::error::DaemonError;
use fabricks::network::capability::{Capabilities, NetworkCapabilities};
use fabricks::network::manager::NetworkManager;
use fabricks::network::registry::ServiceRegistry;
use fabricks::network::types::NetworkConfig;
use fabricks::proxy::egress::{
    bad_gateway, egress_step, internal_route_response, internal_routing_unavailable, parse_method, plan_request,
    plan_tcp_connect,
    EgressRequest, EgressResponse, EgressStep, HttpMethod, TcpConnectRequest, TcpConnectResult, TcpStep,
};
use fabricks::network::validation::ConnectionDecision;
use fabricks::proxy::loadbalancer::{LoadBalancer, Strategy};
use fabricks::proxy::router::{BindingProtocol, ServiceRouter};
use fabricks::proxy::server::{
    error_response, request_reply, ForwardFailure, ProxyResponse, ProxyServer, RequestRoute,
};

#[test]
fn test_round_robin() {
    let mut lb = LoadBalancer::round_robin();
    assert_eq!(lb.select(3), Some(0));
    assert_eq!(lb.select(3), Some(1));
    assert_eq!(lb.select(3), Some(2));
    assert_eq!(lb.select(3), Some(0));
}

#[test]
fn test_first_available() {
    let mut lb = LoadBalancer::new(Strategy::FirstAvailable);
    assert_eq!(lb.select(3), Some(0));
    assert_eq!(lb.select(3), Some(0));
    assert_eq!(lb.select(3), Some(0));
}

#[test]
fn test_no_instances() {
    let mut lb = LoadBalancer::round_robin();
    assert_eq!(lb.select(0), None);
}

#[test]
fn test_single_instance() {
    let mut lb = LoadBalancer::round_robin();
    assert_eq!(lb.select(1), Some(0));
    assert_eq!(lb.select(1), Some(0));
    assert_eq!(lb.select(1), Some(0));
}

#[test]
fn test_random_distribution() {
    let mut lb = LoadBalancer::new(Strategy::Random);
    for _ in 0..10 {
        let idx = lb.select(3);
        assert!(idx.is_some());
        assert!(idx.expect("has value") < 3);
    }
}

#[test]
fn random_selection_follows_the_counter() {
    let mut lb = LoadBalancer::new(Strategy::Random);
    // counter 0: (0 * 1103515245 + 12345) % 7 == 12345 % 7 == 4
    assert_eq!(lb.select(7), Some(4));
    // counter 1: (1103515245 + 12345) % 7 == 1103527590 % 7 == 4
    assert_eq!(lb.select(7), Some(4));
    // counter 2: (2206830490 + 12345) % 5 == 2206842835 % 5 == 0
    assert_eq!(lb.select(5), Some(0));
    assert_eq!(lb.strategy(), Strategy::Random);
    assert_eq!(LoadBalancer::default().strategy(), Strategy::RoundRobin);
}

#[test]
fn test_bind_and_lookup() {
    let mut router = ServiceRouter::new();
    router.bind(8080, "svc-123".to_string(), "my-service".to_string()).expect("should bind");
    let binding = router.lookup(8080);
    assert!(binding.is_some());
    assert_eq!(binding.as_ref().expect("has binding").service_id, "svc-123");
    assert_eq!(binding.as_ref().expect("has binding").service_name, "my-service");
    assert_eq!(binding.expect("has binding").port, 8080);
}

#[test]
fn test_bind_duplicate_port() {
    let mut router = ServiceRouter::new();
    router.bind(8080, "svc-123".to_string(), "my-service".to_string()).expect("should bind");
    let result = router.bind(8080, "svc-456".to_string(), "other-service".to_string());
    assert!(result.is_err());
    assert!(matches!(result.unwrap_err(), DaemonError::PortAlreadyBound { port: 8080, .. }));
}

#[test]
fn test_unbind() {
    let mut router = ServiceRouter::new();
    router.bind(8080, "svc-123".to_string(), "my-service".to_string()).expect("should bind");
    router.unbind(8080).expect("should unbind");
    assert!(router.lookup(8080).is_none());
}

#[test]
fn test_unbind_not_bound() {
    let mut router = ServiceRouter::new();
    let result = router.unbind(9999);
    assert!(result.is_err());
    assert!(matches!(result.unwrap_err(), DaemonError::PortNotBound { port: 9999 }));
}

#[test]
fn test_list_bindings() {
    let mut router = ServiceRouter::new();
    router.bind(8080, "svc-1".to_string(), "service-one".to_string()).expect("should bind");
    router.bind(8081, "svc-2".to_string(), "service-two".to_string()).expect("should bind");
    assert_eq!(router.list_bindings().len(), 2);
}

#[test]
fn router_test_unbind_service() {
    let mut router = ServiceRouter::new();
    router.bind(8080, "svc-1".to_string(), "service-one".to_string()).expect("should bind");
    router.bind(8081, "svc-1".to_string(), "service-one".to_string()).expect("should bind");
    router.bind(8082, "svc-2".to_string(), "service-two".to_string()).expect("should bind");
    let unbound = router.unbind_service("svc-1");
    assert_eq!(unbound.len(), 2);
    let bindings = router.list_bindings();
    assert_eq!(bindings.len(), 1);
    assert_eq!(bindings[0].service_id, "svc-2");
}

#[test]
fn test_bindings_for_service() {
    let mut router = ServiceRouter::new();
    router.bind(8080, "svc-1".to_string(), "service-one".to_string()).expect("should bind");
    router.bind(8081, "svc-1".to_string(), "service-one".to_string()).expect("should bind");
    router.bind(8082, "svc-2".to_string(), "service-two".to_string()).expect("should bind");
    assert_eq!(router.bindings_for_service("svc-1").len(), 2);
    assert_eq!(router.bindings_for_service("svc-2").len(), 1);
    assert!(router.bindings_for_service("svc-nonexistent").is_empty());
}

#[test]
fn test_is_bound() {
    let mut router = ServiceRouter::new();
    assert!(!router.is_bound(8080));
    router.bind(8080, "svc-1".to_string(), "service-one".to_string()).expect("should bind");
    assert!(router.is_bound(8080));
}

#[test]
fn bind_with_protocol_keeps_protocol() {
    let mut router = ServiceRouter::new();
    router.bind_with_protocol(5432, "svc-db".to_string(), "db".to_string(), BindingProtocol::Tcp).unwrap();
    assert_eq!(router.lookup(5432).unwrap().protocol, BindingProtocol::Tcp);
    assert_eq!(BindingProtocol::Tcp.as_str(), "tcp");
    assert_eq!(BindingProtocol::Http.as_str(), "http");
    assert_eq!(router.select_instance(2), Some(0));
    assert_eq!(router.select_instance(2), Some(1));
}

#[test]
fn test_tcp_connect_request() {
    let req = TcpConnectRequest::new("database.example.com".to_string(), 5432);
    assert_eq!(req.host, "database.example.com");
    assert_eq!(req.port, 5432);
    assert_eq!(req.target(), "database.example.com:5432");
}

#[test]
fn test_tcp_connect_result_is_methods() {
    let denied = TcpConnectResult::<()>::Denied { reason: "test".to_string() };
    assert!(!denied.is_connected());
    assert!(denied.is_denied());
    assert!(!denied.is_failed());
    let failed = TcpConnectResult::<()>::Failed { error: "test".to_string() };
    assert!(!failed.is_connected());
    assert!(!failed.is_denied());
    assert!(failed.is_failed());
    let connected = TcpConnectResult::Connected { connection: 1u8 };
    assert!(connected.is_connected());
}

#[test]
fn test_egress_request_host_port() {
    let req = EgressRequest::new("GET".to_string(), "https://api.example.com:443/v1".to_string());
    let (host, port) = req.host_port().unwrap();
    assert_eq!(host, "api.example.com");
    assert_eq!(port, 443);
    let req2 = EgressRequest::new("GET".to_string(), "http://localhost:8080/".to_string());
    let (host2, port2) = req2.host_port().unwrap();
    assert_eq!(host2, "localhost");
    assert_eq!(port2, 8080);
}

#[test]
fn test_egress_request_default_port() {
    let req = EgressRequest::new("GET".to_string(), "https://api.example.com/v1".to_string());
    let (host, port) = req.host_port().unwrap();
    assert_eq!(host, "api.example.com");
    assert_eq!(port, 443);
    let req2 = EgressRequest::new("GET".to_string(), "http://example.com/".to_string());
    let (host2, port2) = req2.host_port().unwrap();
    assert_eq!(host2, "example.com");
    assert_eq!(port2, 80);
}

#[test]
fn egress_request_invalid_url_has_no_host() {
    let req = EgressRequest::new("GET".to_string(), "not a url".to_string());
    assert!(req.host_port().is_none());
}

#[test]
fn test_egress_request_builder() {
    let req = EgressRequest::new("POST".to_string(), "https://api.example.com/".to_string())
        .with_header("Content-Type".to_string(), "application/json".to_string())
        .with_body(r#"{"key":"value"}"#.as_bytes().to_vec());
    assert_eq!(req.method, "POST");
    assert_eq!(req.headers.len(), 1);
    assert!(req.body.is_some());
}

#[test]
fn test_egress_response_builder() {
    let resp = EgressResponse::new(200)
        .with_header("Content-Type".to_string(), "application/json".to_string())
        .with_body(r#"{"result":"ok"}"#.as_bytes().to_vec());
    assert_eq!(resp.status, 200);
    assert_eq!(resp.headers.len(), 1);
    assert!(!resp.body.is_empty());
}

#[test]
fn test_egress_response_error() {
    let resp = EgressResponse::error(403, "Access denied");
    assert_eq!(resp.status, 403);
    assert_eq!(resp.body, b"Access denied".to_vec());
    assert_eq!(resp.headers, vec![("content-type".to_string(), "text/plain".to_string())]);
}

#[test]
fn egress_response_error_keeps_utf8() {
    let resp = EgressResponse::error(502, "Bad Gateway: ✗ naïve");
    assert_eq!(resp.body, "Bad Gateway: ✗ naïve".as_bytes().to_vec());
    assert_eq!(bad_gateway("boom").body, b"Bad Gateway: boom".to_vec());
    assert_eq!(bad_gateway("boom").status, 502);
    let unavailable = internal_routing_unavailable();
    assert_eq!(unavailable.status, 503);
    assert!(String::from_utf8_lossy(&unavailable.body).contains("not available"));
}

fn caps(targets: Vec<&str>) -> Option<Capabilities> {
    Some(Capabilities {
        env: None,
        network: Some(NetworkCapabilities {
            connect: Some(targets.into_iter().map(String::from).collect()),
            listen: None,
            allow_all_outbound: None,
        }),
        filesystem: None,
        wasm: None,
    })
}

#[test]
fn test_egress_proxy_deny_no_capability() {
    let manager = NetworkManager::new(ServiceRegistry::new());
    let request = EgressRequest::new("GET".to_string(), "https://api.example.com/v1".to_string());
    match plan_request("svc-1", &None, &request, &manager, None) {
        EgressStep::Respond { response } => {
            assert_eq!(response.status, 403);
            assert!(String::from_utf8_lossy(&response.body).contains("Forbidden"));
        }
        _ => panic!("expected a refusal"),
    }
}

#[test]
fn test_egress_proxy_deny_capability_not_granted() {
    let manager = NetworkManager::new(ServiceRegistry::new());
    let request = EgressRequest::new("GET".to_string(), "https://api.example.com/v1".to_string());
    match plan_request("svc-1", &caps(vec!["other.example.com:443"]), &request, &manager, None) {
        EgressStep::Respond { response } => assert_eq!(response.status, 403),
        _ => panic!("expected a refusal"),
    }
}

#[test]
fn test_egress_proxy_internal_no_handler() {
    let mut manager = NetworkManager::new(ServiceRegistry::new());
    let net_id = manager.create_network(NetworkConfig::new("test-net".to_string())).unwrap();
    manager.add_service(&net_id, "svc-a", "service-a").unwrap();
    manager.add_service(&net_id, "svc-b", "service-b").unwrap();
    let request = EgressRequest::new("GET".to_string(), "http://service-b:8080/api".to_string());
    match plan_request("svc-a", &caps(vec!["service-b:8080"]), &request, &manager, None) {
        EgressStep::RouteInternal { service_id } => assert_eq!(service_id, "svc-b"),
        _ => panic!("expected internal routing"),
    }
    // Without a handler for internal routing the proxy answers 503.
    let response = internal_route_response(None);
    assert_eq!(response.status, 503);
    assert!(String::from_utf8_lossy(&response.body).contains("not available"));
}

#[test]
fn egress_invalid_url_is_bad_request() {
    let manager = NetworkManager::new(ServiceRegistry::new());
    let request = EgressRequest::new("GET".to_string(), "::nonsense".to_string());
    match plan_request("svc-1", &None, &request, &manager, None) {
        EgressStep::Respond { response } => {
            assert_eq!(response.status, 400);
            assert_eq!(response.body, b"Invalid URL".to_vec());
        }
        _ => panic!("expected a bad request"),
    }
}

#[test]
fn egress_step_maps_decisions() {
    assert!(matches!(egress_step(ConnectionDecision::AllowExternal), EgressStep::ExecuteExternal));
    match egress_step(ConnectionDecision::DenyPolicy { reason: "nope".to_string() }) {
        EgressStep::Respond { response } => {
            assert_eq!(response.status, 403);
            assert_eq!(response.body, b"Forbidden: nope".to_vec());
        }
        _ => panic!("expected a refusal"),
    }
}

#[test]
fn test_tcp_connect_deny_no_capability() {
    let manager = NetworkManager::new(ServiceRegistry::new());
    let request = TcpConnectRequest::new("database.example.com".to_string(), 5432);
    match plan_tcp_connect("svc-1", &None, &request, &manager, None) {
        TcpStep::Deny { reason } => assert!(reason.contains("capability")),
        TcpStep::Connect => panic!("expected a denial"),
    }
}

#[test]
fn test_tcp_connect_deny_capability_not_granted() {
    let manager = NetworkManager::new(ServiceRegistry::new());
    let request = TcpConnectRequest::new("database.example.com".to_string(), 5432);
    let step = plan_tcp_connect("svc-1", &caps(vec!["other.example.com:5432"]), &request, &manager, None);
    assert!(matches!(step, TcpStep::Deny { .. }));
}

#[test]
fn tcp_connect_allowed_when_granted() {
    let manager = NetworkManager::new(ServiceRegistry::new());
    let request = TcpConnectRequest::new("database.example.com".to_string(), 5432);
    let step = plan_tcp_connect("svc-1", &caps(vec!["database.example.com:5432"]), &request, &manager, None);
    assert!(matches!(step, TcpStep::Connect));
}

#[test]
fn parse_method_is_case_insensitive() {
    assert_eq!(parse_method("get").unwrap(), HttpMethod::Get);
    assert_eq!(parse_method("Options").unwrap(), HttpMethod::Options);
    match parse_method("brew") {
        Err(resp) => {
            assert_eq!(resp.status, 400);
            assert_eq!(resp.body, b"Unsupported method: BREW".to_vec());
        }
        Ok(_) => panic!("expected an error"),
    }
}

fn create_test_server() -> ProxyServer<u32> {
    ProxyServer::new(ServiceRouter::new())
}

#[test]
fn test_proxy_server_creation() {
    let server = create_test_server();
    assert!(server.bound_ports().is_empty());
}

#[test]
fn test_bind_unbind_port() {
    let mut server = create_test_server();
    // The listener got port 41001 from the operating system.
    let port = server
        .bind_port(41001, "svc-123".to_string(), "my-service".to_string())
        .expect("should bind");
    assert!(port > 0);
    assert!(server.attach_listener(port, 7).is_none());
    let ports = server.bound_ports();
    assert_eq!(ports.len(), 1);
    assert_eq!(ports[0], port);
    let handle = server.unbind_port(port).expect("should unbind");
    assert_eq!(handle, Some(7));
    assert!(server.bound_ports().is_empty());
}

#[test]
fn server_test_unbind_service() {
    let mut server = create_test_server();
    let port1 = server
        .bind_port(41001, "svc-1".to_string(), "service-one".to_string())
        .expect("should bind first");
    assert!(server.attach_listener(port1, 1).is_none());
    let port2 = server
        .bind_port(41002, "svc-1".to_string(), "service-one".to_string())
        .expect("should bind second");
    assert!(server.attach_listener(port2, 2).is_none());
    assert_ne!(port1, port2);
    assert_eq!(server.bound_ports().len(), 2);
    let (unbound, handles) = server.unbind_service("svc-1");
    assert_eq!(unbound.len(), 2);
    assert_eq!(handles.len(), 2);
    assert!(server.bound_ports().is_empty());
}

#[test]
fn test_shutdown() {
    let mut server = create_test_server();
    let port1 = server
        .bind_port(41001, "svc-1".to_string(), "service-one".to_string())
        .expect("should bind first");
    assert!(server.attach_listener(port1, 1).is_none());
    let port2 = server
        .bind_port(41002, "svc-2".to_string(), "service-two".to_string())
        .expect("should bind second");
    assert!(server.attach_listener(port2, 2).is_none());
    assert_eq!(server.bound_ports().len(), 2);
    let mut handles = server.shutdown();
    handles.sort();
    assert_eq!(handles, vec![1, 2]);
    assert!(server.bound_ports().is_empty());
}

#[test]
fn test_bind_tcp_port() {
    let mut server = create_test_server();
    let port = server
        .bind_tcp_port(41003, "tcp-svc-123".to_string(), "my-tcp-service".to_string())
        .expect("should bind TCP port");
    assert!(port > 0);
    assert!(server.attach_listener(port, 3).is_none());
    let ports = server.bound_ports();
    assert_eq!(ports.len(), 1);
    assert_eq!(ports[0], port);
    let bindings = server.list_bindings();
    assert_eq!(bindings.len(), 1);
    assert_eq!(bindings[0].protocol, BindingProtocol::Tcp);
    assert_eq!(bindings[0].service_id, "tcp-svc-123");
    server.unbind_port(port).expect("should unbind");
    assert!(server.bound_ports().is_empty());
}

#[test]
fn test_mixed_http_tcp_ports() {
    let mut server = create_test_server();
    let http_port = server
        .bind_port(41004, "http-svc".to_string(), "http-service".to_string())
        .expect("should bind HTTP port");
    assert!(server.attach_listener(http_port, 4).is_none());
    let tcp_port = server
        .bind_tcp_port(41005, "tcp-svc".to_string(), "tcp-service".to_string())
        .expect("should bind TCP port");
    assert!(server.attach_listener(tcp_port, 5).is_none());
    let ports = server.bound_ports();
    assert_eq!(ports.len(), 2);
    let bindings = server.list_bindings();
    assert_eq!(bindings.len(), 2);
    let http_binding = bindings.iter().find(|b| b.port == http_port);
    let tcp_binding = bindings.iter().find(|b| b.port == tcp_port);
    assert!(http_binding.is_some());
    assert!(tcp_binding.is_some());
    assert_eq!(http_binding.expect("has http binding").protocol, BindingProtocol::Http);
    assert_eq!(tcp_binding.expect("has tcp binding").protocol, BindingProtocol::Tcp);
    server.shutdown();
    assert!(server.bound_ports().is_empty());
}

#[test]
fn test_server_bind_taken_port_refused() {
    let mut server = create_test_server();
    server.bind_port(41006, "svc-a".to_string(), "a".to_string()).expect("should bind");
    let err = server.bind_tcp_port(41006, "svc-b".to_string(), "b".to_string());
    match err {
        Err(DaemonError::PortAlreadyBound { port, service_id }) => {
            assert_eq!(port, 41006);
            assert_eq!(service_id, "svc-a");
        }
        other => panic!("unexpected: {:?}", other),
    }
}

#[test]
fn test_server_attach_listener_refused() {
    let mut server = create_test_server();
    // Not bound: the handle comes back.
    assert_eq!(server.attach_listener(41007, 9), Some(9));
    server.bind_port(41007, "svc".to_string(), "s".to_string()).expect("should bind");
    assert_eq!(server.attach_listener(41007, 10), None);
    // Already has a listener: the second handle comes back.
    assert_eq!(server.attach_listener(41007, 11), Some(11));
    assert!(server.is_bound(41007));
}

#[test]
fn test_server_unbind_unbound_port() {
    let mut server = create_test_server();
    match server.unbind_port(41008) {
        Err(DaemonError::PortNotBound { port }) => assert_eq!(port, 41008),
        other => panic!("unexpected: {:?}", other),
    }
}

fn external_manager(service_id: &str) -> NetworkManager {
    let mut manager = NetworkManager::new(ServiceRegistry::new());
    let id = manager.create_network(NetworkConfig::new("public".to_string())).unwrap();
    manager.add_service(&id, service_id, "web").unwrap();
    manager
}

#[test]
fn test_route_request_unbound_port() {
    let server = create_test_server();
    let manager = NetworkManager::new(ServiceRegistry::new());
    match server.route_request(8080, &manager, true) {
        RequestRoute::Respond(resp) => {
            assert_eq!(resp.status, 503);
            assert_eq!(resp.body, b"Service unavailable".to_vec());
            assert!(resp.headers.is_empty());
        }
        other => panic!("unexpected: {:?}", other),
    }
}

#[test]
fn test_route_request_internal_only() {
    let mut server = create_test_server();
    server.bind_port(8080, "svc-web".to_string(), "web".to_string()).unwrap();
    // A service in no network only allows internal access.
    let manager = NetworkManager::new(ServiceRegistry::new());
    match server.route_request(8080, &manager, true) {
        RequestRoute::Respond(resp) => {
            assert_eq!(resp.status, 403);
            assert_eq!(resp.body, b"Forbidden: Service only allows internal access".to_vec());
        }
        other => panic!("unexpected: {:?}", other),
    }
}

#[test]
fn test_route_request_forward_and_no_handler() {
    let mut server = create_test_server();
    server.bind_port(8080, "svc-web".to_string(), "web".to_string()).unwrap();
    let manager = external_manager("svc-web");
    match server.route_request(8080, &manager, true) {
        RequestRoute::Forward { service_id } => assert_eq!(service_id, "svc-web"),
        other => panic!("unexpected: {:?}", other),
    }
    match server.route_request(8080, &manager, false) {
        RequestRoute::Respond(resp) => assert_eq!(resp.status, 503),
        other => panic!("unexpected: {:?}", other),
    }
}

#[test]
fn test_route_tcp_connection() {
    let mut server = create_test_server();
    match server.route_tcp_connection(9000, &NetworkManager::new(ServiceRegistry::new()), true) {
        Err(DaemonError::PortNotBound { port }) => assert_eq!(port, 9000),
        other => panic!("unexpected: {:?}", other),
    }
    server.bind_tcp_port(9000, "svc-db".to_string(), "db".to_string()).unwrap();
    match server.route_tcp_connection(9000, &NetworkManager::new(ServiceRegistry::new()), true) {
        Err(DaemonError::NetworkAccessDenied { service_id, reason }) => {
            assert_eq!(service_id, "svc-db");
            assert_eq!(reason, "Service only allows internal access");
        }
        other => panic!("unexpected: {:?}", other),
    }
    let manager = external_manager("svc-db");
    match server.route_tcp_connection(9000, &manager, false) {
        Err(DaemonError::IoError(m)) => assert_eq!(m, "No TCP connection handler configured"),
        other => panic!("unexpected: {:?}", other),
    }
    assert_eq!(server.route_tcp_connection(9000, &manager, true).unwrap(), "svc-db");
}

#[test]
fn test_request_reply() {
    let reply = ProxyResponse { status: 201, headers: vec![("x".to_string(), "y".to_string())], body: b"ok".to_vec() };
    let r = request_reply(Ok(reply));
    assert_eq!(r.status, 201);
    assert_eq!(r.body, b"ok".to_vec());
    let r = request_reply(Err(ForwardFailure::BodyUnreadable));
    assert_eq!(r.status, 400);
    assert_eq!(r.body, b"Bad request".to_vec());
    let r = request_reply(Err(ForwardFailure::HandlerFailed(DaemonError::RuntimeError("boom".to_string()))));
    assert_eq!(r.status, 500);
    assert_eq!(r.body, b"Internal server error".to_vec());
    let e = error_response(404, "nope");
    assert_eq!(e.status, 404);
    assert_eq!(e.body, b"nope".to_vec());
}

#[test]
fn test_egress_proxy_internal_with_handler() {
    let mut manager = NetworkManager::new(ServiceRegistry::new());
    let net_id = manager.create_network(NetworkConfig::new("test-net".to_string())).unwrap();
    manager.add_service(&net_id, "svc-a", "service-a").unwrap();
    manager.add_service(&net_id, "svc-b", "service-b").unwrap();
    let request = EgressRequest::new("GET".to_string(), "http://service-b:8080/api".to_string());
    match plan_request("svc-a", &caps(vec!["service-b:8080"]), &request, &manager, None) {
        EgressStep::RouteInternal { service_id } => {
            assert_eq!(service_id, "svc-b");
            // The internal route handler answers for the service.
            let handled = EgressResponse::new(200).with_body(b"internal response".to_vec());
            let response = internal_route_response(Some(Ok(handled)));
            assert_eq!(response.status, 200);
            assert_eq!(response.body, b"internal response".to_vec());
        }
        _ => panic!("expected internal routing"),
    }
}

#[test]
fn internal_route_failure_is_bad_gateway() {
    let response = internal_route_response(Some(Err("connection refused".to_string())));
    assert_eq!(response.status, 502);
    assert_eq!(response.body, b"Bad Gateway: connection refused".to_vec());
    assert_eq!(response.headers, vec![("content-type".to_string(), "text/plain".to_string())]);
    let unavailable = internal_routing_unavailable();
    assert_eq!(internal_route_response(None).body, unavailable.body);
}

#[test]
fn egress_url_without_host_is_bad_request() {
    let manager = NetworkManager::new(ServiceRegistry::new());
    for url in ["data:text/plain,hello", "unix:/run/app.sock", "custom://example.com/path"] {
        let request = EgressRequest::new("GET".to_string(), url.to_string());
        assert!(request.host_port().is_none());
        match plan_request("svc-1", &None, &request, &manager, None) {
            EgressStep::Respond { response } => {
                assert_eq!(response.status, 400);
                assert_eq!(response.body, b"Invalid URL".to_vec());
            }
            _ => panic!("expected a bad request for {url}"),
        }
    }
}

#[test]
fn egress_denial_names_the_reason() {
    let manager = NetworkManager::new(ServiceRegistry::new());
    let request = EgressRequest::new("GET".to_string(), "https://api.example.com/v1".to_string());
    match plan_request("svc-1", &caps(vec!["other.example.com:443"]), &request, &manager, None) {
        EgressStep::Respond { response } => {
            assert_eq!(response.status, 403);
            let body = String::from_utf8(response.body).unwrap();
            assert!(body.starts_with("Forbidden: "));
            assert!(body.contains("api.example.com:443"));
            assert_eq!(response.headers, vec![("content-type".to_string(), "text/plain".to_string())]);
        }
        _ => panic!("expected a refusal"),
    }
}

#[test]
fn egress_external_request_goes_out() {
    let manager = NetworkManager::new(ServiceRegistry::new());
    let request = EgressRequest::new("GET".to_string(), "https://api.example.com/v1".to_string());
    let step = plan_request("svc-1", &caps(vec!["api.example.com:443"]), &request, &manager, None);
    assert!(matches!(step, EgressStep::ExecuteExternal));
}

#[test]
fn round_robin_skips_empty_selections() {
    let mut lb = LoadBalancer::new(Strategy::RoundRobin);
    assert_eq!(lb.select(3), Some(0));
    assert_eq!(lb.select(0), None);
    assert_eq!(lb.select(3), Some(1));
    assert_eq!(lb.select(2), Some(0));
    assert_eq!(lb.select(0), None);
    assert_eq!(lb.select(4), Some(3));
    assert_eq!(lb.strategy(), Strategy::RoundRobin);
}

#[test]
fn first_available_keeps_choosing_the_first() {
    let mut lb = LoadBalancer::new(Strategy::FirstAvailable);
    for count in [1usize, 5, 0, 2, 9] {
        let expected = if count == 0 { None } else { Some(0) };
        assert_eq!(lb.select(count), expected);
    }
    assert_eq!(lb.strategy(), Strategy::FirstAvailable);
}
