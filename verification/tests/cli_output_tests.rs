use fabricks::api::metrics::{get_all_metrics, get_service_metrics};
use fabricks::api::mortar::{DeployMortarResponse, ListProjectsResponse, ProjectServicesResponse};
use fabricks::api::response::{ApiError, ApiResponse};
use fabricks::api::services::{
    build_service_config, find_missing_network, join_networks, network_attachments, plan_module_files,
    service_logs_response, service_ports, CreateServiceResponse, InstanceInfo, ReplicaState, RunModuleRequest, ServiceConfigDetail,
    ServiceDetail, ServiceInfo,
};
use fabricks::api::daemon::daemon_info;
use fabricks::api::run_module::{RunModule, RunModuleAction, RunModuleEvent, RunModuleStage};
use fabricks::cli::builders::SourceLanguage;
use fabricks::cli::module_build::{
    build_plan, check_build_output, check_build_status, create_entrypoint_config, is_interpreted_language, BuildSection,
};
use fabricks::cli::commands::{logged_in_message, parse_env_assignments, required_field};
use fabricks::cli::credentials::{CredentialStore, EntryOutcome, LookupStep};
use fabricks::config::DaemonConfig;
use fabricks::cli::client::{
    api_result, DaemonClient, DaemonConfigSummary, DaemonInfo, Endpoint, NetworkDetail, NetworkInfo, VolumeDetail, VolumeInfo,
};
use fabricks::cli::output::{
    capability_lines, daemon_info_lines, deploy_result_lines, image_list_lines, ImageInfo, module_info_lines, network_detail_lines, network_list_lines,
    project_list_lines, project_status_lines, service_detail_lines, service_list_lines, short_id,
    volume_detail_lines, volume_list_lines,
};
use fabricks::error::DaemonError;
use fabricks::keyed::KeyedList;
use fabricks::network::capability::{Capabilities, FilesystemCapabilities, NetworkCapabilities};
use fabricks::network::manager::NetworkManager;
use fabricks::network::registry::ServiceRegistry;
use fabricks::network::types::NetworkConfig;
use fabricks::proxy::router::ServiceRouter;

fn network_info(id: &str, name: &str) -> NetworkInfo {
    NetworkInfo {
        id: id.to_string(),
        name: name.to_string(),
        description: None,
        access: "external".to_string(),
        member_count: 2,
        created_at: "2024-01-01".to_string(),
    }
}

#[test]
fn test_short_id_truncates_to_twelve_bytes() {
    assert_eq!(short_id("net-0123456789abcdef"), "net-01234567");
    assert_eq!(short_id("short"), "short");
    assert_eq!(short_id("exactly12chr"), "exactly12chr");
    // Two-byte characters: twelve bytes are six of them.
    assert_eq!(short_id("éééééééé"), "éééééé");
}

#[test]
fn test_network_list_lines() {
    assert_eq!(network_list_lines(&vec![]), vec!["No networks found".to_string()]);
    let lines = network_list_lines(&vec![network_info("net-0123456789abcdef", "backend")]);
    assert_eq!(lines.len(), 2);
    assert_eq!(lines[0], format!("{:<12} {:<20} {:<10} {:<8} {}", "ID", "NAME", "ACCESS", "MEMBERS", "CREATED"));
    assert_eq!(lines[1], format!("{:<12} {:<20} {:<10} {:<8} {}", "net-01234567", "backend", "external", 2, "2024-01-01"));
}

#[test]
fn test_network_detail_lines() {
    let detail = NetworkDetail {
        id: "net-1".to_string(),
        name: "backend".to_string(),
        description: Some("Backend services".to_string()),
        access: "internal".to_string(),
        isolation: "strict".to_string(),
        encryption: "none".to_string(),
        audit: "off".to_string(),
        members: vec!["svc-0123456789abcdef".to_string()],
        created_at: "c".to_string(),
        updated_at: "u".to_string(),
    };
    let lines = network_detail_lines(&detail);
    assert_eq!(
        lines,
        vec![
            "Network: backend",
            "  ID:          net-1",
            "  Description: Backend services",
            "  Access:      internal",
            "  Isolation:   strict",
            "  Encryption:  none",
            "  Audit:       off",
            "  Created:     c",
            "  Updated:     u",
            "\nMembers (1):",
            "  svc-01234567",
        ]
    );
    let empty = NetworkDetail { description: None, members: vec![], ..detail };
    let lines = network_detail_lines(&empty);
    assert_eq!(lines.len(), 9);
    assert_eq!(lines[8], "\nMembers: (none)");
}

#[test]
fn test_volume_lines() {
    assert_eq!(volume_list_lines(&vec![]), vec!["No volumes found".to_string()]);
    let v = VolumeInfo {
        id: "vol-1".to_string(),
        name: "data".to_string(),
        description: None,
        size: None,
        mount_count: 0,
        created_at: "today".to_string(),
    };
    let lines = volume_list_lines(&vec![v]);
    assert_eq!(lines[1], format!("{:<12} {:<20} {:<10} {:<8} {}", "vol-1", "data", "-", 0, "today"));
    let d = VolumeDetail {
        id: "vol-1".to_string(),
        name: "data".to_string(),
        description: None,
        size: Some("10Gi".to_string()),
        path: "/var/v".to_string(),
        mounted_by: vec![],
        created_at: "c".to_string(),
        updated_at: "u".to_string(),
    };
    assert_eq!(
        volume_detail_lines(&d),
        vec![
            "Volume: data",
            "  ID:          vol-1",
            "  Size:        10Gi",
            "  Path:        /var/v",
            "  Created:     c",
            "  Updated:     u",
            "\nMounted by: (none)",
        ]
    );
}

fn service_info() -> ServiceInfo {
    ServiceInfo {
        id: "svc-1".to_string(),
        name: "api".to_string(),
        version: "1.0.0".to_string(),
        state: "running".to_string(),
        replicas: ReplicaState { desired: 3, ready: 2, running: 2, failed: 0 },
        created_at: "c".to_string(),
        mortar_project: None,
    }
}

#[test]
fn test_service_list_lines() {
    assert_eq!(service_list_lines(&vec![], 0), vec!["No services running.".to_string()]);
    let lines = service_list_lines(&vec![service_info()], 1);
    assert_eq!(lines.len(), 5);
    assert_eq!(lines[0], format!("{:<12} {:<20} {:<10} {:<10} {:<10}", "ID", "NAME", "VERSION", "STATE", "REPLICAS"));
    assert_eq!(lines[1], "-".repeat(62));
    assert_eq!(lines[2], format!("{:<12} {:<20} {:<10} {:<10} {:<10}", "svc-1", "api", "1.0.0", "running", "2/3"));
    assert_eq!(lines[3], "");
    assert_eq!(lines[4], "Total: 1 service(s)");
}

#[test]
fn test_service_detail_lines() {
    let detail = ServiceDetail {
        id: "svc-1".to_string(),
        name: "api".to_string(),
        version: "1.0.0".to_string(),
        state: "running".to_string(),
        replicas: ReplicaState { desired: 1, ready: 1, running: 1, failed: 0 },
        config: ServiceConfigDetail {
            name: "api".to_string(),
            version: "1.0.0".to_string(),
            service_type: "http".to_string(),
            wasm_path: "/m.wasm".to_string(),
            wasm_digest: "sha256:ab".to_string(),
            networks: vec!["front".to_string(), "back".to_string()],
            mortar_project: Some("shop".to_string()),
        },
        created_at: "c".to_string(),
        updated_at: "u".to_string(),
        last_error: None,
        instances: vec![InstanceInfo { id: "i-1".to_string(), state: "ready".to_string(), started_at: None }],
    };
    assert_eq!(
        service_detail_lines(&detail),
        vec![
            "Service: api",
            "  ID:         svc-1",
            "  Version:    1.0.0",
            "  State:      running",
            "  Type:       http",
            "  Replicas:   1/1",
            "  Created:    c",
            "  Updated:    u",
            "  WASM:       /m.wasm",
            "  Digest:     sha256:ab",
            "  Networks:   front, back",
            "  Project:    shop",
            "",
            "Instances:",
            "  - i-1 (ready) started: N/A",
        ]
    );
}

#[test]
fn test_mortar_lines() {
    let deployed = DeployMortarResponse { project: "shop".to_string(), service_ids: vec!["svc-1".to_string()], total: 1 };
    assert_eq!(
        deploy_result_lines(&deployed),
        vec!["Project 'shop' deployed successfully.", "", "Services created:", "  - svc-1", "", "Total: 1 service(s)"]
    );
    let status = ProjectServicesResponse { project: "shop".to_string(), services: vec![], total: 0 };
    assert_eq!(project_status_lines(&status), vec!["Project: shop", "", "No services in project."]);
    let status = ProjectServicesResponse { project: "shop".to_string(), services: vec![service_info()], total: 1 };
    let lines = project_status_lines(&status);
    assert_eq!(lines.len(), 7);
    assert_eq!(lines[6], "Total: 1 service(s)");
    assert_eq!(project_list_lines(&ListProjectsResponse { projects: vec![], total: 0 }), vec!["No projects deployed."]);
    assert_eq!(
        project_list_lines(&ListProjectsResponse { projects: vec!["a".to_string(), "b".to_string()], total: 2 }),
        vec!["Projects:", "  - a", "  - b", "", "Total: 2 project(s)"]
    );
}

#[test]
fn test_capability_and_module_lines() {
    let none = Capabilities { env: None, network: None, filesystem: None, wasm: None };
    assert_eq!(
        capability_lines(&none),
        vec!["  Environment: (none)", "  Filesystem: (none)", "  Network: (none)"]
    );
    let caps = Capabilities {
        env: Some(vec!["HOME".to_string()]),
        network: Some(NetworkCapabilities {
            connect: Some(vec!["db:5432".to_string()]),
            listen: Some(vec![8080, 9090]),
            allow_all_outbound: None,
        }),
        filesystem: Some(FilesystemCapabilities { read: Some(vec!["/data".to_string()]), write: None, read_write: None }),
        wasm: None,
    };
    assert_eq!(
        capability_lines(&caps),
        vec![
            "  Environment: [\"HOME\"]",
            "  Filesystem:",
            "    Read: [\"/data\"]",
            "  Network:",
            "    Connect: [\"db:5432\"]",
            "    Listen: [8080, 9090]",
        ]
    );
    let lines = module_info_lines("hello", "0.1.0", &None, &Some(vec!["a".to_string(), "b".to_string()]), &None, 1024, &none);
    assert_eq!(
        lines,
        vec![
            "Name: hello",
            "Version: 0.1.0",
            "Authors: a, b",
            "WASM size: 1024 bytes",
            "",
            "Capabilities:",
            "  Environment: (none)",
            "  Filesystem: (none)",
            "  Network: (none)",
        ]
    );
}

#[test]
fn test_plan_module_files() {
    let plan = plan_module_files("app", true, true);
    assert!(plan.interpreted);
    assert_eq!(plan.wasm_file_name, "app.wasm");
    assert_eq!(plan.app_dir_name.as_deref(), Some("app-app"));
    let plan = plan_module_files("app", true, false);
    assert!(!plan.interpreted);
    assert_eq!(plan.app_dir_name, None);
}

#[test]
fn test_build_service_config() {
    let mut env = KeyedList::new();
    env.insert("A".to_string(), "1".to_string());
    env.insert("B".to_string(), "2".to_string());
    let req = RunModuleRequest {
        reference: "app:1.0".to_string(),
        args: vec!["--x".to_string()],
        env_vars: vec![("B".to_string(), "3".to_string())],
        no_capabilities: true,
        networks: vec![],
    };
    let caps = Capabilities { env: Some(vec!["A".to_string()]), network: None, filesystem: None, wasm: None };
    let config = build_service_config("app", "1.0", caps, env, "/tmp/app.wasm".to_string(), b"hello world", Some("/tmp/app-app".to_string()), &req);
    assert_eq!(config.name, "app");
    assert_eq!(config.wasm_digest, "sha256:b94d27b9934d3e08a52e52d7da7dabfac484efe37a5380ee9088f7ace2efcde9");
    assert!(config.capabilities.env.is_none());
    assert_eq!(config.environment.get("B").map(|s| s.as_str()), Some("3"));
    assert_eq!(config.environment.get("A").map(|s| s.as_str()), Some("1"));
    assert_eq!(config.args, vec!["--x".to_string()]);
    assert_eq!(config.volumes.len(), 1);
    assert_eq!(config.volumes[0].mount_path, "/app");
    assert!(config.volumes[0].read_only);
}

#[test]
fn test_run_module_networks() {
    let mut manager = NetworkManager::new(ServiceRegistry::new());
    manager.create_network(NetworkConfig::new("front".to_string())).unwrap();
    let names = vec!["front".to_string(), "missing".to_string()];
    assert_eq!(find_missing_network(&manager, &names), Some("missing".to_string()));
    let names = vec!["front".to_string()];
    assert_eq!(find_missing_network(&manager, &names), None);
    join_networks(&mut manager, &names, "svc-1", "api").unwrap();
    let attached = network_attachments(&manager, "svc-1");
    assert_eq!(attached.len(), 1);
    assert_eq!(attached[0].name, "front");
    assert!(!attached[0].internal);
}

#[test]
fn join_networks_skips_networks_already_joined() {
    let mut manager = NetworkManager::new(ServiceRegistry::new());
    let front = manager.create_network(NetworkConfig::new("front".to_string())).unwrap();
    let back = manager.create_network(NetworkConfig::new("back".to_string())).unwrap();
    manager.add_service(&front, "svc-1", "api").unwrap();
    let names = vec!["front".to_string(), "back".to_string(), "gone".to_string()];
    join_networks(&mut manager, &names, "svc-1", "api").unwrap();
    assert_eq!(manager.get_service_networks("svc-1"), vec![front.clone(), back.clone()]);
    assert_eq!(manager.get_network(&front).unwrap().members, vec!["svc-1".to_string()]);
    assert_eq!(manager.get_network(&back).unwrap().members, vec!["svc-1".to_string()]);
}

#[test]
fn build_plan_runs_the_command_in_the_build_directory() {
    let section = BuildSection {
        command: "cargo build --release".to_string(),
        workdir: Some("rust".to_string()),
        output: "target/out.wasm".to_string(),
        environment: Some(vec![("RUSTFLAGS".to_string(), "-O".to_string())]),
    };
    let plan = build_plan(Some(&section), "/src/module").unwrap();
    assert_eq!(plan.program, "sh");
    assert_eq!(plan.args, vec!["-c".to_string(), "cargo build --release".to_string()]);
    assert_eq!(plan.workdir, "/src/module/rust");
    assert_eq!(plan.environment, vec![("RUSTFLAGS".to_string(), "-O".to_string())]);
    assert_eq!(plan.output_path, "/src/module/rust/target/out.wasm");

    let plain = BuildSection { command: "make".to_string(), workdir: None, output: "app.wasm".to_string(), environment: None };
    let plan = build_plan(Some(&plain), "/src/module").unwrap();
    assert_eq!(plan.workdir, "/src/module");
    assert!(plan.environment.is_empty());
    assert_eq!(plan.output_path, "/src/module/app.wasm");

    match build_plan(None, "/src/module") {
        Err(e) => assert_eq!(e, "Fabrickfile has no [build] section"),
        Ok(_) => panic!("expected an error"),
    }
}

#[test]
fn build_failures_are_reported() {
    assert!(check_build_status(true, "exit status: 0", "", "").is_ok());
    assert_eq!(
        check_build_status(false, "exit status: 2", "compiling", "error[E0425]"),
        Err("Build command failed with exit code exit status: 2\nstdout: compiling\nstderr: error[E0425]".to_string())
    );
    assert!(check_build_output(true, "/src/app.wasm").is_ok());
    assert_eq!(
        check_build_output(false, "/src/app.wasm"),
        Err("Build output not found: /src/app.wasm\nMake sure the build command creates this file.".to_string())
    );
}

fn respond_of(action: RunModuleAction) -> ApiResponse<CreateServiceResponse> {
    match action {
        RunModuleAction::Respond { response } => response,
        _ => panic!("expected an answer"),
    }
}

fn error_parts<T>(r: ApiResponse<T>) -> (String, String) {
    match r {
        ApiResponse::Error { error } => (error.code, error.message),
        ApiResponse::Success { .. } => panic!("expected an error"),
    }
}

#[test]
fn run_module_checks_networks_before_creating() {
    let mut manager = NetworkManager::new(ServiceRegistry::new());
    manager.create_network(NetworkConfig::new("front".to_string())).unwrap();
    let (run, action) = RunModule::begin("app:1.0".to_string(), vec!["front".to_string(), "missing".to_string()]);
    assert!(matches!(action, RunModuleAction::LoadModule { ref reference } if reference == "app:1.0"));
    let (run, action) = run.step(RunModuleEvent::ModuleLoaded { service_name: "app".to_string() }, &mut manager);
    assert!(matches!(action, RunModuleAction::WriteFiles));
    let (run, action) = run.step(RunModuleEvent::FilesWritten, &mut manager);
    assert_eq!(run.stage, RunModuleStage::Finished);
    assert_eq!(error_parts(respond_of(action)), ("INTERNAL_ERROR".to_string(), "network not found: missing".to_string()));
    // A late event changes nothing.
    let (run, action) = run.step(RunModuleEvent::ServiceStarted, &mut manager);
    assert_eq!(run.stage, RunModuleStage::Finished);
    assert!(matches!(action, RunModuleAction::Wait));
}

#[test]
fn run_module_creates_joins_and_starts() {
    let mut manager = NetworkManager::new(ServiceRegistry::new());
    let front = manager.create_network(NetworkConfig::new("front".to_string())).unwrap();
    let (run, _) = RunModule::begin("app:1.0".to_string(), vec!["front".to_string()]);
    let (run, _) = run.step(RunModuleEvent::ModuleLoaded { service_name: "app".to_string() }, &mut manager);
    let (run, action) = run.step(RunModuleEvent::FilesWritten, &mut manager);
    assert!(matches!(action, RunModuleAction::CreateService));
    assert!(manager.get_service_networks("svc-9").is_empty());
    let (run, action) = run.step(RunModuleEvent::ServiceCreated { id: "svc-9".to_string() }, &mut manager);
    assert!(matches!(action, RunModuleAction::StartService { ref id } if id == "svc-9"));
    assert_eq!(manager.get_service_networks("svc-9"), vec![front]);
    assert_eq!(manager.resolve_service("app"), Some("svc-9".to_string()));
    let (run, action) = run.step(RunModuleEvent::ServiceStarted, &mut manager);
    assert_eq!(run.stage, RunModuleStage::Finished);
    match respond_of(action) {
        ApiResponse::Success { data } => {
            assert_eq!(data.id, "svc-9");
            assert_eq!(data.name, "app");
        }
        _ => panic!("expected success"),
    }
}

#[test]
fn run_module_reports_failures() {
    let mut manager = NetworkManager::new(ServiceRegistry::new());
    let (run, _) = RunModule::begin("app:2.0".to_string(), Vec::new());
    let (_, action) = run.step(RunModuleEvent::ModuleLoadFailed { message: "no such tag".to_string() }, &mut manager);
    assert_eq!(
        error_parts(respond_of(action)),
        ("MODULE_NOT_FOUND".to_string(), "Module not found: app:2.0: no such tag".to_string())
    );
    let (run, _) = RunModule::begin("app:2.0".to_string(), Vec::new());
    let (run, _) = run.step(RunModuleEvent::ModuleLoaded { service_name: "app".to_string() }, &mut manager);
    let (run, _) = run.step(RunModuleEvent::FilesWritten, &mut manager);
    let (_, action) = run.step(
        RunModuleEvent::ServiceFailed { error: DaemonError::ServiceAlreadyExists { name: "app".to_string() } },
        &mut manager,
    );
    assert_eq!(
        error_parts(respond_of(action)),
        ("SERVICE_EXISTS".to_string(), "Service already exists: app".to_string())
    );
}

#[test]
fn test_service_ports() {
    let mut router = ServiceRouter::new();
    router.bind(8080, "svc-1".to_string(), "api".to_string()).unwrap();
    router.bind(9090, "svc-2".to_string(), "db".to_string()).unwrap();
    router.bind(8081, "svc-1".to_string(), "api".to_string()).unwrap();
    let ports = service_ports(&router.list_bindings(), "svc-1");
    assert_eq!(ports, vec![8080, 8081]);
}

#[test]
fn test_metrics_and_logs_responses() {
    let (status, resp) = get_service_metrics::<u32>("svc-9", None);
    assert_eq!(status, 404);
    match resp {
        ApiResponse::Error { error } => {
            assert_eq!(error.code, "SERVICE_NOT_FOUND");
            assert_eq!(error.message, "No metrics available for service 'svc-9'");
        }
        _ => panic!("expected an error"),
    }
    let (status, resp) = get_service_metrics("svc-1", Some(7u32));
    assert_eq!(status, 200);
    assert!(matches!(resp, ApiResponse::Success { data: 7 }));
    match get_all_metrics("summary", 0) {
        ApiResponse::Success { data } => assert_eq!(data.total, 0),
        _ => panic!("expected success"),
    }
    match service_logs_response(Ok(("svc-1".to_string(), vec!["a", "b"]))) {
        ApiResponse::Success { data } => {
            assert_eq!(data.id, "svc-1");
            assert_eq!(data.count, 2);
        }
        _ => panic!("expected success"),
    }
    match service_logs_response::<&str>(Err(DaemonError::ServiceNotFound { id: "x".to_string() })) {
        ApiResponse::Error { error } => assert_eq!(error.code, "SERVICE_NOT_FOUND"),
        _ => panic!("expected an error"),
    }
}

#[test]
fn test_api_result() {
    assert_eq!(api_result(ApiResponse::Success { data: 5 }), Ok(5));
    let err: ApiResponse<u8> = ApiResponse::Error {
        error: ApiError { code: "NOPE".to_string(), message: "no such thing".to_string(), details: None },
    };
    assert_eq!(api_result(err), Err("NOPE: no such thing".to_string()));
    let client = DaemonClient::with_socket("/tmp/f.sock".to_string());
    assert_eq!(client.connect_failure_message(), "Failed to connect to daemon at /tmp/f.sock. Is fabricksd running?");
}

#[test]
fn test_parse_env_assignments() {
    let args = vec!["A=1".to_string(), "junk".to_string(), "B=x=y".to_string(), "C=".to_string()];
    let parsed = parse_env_assignments(&args);
    assert_eq!(
        parsed,
        vec![
            ("A".to_string(), "1".to_string()),
            ("B".to_string(), "x=y".to_string()),
            ("C".to_string(), "".to_string()),
        ]
    );
}

#[test]
fn test_login_checks() {
    assert_eq!(required_field("", "Username"), Err("Username cannot be empty".to_string()));
    assert_eq!(required_field("bob", "Username"), Ok(()));
    assert_eq!(logged_in_message("ghcr.io"), "\u{2713} Logged in to ghcr.io");
}

#[test]
fn test_credential_lookup_steps() {
    match CredentialStore::after_username_read(EntryOutcome::Done("bob".to_string())) {
        LookupStep::ReadPassword { username } => assert_eq!(username, "bob"),
        other => panic!("unexpected: {:?}", other),
    }
    assert!(matches!(CredentialStore::after_username_read(EntryOutcome::NoEntry), LookupStep::Finished(Ok(None))));
    match CredentialStore::after_username_read(EntryOutcome::Failed("locked".to_string())) {
        LookupStep::Finished(Err(e)) => {
            assert_eq!(e.context, "failed to read username from keyring");
            assert_eq!(e.cause, "locked");
        }
        other => panic!("unexpected: {:?}", other),
    }
    let creds = CredentialStore::after_password_read("bob".to_string(), EntryOutcome::Done("pw".to_string()))
        .unwrap()
        .unwrap();
    assert_eq!(creds.username, "bob");
    assert_eq!(creds.password, "pw");
    assert!(CredentialStore::after_password_read("bob".to_string(), EntryOutcome::NoEntry).unwrap().is_none());
    assert_eq!(CredentialStore::entry_removed("username", EntryOutcome::Done(())).unwrap(), true);
    assert_eq!(CredentialStore::entry_removed("username", EntryOutcome::NoEntry).unwrap(), false);
    let e = CredentialStore::entry_removed("password", EntryOutcome::Failed("x".to_string())).unwrap_err();
    assert_eq!(e.context, "failed to delete password from keyring");
}

#[test]
fn test_daemon_info() {
    let config = DaemonConfig::default();
    match daemon_info("0.1.0".to_string(), "linux/x86_64".to_string(), &config, 1_000_000, 90) {
        ApiResponse::Success { data } => {
            assert_eq!(data.version, "0.1.0");
            assert_eq!(data.runtime, "wasmtime");
            assert_eq!(data.platform, "linux/x86_64");
            assert_eq!(data.started_at, 1_000_000 - 90_000);
            assert_eq!(data.uptime, "1m 30s");
            assert_eq!(data.config.max_services, config.resources.max_services);
        }
        _ => panic!("expected success"),
    }
}

#[test]
fn test_daemon_info_lines() {
    let info = DaemonInfo {
        version: "0.1.0".to_string(),
        api_version: "v1".to_string(),
        runtime: "wasmtime".to_string(),
        platform: "linux/x86_64".to_string(),
        started_at: "2024-01-01T00:00:00Z".to_string(),
        uptime: "5s".to_string(),
        config: DaemonConfigSummary { socket: "/s".to_string(), data_dir: "/d".to_string(), max_services: 100 },
    };
    assert_eq!(
        daemon_info_lines(&info),
        vec![
            "Version:     0.1.0",
            "API Version: v1",
            "Runtime:     wasmtime",
            "Platform:    linux/x86_64",
            "Started At:  2024-01-01T00:00:00Z",
            "Uptime:      5s",
            "",
            "Configuration:",
            "  Socket:       /s",
            "  Data Dir:     /d",
            "  Max Services: 100",
        ]
    );
}

#[test]
fn test_endpoint_paths() {
    assert_eq!(Endpoint::Services.path(), "/v1/services");
    assert_eq!(Endpoint::StartService("svc-1".to_string()).path(), "/v1/services/svc-1/start");
    assert_eq!(Endpoint::Project("shop".to_string()).path(), "/v1/mortar/projects/shop");
    assert_eq!(Endpoint::LeaveNetwork("net-1".to_string()).path(), "/v1/networks/net-1/leave");
    assert_eq!(Endpoint::Volume("vol-1".to_string()).path(), "/v1/volumes/vol-1");
}

#[test]
fn test_image_list_lines() {
    let none = image_list_lines(&vec![]);
    assert_eq!(none, vec!["No images found.", "", "Build an image with: fabricks build <path>"]);
    let img = ImageInfo {
        reference: "hello-http:0.1.0".to_string(),
        digest: "sha256:0123456789abcdef0123".to_string(),
        wasm_size: 2048,
        name: Some("hello-http".to_string()),
        version: None,
    };
    let lines = image_list_lines(&vec![img]);
    assert_eq!(lines.len(), 5);
    assert_eq!(lines[0], format!("{:<30} {:<12} {:<10} {:<64}", "REFERENCE", "SIZE", "VERSION", "DIGEST"));
    assert_eq!(lines[1], "-".repeat(116));
    assert_eq!(lines[2], format!("{:<30} {:<12} {:<10} {}...", "hello-http:0.1.0", "2.0 KB", "-", "sha256:0123456789ab"));
    assert_eq!(lines[4], "Total: 1 image(s)");
}

fn inspect_capabilities() -> Capabilities {
    Capabilities {
        env: Some(vec!["HOME".to_string(), "PATH".to_string()]),
        filesystem: Some(FilesystemCapabilities { read: Some(vec!["/tmp".to_string()]), write: None, read_write: None }),
        network: Some(NetworkCapabilities {
            connect: Some(vec!["api.example.com:443".to_string()]),
            listen: Some(vec![8080]),
            allow_all_outbound: None,
        }),
        wasm: None,
    }
}

#[test]
fn test_output_text() {
    let lines = module_info_lines(
        "inspect-test",
        "2.0.0",
        &Some("Test module for inspect".to_string()),
        &Some(vec!["Test Author".to_string()]),
        &Some("MIT".to_string()),
        1024,
        &inspect_capabilities(),
    );
    assert_eq!(
        lines,
        vec![
            "Name: inspect-test",
            "Version: 2.0.0",
            "Description: Test module for inspect",
            "Authors: Test Author",
            "License: MIT",
            "WASM size: 1024 bytes",
            "",
            "Capabilities:",
            "  Environment: [\"HOME\", \"PATH\"]",
            "  Filesystem:",
            "    Read: [\"/tmp\"]",
            "  Network:",
            "    Connect: [\"api.example.com:443\"]",
            "    Listen: [8080]",
        ]
    );
}

#[test]
fn test_output_capabilities() {
    let lines = capability_lines(&inspect_capabilities());
    assert_eq!(lines.len(), 6);
    assert_eq!(lines[0], "  Environment: [\"HOME\", \"PATH\"]");
    assert_eq!(lines[5], "    Listen: [8080]");
}

#[test]
fn test_output_capabilities_empty() {
    let lines = capability_lines(&Capabilities { env: None, network: None, filesystem: None, wasm: None });
    assert_eq!(lines, vec!["  Environment: (none)", "  Filesystem: (none)", "  Network: (none)"]);
}

#[test]
fn test_run_build_command_no_build_section() {
    let result = build_plan(None, "/tmp/module");
    assert!(result.is_err());
    assert!(result.err().unwrap().contains("no [build] section"));
}

#[test]
fn test_run_build_command_success() {
    let result = check_build_status(true, "exit status: 0", "", "");
    assert!(result.is_ok());
}

#[test]
fn test_run_build_command_failure() {
    let result = check_build_status(false, "exit status: 1", "", "");
    assert!(result.is_err());
    assert!(result.unwrap_err().contains("failed"));
}

#[test]
fn test_read_wasm_output_not_found() {
    let section = BuildSection {
        command: "make".to_string(),
        workdir: None,
        output: "target/out.wasm".to_string(),
        environment: None,
    };
    let plan = build_plan(Some(&section), "/tmp/module").unwrap();
    let result = check_build_output(false, &plan.output_path);
    assert!(result.is_err());
    assert!(result.unwrap_err().contains("Build output not found"));
}

#[test]
fn test_create_entrypoint_config() {
    let config = create_entrypoint_config(None);
    assert!(config.contains("entrypoint"));
    assert!(config.contains("app:handler"));
    assert_eq!(config, "# Generated by fabricks build\nentrypoint = \"app:handler\"\n");
    assert_eq!(create_entrypoint_config(Some("main:app")), "# Generated by fabricks build\nentrypoint = \"main:app\"\n");
}

#[test]
fn test_is_interpreted_language() {
    // No from section = not interpreted
    assert!(!is_interpreted_language(None, None));
    // Python with no build = interpreted
    assert!(is_interpreted_language(Some(SourceLanguage::Python), None));
    assert!(is_interpreted_language(Some(SourceLanguage::Javascript), None));
    // Rust = not interpreted (even without build)
    assert!(!is_interpreted_language(Some(SourceLanguage::Rust), None));
    // A custom build means compiled mode.
    let section = BuildSection { command: "make".to_string(), workdir: None, output: "a.wasm".to_string(), environment: None };
    assert!(!is_interpreted_language(Some(SourceLanguage::Python), Some(&section)));
}
