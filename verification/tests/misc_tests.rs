use fabricks::events::bus::EventBus;
use fabricks::api::daemon::{DaemonConfigInfo, ShutdownResponse};
use fabricks::api::mortar;
use fabricks::api::networks::{
    create_network, delete_network, get_network, join_network, leave_network, list_networks, CreateNetworkRequest,
    JoinNetworkRequest, LeaveNetworkRequest,
};
use fabricks::api::policies::{get_policy, list_policies};
use fabricks::api::response::ApiResponse;
use fabricks::api::services::{error_response, is_service_id, merge_environment};
use fabricks::api::volumes::{create_failed, delete_failed, volume_not_found};
use fabricks::cli::builders::{build_failure, get_builder, is_wasm_file, BuilderKind, GoBuilder, RustBuilder, SourceLanguage};
use fabricks::cli::client::DaemonClient;
use fabricks::cli::commands::{file_type_for_name, file_type_in_dir, logout_message, version_message};
use fabricks::cli::args::FileType;
use fabricks::cli::credentials::{CredentialStore, Credentials};
use fabricks::config::{DaemonConfig, DaemonSettings};
use fabricks::digest::compute_digest;
use fabricks::error::DaemonError;
use fabricks::format::{format_size, format_uptime};
use fabricks::keyed::KeyedList;
use fabricks::network::manager::NetworkManager;
use fabricks::network::registry::ServiceRegistry;
use fabricks::network::types::NetworkOptions;
use fabricks::paths::{data_dir_for, socket_path_for};
use fabricks::policy::manager::PolicyManager;
use fabricks::policy::model::Policy;
use fabricks::toolchain::parse_tinygo_version;

fn error_of<T>(r: ApiResponse<T>) -> (String, String) {
    match r {
        ApiResponse::Error { error } => (error.code, error.message),
        ApiResponse::Success { .. } => panic!("expected an error"),
    }
}

#[test]
fn test_format_uptime_seconds() {
    assert_eq!(format_uptime(std::time::Duration::from_secs(45).as_secs()), "45s");
}

#[test]
fn test_format_uptime_minutes() {
    assert_eq!(format_uptime(std::time::Duration::from_secs(125).as_secs()), "2m 5s");
}

#[test]
fn test_format_uptime_hours() {
    assert_eq!(format_uptime(std::time::Duration::from_secs(3725).as_secs()), "1h 2m 5s");
}

#[test]
fn test_format_uptime_days() {
    assert_eq!(format_uptime(std::time::Duration::from_secs(90125).as_secs()), "1d 1h 2m 5s");
}

#[test]
fn format_uptime_edges() {
    assert_eq!(format_uptime(0), "0s");
    assert_eq!(format_uptime(3600), "1h 0m 0s");
    assert_eq!(format_uptime(86400), "1d 0h 0m 0s");
}

#[test]
fn test_format_size() {
    assert_eq!(format_size(0), "0 B");
    assert_eq!(format_size(500), "500 B");
    assert_eq!(format_size(1024), "1.0 KB");
    assert_eq!(format_size(1536), "1.5 KB");
    assert_eq!(format_size(1048576), "1.0 MB");
    assert_eq!(format_size(1572864), "1.5 MB");
    assert_eq!(format_size(1073741824), "1.0 GB");
}

#[test]
fn format_size_truncates() {
    assert_eq!(format_size(1023), "1023 B");
    assert_eq!(format_size(2047), "1.9 KB");
    assert_eq!(format_size(u64::MAX), "17179869183.9 GB");
}

#[test]
fn test_parse_tinygo_version() {
    assert_eq!(parse_tinygo_version("tinygo version 0.32.0 linux/amd64"), Some((0, 32)));
    assert_eq!(parse_tinygo_version("tinygo version 0.33.1 darwin/arm64"), Some((0, 33)));
    assert_eq!(parse_tinygo_version("tinygo version 1.0.0"), Some((1, 0)));
    assert_eq!(parse_tinygo_version("invalid"), None);
}

#[test]
fn parse_tinygo_version_edges() {
    assert_eq!(parse_tinygo_version("  version\t+7.08\n"), Some((7, 8)));
    assert_eq!(parse_tinygo_version("version"), None);
    assert_eq!(parse_tinygo_version("version 3"), None);
    assert_eq!(parse_tinygo_version("version 1.x.0"), None);
    assert_eq!(parse_tinygo_version("version 4294967296.1"), None);
    assert_eq!(parse_tinygo_version("version 4294967295.1"), Some((4294967295, 1)));
    assert_eq!(parse_tinygo_version("x version 2.3 version 9.9"), Some((2, 3)));
}

#[test]
fn tinygo_check() {
    assert!(GoBuilder::check_version("tinygo version 0.32.0 linux/amd64").is_ok());
    assert!(GoBuilder::check_version("garbage").is_ok());
    let err = GoBuilder::check_version("tinygo version 0.31.2 linux/amd64").unwrap_err();
    assert!(err.starts_with("TinyGo version 0.31 found, but 0.32 or later is required."));
    assert_eq!(GoBuilder::build_args("app.wasm", true), vec!["build", "-target=wasip2", "-o", "app.wasm", "-opt=2", "."]);
    assert_eq!(GoBuilder::build_args("app.wasm", false), vec!["build", "-target=wasip2", "-o", "app.wasm", "."]);
    assert_eq!(GoBuilder::wasm_filename("app"), "app.wasm");
    assert_eq!(RustBuilder::build_args(true), vec!["component", "build", "--release"]);
    assert_eq!(RustBuilder::profile(false), "debug");
}

#[test]
fn test_credentials_struct() {
    let creds = Credentials { username: "user".to_string(), password: "pass".to_string() };
    assert_eq!(creds.username, "user");
    assert_eq!(creds.password, "pass");
}

#[test]
fn credential_keys() {
    assert_eq!(CredentialStore::service_name(), "fabricks");
    assert_eq!(CredentialStore::username_key("ghcr.io"), "ghcr.io:username");
    assert_eq!(CredentialStore::password_key("ghcr.io"), "ghcr.io:password");
}

#[test]
fn cli_messages_and_detection() {
    assert_eq!(logout_message("ghcr.io", true), "✓ Logged out from ghcr.io");
    assert_eq!(logout_message("ghcr.io", false), "No credentials found for ghcr.io");
    assert_eq!(version_message("1.2.3"), "fabricks 1.2.3");
    assert_eq!(file_type_for_name("Fabrickfile"), Some(FileType::Fabrickfile));
    assert_eq!(file_type_for_name("web.fabrickfile"), Some(FileType::Fabrickfile));
    assert_eq!(file_type_for_name("fabricks-mortar.toml"), Some(FileType::Mortar));
    assert_eq!(file_type_for_name("shop-mortar.toml"), Some(FileType::Mortar));
    assert_eq!(file_type_for_name("Cargo.toml"), None);
    assert_eq!(file_type_in_dir(true, true), Some(FileType::Mortar));
    assert_eq!(file_type_in_dir(true, false), Some(FileType::Fabrickfile));
    assert_eq!(file_type_in_dir(false, false), None);
    assert_eq!(DaemonClient::with_socket("/run/f.sock".to_string()).socket_path(), "/run/f.sock");
    assert!(DaemonClient::new().socket_path().ends_with("fabricks.sock"));
}

#[test]
fn test_compute_digest() {
    let digest = compute_digest(b"hello world");
    assert!(digest.starts_with("sha256:"));
    assert_eq!(digest.len(), 7 + 64);
    assert_eq!(digest, "sha256:b94d27b9934d3e08a52e52d7da7dabfac484efe37a5380ee9088f7ace2efcde9");
}

#[test]
fn test_default_config() {
    let config = DaemonConfig::default();
    assert_eq!(config.api.version, "v1");
    assert!(!config.api.auth_enabled);
    assert_eq!(config.resources.max_services, 100);
    assert_eq!(config.events.buffer_size, 1000);
    assert_eq!(config.events.history_size, 10000);
    assert_eq!(config.daemon.log_level, "info");
}

#[test]
fn default_paths() {
    assert_eq!(socket_path_for(None), "/tmp/fabricks.sock");
    assert_eq!(socket_path_for(Some("/home/u".to_string())), "/home/u/.fabricks/fabricks.sock");
    assert_eq!(data_dir_for(None, None), "/tmp/fabricks");
    assert_eq!(data_dir_for(None, Some("/home/u".to_string())), "/home/u/.local/share/fabricks");
    assert_eq!(data_dir_for(Some("/d".to_string()), Some("/home/u".to_string())), "/d/fabricks");
    let s = DaemonSettings::for_dirs(None, Some("/h".to_string()));
    assert_eq!(s.socket, "/h/.fabricks/fabricks.sock");
    assert_eq!(s.data_dir, "/h/.local/share/fabricks");
    let info = DaemonConfigInfo::from_config(&DaemonConfig::default());
    assert_eq!(info.max_services, 100);
    assert_eq!(ShutdownResponse::initiated().message, "Shutdown initiated");
}

#[test]
fn test_error_response_service_not_found() {
    let err = DaemonError::ServiceNotFound { id: "svc-123".to_string() };
    let (code, message) = error_of::<()>(error_response(&err));
    assert_eq!(code, "SERVICE_NOT_FOUND");
    assert!(message.contains("svc-123"));
}

#[test]
fn test_error_response_circular_dependency() {
    let (code, _) = error_of::<()>(error_response(&DaemonError::CircularDependency));
    assert_eq!(code, "CIRCULAR_DEPENDENCY");
}

#[test]
fn error_response_falls_back_to_internal() {
    let (code, message) = error_of::<()>(error_response(&DaemonError::ShuttingDown));
    assert_eq!(code, "INTERNAL_ERROR");
    assert_eq!(message, "daemon is shutting down");
    assert!(is_service_id("svc-42"));
    assert!(!is_service_id("web"));
}

#[test]
fn test_error_response_project_not_found() {
    let err = DaemonError::MortarProjectNotFound { name: "my-app".to_string() };
    let (code, message) = error_of::<()>(mortar::error_response(&err));
    assert_eq!(code, "PROJECT_NOT_FOUND");
    assert!(message.contains("my-app"));
    assert_eq!(message, "Project not found: my-app");
}

#[test]
fn volume_error_codes() {
    let (status, resp) = create_failed::<()>("volume already exists with name: data".to_string());
    assert_eq!(status, 400);
    assert_eq!(error_of(resp).0, "VOLUME_EXISTS");
    assert_eq!(error_of(create_failed::<()>("disk full".to_string()).1).0, "VOLUME_CREATE_FAILED");
    assert_eq!(error_of(delete_failed::<()>("volume 'v' is mounted by services: []".to_string()).1).0, "VOLUME_MOUNTED");
    assert_eq!(error_of(delete_failed::<()>("io".to_string()).1).0, "VOLUME_DELETE_FAILED");
    let (status, resp) = volume_not_found::<()>("data");
    assert_eq!(status, 404);
    assert_eq!(error_of(resp), ("VOLUME_NOT_FOUND".to_string(), "Volume 'data' not found".to_string()));
}

#[test]
fn merge_environment_overrides() {
    let mut base = KeyedList::new();
    base.insert("A".to_string(), "1".to_string());
    base.insert("B".to_string(), "2".to_string());
    let merged = merge_environment(base, &vec![("B".to_string(), "3".to_string()), ("C".to_string(), "4".to_string())]);
    assert_eq!(merged.len(), 3);
    assert_eq!(merged.get("A"), Some(&"1".to_string()));
    assert_eq!(merged.get("B"), Some(&"3".to_string()));
    assert_eq!(merged.get("C"), Some(&"4".to_string()));
}

#[test]
fn network_endpoints() {
    let mut nm = NetworkManager::new(ServiceRegistry::new());
    let (status, resp) = create_network(
        &mut nm,
        CreateNetworkRequest { name: "web".to_string(), description: Some("front".to_string()), options: NetworkOptions::default() },
    );
    assert_eq!(status, 201);
    let id = match resp {
        ApiResponse::Success { data } => {
            assert_eq!(data.name, "web");
            data.id
        }
        _ => panic!("expected success"),
    };
    let (status, resp) = create_network(
        &mut nm,
        CreateNetworkRequest { name: "web".to_string(), description: None, options: NetworkOptions::default() },
    );
    assert_eq!(status, 400);
    assert_eq!(error_of(resp), ("NETWORK_CREATE_FAILED".to_string(), "network already exists with name: web".to_string()));
    assert_eq!(list_networks(&nm).total, 1);
    let (status, _) = get_network(&nm, "web");
    assert_eq!(status, 200);
    let (status, resp) = get_network(&nm, "nope");
    assert_eq!(status, 404);
    assert_eq!(error_of(resp).1, "Network 'nope' not found");
    let join = JoinNetworkRequest { service_id: "svc-1".to_string(), service_name: "api".to_string() };
    assert_eq!(join_network(&mut nm, "web", &join).0, 200);
    let (status, resp) = join_network(&mut nm, "web", &join);
    assert_eq!(status, 400);
    assert_eq!(error_of(resp), (
        "NETWORK_JOIN_FAILED".to_string(),
        format!("service 'svc-1' error: already a member of network {id}"),
    ));
    let (status, resp) = delete_network(&mut nm, &id);
    assert_eq!(status, 400);
    assert_eq!(error_of(resp).0, "NETWORK_HAS_MEMBERS");
    let leave = LeaveNetworkRequest { service_id: "svc-1".to_string() };
    assert_eq!(leave_network(&mut nm, "web", &leave).0, 200);
    assert_eq!(delete_network(&mut nm, "web").0, 200);
    assert_eq!(delete_network(&mut nm, "web").0, 404);
    assert_eq!(join_network(&mut nm, "web", &join).0, 404);
}

#[test]
fn policy_endpoints() {
    let mut pm = PolicyManager::new(EventBus::new(100, 100));
    assert_eq!(list_policies(&pm).total, 0);
    let mut m = KeyedList::new();
    m.insert("api".to_string(), "svc-1".to_string());
    pm.load_policies("shop", Policy { description: Some("d".to_string()), deny: None, require: None, warn: None }, m);
    assert_eq!(list_policies(&pm).total, 1);
    assert_eq!(get_policy(&pm, "shop").0, 200);
    let (status, resp) = get_policy(&pm, "other");
    assert_eq!(status, 404);
    assert_eq!(error_of(resp), ("POLICY_NOT_FOUND".to_string(), "No policy found for mortar project 'other'".to_string()));
    let ok: ApiResponse<()> = ApiResponse::error("E", "m");
    assert_eq!(error_of(ok), ("E".to_string(), "m".to_string()));
}

#[test]
fn builder_selection_and_messages() {
    assert_eq!(get_builder(SourceLanguage::Rust), Ok(BuilderKind::Rust));
    assert_eq!(get_builder(SourceLanguage::Python), Ok(BuilderKind::Python));
    let e = get_builder(SourceLanguage::Go).unwrap_err();
    assert!(e.starts_with("Go builder is not yet implemented."));
    assert_eq!(build_failure("Rust", "out", "err"), "Rust build failed:\n\nstdout:\nout\n\nstderr:\nerr");
    assert!(is_wasm_file("app.wasm"));
    assert!(!is_wasm_file(".wasm"));
    assert!(!is_wasm_file("app.wasm.txt"));
}

#[test]
fn builder_toolchain_checks() {
    assert!(GoBuilder::toolchain_check(None, true).unwrap_err().starts_with("TinyGo not found."));
    assert!(GoBuilder::toolchain_check(Some("tinygo version 0.31.2 linux/amd64"), true)
        .unwrap_err()
        .starts_with("TinyGo version 0.31 found, but 0.32 or later is required."));
    assert!(GoBuilder::toolchain_check(Some("tinygo version 0.33.0 linux/amd64"), false)
        .unwrap_err()
        .starts_with("wasm-tools not found."));
    assert_eq!(GoBuilder::toolchain_check(Some("garbled"), true), Ok(()));
    assert!(RustBuilder::toolchain_check(false, false).unwrap_err().starts_with("Rust toolchain not found."));
    assert!(RustBuilder::toolchain_check(true, false).unwrap_err().starts_with("cargo-component not found."));
    assert_eq!(RustBuilder::toolchain_check(true, true), Ok(()));
}

#[test]
fn builder_directories() {
    assert_eq!(GoBuilder::source_dir("/w", Some(".")), "/w");
    assert_eq!(GoBuilder::source_dir("/w", Some("cmd")), "/w/cmd");
    assert_eq!(RustBuilder::source_dir("/w", None), "/w");
    let dirs = RustBuilder::wasm_output_dirs("/w", true);
    assert_eq!(dirs, vec!["/w/target/wasm32-wasip1/release".to_string(), "/w/target/wasm32-wasi/release".to_string()]);
    assert_eq!(
        RustBuilder::missing_output("/w/target"),
        "Could not find WASM output in /w/target\nMake sure the project is configured to build a WASM component."
    );
    assert_eq!(GoBuilder::missing_output("/w/app.wasm"), "TinyGo build succeeded but WASM output not found at: /w/app.wasm");
}
