//! Daemon configuration and its defaults. Reading a configuration file is
//! the daemon's business; every setting a file leaves out takes the
//! default given here.

use vstd::prelude::*;

use crate::paths::{data_dir_text, default_data_dir, default_socket_path, socket_path_text};
use crate::text::owned;

verus! {

/// Core daemon settings.
pub struct DaemonSettings {
    /// Unix socket path.
    pub socket: String,
    /// PID file path.
    pub pid_file: Option<String>,
    /// Log level: trace, debug, info, warn, error.
    pub log_level: String,
    /// Data directory for state and cache.
    pub data_dir: String,
}

/// API settings.
pub struct ApiSettings {
    /// API version prefix.
    pub version: String,
    /// Whether authentication is required.
    pub auth_enabled: bool,
    /// API key (if `auth_enabled` is true).
    pub api_key: Option<String>,
    /// Request timeout, in seconds.
    pub timeout_secs: u64,
}

/// WASM runtime settings.
pub struct RuntimeSettings {
    /// Default WASM engine.
    pub default_engine: String,
    /// Maximum number of cached modules.
    pub max_cached_modules: usize,
}

/// Global resource limits.
pub struct ResourceSettings {
    /// Maximum total services.
    pub max_services: u32,
    /// Maximum replicas per service.
    pub max_replicas_per_service: u32,
}

/// Monitoring and health check settings.
pub struct MonitoringSettings {
    /// Default health check interval, in seconds.
    pub health_check_interval_secs: u64,
    /// Default health check timeout, in seconds.
    pub health_check_timeout_secs: u64,
}

/// Event bus settings.
pub struct EventSettings {
    /// Event channel buffer size.
    pub buffer_size: usize,
    /// Maximum event history to retain.
    pub history_size: usize,
}

/// Daemon configuration.
pub struct DaemonConfig {
    /// Daemon-level settings.
    pub daemon: DaemonSettings,
    /// API settings.
    pub api: ApiSettings,
    /// Runtime settings.
    pub runtime: RuntimeSettings,
    /// Resource limits.
    pub resources: ResourceSettings,
    /// Monitoring settings.
    pub monitoring: MonitoringSettings,
    /// Event bus settings.
    pub events: EventSettings,
}

impl DaemonSettings {
    /// The default settings for a user with the given local data and home
    /// directories.
    pub fn for_dirs(data_local: Option<String>, home: Option<String>) -> (r: Self)
        ensures
            r.socket@ == socket_path_text(crate::policy::model::opt_text(home)),
            r.pid_file is None,
            r.log_level@ == "info"@,
            r.data_dir@ == data_dir_text(crate::policy::model::opt_text(data_local), crate::policy::model::opt_text(home)),
    {
        let h2 = match &home {
            Some(h) => Some(h.clone()),
            None => None,
        };
        DaemonSettings {
            socket: crate::paths::socket_path_for(home),
            pid_file: None,
            log_level: owned("info"),
            data_dir: crate::paths::data_dir_for(data_local, h2),
        }
    }
}

impl Default for DaemonSettings {
    fn default() -> (r: Self)
        ensures
            r.pid_file is None,
            r.log_level@ == "info"@,
            exists|home: Option<Seq<char>>| r.socket@ == socket_path_text(home),
            exists|data_local: Option<Seq<char>>, home: Option<Seq<char>>| r.data_dir@ == data_dir_text(data_local, home),
    {
        DaemonSettings {
            socket: default_socket_path(),
            pid_file: None,
            log_level: owned("info"),
            data_dir: default_data_dir(),
        }
    }
}

impl Default for ApiSettings {
    fn default() -> (r: Self)
        ensures
            r.version@ == "v1"@,
            !r.auth_enabled,
            r.api_key is None,
            r.timeout_secs == 30,
    {
        ApiSettings { version: owned("v1"), auth_enabled: false, api_key: None, timeout_secs: 30 }
    }
}

impl Default for RuntimeSettings {
    fn default() -> (r: Self)
        ensures
            r.default_engine@ == "wasmtime"@,
            r.max_cached_modules == 100,
    {
        RuntimeSettings { default_engine: owned("wasmtime"), max_cached_modules: 100 }
    }
}

impl Default for ResourceSettings {
    fn default() -> (r: Self)
        ensures
            r.max_services == 100,
            r.max_replicas_per_service == 20,
    {
        ResourceSettings { max_services: 100, max_replicas_per_service: 20 }
    }
}

impl Default for MonitoringSettings {
    fn default() -> (r: Self)
        ensures
            r.health_check_interval_secs == 5,
            r.health_check_timeout_secs == 3,
    {
        MonitoringSettings { health_check_interval_secs: 5, health_check_timeout_secs: 3 }
    }
}

impl Default for EventSettings {
    fn default() -> (r: Self)
        ensures
            r.buffer_size == 1000,
            r.history_size == 10000,
    {
        EventSettings { buffer_size: 1000, history_size: 10000 }
    }
}

impl Default for DaemonConfig {
    fn default() -> (r: Self)
        ensures
            r.daemon.pid_file is None,
            r.daemon.log_level@ == "info"@,
            r.api.version@ == "v1"@,
            !r.api.auth_enabled,
            r.api.api_key is None,
            r.api.timeout_secs == 30,
            r.runtime.default_engine@ == "wasmtime"@,
            r.runtime.max_cached_modules == 100,
            r.resources.max_services == 100,
            r.resources.max_replicas_per_service == 20,
            r.monitoring.health_check_interval_secs == 5,
            r.monitoring.health_check_timeout_secs == 3,
            r.events.buffer_size == 1000,
            r.events.history_size == 10000,
    {
        DaemonConfig {
            daemon: DaemonSettings::default(),
            api: ApiSettings::default(),
            runtime: RuntimeSettings::default(),
            resources: ResourceSettings::default(),
            monitoring: MonitoringSettings::default(),
            events: EventSettings::default(),
        }
    }
}

} // verus!
