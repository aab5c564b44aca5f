//! Daemon endpoints: configuration summary and shutdown acknowledgement.

use vstd::prelude::*;

use crate::api::response::ApiResponse;
use crate::config::DaemonConfig;
use crate::format::{format_uptime, uptime_text};
use crate::text::owned;

verus! {

/// Configuration subset reported by the daemon-info endpoint.
pub struct DaemonConfigInfo {
    /// Socket path.
    pub socket: String,
    /// Data directory.
    pub data_dir: String,
    /// Maximum services.
    pub max_services: u32,
}

impl DaemonConfigInfo {
    /// The reported subset of a configuration.
    pub fn from_config(config: &DaemonConfig) -> (r: Self)
        ensures
            r.socket@ == config.daemon.socket@,
            r.data_dir@ == config.daemon.data_dir@,
            r.max_services == config.resources.max_services,
    {
        DaemonConfigInfo {
            socket: config.daemon.socket.clone(),
            data_dir: config.daemon.data_dir.clone(),
            max_services: config.resources.max_services,
        }
    }
}

/// Shutdown response.
pub struct ShutdownResponse {
    /// Message confirming shutdown has been initiated.
    pub message: String,
}

impl ShutdownResponse {
    /// The acknowledgement of a shutdown request: "Shutdown initiated".
    pub fn initiated() -> (r: Self)
        ensures
            r.message@ == "Shutdown initiated"@,
    {
        ShutdownResponse { message: owned("Shutdown initiated") }
    }
}

/// Daemon information response.
pub struct DaemonInfo {
    /// Daemon version.
    pub version: String,
    /// API version.
    pub api_version: String,
    /// WASM runtime name.
    pub runtime: String,
    /// Platform identifier (os/arch).
    pub platform: String,
    /// When the daemon started, in milliseconds since the Unix epoch.
    pub started_at: i64,
    /// Human-readable uptime.
    pub uptime: String,
    /// Relevant configuration values.
    pub config: DaemonConfigInfo,
}

/// GET `/v1/daemon/info`: the daemon's version, API version, runtime,
/// platform, start time (now less the uptime), uptime and configuration
/// summary.
pub fn daemon_info(
    version: String,
    platform: String,
    config: &DaemonConfig,
    now_ms: i64,
    uptime_secs: u64,
) -> (r: ApiResponse<DaemonInfo>)
    requires
        uptime_secs <= 9_000_000_000_000,
        now_ms - uptime_secs * 1000 >= i64::MIN,
    ensures
        r matches ApiResponse::Success { data } && {
            &&& data.version == version
            &&& data.api_version@ == config.api.version@
            &&& data.runtime@ == "wasmtime"@
            &&& data.platform == platform
            &&& data.started_at == now_ms - uptime_secs * 1000
            &&& data.uptime@ == uptime_text(uptime_secs as nat)
            &&& data.config.socket@ == config.daemon.socket@
            &&& data.config.data_dir@ == config.daemon.data_dir@
            &&& data.config.max_services == config.resources.max_services
        },
{
    let elapsed_ms: i64 = (uptime_secs * 1000) as i64;
    let info = DaemonInfo {
        version,
        api_version: config.api.version.clone(),
        runtime: owned("wasmtime"),
        platform,
        started_at: now_ms - elapsed_ms,
        uptime: format_uptime(uptime_secs),
        config: DaemonConfigInfo::from_config(config),
    };
    ApiResponse::success(info)
}

} // verus!
