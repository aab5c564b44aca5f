//! The client side of the daemon's socket.

use vstd::prelude::*;

use crate::api::response::ApiResponse;
use crate::paths::{default_socket_path, socket_path_text};
use crate::text::{owned, push_str};

verus! {

/// Client for communicating with the daemon over its Unix socket.
pub struct DaemonClient {
    socket_path: String,
}

impl DaemonClient {
    /// The socket the client talks to.
    pub closed spec fn socket(&self) -> Seq<char> {
        self.socket_path@
    }

    /// A client for the current user's default socket.
    pub fn new() -> (r: Self)
        ensures
            exists|home: Option<Seq<char>>| r.socket() == socket_path_text(home),
    {
        DaemonClient { socket_path: default_socket_path() }
    }

    /// A client for the given socket.
    pub fn with_socket(socket_path: String) -> (r: Self)
        ensures
            r.socket() == socket_path@,
    {
        DaemonClient { socket_path }
    }

    /// The socket path.
    pub fn socket_path(&self) -> (r: &str)
        ensures
            r@ == self.socket(),
    {
        self.socket_path.as_str()
    }
}

/// A network, as the daemon lists it.
#[derive(Debug)]
pub struct NetworkInfo {
    /// Network ID.
    pub id: String,
    /// Network name.
    pub name: String,
    /// Optional description.
    pub description: Option<String>,
    /// Network access mode.
    pub access: String,
    /// Number of members.
    pub member_count: usize,
    /// When the network was created.
    pub created_at: String,
}

/// A network in full, as the daemon describes it.
#[derive(Debug)]
pub struct NetworkDetail {
    /// Network ID.
    pub id: String,
    /// Network name.
    pub name: String,
    /// Optional description.
    pub description: Option<String>,
    /// Network access mode.
    pub access: String,
    /// Network isolation mode.
    pub isolation: String,
    /// Network encryption mode.
    pub encryption: String,
    /// Network audit mode.
    pub audit: String,
    /// Member service IDs.
    pub members: Vec<String>,
    /// When the network was created.
    pub created_at: String,
    /// When the network was last updated.
    pub updated_at: String,
}

/// A volume, as the daemon lists it.
#[derive(Debug)]
pub struct VolumeInfo {
    /// Volume ID.
    pub id: String,
    /// Volume name.
    pub name: String,
    /// Optional description.
    pub description: Option<String>,
    /// Optional size limit.
    pub size: Option<String>,
    /// Number of services using this volume.
    pub mount_count: usize,
    /// When the volume was created.
    pub created_at: String,
}

/// A volume in full, as the daemon describes it.
#[derive(Debug)]
pub struct VolumeDetail {
    /// Volume ID.
    pub id: String,
    /// Volume name.
    pub name: String,
    /// Optional description.
    pub description: Option<String>,
    /// Optional size limit.
    pub size: Option<String>,
    /// Host path for the volume.
    pub path: String,
    /// Service IDs that have this volume mounted.
    pub mounted_by: Vec<String>,
    /// When the volume was created.
    pub created_at: String,
    /// When the volume was last updated.
    pub updated_at: String,
}

/// What a request to the daemon gives: the data of a success answer, or
/// "<code>: <message>" for an error answer.
pub fn api_result<T>(response: ApiResponse<T>) -> (r: Result<T, String>)
    ensures
        response matches ApiResponse::Success { data } ==> r == Ok::<T, String>(data),
        response matches ApiResponse::Error { error } ==>
            (r matches Err(m) && m@ == error.code@ + ": "@ + error.message@),
{
    match response {
        ApiResponse::Success { data } => Ok(data),
        ApiResponse::Error { error } => {
            let mut m = error.code;
            push_str(&mut m, ": ");
            push_str(&mut m, error.message.as_str());
            Err(m)
        },
    }
}

impl DaemonClient {
    /// The message given when the daemon's socket cannot be reached.
    pub fn connect_failure_message(&self) -> (r: String)
        ensures
            r@ == "Failed to connect to daemon at "@ + self.socket() + ". Is fabricksd running?"@,
    {
        let mut m = owned("Failed to connect to daemon at ");
        push_str(&mut m, self.socket_path.as_str());
        push_str(&mut m, ". Is fabricksd running?");
        m
    }
}

/// The daemon's configuration, as it reports it.
#[derive(Debug)]
pub struct DaemonConfigSummary {
    /// Socket path.
    pub socket: String,
    /// Data directory.
    pub data_dir: String,
    /// Maximum services.
    pub max_services: u32,
}

/// Information about the running daemon, as it reports it.
#[derive(Debug)]
pub struct DaemonInfo {
    /// Daemon version.
    pub version: String,
    /// API version.
    pub api_version: String,
    /// WASM runtime name.
    pub runtime: String,
    /// Platform identifier.
    pub platform: String,
    /// When the daemon started.
    pub started_at: String,
    /// Human-readable uptime.
    pub uptime: String,
    /// Relevant configuration values.
    pub config: DaemonConfigSummary,
}

/// An endpoint of the daemon's API that the client calls.
#[derive(Debug)]
pub enum Endpoint {
    /// `/v1/daemon/info`
    DaemonInfo,
    /// `/v1/daemon/shutdown`
    DaemonShutdown,
    /// `/v1/services`
    Services,
    /// `/v1/services/{id}`
    Service(String),
    /// `/v1/services/run`
    RunFabrickfile,
    /// `/v1/services/run-module`
    RunModule,
    /// `/v1/services/{id}/start`
    StartService(String),
    /// `/v1/services/{id}/stop`
    StopService(String),
    /// `/v1/services/{id}/scale`
    ScaleService(String),
    /// `/v1/mortar/deploy`
    DeployMortar,
    /// `/v1/mortar/projects`
    Projects,
    /// `/v1/mortar/projects/{name}`
    Project(String),
    /// `/v1/networks`
    Networks,
    /// `/v1/networks/{id}`
    Network(String),
    /// `/v1/networks/{id}/join`
    JoinNetwork(String),
    /// `/v1/networks/{id}/leave`
    LeaveNetwork(String),
    /// `/v1/volumes`
    Volumes,
    /// `/v1/volumes/{id}`
    Volume(String),
}

/// The path of an endpoint.
pub open spec fn endpoint_path(e: Endpoint) -> Seq<char> {
    match e {
        Endpoint::DaemonInfo => "/v1/daemon/info"@,
        Endpoint::DaemonShutdown => "/v1/daemon/shutdown"@,
        Endpoint::Services => "/v1/services"@,
        Endpoint::Service(id) => "/v1/services/"@ + id@,
        Endpoint::RunFabrickfile => "/v1/services/run"@,
        Endpoint::RunModule => "/v1/services/run-module"@,
        Endpoint::StartService(id) => "/v1/services/"@ + id@ + "/start"@,
        Endpoint::StopService(id) => "/v1/services/"@ + id@ + "/stop"@,
        Endpoint::ScaleService(id) => "/v1/services/"@ + id@ + "/scale"@,
        Endpoint::DeployMortar => "/v1/mortar/deploy"@,
        Endpoint::Projects => "/v1/mortar/projects"@,
        Endpoint::Project(name) => "/v1/mortar/projects/"@ + name@,
        Endpoint::Networks => "/v1/networks"@,
        Endpoint::Network(id) => "/v1/networks/"@ + id@,
        Endpoint::JoinNetwork(id) => "/v1/networks/"@ + id@ + "/join"@,
        Endpoint::LeaveNetwork(id) => "/v1/networks/"@ + id@ + "/leave"@,
        Endpoint::Volumes => "/v1/volumes"@,
        Endpoint::Volume(id) => "/v1/volumes/"@ + id@,
    }
}

impl Endpoint {
    /// The endpoint's path.
    pub fn path(&self) -> (r: String)
        ensures
            r@ == endpoint_path(*self),
    {
        match self {
            Endpoint::DaemonInfo => owned("/v1/daemon/info"),
            Endpoint::DaemonShutdown => owned("/v1/daemon/shutdown"),
            Endpoint::Services => owned("/v1/services"),
            Endpoint::Service(id) => crate::error::cat2("/v1/services/", id.as_str()),
            Endpoint::RunFabrickfile => owned("/v1/services/run"),
            Endpoint::RunModule => owned("/v1/services/run-module"),
            Endpoint::StartService(id) => crate::error::cat3("/v1/services/", id.as_str(), "/start"),
            Endpoint::StopService(id) => crate::error::cat3("/v1/services/", id.as_str(), "/stop"),
            Endpoint::ScaleService(id) => crate::error::cat3("/v1/services/", id.as_str(), "/scale"),
            Endpoint::DeployMortar => owned("/v1/mortar/deploy"),
            Endpoint::Projects => owned("/v1/mortar/projects"),
            Endpoint::Project(name) => crate::error::cat2("/v1/mortar/projects/", name.as_str()),
            Endpoint::Networks => owned("/v1/networks"),
            Endpoint::Network(id) => crate::error::cat2("/v1/networks/", id.as_str()),
            Endpoint::JoinNetwork(id) => crate::error::cat3("/v1/networks/", id.as_str(), "/join"),
            Endpoint::LeaveNetwork(id) => crate::error::cat3("/v1/networks/", id.as_str(), "/leave"),
            Endpoint::Volumes => owned("/v1/volumes"),
            Endpoint::Volume(id) => crate::error::cat2("/v1/volumes/", id.as_str()),
        }
    }
}

} // verus!
