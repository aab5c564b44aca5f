//! Errors of daemon operations and their messages.

use vstd::prelude::*;

use crate::policy::model::names_view;
use crate::text::{decimal, push_decimal, push_str};

verus! {

/// Errors that can occur during daemon operations.
///
/// Errors that come from outside the daemon (I/O, database, parsers,
/// runtime) carry the outside error's message text.
#[derive(Debug)]
pub enum DaemonError {
    /// Failed to load configuration file.
    ConfigLoadError { path: String, reason: String },
    /// Failed to parse configuration.
    ConfigParseError(String),
    /// Failed to create or bind Unix socket.
    SocketBindError { path: String, reason: String },
    /// Failed to open or access database.
    DatabaseError(String),
    /// JSON serialization/deserialization error.
    SerializationError(String),
    /// IO error.
    IoError(String),
    /// Service not found.
    ServiceNotFound { id: String },
    /// Network not found.
    NetworkNotFound(String),
    /// Network already exists.
    NetworkExists(String),
    /// Network has members and cannot be deleted.
    NetworkHasMembers(String),
    /// Network access denied (service only allows internal access).
    NetworkAccessDenied { service_id: String, reason: String },
    /// Volume not found.
    VolumeNotFound { id: String },
    /// Volume already exists.
    VolumeExists(String),
    /// Volume is mounted and cannot be deleted.
    VolumeMounted { id: String, services: Vec<String> },
    /// Failed to create volume directory.
    VolumeCreateFailed { name: String, reason: String },
    /// Failed to delete volume directory.
    VolumeDeleteFailed { id: String, reason: String },
    /// Invalid state transition.
    InvalidStateTransition { from: String, to: String },
    /// Shutdown in progress.
    ShuttingDown,
    /// Event bus send error.
    EventBusClosed,
    /// Circular dependency detected.
    CircularDependency,
    /// Runtime error.
    RuntimeError(String),
    /// Fabrickfile parse error.
    FabrickfileParseError(String),
    /// Build error.
    BuildError(String),
    /// Service already exists.
    ServiceAlreadyExists { name: String },
    /// Service is not running.
    ServiceNotRunning { id: String },
    /// Mortar project not found.
    MortarProjectNotFound { name: String },
    /// Dependency not found.
    DependencyNotFound { service: String, dependency: String },
    /// WASM module not found.
    WasmModuleNotFound { path: String },
    /// Port already bound.
    PortAlreadyBound { port: u16, service_id: String },
    /// Port not bound.
    PortNotBound { port: u16 },
    /// Failed to bind port.
    PortBindError { port: u16, reason: String },
    /// No instances available for routing.
    NoInstancesAvailable { service_id: String },
    /// Generic service error.
    ServiceError { id: String, reason: String },
    /// Module not found in local storage or registry.
    ModuleNotFound { reference: String },
    /// Local OCI storage error.
    OciStorageError(String),
}

/// The text `format!("{:?}", items)` gives for a list of strings: each item
/// quoted and escaped by `str::escape_debug`, separated by ", ", in brackets.
pub uninterp spec fn debug_list_text(items: Seq<Seq<char>>) -> Seq<char>;

/// `format!("{:?}", items)` from std: the `Debug` rendering of a list of strings.
#[verifier::external_body]
pub(crate) fn debug_list(items: &Vec<String>) -> (r: String)
    ensures
        r@ == debug_list_text(names_view(items@)),
{
    format!("{:?}", items)
}

/// The message of an error, as the daemon displays it.
pub open spec fn error_message(e: DaemonError) -> Seq<char> {
    match e {
        DaemonError::ConfigLoadError { path, reason } =>
            "failed to load configuration from '"@ + path@ + "': "@ + reason@,
        DaemonError::ConfigParseError(m) => "invalid configuration: "@ + m@,
        DaemonError::SocketBindError { path, reason } =>
            "failed to bind Unix socket at '"@ + path@ + "': "@ + reason@,
        DaemonError::DatabaseError(m) => "database error: "@ + m@,
        DaemonError::SerializationError(m) => "serialization error: "@ + m@,
        DaemonError::IoError(m) => "IO error: "@ + m@,
        DaemonError::ServiceNotFound { id } => "service not found: "@ + id@,
        DaemonError::NetworkNotFound(id) => "network not found: "@ + id@,
        DaemonError::NetworkExists(n) => "network already exists with name: "@ + n@,
        DaemonError::NetworkHasMembers(id) => "network '"@ + id@ + "' has members and cannot be deleted"@,
        DaemonError::NetworkAccessDenied { service_id, reason } =>
            "network access denied for service '"@ + service_id@ + "': "@ + reason@,
        DaemonError::VolumeNotFound { id } => "volume not found: "@ + id@,
        DaemonError::VolumeExists(n) => "volume already exists with name: "@ + n@,
        DaemonError::VolumeMounted { id, services } =>
            "volume '"@ + id@ + "' is mounted by services: "@ + debug_list_text(names_view(services@)),
        DaemonError::VolumeCreateFailed { name, reason } =>
            "failed to create volume '"@ + name@ + "': "@ + reason@,
        DaemonError::VolumeDeleteFailed { id, reason } =>
            "failed to delete volume '"@ + id@ + "': "@ + reason@,
        DaemonError::InvalidStateTransition { from, to } =>
            "invalid state transition from '"@ + from@ + "' to '"@ + to@ + "'"@,
        DaemonError::ShuttingDown => "daemon is shutting down"@,
        DaemonError::EventBusClosed => "failed to publish event: channel closed"@,
        DaemonError::CircularDependency => "circular dependency detected in service graph"@,
        DaemonError::RuntimeError(m) => "runtime error: "@ + m@,
        DaemonError::FabrickfileParseError(m) => "failed to parse Fabrickfile: "@ + m@,
        DaemonError::BuildError(m) => "build failed: "@ + m@,
        DaemonError::ServiceAlreadyExists { name } => "service already exists: "@ + name@,
        DaemonError::ServiceNotRunning { id } => "service is not running: "@ + id@,
        DaemonError::MortarProjectNotFound { name } => "mortar project not found: "@ + name@,
        DaemonError::DependencyNotFound { service, dependency } =>
            "dependency not found: service '"@ + service@ + "' depends on '"@ + dependency@
                + "' which does not exist"@,
        DaemonError::WasmModuleNotFound { path } => "WASM module not found at path: "@ + path@,
        DaemonError::PortAlreadyBound { port, service_id } =>
            "port "@ + decimal(port as nat) + " is already bound to service '"@ + service_id@ + "'"@,
        DaemonError::PortNotBound { port } => "port "@ + decimal(port as nat) + " is not bound to any service"@,
        DaemonError::PortBindError { port, reason } =>
            "failed to bind port "@ + decimal(port as nat) + ": "@ + reason@,
        DaemonError::NoInstancesAvailable { service_id } =>
            "no healthy instances available for service '"@ + service_id@ + "'"@,
        DaemonError::ServiceError { id, reason } => "service '"@ + id@ + "' error: "@ + reason@,
        DaemonError::ModuleNotFound { reference } => "module not found: "@ + reference@,
        DaemonError::OciStorageError(m) => "OCI storage error: "@ + m@,
    }
}

/// Joins two texts.
pub(crate) fn cat2(a: &str, b: &str) -> (r: String)
    ensures
        r@ == a@ + b@,
{
    let mut s = String::new();
    push_str(&mut s, a);
    push_str(&mut s, b);
    assert(s@ =~= a@ + b@);
    s
}

/// Joins three texts.
pub(crate) fn cat3(a: &str, b: &str, c: &str) -> (r: String)
    ensures
        r@ == a@ + b@ + c@,
{
    let mut s = String::new();
    push_str(&mut s, a);
    push_str(&mut s, b);
    push_str(&mut s, c);
    assert(s@ =~= a@ + b@ + c@);
    s
}

/// Joins four texts.
pub(crate) fn cat4(a: &str, b: &str, c: &str, d: &str) -> (r: String)
    ensures
        r@ == a@ + b@ + c@ + d@,
{
    let mut s = String::new();
    push_str(&mut s, a);
    push_str(&mut s, b);
    push_str(&mut s, c);
    push_str(&mut s, d);
    assert(s@ =~= a@ + b@ + c@ + d@);
    s
}

/// Joins five texts.
pub(crate) fn cat5(a: &str, b: &str, c: &str, d: &str, e: &str) -> (r: String)
    ensures
        r@ == a@ + b@ + c@ + d@ + e@,
{
    let mut s = String::new();
    push_str(&mut s, a);
    push_str(&mut s, b);
    push_str(&mut s, c);
    push_str(&mut s, d);
    push_str(&mut s, e);
    assert(s@ =~= a@ + b@ + c@ + d@ + e@);
    s
}

/// "<prefix><port><suffix>".
fn with_port(prefix: &str, port: u16, suffix: &str) -> (r: String)
    ensures
        r@ == prefix@ + decimal(port as nat) + suffix@,
{
    let mut s = String::new();
    push_str(&mut s, prefix);
    push_decimal(&mut s, port as u64);
    push_str(&mut s, suffix);
    assert(s@ =~= prefix@ + decimal(port as nat) + suffix@);
    s
}

impl DaemonError {
    /// The message of the error (its display text).
    pub fn message(&self) -> (r: String)
        ensures
            r@ == error_message(*self),
    {
        match self {
            DaemonError::ConfigLoadError { path, reason } =>
                cat4("failed to load configuration from '", path.as_str(), "': ", reason.as_str()),
            DaemonError::ConfigParseError(m) => cat2("invalid configuration: ", m.as_str()),
            DaemonError::SocketBindError { path, reason } =>
                cat4("failed to bind Unix socket at '", path.as_str(), "': ", reason.as_str()),
            DaemonError::DatabaseError(m) => cat2("database error: ", m.as_str()),
            DaemonError::SerializationError(m) => cat2("serialization error: ", m.as_str()),
            DaemonError::IoError(m) => cat2("IO error: ", m.as_str()),
            DaemonError::ServiceNotFound { id } => cat2("service not found: ", id.as_str()),
            DaemonError::NetworkNotFound(id) => cat2("network not found: ", id.as_str()),
            DaemonError::NetworkExists(n) => cat2("network already exists with name: ", n.as_str()),
            DaemonError::NetworkHasMembers(id) =>
                cat3("network '", id.as_str(), "' has members and cannot be deleted"),
            DaemonError::NetworkAccessDenied { service_id, reason } =>
                cat4("network access denied for service '", service_id.as_str(), "': ", reason.as_str()),
            DaemonError::VolumeNotFound { id } => cat2("volume not found: ", id.as_str()),
            DaemonError::VolumeExists(n) => cat2("volume already exists with name: ", n.as_str()),
            DaemonError::VolumeMounted { id, services } => {
                let list = debug_list(services);
                cat4("volume '", id.as_str(), "' is mounted by services: ", list.as_str())
            }
            DaemonError::VolumeCreateFailed { name, reason } =>
                cat4("failed to create volume '", name.as_str(), "': ", reason.as_str()),
            DaemonError::VolumeDeleteFailed { id, reason } =>
                cat4("failed to delete volume '", id.as_str(), "': ", reason.as_str()),
            DaemonError::InvalidStateTransition { from, to } =>
                cat5("invalid state transition from '", from.as_str(), "' to '", to.as_str(), "'"),
            DaemonError::ShuttingDown => crate::text::owned("daemon is shutting down"),
            DaemonError::EventBusClosed => crate::text::owned("failed to publish event: channel closed"),
            DaemonError::CircularDependency => crate::text::owned("circular dependency detected in service graph"),
            DaemonError::RuntimeError(m) => cat2("runtime error: ", m.as_str()),
            DaemonError::FabrickfileParseError(m) => cat2("failed to parse Fabrickfile: ", m.as_str()),
            DaemonError::BuildError(m) => cat2("build failed: ", m.as_str()),
            DaemonError::ServiceAlreadyExists { name } => cat2("service already exists: ", name.as_str()),
            DaemonError::ServiceNotRunning { id } => cat2("service is not running: ", id.as_str()),
            DaemonError::MortarProjectNotFound { name } => cat2("mortar project not found: ", name.as_str()),
            DaemonError::DependencyNotFound { service, dependency } => cat5(
                "dependency not found: service '",
                service.as_str(),
                "' depends on '",
                dependency.as_str(),
                "' which does not exist",
            ),
            DaemonError::WasmModuleNotFound { path } => cat2("WASM module not found at path: ", path.as_str()),
            DaemonError::PortAlreadyBound { port, service_id } => {
                let head = with_port("port ", *port, " is already bound to service '");
                cat3(head.as_str(), service_id.as_str(), "'")
            }
            DaemonError::PortNotBound { port } => with_port("port ", *port, " is not bound to any service"),
            DaemonError::PortBindError { port, reason } => {
                let head = with_port("failed to bind port ", *port, ": ");
                cat2(head.as_str(), reason.as_str())
            }
            DaemonError::NoInstancesAvailable { service_id } =>
                cat3("no healthy instances available for service '", service_id.as_str(), "'"),
            DaemonError::ServiceError { id, reason } => cat4("service '", id.as_str(), "' error: ", reason.as_str()),
            DaemonError::ModuleNotFound { reference } => cat2("module not found: ", reference.as_str()),
            DaemonError::OciStorageError(m) => cat2("OCI storage error: ", m.as_str()),
        }
    }
}

} // verus!
