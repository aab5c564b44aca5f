//! Service endpoints: request and response types, and the error answers.

use vstd::prelude::*;

use crate::digest::{compute_digest, digest_text};
use crate::error::{cat2, cat5, error_message, DaemonError};
use crate::keyed::KeyedList;
use crate::network::capability::Capabilities;
use crate::network::manager::{contains_text, name_taken, nets_of, NetworkManager};
use crate::network::types::{NetworkAccess, NetworkStateView};
use crate::proxy::router::{binding_views, BindingView, ServiceBinding};
use crate::network::registry::texts;
use crate::policy::model::{clone_names, names_view};
use crate::text::{owned, push_str, seq_starts_with, str_starts_with};

use super::response::{is_error, ApiError, ApiResponse};

verus! {

/// Request to create a service.
pub struct CreateServiceRequest {
    /// Service name.
    pub name: String,
    /// Service version.
    pub version: String,
    /// Path to the WASM module.
    pub wasm_path: String,
    /// Environment variables.
    pub environment: KeyedList<String>,
    /// Arguments passed to the module.
    pub args: Vec<String>,
}

/// Response after creating a service.
pub struct CreateServiceResponse {
    /// Service ID.
    pub id: String,
    /// Service name.
    pub name: String,
}

/// Request to run a module by reference.
pub struct RunModuleRequest {
    /// Module reference.
    pub reference: String,
    /// Arguments passed to the module.
    pub args: Vec<String>,
    /// Environment variables, later ones taking precedence.
    pub env_vars: Vec<(String, String)>,
    /// Run without capability restrictions.
    pub no_capabilities: bool,
    /// Networks to join.
    pub networks: Vec<String>,
}

/// Request to run a Fabrickfile.
pub struct RunFabrickfileRequest {
    /// Path to the Fabrickfile.
    pub fabrickfile_path: String,
    /// Path to a pre-built WASM module.
    pub wasm_path: Option<String>,
}

/// Request to scale a service.
pub struct ScaleServiceRequest {
    /// Target number of replicas.
    pub replicas: usize,
}

/// Replica counts of a service.
pub struct ReplicaState {
    /// Desired replicas.
    pub desired: usize,
    /// Ready replicas.
    pub ready: usize,
    /// Running replicas.
    pub running: usize,
    /// Failed replicas.
    pub failed: usize,
}

/// Summary of a service.
pub struct ServiceInfo {
    /// Service ID.
    pub id: String,
    /// Service name.
    pub name: String,
    /// Service version.
    pub version: String,
    /// Current state.
    pub state: String,
    /// Replica information.
    pub replicas: ReplicaState,
    /// When the service was created.
    pub created_at: String,
    /// Mortar project the service belongs to, if any.
    pub mortar_project: Option<String>,
}

/// Configuration of a service, as reported in its details.
pub struct ServiceConfigDetail {
    /// Service name.
    pub name: String,
    /// Service version.
    pub version: String,
    /// Service type.
    pub service_type: String,
    /// Path to the WASM module.
    pub wasm_path: String,
    /// Digest of the WASM module.
    pub wasm_digest: String,
    /// Networks the service is on.
    pub networks: Vec<String>,
    /// Mortar project the service belongs to, if any.
    pub mortar_project: Option<String>,
}

/// One running instance of a service.
pub struct InstanceInfo {
    /// Instance ID.
    pub id: String,
    /// Instance state.
    pub state: String,
    /// When the instance started.
    pub started_at: Option<String>,
}

/// Full details of a service.
pub struct ServiceDetail {
    /// Service ID.
    pub id: String,
    /// Service name.
    pub name: String,
    /// Service version.
    pub version: String,
    /// Current state.
    pub state: String,
    /// Replica information.
    pub replicas: ReplicaState,
    /// Service configuration.
    pub config: ServiceConfigDetail,
    /// When the service was created.
    pub created_at: String,
    /// When the service was last updated.
    pub updated_at: String,
    /// The last error, if any.
    pub last_error: Option<String>,
    /// Running instances.
    pub instances: Vec<InstanceInfo>,
}

/// Response with the list of services.
pub struct ListServicesResponse {
    /// The services.
    pub services: Vec<ServiceInfo>,
    /// Total count.
    pub total: usize,
}

/// Query parameters of the logs endpoint.
pub struct LogsQuery {
    /// Return only the last N log entries.
    pub tail: Option<usize>,
}

/// The error code and message the service endpoints answer an error with.
pub open spec fn service_error(e: DaemonError) -> (Seq<char>, Seq<char>) {
    match e {
        DaemonError::ServiceNotFound { id } => ("SERVICE_NOT_FOUND"@, "Service not found: "@ + id@),
        DaemonError::ServiceAlreadyExists { name } => ("SERVICE_EXISTS"@, "Service already exists: "@ + name@),
        DaemonError::ServiceNotRunning { id } => ("SERVICE_NOT_RUNNING"@, "Service is not running: "@ + id@),
        DaemonError::InvalidStateTransition { from, to } =>
            ("INVALID_STATE"@, "Cannot transition from '"@ + from@ + "' to '"@ + to@ + "'"@),
        DaemonError::WasmModuleNotFound { path } => ("WASM_NOT_FOUND"@, "WASM module not found: "@ + path@),
        DaemonError::FabrickfileParseError(m) => ("PARSE_ERROR"@, "Parse error: "@ + m@),
        DaemonError::CircularDependency => ("CIRCULAR_DEPENDENCY"@, "Circular dependency detected"@),
        DaemonError::DependencyNotFound { service, dependency } =>
            ("DEPENDENCY_NOT_FOUND"@, "Service '"@ + service@ + "' depends on '"@ + dependency@ + "' which does not exist"@),
        DaemonError::RuntimeError(m) => ("RUNTIME_ERROR"@, "Runtime error: "@ + m@),
        DaemonError::BuildError(m) => ("BUILD_ERROR"@, "Build error: "@ + m@),
        DaemonError::ModuleNotFound { reference } => ("MODULE_NOT_FOUND"@, "Module not found: "@ + reference@),
        DaemonError::OciStorageError(m) => ("STORAGE_ERROR"@, "Storage error: "@ + m@),
        _ => ("INTERNAL_ERROR"@, error_message(e)),
    }
}

/// The error answer of the service endpoints for an error.
pub fn error_response<T>(err: &DaemonError) -> (r: ApiResponse<T>)
    ensures
        is_error(r, service_error(*err).0, service_error(*err).1),
{
    let (code, message) = match err {
        DaemonError::ServiceNotFound { id } => ("SERVICE_NOT_FOUND", cat2("Service not found: ", id.as_str())),
        DaemonError::ServiceAlreadyExists { name } => ("SERVICE_EXISTS", cat2("Service already exists: ", name.as_str())),
        DaemonError::ServiceNotRunning { id } => ("SERVICE_NOT_RUNNING", cat2("Service is not running: ", id.as_str())),
        DaemonError::InvalidStateTransition { from, to } =>
            ("INVALID_STATE", cat5("Cannot transition from '", from.as_str(), "' to '", to.as_str(), "'")),
        DaemonError::WasmModuleNotFound { path } => ("WASM_NOT_FOUND", cat2("WASM module not found: ", path.as_str())),
        DaemonError::FabrickfileParseError(m) => ("PARSE_ERROR", cat2("Parse error: ", m.as_str())),
        DaemonError::CircularDependency => ("CIRCULAR_DEPENDENCY", owned("Circular dependency detected")),
        DaemonError::DependencyNotFound { service, dependency } => (
            "DEPENDENCY_NOT_FOUND",
            cat5("Service '", service.as_str(), "' depends on '", dependency.as_str(), "' which does not exist"),
        ),
        DaemonError::RuntimeError(m) => ("RUNTIME_ERROR", cat2("Runtime error: ", m.as_str())),
        DaemonError::BuildError(m) => ("BUILD_ERROR", cat2("Build error: ", m.as_str())),
        DaemonError::ModuleNotFound { reference } => ("MODULE_NOT_FOUND", cat2("Module not found: ", reference.as_str())),
        DaemonError::OciStorageError(m) => ("STORAGE_ERROR", cat2("Storage error: ", m.as_str())),
        _ => ("INTERNAL_ERROR", err.message()),
    };
    ApiResponse::Error { error: ApiError { code: owned(code), message, details: None } }
}

/// Whether a path parameter is a service ID itself (it starts with "svc-")
/// rather than a name to look up.
pub fn is_service_id(id_or_name: &str) -> (r: bool)
    ensures
        r == seq_starts_with(id_or_name@, "svc-"@),
{
    str_starts_with(id_or_name, "svc-")
}

/// The environment of a service run from a module: the module's own
/// variables, overridden by the request's, later ones winning.
pub open spec fn merged_environment(base: Map<Seq<char>, Seq<char>>, overrides: Seq<(String, String)>) -> Map<Seq<char>, Seq<char>>
    decreases overrides.len(),
{
    if overrides.len() == 0 {
        base
    } else {
        merged_environment(base, overrides.drop_last()).insert(overrides.last().0@, overrides.last().1@)
    }
}

/// Merges the request's environment variables over the module's.
pub fn merge_environment(base: KeyedList<String>, overrides: &Vec<(String, String)>) -> (r: KeyedList<String>)
    requires
        base.wf(),
    ensures
        r.wf(),
        texts(r@) == merged_environment(texts(base@), overrides@),
{
    let ghost b = texts(base@);
    let mut env = base;
    let mut i: usize = 0;
    while i < overrides.len()
        invariant
            env.wf(),
            i <= overrides.len(),
            texts(env@) == merged_environment(b, overrides@.take(i as int)),
        decreases overrides.len() - i,
    {
        let key = overrides[i].0.clone();
        let value = overrides[i].1.clone();
        let ghost before = texts(env@);
        env.insert(key, value);
        proof {
            assert(overrides@.take(i + 1).drop_last() =~= overrides@.take(i as int));
            assert(texts(env@) =~= before.insert(overrides@[i as int].0@, overrides@[i as int].1@));
        }
        i = i + 1;
    }
    proof {
        assert(overrides@.take(overrides@.len() as int) =~= overrides@);
    }
    env
}

/// Where the files of a module being run go: the WASM file, and for an
/// interpreted module (one with a runtime layer and source layers) the
/// directory its sources are unpacked into.
#[derive(Debug)]
pub struct ModuleFiles {
    /// Whether the module is interpreted: its runtime layer is the WASM
    /// that runs, over its source layers.
    pub interpreted: bool,
    /// File name of the WASM module: "<name>.wasm".
    pub wasm_file_name: String,
    /// Directory name for the sources of an interpreted module:
    /// "<name>-app".
    pub app_dir_name: Option<String>,
}

/// Decides where the files of a module named `module_name` go.
pub fn plan_module_files(module_name: &str, has_runtime_layer: bool, has_source_layers: bool) -> (r: ModuleFiles)
    ensures
        r.interpreted == (has_runtime_layer && has_source_layers),
        r.wasm_file_name@ == module_name@ + ".wasm"@,
        r.interpreted ==> (r.app_dir_name matches Some(d) && d@ == module_name@ + "-app"@),
        !r.interpreted ==> r.app_dir_name is None,
{
    let interpreted = has_runtime_layer && has_source_layers;
    let mut wasm_file_name = owned(module_name);
    push_str(&mut wasm_file_name, ".wasm");
    let app_dir_name = if interpreted {
        let mut d = owned(module_name);
        push_str(&mut d, "-app");
        Some(d)
    } else {
        None
    };
    ModuleFiles { interpreted, wasm_file_name, app_dir_name }
}

/// A volume mounted into a service.
#[derive(Debug)]
pub struct VolumeMount {
    /// Volume ID.
    pub volume_id: String,
    /// Volume name.
    pub volume_name: String,
    /// Path of the volume's directory on the host.
    pub host_path: String,
    /// Where the volume appears inside the service.
    pub mount_path: String,
    /// Whether the service may only read the volume.
    pub read_only: bool,
}

/// The configuration a service is created from when it runs a module.
pub struct ServiceConfig {
    /// Service name.
    pub name: String,
    /// Service version.
    pub version: String,
    /// Path of the WASM module.
    pub wasm_path: String,
    /// Digest of the WASM module.
    pub wasm_digest: String,
    /// The capabilities granted.
    pub capabilities: Capabilities,
    /// Environment variables.
    pub environment: KeyedList<String>,
    /// Arguments passed to the module.
    pub args: Vec<String>,
    /// Services this one depends on.
    pub depends_on: Vec<String>,
    /// Networks to join.
    pub networks: Vec<String>,
    /// Volumes mounted into the service.
    pub volumes: Vec<VolumeMount>,
    /// The mortar project the service belongs to.
    pub mortar_project: Option<String>,
}

/// Capabilities that grant nothing.
pub open spec fn no_capabilities() -> Capabilities {
    Capabilities { env: None, network: None, filesystem: None, wasm: None }
}

/// Builds the configuration of a service that runs a module: the module's
/// name, version and capabilities (none at all when the request asks to
/// run without them), the module's environment overridden by the
/// request's, the request's arguments, and, for an interpreted module, its
/// sources mounted read-only at "/app".
pub fn build_service_config(
    name: &str,
    version: &str,
    capabilities: Capabilities,
    module_environment: KeyedList<String>,
    wasm_path: String,
    wasm_bytes: &[u8],
    source_mount_path: Option<String>,
    req: &RunModuleRequest,
) -> (r: ServiceConfig)
    requires
        module_environment.wf(),
    ensures
        r.name@ == name@,
        r.version@ == version@,
        r.wasm_path == wasm_path,
        r.wasm_digest@ == digest_text(wasm_bytes@),
        r.capabilities == (if req.no_capabilities { no_capabilities() } else { capabilities }),
        r.environment.wf(),
        texts(r.environment@) == merged_environment(texts(module_environment@), req.env_vars@),
        r.args@ == req.args@,
        r.depends_on@.len() == 0,
        r.networks@.len() == 0,
        r.mortar_project is None,
        match source_mount_path {
            Some(path) => r.volumes@.len() == 1 && ({
                let v = r.volumes@[0];
                &&& v.volume_id@ == "app-source"@
                &&& v.volume_name@ == "app-source"@
                &&& v.host_path == path
                &&& v.mount_path@ == "/app"@
                &&& v.read_only
            }),
            None => r.volumes@.len() == 0,
        },
{
    let wasm_digest = compute_digest(wasm_bytes);
    let environment = merge_environment(module_environment, &req.env_vars);
    let mut volumes: Vec<VolumeMount> = Vec::new();
    match source_mount_path {
        Some(path) => {
            volumes.push(VolumeMount {
                volume_id: owned("app-source"),
                volume_name: owned("app-source"),
                host_path: path,
                mount_path: owned("/app"),
                read_only: true,
            });
        },
        None => {},
    }
    let capabilities = if req.no_capabilities {
        Capabilities { env: None, network: None, filesystem: None, wasm: None }
    } else {
        capabilities
    };
    ServiceConfig {
        name: owned(name),
        version: owned(version),
        wasm_path,
        wasm_digest,
        capabilities,
        environment,
        args: clone_names(&req.args),
        depends_on: Vec::new(),
        networks: Vec::new(),
        volumes,
        mortar_project: None,
    }
}

/// The first of the requested networks that does not exist, by name.
pub fn find_missing_network(network_manager: &NetworkManager, names: &Vec<String>) -> (r: Option<String>)
    requires
        network_manager.wf(),
    ensures
        r is None <==> forall|i: int| 0 <= i < names@.len() ==> #[trigger] name_taken(network_manager.networks(), names@[i]@),
        r matches Some(n) ==> exists|i: int| 0 <= i < names@.len() && names@[i]@ == n@
            && !name_taken(network_manager.networks(), n@)
            && forall|j: int| 0 <= j < i ==> #[trigger] name_taken(network_manager.networks(), names@[j]@),
{
    let mut i: usize = 0;
    while i < names.len()
        invariant
            network_manager.wf(),
            i <= names@.len(),
            forall|j: int| 0 <= j < i ==> #[trigger] name_taken(network_manager.networks(), names@[j]@),
        decreases names.len() - i,
    {
        if network_manager.get_network_by_name(names[i].as_str()).is_none() {
            return Some(names[i].clone());
        }
        i = i + 1;
    }
    None
}

/// Joins a service to each requested network that exists, by name, and that
/// it is not yet a member of.
pub fn join_networks(network_manager: &mut NetworkManager, names: &Vec<String>, service_id: &str, service_name: &str) -> (r: Result<(), DaemonError>)
    requires
        old(network_manager).wf(),
    ensures
        final(network_manager).wf(),
        r is Ok,
        final(network_manager).networks().dom() == old(network_manager).networks().dom(),
        forall|k: Seq<char>| #[trigger] final(network_manager).networks().contains_key(k) ==> {
            let before = old(network_manager).networks()[k];
            let after = final(network_manager).networks()[k];
            &&& after.name == before.name
            &&& after.members == before.members || (after.members == before.members.insert(service_id@)
                && names_view(names@).contains(before.name))
        },
        forall|i: int| 0 <= i < names@.len() && #[trigger] name_taken(old(network_manager).networks(), names@[i]@) ==>
            exists|k: Seq<char>| #[trigger] final(network_manager).networks().contains_key(k)
                && final(network_manager).networks()[k].name == names@[i]@
                && final(network_manager).networks()[k].members.contains(service_id@),
{
    let ghost o = old(network_manager).networks();
    let ghost sid = service_id@;
    let mut i: usize = 0;
    while i < names.len()
        invariant
            network_manager.wf(),
            i <= names@.len(),
            o == old(network_manager).networks(),
            sid == service_id@,
            network_manager.networks().dom() == o.dom(),
            forall|k: Seq<char>| #[trigger] network_manager.networks().contains_key(k) ==> {
                let before = o[k];
                let after = network_manager.networks()[k];
                &&& after.name == before.name
                &&& after.members == before.members || (after.members == before.members.insert(sid)
                    && names_view(names@.take(i as int)).contains(before.name))
            },
            forall|j: int| 0 <= j < i && #[trigger] name_taken(o, names@[j]@) ==>
                exists|k: Seq<char>| #[trigger] network_manager.networks().contains_key(k)
                    && network_manager.networks()[k].name == names@[j]@
                    && network_manager.networks()[k].members.contains(sid),
        decreases names.len() - i,
    {
        let ghost cur = network_manager.networks();
        let ghost n = names@[i as int]@;
        let ghost t0 = names_view(names@.take(i as int));
        let ghost t1 = names_view(names@.take(i + 1));
        proof {
            assert(t1 =~= t0.push(n));
            assert forall|x: Seq<char>| t0.contains(x) implies t1.contains(x) by {
                let j = choose|j: int| 0 <= j < t0.len() && t0[j] == x;
                assert(t1[j] == x);
            }
            assert(t1[i as int] == n);
        }
        match network_manager.get_network_by_name(names[i].as_str()) {
            Some(network) => {
                if contains_text(&network.members, service_id) {
                    proof {
                        let id = network.id@;
                        assert(names_view(network.members@).to_set().contains(sid));
                        assert(cur[id].members.contains(sid));
                        assert forall|k: Seq<char>| #[trigger] cur.contains_key(k) implies ({
                            let before = o[k];
                            let after = cur[k];
                            &&& after.name == before.name
                            &&& after.members == before.members || (after.members == before.members.insert(sid)
                                && t1.contains(before.name))
                        }) by {}
                        assert forall|j: int| 0 <= j < i + 1 && #[trigger] name_taken(o, names@[j]@) implies
                            exists|k: Seq<char>| #[trigger] cur.contains_key(k)
                                && cur[k].name == names@[j]@ && cur[k].members.contains(sid) by {
                            if j == i {
                                assert(cur.contains_key(id));
                            }
                        }
                    }
                    i = i + 1;
                    continue;
                }
                let r = network_manager.add_service(network.id.as_str(), service_id, service_name);
                match r {
                    Ok(()) => {},
                    Err(e) => {
                        return Err(e);
                    },
                }
                proof {
                    let id = network.id@;
                    let nets = network_manager.networks();
                    assert(nets.dom() =~= o.dom());
                    assert(nets[id].name == n);
                    assert(nets[id].members.contains(sid));
                    assert(nets[id].members =~= o[id].members.insert(sid));
                    assert forall|k: Seq<char>| #[trigger] nets.contains_key(k) implies ({
                        let before = o[k];
                        let after = nets[k];
                        &&& after.name == before.name
                        &&& after.members == before.members || (after.members == before.members.insert(sid)
                            && t1.contains(before.name))
                    }) by {
                        if k == id {
                            assert(t1.contains(o[k].name));
                        } else {
                            assert(nets[k] == cur[k]);
                        }
                    }
                    assert forall|j: int| 0 <= j < i + 1 && #[trigger] name_taken(o, names@[j]@) implies
                        exists|k: Seq<char>| #[trigger] nets.contains_key(k)
                            && nets[k].name == names@[j]@ && nets[k].members.contains(sid) by {
                        if j == i {
                            assert(nets.contains_key(id));
                        } else {
                            let k = choose|k: Seq<char>| #[trigger] cur.contains_key(k)
                                && cur[k].name == names@[j]@ && cur[k].members.contains(sid);
                            assert(nets.contains_key(k));
                        }
                    }
                }
            },
            None => {
                proof {
                    assert(!name_taken(o, n)) by {
                        if name_taken(o, n) {
                            let k = choose|k: Seq<char>| #[trigger] o.contains_key(k) && o[k].name == n;
                            assert(cur.contains_key(k));
                        }
                    }
                }
            },
        }
        i = i + 1;
    }
    proof {
        assert(names@.take(names@.len() as int) =~= names@);
    }
    Ok(())
}

/// The ports of the bindings that belong to a service, in order.
pub open spec fn ports_for(bindings: Seq<BindingView>, service_id: Seq<char>) -> Seq<u16>
    decreases bindings.len(),
{
    if bindings.len() == 0 {
        Seq::empty()
    } else {
        let rest = ports_for(bindings.drop_last(), service_id);
        if bindings.last().service_id == service_id { rest.push(bindings.last().port) } else { rest }
    }
}

/// The ports bound to a service, in the order of the bindings.
pub fn service_ports(bindings: &Vec<ServiceBinding>, service_id: &str) -> (r: Vec<u16>)
    ensures
        r@ == ports_for(binding_views(bindings@), service_id@),
{
    let mut out: Vec<u16> = Vec::new();
    let mut i: usize = 0;
    while i < bindings.len()
        invariant
            i <= bindings@.len(),
            out@ == ports_for(binding_views(bindings@.take(i as int)), service_id@),
        decreases bindings.len() - i,
    {
        proof {
            assert(binding_views(bindings@.take(i + 1)).drop_last() =~= binding_views(bindings@.take(i as int)));
            assert(binding_views(bindings@.take(i + 1)).last() == bindings@[i as int]@);
        }
        if crate::text::str_eq(bindings[i].service_id.as_str(), service_id) {
            out.push(bindings[i].port);
        }
        i = i + 1;
    }
    proof {
        assert(bindings@.take(bindings@.len() as int) =~= bindings@);
    }
    out
}

/// A network a service is attached to, as reported in its details.
#[derive(Debug)]
pub struct NetworkAttachment {
    /// Network ID.
    pub id: String,
    /// Network name.
    pub name: String,
    /// Whether the network is internal.
    pub internal: bool,
}

/// Abstract value of a [`NetworkAttachment`].
pub open spec fn attachment_view(a: NetworkAttachment) -> (Seq<char>, Seq<char>, bool) {
    (a.id@, a.name@, a.internal)
}

/// The attachments of the networks among `ids` that exist, in order.
pub open spec fn attachments_of(nets: Map<Seq<char>, NetworkStateView>, ids: Seq<Seq<char>>) -> Seq<(Seq<char>, Seq<char>, bool)>
    decreases ids.len(),
{
    if ids.len() == 0 {
        Seq::empty()
    } else {
        let rest = attachments_of(nets, ids.drop_last());
        let id = ids.last();
        if nets.contains_key(id) {
            rest.push((nets[id].id, nets[id].name, nets[id].options.access == NetworkAccess::Internal))
        } else {
            rest
        }
    }
}

/// The networks a service is attached to, in the order it joined them.
pub fn network_attachments(network_manager: &NetworkManager, service_id: &str) -> (r: Vec<NetworkAttachment>)
    requires
        network_manager.wf(),
    ensures
        r@.map_values(|a: NetworkAttachment| attachment_view(a))
            == attachments_of(network_manager.networks(), nets_of(network_manager.memberships(), service_id@)),
{
    let ids = network_manager.get_service_networks(service_id);
    let ghost idv = names_view(ids@);
    let mut out: Vec<NetworkAttachment> = Vec::new();
    let mut i: usize = 0;
    while i < ids.len()
        invariant
            network_manager.wf(),
            i <= ids@.len(),
            idv == names_view(ids@),
            out@.map_values(|a: NetworkAttachment| attachment_view(a))
                == attachments_of(network_manager.networks(), idv.take(i as int)),
        decreases ids.len() - i,
    {
        proof {
            assert(idv.take(i + 1).drop_last() =~= idv.take(i as int));
            assert(idv.take(i + 1).last() == ids@[i as int]@);
        }
        match network_manager.get_network(ids[i].as_str()) {
            Some(network) => {
                let ghost before = out@;
                let internal = network.options.access.is_internal();
                out.push(NetworkAttachment { id: network.id, name: network.name, internal });
                proof {
                    assert(out@.map_values(|a: NetworkAttachment| attachment_view(a))
                        =~= before.map_values(|a: NetworkAttachment| attachment_view(a)).push(
                            attachment_view(out@.last())));
                }
            },
            None => {},
        }
        i = i + 1;
    }
    proof {
        assert(idv.take(idv.len() as int) =~= idv);
    }
    out
}

/// Response from the logs endpoint.
pub struct ServiceLogsResponse<E> {
    /// Service ID.
    pub id: String,
    /// Log entries.
    pub entries: Vec<E>,
    /// Number of entries returned.
    pub count: usize,
}

/// The answer of the logs endpoint: the service's entries and their
/// number, or the error answer.
pub fn service_logs_response<E>(result: Result<(String, Vec<E>), DaemonError>) -> (r: ApiResponse<ServiceLogsResponse<E>>)
    ensures
        result matches Ok((id, entries)) ==> (r matches ApiResponse::Success { data }
            && data.id == id && data.entries == entries && data.count == entries@.len()),
        result matches Err(e) ==> is_error(r, service_error(e).0, service_error(e).1),
{
    match result {
        Ok((id, entries)) => {
            let count = entries.len();
            ApiResponse::Success { data: ServiceLogsResponse { id, entries, count } }
        },
        Err(e) => error_response(&e),
    }
}

} // verus!
