//! Network endpoints: create, list, inspect, delete, join and leave.

use vstd::prelude::*;

use crate::error::{cat3, error_message, DaemonError};
use crate::ids::is_network_id;
use crate::network::manager::{already_member_text, fresh_network, name_taken, NetworkManager};
use crate::network::types::{detail_matches, info_matches, NetworkConfig, NetworkDetail, NetworkInfo, NetworkOptions};
use crate::policy::model::opt_text;
use crate::text::{seq_contains_seq, str_contains};

use super::response::{is_error, ApiResponse};

verus! {

/// Request to create a network.
pub struct CreateNetworkRequest {
    /// Network name (must be unique).
    pub name: String,
    /// Optional description.
    pub description: Option<String>,
    /// Network options (access, isolation, encryption, audit).
    pub options: NetworkOptions,
}

/// Response after creating a network.
pub struct CreateNetworkResponse {
    /// Created network ID.
    pub id: String,
    /// Network name.
    pub name: String,
}

/// Response with the list of networks.
pub struct ListNetworksResponse {
    /// The networks.
    pub networks: Vec<NetworkInfo>,
    /// Total count.
    pub total: usize,
}

/// Request to add a service to a network.
pub struct JoinNetworkRequest {
    /// Service ID to add.
    pub service_id: String,
    /// Service name for name resolution.
    pub service_name: String,
}

/// Request to remove a service from a network.
pub struct LeaveNetworkRequest {
    /// Service ID to remove.
    pub service_id: String,
}

/// The message for a network that does not exist.
pub open spec fn network_not_found_text(id_or_name: Seq<char>) -> Seq<char> {
    "Network '"@ + id_or_name + "' not found"@
}

/// POST `/v1/networks`: creates a network. 201 with its ID and name, or
/// 400 `NETWORK_CREATE_FAILED` when the name is taken.
pub fn create_network(nm: &mut NetworkManager, req: CreateNetworkRequest) -> (r: (u16, ApiResponse<CreateNetworkResponse>))
    requires
        old(nm).wf(),
    ensures
        final(nm).wf(),
        final(nm).memberships() == old(nm).memberships(),
        final(nm).reg() == old(nm).reg(),
        name_taken(old(nm).networks(), req.name@) ==> {
            &&& r.0 == 400
            &&& is_error(r.1, "NETWORK_CREATE_FAILED"@, error_message(DaemonError::NetworkExists(req.name)))
            &&& final(nm).networks() == old(nm).networks()
        },
        !name_taken(old(nm).networks(), req.name@) ==> {
            &&& r.0 == 201
            &&& r.1 matches ApiResponse::Success { data } && data.name@ == req.name@ && is_network_id(data.id@)
                && final(nm).networks() == old(nm).networks().insert(
                    data.id@,
                    fresh_network(req.name@, opt_text(req.description), req.options, data.id@,
                        final(nm).networks()[data.id@].created_at),
                )
        },
{
    let name = req.name.clone();
    let config = match req.description {
        Some(desc) => NetworkConfig::with_description(req.name, desc, req.options),
        None => NetworkConfig::with_options(req.name, req.options),
    };
    match nm.create_network(config) {
        Ok(id) => (201, ApiResponse::success(CreateNetworkResponse { id, name })),
        Err(e) => (400, ApiResponse::typed_error("NETWORK_CREATE_FAILED", e.message())),
    }
}

/// GET `/v1/networks`: lists all networks.
pub fn list_networks(nm: &NetworkManager) -> (r: ListNetworksResponse)
    requires
        nm.wf(),
    ensures
        r.total == r.networks@.len(),
        r.networks@.len() == nm.networks().len(),
        forall|i: int| 0 <= i < r.networks@.len() ==> nm.networks().contains_key(#[trigger] r.networks@[i].id@)
            && info_matches(r.networks@[i], nm.networks()[r.networks@[i].id@]),
        forall|k: Seq<char>| #[trigger] nm.networks().contains_key(k)
            ==> exists|i: int| 0 <= i < r.networks@.len() && #[trigger] r.networks@[i].id@ == k,
{
    let networks = nm.list_networks();
    let total = networks.len();
    ListNetworksResponse { networks, total }
}

/// The 404 answer for a network that does not exist.
fn network_not_found<T>(id_or_name: &str) -> (r: (u16, ApiResponse<T>))
    ensures
        r.0 == 404,
        is_error(r.1, "NETWORK_NOT_FOUND"@, network_not_found_text(id_or_name@)),
{
    (404, ApiResponse::typed_error("NETWORK_NOT_FOUND", cat3("Network '", id_or_name, "' not found")))
}

/// GET `/v1/networks/{id}`: details of a network named by ID or name.
pub fn get_network(nm: &NetworkManager, id_or_name: &str) -> (r: (u16, ApiResponse<NetworkDetail>))
    requires
        nm.wf(),
    ensures
        nm.networks().contains_key(id_or_name@) ==> r.0 == 200
            && (r.1 matches ApiResponse::Success { data } && detail_matches(data, nm.networks()[id_or_name@])),
        !nm.networks().contains_key(id_or_name@) && name_taken(nm.networks(), id_or_name@) ==> r.0 == 200
            && (r.1 matches ApiResponse::Success { data } && exists|k: Seq<char>| #[trigger] nm.networks().contains_key(k)
                && nm.networks()[k].name == id_or_name@ && detail_matches(data, nm.networks()[k])),
        !nm.networks().contains_key(id_or_name@) && !name_taken(nm.networks(), id_or_name@) ==> r.0 == 404
            && is_error(r.1, "NETWORK_NOT_FOUND"@, network_not_found_text(id_or_name@)),
{
    match nm.get_network_by_id_or_name(id_or_name) {
        Some(detail) => (200, ApiResponse::success(detail)),
        None => network_not_found(id_or_name),
    }
}

/// The error code for a failed deletion: members still in the network, or
/// another failure.
pub open spec fn delete_failure_code(message: Seq<char>) -> Seq<char> {
    if seq_contains_seq(message, "has members"@) { "NETWORK_HAS_MEMBERS"@ } else { "NETWORK_DELETE_FAILED"@ }
}

/// The network a path parameter names: the network with that ID, or else
/// one with that name.
pub open spec fn named_network(nm: &NetworkManager, id_or_name: Seq<char>, id: Seq<char>) -> bool {
    if nm.networks().contains_key(id_or_name) {
        id == id_or_name
    } else {
        nm.networks().contains_key(id) && nm.networks()[id].name == id_or_name
    }
}

/// The path parameter names no network.
pub open spec fn names_no_network(nm: &NetworkManager, id_or_name: Seq<char>) -> bool {
    !nm.networks().contains_key(id_or_name) && !name_taken(nm.networks(), id_or_name)
}

/// DELETE `/v1/networks/{id}`: deletes a network named by ID or name.
/// 404 if there is none; 400 if it still has members.
pub fn delete_network(nm: &mut NetworkManager, id_or_name: &str) -> (r: (u16, ApiResponse<()>))
    requires
        old(nm).wf(),
    ensures
        final(nm).wf(),
        final(nm).memberships() == old(nm).memberships(),
        final(nm).reg() == old(nm).reg(),
        names_no_network(&*old(nm), id_or_name@) ==> r.0 == 404
            && is_error(r.1, "NETWORK_NOT_FOUND"@, network_not_found_text(id_or_name@))
            && final(nm).networks() == old(nm).networks(),
        !names_no_network(&*old(nm), id_or_name@) ==> exists|id: Seq<char>| #[trigger] named_network(&*old(nm), id_or_name@, id) && {
            if old(nm).networks()[id].members.is_empty() {
                &&& r.0 == 200
                &&& r.1 matches ApiResponse::Success { .. }
                &&& final(nm).networks() == old(nm).networks().remove(id)
            } else {
                &&& r.0 == 400
                &&& r.1 matches ApiResponse::Error { error } && error.code@ == "NETWORK_HAS_MEMBERS"@
                &&& final(nm).networks() == old(nm).networks()
            }
        },
{
    let network_id = match nm.resolve_network_id(id_or_name) {
        Some(id) => id,
        None => {
            return network_not_found(id_or_name);
        },
    };
    let ghost before = *nm;
    proof {
        assert(named_network(&before, id_or_name@, network_id@));
    }
    match nm.delete_network(network_id.as_str()) {
        Ok(()) => (200, ApiResponse::success(())),
        Err(e) => {
            let message = e.message();
            proof {
                reveal_strlit("has members");
                reveal_strlit("network '");
                reveal_strlit("' has members and cannot be deleted");
                let m = message@;
                let i: int = network_id@.len() as int + 11;
                assert(m == "network '"@ + network_id@ + "' has members and cannot be deleted"@);
                assert(m.subrange(i, i + 11) =~= "has members"@);
                assert(crate::text::occurs_at(m, "has members"@, i));
            }
            let code = if str_contains(message.as_str(), "has members") { "NETWORK_HAS_MEMBERS" } else { "NETWORK_DELETE_FAILED" };
            (400, ApiResponse::typed_error(code, message))
        },
    }
}

/// POST `/v1/networks/{id}/join`: adds a service to a network named by ID
/// or name, registering the service's name. 404 if there is no such network,
/// 400 if the service is already a member of it.
pub fn join_network(nm: &mut NetworkManager, id_or_name: &str, req: &JoinNetworkRequest) -> (r: (u16, ApiResponse<()>))
    requires
        old(nm).wf(),
    ensures
        final(nm).wf(),
        names_no_network(&*old(nm), id_or_name@) ==> r.0 == 404
            && is_error(r.1, "NETWORK_NOT_FOUND"@, network_not_found_text(id_or_name@))
            && final(nm).networks() == old(nm).networks()
            && final(nm).memberships() == old(nm).memberships()
            && final(nm).reg() == old(nm).reg(),
        !names_no_network(&*old(nm), id_or_name@) ==> exists|id: Seq<char>| #[trigger] named_network(&*old(nm), id_or_name@, id)
            && (old(nm).networks()[id].members.contains(req.service_id@) ==> {
                &&& r.0 == 400
                &&& is_error(r.1, "NETWORK_JOIN_FAILED"@,
                        "service '"@ + req.service_id@ + "' error: "@ + already_member_text(id))
                &&& final(nm).networks() == old(nm).networks()
                &&& final(nm).memberships() == old(nm).memberships()
                &&& final(nm).reg() == old(nm).reg()
            })
            && (!old(nm).networks()[id].members.contains(req.service_id@) ==> {
                &&& r.0 == 200
                &&& r.1 matches ApiResponse::Success { .. }
                &&& final(nm).networks()[id].members == old(nm).networks()[id].members.insert(req.service_id@)
                &&& final(nm).networks().dom() == old(nm).networks().dom()
                &&& final(nm).reg().names() == old(nm).reg().names().insert(req.service_name@, req.service_id@)
            }),
{
    let network_id = match nm.resolve_network_id(id_or_name) {
        Some(id) => id,
        None => {
            return network_not_found(id_or_name);
        },
    };
    let ghost before = *nm;
    proof {
        assert(named_network(&before, id_or_name@, network_id@));
    }
    match nm.add_service(network_id.as_str(), req.service_id.as_str(), req.service_name.as_str()) {
        Ok(()) => {
            proof {
                assert(nm.networks()[network_id@].members == before.networks()[network_id@].members.insert(req.service_id@));
                assert(nm.networks().dom() =~= before.networks().dom());
            }
            (200, ApiResponse::success(()))
        },
        Err(e) => (400, ApiResponse::typed_error("NETWORK_JOIN_FAILED", e.message())),
    }
}

/// POST `/v1/networks/{id}/leave`: removes a service from a network named
/// by ID or name. 404 if there is no such network.
pub fn leave_network(nm: &mut NetworkManager, id_or_name: &str, req: &LeaveNetworkRequest) -> (r: (u16, ApiResponse<()>))
    requires
        old(nm).wf(),
    ensures
        final(nm).wf(),
        final(nm).reg() == old(nm).reg(),
        names_no_network(&*old(nm), id_or_name@) ==> r.0 == 404
            && is_error(r.1, "NETWORK_NOT_FOUND"@, network_not_found_text(id_or_name@))
            && final(nm).networks() == old(nm).networks()
            && final(nm).memberships() == old(nm).memberships(),
        !names_no_network(&*old(nm), id_or_name@) ==> r.0 == 200 && (r.1 matches ApiResponse::Success { .. })
            && exists|id: Seq<char>| #[trigger] named_network(&*old(nm), id_or_name@, id)
                && final(nm).networks()[id].members == old(nm).networks()[id].members.remove(req.service_id@)
                && final(nm).networks().dom() == old(nm).networks().dom(),
{
    let network_id = match nm.resolve_network_id(id_or_name) {
        Some(id) => id,
        None => {
            return network_not_found(id_or_name);
        },
    };
    let ghost before = *nm;
    proof {
        assert(named_network(&before, id_or_name@, network_id@));
    }
    match nm.remove_service(network_id.as_str(), req.service_id.as_str()) {
        Ok(()) => {
            proof {
                if before.networks()[network_id@].members.contains(req.service_id@) {
                    assert(nm.networks().dom() =~= before.networks().dom());
                } else {
                    assert(before.networks()[network_id@].members.remove(req.service_id@) =~= before.networks()[network_id@].members);
                }
            }
            (200, ApiResponse::success(()))
        },
        Err(e) => (400, ApiResponse::typed_error("NETWORK_LEAVE_FAILED", e.message())),
    }
}

} // verus!
