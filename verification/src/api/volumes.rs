//! Volume endpoints: request and response types, and the error answers.

use vstd::prelude::*;

use crate::error::cat3;
use crate::text::{seq_contains_seq, str_contains};

use super::response::{is_error, ApiResponse};

verus! {

/// Request to create a volume.
pub struct CreateVolumeRequest {
    /// Volume name.
    pub name: String,
    /// Optional description.
    pub description: Option<String>,
    /// Optional size limit.
    pub size: Option<String>,
}

/// Response after creating a volume.
pub struct CreateVolumeResponse {
    /// Volume ID.
    pub id: String,
    /// Volume name.
    pub name: String,
}

/// Summary of a volume.
pub struct VolumeInfo {
    /// Volume ID.
    pub id: String,
    /// Volume name.
    pub name: String,
    /// Optional description.
    pub description: Option<String>,
    /// Optional size limit.
    pub size: Option<String>,
    /// Number of services using this volume.
    pub mount_count: usize,
    /// When the volume was created.
    pub created_at: String,
}

/// Full details of a volume.
pub struct VolumeDetail {
    /// Volume ID.
    pub id: String,
    /// Volume name.
    pub name: String,
    /// Optional description.
    pub description: Option<String>,
    /// Optional size limit.
    pub size: Option<String>,
    /// Host path of the volume.
    pub path: String,
    /// IDs of the services that have the volume mounted.
    pub mounted_by: Vec<String>,
    /// When the volume was created.
    pub created_at: String,
    /// When the volume was last updated.
    pub updated_at: String,
}

/// Response with the list of volumes.
pub struct ListVolumesResponse {
    /// The volumes.
    pub volumes: Vec<VolumeInfo>,
    /// Total count.
    pub total: usize,
}

/// The error code for a failed creation with this message.
pub open spec fn create_failure_code(message: Seq<char>) -> Seq<char> {
    if seq_contains_seq(message, "already exists"@) { "VOLUME_EXISTS"@ } else { "VOLUME_CREATE_FAILED"@ }
}

/// The 400 answer to a failed volume creation: `VOLUME_EXISTS` when the
/// message says the volume already exists, `VOLUME_CREATE_FAILED` otherwise.
pub fn create_failed<T>(message: String) -> (r: (u16, ApiResponse<T>))
    ensures
        r.0 == 400,
        is_error(r.1, create_failure_code(message@), message@),
{
    let code = if str_contains(message.as_str(), "already exists") { "VOLUME_EXISTS" } else { "VOLUME_CREATE_FAILED" };
    (400, ApiResponse::typed_error(code, message))
}

/// The error code for a failed deletion with this message.
pub open spec fn delete_failure_code(message: Seq<char>) -> Seq<char> {
    if seq_contains_seq(message, "mounted"@) { "VOLUME_MOUNTED"@ } else { "VOLUME_DELETE_FAILED"@ }
}

/// The 400 answer to a failed volume deletion: `VOLUME_MOUNTED` when the
/// message says the volume is mounted, `VOLUME_DELETE_FAILED` otherwise.
pub fn delete_failed<T>(message: String) -> (r: (u16, ApiResponse<T>))
    ensures
        r.0 == 400,
        is_error(r.1, delete_failure_code(message@), message@),
{
    let code = if str_contains(message.as_str(), "mounted") { "VOLUME_MOUNTED" } else { "VOLUME_DELETE_FAILED" };
    (400, ApiResponse::typed_error(code, message))
}

/// The message for a volume that does not exist.
pub open spec fn volume_not_found_text(id_or_name: Seq<char>) -> Seq<char> {
    "Volume '"@ + id_or_name + "' not found"@
}

/// The 404 answer for a volume that does not exist.
pub fn volume_not_found<T>(id_or_name: &str) -> (r: (u16, ApiResponse<T>))
    ensures
        r.0 == 404,
        is_error(r.1, "VOLUME_NOT_FOUND"@, volume_not_found_text(id_or_name@)),
{
    (404, ApiResponse::typed_error("VOLUME_NOT_FOUND", cat3("Volume '", id_or_name, "' not found")))
}

} // verus!
