//! Mortar project endpoints: request and response types, and the error
//! answers.

use vstd::prelude::*;

use crate::error::{cat2, cat5, error_message, DaemonError};
use crate::text::owned;

use super::response::{is_error, ApiError, ApiResponse};
use super::services::ServiceInfo;

verus! {

/// Request to deploy a mortar project.
pub struct DeployMortarRequest {
    /// Path to the mortar file.
    pub mortar_path: String,
}

/// Response after deploying a mortar project.
pub struct DeployMortarResponse {
    /// Project name.
    pub project: String,
    /// IDs of the deployed services.
    pub service_ids: Vec<String>,
    /// Number of deployed services.
    pub total: usize,
}

/// Response with the list of projects.
pub struct ListProjectsResponse {
    /// Project names.
    pub projects: Vec<String>,
    /// Total count.
    pub total: usize,
}

/// Response with the services of a project.
pub struct ProjectServicesResponse {
    /// Project name.
    pub project: String,
    /// The project's services.
    pub services: Vec<ServiceInfo>,
    /// Total count.
    pub total: usize,
}

/// The error code and message the mortar endpoints answer an error with.
pub open spec fn mortar_error(e: DaemonError) -> (Seq<char>, Seq<char>) {
    match e {
        DaemonError::MortarProjectNotFound { name } => ("PROJECT_NOT_FOUND"@, "Project not found: "@ + name@),
        DaemonError::FabrickfileParseError(m) => ("PARSE_ERROR"@, "Parse error: "@ + m@),
        DaemonError::CircularDependency => ("CIRCULAR_DEPENDENCY"@, "Circular dependency detected"@),
        DaemonError::DependencyNotFound { service, dependency } =>
            ("DEPENDENCY_NOT_FOUND"@, "Service '"@ + service@ + "' depends on '"@ + dependency@ + "' which does not exist"@),
        DaemonError::WasmModuleNotFound { path } => ("WASM_NOT_FOUND"@, "WASM module not found: "@ + path@),
        _ => ("INTERNAL_ERROR"@, error_message(e)),
    }
}

/// The error answer of the mortar endpoints for an error.
pub fn error_response<T>(err: &DaemonError) -> (r: ApiResponse<T>)
    ensures
        is_error(r, mortar_error(*err).0, mortar_error(*err).1),
{
    let (code, message) = match err {
        DaemonError::MortarProjectNotFound { name } => ("PROJECT_NOT_FOUND", cat2("Project not found: ", name.as_str())),
        DaemonError::FabrickfileParseError(m) => ("PARSE_ERROR", cat2("Parse error: ", m.as_str())),
        DaemonError::CircularDependency => ("CIRCULAR_DEPENDENCY", owned("Circular dependency detected")),
        DaemonError::DependencyNotFound { service, dependency } => (
            "DEPENDENCY_NOT_FOUND",
            cat5("Service '", service.as_str(), "' depends on '", dependency.as_str(), "' which does not exist"),
        ),
        DaemonError::WasmModuleNotFound { path } => ("WASM_NOT_FOUND", cat2("WASM module not found: ", path.as_str())),
        _ => ("INTERNAL_ERROR", err.message()),
    };
    ApiResponse::Error { error: ApiError { code: owned(code), message, details: None } }
}

} // verus!
