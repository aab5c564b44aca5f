//! Metrics endpoints: the responses and what they answer.

use vstd::prelude::*;

use crate::error::cat3;

use super::response::{is_error, ApiResponse};

verus! {

/// Response with metrics for all services.
pub struct AllMetricsResponse<S> {
    /// Metrics for all services.
    pub summary: S,
    /// Total number of services.
    pub total: usize,
}

/// "No metrics available for service '<id>'".
pub open spec fn no_metrics_text(id: Seq<char>) -> Seq<char> {
    "No metrics available for service '"@ + id + "'"@
}

/// GET `/v1/metrics`: the summary of the metrics of all monitored
/// services, with their number.
pub fn get_all_metrics<S>(summary: S, total: usize) -> (r: ApiResponse<AllMetricsResponse<S>>)
    ensures
        r matches ApiResponse::Success { data } && data.summary == summary && data.total == total,
{
    ApiResponse::success(AllMetricsResponse { summary, total })
}

/// GET `/v1/services/{id}/metrics`: the metrics of one service, or 404
/// `SERVICE_NOT_FOUND` when none are available for it.
pub fn get_service_metrics<M>(id: &str, metrics: Option<M>) -> (r: (u16, ApiResponse<M>))
    ensures
        metrics matches Some(m) ==> r.0 == 200 && r.1 == (ApiResponse::<M>::Success { data: m }),
        metrics is None ==> r.0 == 404 && is_error(r.1, "SERVICE_NOT_FOUND"@, no_metrics_text(id@)),
{
    match metrics {
        Some(m) => (200, ApiResponse::success(m)),
        None => (404, ApiResponse::typed_error("SERVICE_NOT_FOUND", cat3("No metrics available for service '", id, "'"))),
    }
}

} // verus!
