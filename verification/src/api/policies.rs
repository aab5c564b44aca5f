//! Policy endpoints: every loaded policy, and one project's policy.

use vstd::prelude::*;

use crate::error::cat3;
use crate::policy::manager::PolicyManager;
use crate::policy::types::{summarizes_policy, PolicyInfo};

use super::response::{is_error, ApiResponse};

verus! {

/// Response with all policies.
pub struct AllPoliciesResponse {
    /// All loaded policies.
    pub policies: Vec<PolicyInfo>,
    /// Total number of policies.
    pub total: usize,
}

/// GET `/v1/policies`: a summary of every loaded policy.
pub fn list_policies(pm: &PolicyManager) -> (r: AllPoliciesResponse)
    requires
        pm.wf(),
    ensures
        r.total == r.policies@.len(),
        r.policies@.len() == pm.policies_view().len(),
        forall|i: int| 0 <= i < r.policies@.len() ==> pm.policies_view().contains_key(#[trigger] r.policies@[i].mortar_id@)
            && summarizes_policy(r.policies@[i], pm.policies_view()[r.policies@[i].mortar_id@]),
        forall|k: Seq<char>| #[trigger] pm.policies_view().contains_key(k)
            ==> exists|i: int| 0 <= i < r.policies@.len() && #[trigger] r.policies@[i].mortar_id@ == k,
{
    let policies = pm.list_policies();
    let total = policies.len();
    AllPoliciesResponse { policies, total }
}

/// The message for a project without a policy.
pub open spec fn no_policy_text(mortar_id: Seq<char>) -> Seq<char> {
    "No policy found for mortar project '"@ + mortar_id + "'"@
}

/// GET `/v1/policies/{mortar_id}`: the policy of one project; 404
/// `POLICY_NOT_FOUND` if it has none.
pub fn get_policy(pm: &PolicyManager, mortar_id: &str) -> (r: (u16, ApiResponse<PolicyInfo>))
    requires
        pm.wf(),
    ensures
        pm.policies_view().contains_key(mortar_id@) ==> r.0 == 200
            && (r.1 matches ApiResponse::Success { data } && summarizes_policy(data, pm.policies_view()[mortar_id@])),
        !pm.policies_view().contains_key(mortar_id@) ==> r.0 == 404
            && is_error(r.1, "POLICY_NOT_FOUND"@, no_policy_text(mortar_id@)),
{
    match pm.get_policy(mortar_id) {
        Some(p) => (200, ApiResponse::success(PolicyInfo::from_evaluated(&p))),
        None => (404, ApiResponse::typed_error("POLICY_NOT_FOUND", cat3("No policy found for mortar project '", mortar_id, "'"))),
    }
}

} // verus!
