//! Policy lifecycle management: loading and unloading the policies of
//! mortar projects, and evaluating connections against them.

use vstd::prelude::*;

use crate::events::bus::EventBus;
use crate::keyed::KeyedList;
use crate::policy::engine::{evaluate_policies, evaluation_published, PolicyEngine};
use crate::policy::model::Policy;
use crate::policy::types::{
    summarizes_policy, text_map, DecisionView, EvaluatedPolicy, EvaluatedPolicyView, PolicyDecision,
    PolicyEvaluationContext, PolicyInfo,
};

verus! {

/// The service IDs a name-to-ID mapping points to.
pub open spec fn mapped_ids(mappings: Map<Seq<char>, Seq<char>>) -> Set<Seq<char>> {
    Set::new(|id: Seq<char>| exists|name: Seq<char>| mappings.contains_key(name) && mappings[name] == id)
}

/// `s2m` with every ID in `ids` assigned to the mortar project `m`.
pub open spec fn assign_all(s2m: Map<Seq<char>, Seq<char>>, ids: Set<Seq<char>>, m: Seq<char>) -> Map<Seq<char>, Seq<char>> {
    Map::new(
        |id: Seq<char>| s2m.contains_key(id) || ids.contains(id),
        |id: Seq<char>| if ids.contains(id) { m } else { s2m[id] },
    )
}

/// The policies that apply to a service: the policy of the service's
/// mortar project, if the service belongs to one that has a policy loaded.
pub open spec fn applicable(
    policies: Map<Seq<char>, EvaluatedPolicyView>,
    s2m: Map<Seq<char>, Seq<char>>,
    service_id: Seq<char>,
) -> Seq<EvaluatedPolicyView> {
    if s2m.contains_key(service_id) && policies.contains_key(s2m[service_id]) {
        seq![policies[s2m[service_id]]]
    } else {
        Seq::empty()
    }
}

/// The decision for a connection from `from` to `to` under the loaded
/// policies: allowed when no policy applies to the source service.
pub open spec fn connection_decision(
    policies: Map<Seq<char>, EvaluatedPolicyView>,
    s2m: Map<Seq<char>, Seq<char>>,
    from: Seq<char>,
    to: Seq<char>,
) -> DecisionView {
    evaluate_policies(applicable(policies, s2m, from), from, to)
}

/// The event bus after evaluating a connection from `from` to `to`:
/// unchanged when no policy applies to `from`; otherwise the events of the
/// evaluation have been published on it.
pub open spec fn audit_recorded(
    before: EventBus,
    after: EventBus,
    policies: Map<Seq<char>, EvaluatedPolicyView>,
    s2m: Map<Seq<char>, Seq<char>>,
    from: Seq<char>,
    to: Seq<char>,
) -> bool {
    if applicable(policies, s2m, from).len() == 0 {
        after == before
    } else {
        evaluation_published(before, after, from, to, Some(s2m[from]), connection_decision(policies, s2m, from, to))
    }
}

/// Manages policies for mortar projects.
pub struct PolicyManager {
    /// Policy evaluation engine.
    engine: PolicyEngine,
    /// Loaded policies indexed by mortar ID.
    policies: KeyedList<EvaluatedPolicy>,
    /// Mapping from service IDs to mortar IDs.
    service_to_mortar: KeyedList<String>,
}

impl PolicyManager {
    /// The loaded policies by mortar ID.
    pub closed spec fn policies_view(&self) -> Map<Seq<char>, EvaluatedPolicyView> {
        self.policies@.map_values(|p: EvaluatedPolicy| p@)
    }

    /// The mortar project of each service.
    pub closed spec fn s2m_view(&self) -> Map<Seq<char>, Seq<char>> {
        text_map(self.service_to_mortar@)
    }

    /// The event bus the evaluations are published on.
    pub closed spec fn bus(&self) -> EventBus {
        self.engine.bus()
    }

    /// The tables are well formed and each policy is stored under its own
    /// mortar ID.
    pub closed spec fn wf(&self) -> bool {
        &&& self.policies.wf()
        &&& self.service_to_mortar.wf()
        &&& forall|k: Seq<char>| #[trigger] self.policies@.contains_key(k) ==>
                self.policies@[k].wf() && self.policies@[k]@.mortar_id == k
    }

    /// Creates a new policy manager with no policies, publishing the audit
    /// events of its evaluations on `event_bus`.
    pub fn new(event_bus: EventBus) -> (r: Self)
        ensures
            r.wf(),
            r.policies_view() == Map::<Seq<char>, EvaluatedPolicyView>::empty(),
            r.s2m_view() == Map::<Seq<char>, Seq<char>>::empty(),
            r.bus() == event_bus,
    {
        let r = PolicyManager {
            engine: PolicyEngine::new(event_bus),
            policies: KeyedList::new(),
            service_to_mortar: KeyedList::new(),
        };
        assert(r.policies_view() =~= Map::<Seq<char>, EvaluatedPolicyView>::empty());
        assert(r.s2m_view() =~= Map::<Seq<char>, Seq<char>>::empty());
        r
    }

    /// The event bus the evaluations are published on.
    pub fn event_bus(&self) -> (r: &EventBus)
        ensures
            *r == self.bus(),
    {
        self.engine.event_bus()
    }

    /// Loads a policy for a mortar project.
    ///
    /// The service mappings map service names (as used in the mortar file)
    /// to service IDs (as used internally by the daemon). Every mapped
    /// service is assigned to the project.
    pub fn load_policies(&mut self, mortar_id: &str, policy: Policy, service_mappings: KeyedList<String>)
        requires
            old(self).wf(),
            service_mappings.wf(),
        ensures
            final(self).wf(),
            final(self).policies_view().dom() == old(self).policies_view().dom().insert(mortar_id@),
            forall|k: Seq<char>| k != mortar_id@ && #[trigger] old(self).policies_view().contains_key(k) ==>
                final(self).policies_view()[k] == old(self).policies_view()[k],
            final(self).policies_view()[mortar_id@].mortar_id == mortar_id@,
            final(self).policies_view()[mortar_id@].policy == policy@,
            final(self).policies_view()[mortar_id@].service_mappings == text_map(service_mappings@),
            final(self).s2m_view() == assign_all(old(self).s2m_view(), mapped_ids(text_map(service_mappings@)), mortar_id@),
            final(self).bus() == old(self).bus(),
    {
        let evaluated = EvaluatedPolicy::new(mortar_id, policy, service_mappings);
        let ghost ids = mapped_ids(evaluated@.service_mappings);
        let ghost old_s2m = self.s2m_view();
        let n = evaluated.service_mappings.len();
        let mut i: usize = 0;
        proof { evaluated.service_mappings.lemma_view(); }
        while i < n
            invariant
                evaluated.wf(),
                evaluated@.mortar_id == mortar_id@,
                n == evaluated.service_mappings.size(),
                i <= n,
                self.service_to_mortar.wf(),
                self.policies == old(self).policies,
                self.engine == old(self).engine,
                ids == mapped_ids(evaluated@.service_mappings),
                self.s2m_view() == assign_all(old_s2m, Set::new(|id: Seq<char>| exists|j: int| 0 <= j < i && evaluated.service_mappings.vals()[j]@ == id), mortar_id@),
            decreases n - i,
        {
            proof { evaluated.service_mappings.lemma_view(); }
            let id = evaluated.service_mappings.value_at(i).clone();
            let ghost before = self.s2m_view();
            let ghost id_text = id@;
            self.service_to_mortar.insert(id, mortar_id.to_owned());
            proof {
                assert(self.s2m_view() =~= before.insert(id_text, mortar_id@));
                let done_before = Set::new(|x: Seq<char>| exists|j: int| 0 <= j < i && evaluated.service_mappings.vals()[j]@ == x);
                let done_after = Set::new(|x: Seq<char>| exists|j: int| 0 <= j < i + 1 && evaluated.service_mappings.vals()[j]@ == x);
                assert(done_after =~= done_before.insert(evaluated.service_mappings.vals()[i as int]@));
                assert(self.s2m_view() =~= assign_all(old_s2m, done_after, mortar_id@));
            }
            i = i + 1;
        }
        proof {
            evaluated.service_mappings.lemma_view();
            let done = Set::new(|x: Seq<char>| exists|j: int| 0 <= j < n && evaluated.service_mappings.vals()[j]@ == x);
            assert forall|x: Seq<char>| done.contains(x) <==> ids.contains(x) by {
                if done.contains(x) {
                    let j = choose|j: int| 0 <= j < n && evaluated.service_mappings.vals()[j]@ == x;
                    let name = evaluated.service_mappings.keys()[j];
                    assert(evaluated.service_mappings@.contains_key(name));
                    assert(evaluated@.service_mappings.contains_key(name) && evaluated@.service_mappings[name] == x);
                }
                if ids.contains(x) {
                    let name = choose|name: Seq<char>| evaluated@.service_mappings.contains_key(name) && evaluated@.service_mappings[name] == x;
                    assert(evaluated.service_mappings.keys().contains(name));
                    let j = choose|j: int| 0 <= j < evaluated.service_mappings.keys().len() && evaluated.service_mappings.keys()[j] == name;
                    assert(evaluated.service_mappings.vals()[j]@ == x);
                }
            }
            assert(done =~= ids);
        }
        let ghost ev = evaluated@;
        let ghost evaluated_copy = evaluated;
        self.policies.insert(mortar_id.to_owned(), evaluated);
        proof {
            assert(self.policies_view() =~= old(self).policies_view().insert(mortar_id@, ev));
            assert(self.policies@[mortar_id@] == evaluated_copy);
        }
    }

    /// Unloads the policy of a mortar project and forgets the project of the
    /// services it mapped.
    pub fn unload_policies(&mut self, mortar_id: &str)
        requires
            old(self).wf(),
        ensures
            final(self).wf(),
            final(self).policies_view() == old(self).policies_view().remove(mortar_id@),
            final(self).s2m_view() == if old(self).policies_view().contains_key(mortar_id@) {
                old(self).s2m_view().remove_keys(mapped_ids(old(self).policies_view()[mortar_id@].service_mappings))
            } else {
                old(self).s2m_view()
            },
            final(self).bus() == old(self).bus(),
    {
        let removed = self.policies.remove(mortar_id);
        proof {
            assert(self.policies_view() =~= old(self).policies_view().remove(mortar_id@));
            if removed is Some {
                assert(removed->0 == old(self).policies@[mortar_id@]);
            }
        }
        let ghost pol_after = self.policies;
        if let Some(policy) = removed {
            let ghost ids = mapped_ids(policy@.service_mappings);
            let ghost old_s2m = self.s2m_view();
            let n = policy.service_mappings.len();
            let mut i: usize = 0;
            proof { policy.service_mappings.lemma_view(); }
            while i < n
                invariant
                    policy.wf(),
                    n == policy.service_mappings.size(),
                    i <= n,
                    self.service_to_mortar.wf(),
                    self.policies == pol_after,
                    self.engine == old(self).engine,
                    self.s2m_view() == old_s2m.remove_keys(Set::new(|id: Seq<char>| exists|j: int| 0 <= j < i && policy.service_mappings.vals()[j]@ == id)),
                decreases n - i,
            {
                proof { policy.service_mappings.lemma_view(); }
                let id = policy.service_mappings.value_at(i);
                let ghost before = self.s2m_view();
                let _ = self.service_to_mortar.remove(id.as_str());
                proof {
                    assert(self.s2m_view() =~= before.remove(id@));
                    let done_before = Set::new(|x: Seq<char>| exists|j: int| 0 <= j < i && policy.service_mappings.vals()[j]@ == x);
                    let done_after = Set::new(|x: Seq<char>| exists|j: int| 0 <= j < i + 1 && policy.service_mappings.vals()[j]@ == x);
                    assert(done_after =~= done_before.insert(policy.service_mappings.vals()[i as int]@));
                    assert(self.s2m_view() =~= old_s2m.remove_keys(done_after));
                }
                i = i + 1;
            }
            proof {
                policy.service_mappings.lemma_view();
                let done = Set::new(|x: Seq<char>| exists|j: int| 0 <= j < n && policy.service_mappings.vals()[j]@ == x);
                assert forall|x: Seq<char>| done.contains(x) <==> ids.contains(x) by {
                    if done.contains(x) {
                        let j = choose|j: int| 0 <= j < n && policy.service_mappings.vals()[j]@ == x;
                        let name = policy.service_mappings.keys()[j];
                        assert(policy.service_mappings@.contains_key(name));
                        assert(policy@.service_mappings.contains_key(name) && policy@.service_mappings[name] == x);
                    }
                    if ids.contains(x) {
                        let name = choose|name: Seq<char>| policy@.service_mappings.contains_key(name) && policy@.service_mappings[name] == x;
                        assert(policy.service_mappings.keys().contains(name));
                        let j = choose|j: int| 0 <= j < policy.service_mappings.keys().len() && policy.service_mappings.keys()[j] == name;
                        assert(policy.service_mappings.vals()[j]@ == x);
                    }
                }
                assert(done =~= ids);
            }
        }
    }

    /// Evaluates a connection request against the policy of the source
    /// service's mortar project. With no applicable policy the connection is
    /// allowed and nothing is published; otherwise the engine evaluates it
    /// and publishes the audit events of the evaluation.
    pub fn evaluate_connection(&mut self, from_service: &str, to_target: &str) -> (r: PolicyDecision)
        requires
            old(self).wf(),
        ensures
            final(self).wf(),
            final(self).policies_view() == old(self).policies_view(),
            final(self).s2m_view() == old(self).s2m_view(),
            r@ == connection_decision(old(self).policies_view(), old(self).s2m_view(), from_service@, to_target@),
            audit_recorded(
                old(self).bus(),
                final(self).bus(),
                old(self).policies_view(),
                old(self).s2m_view(),
                from_service@,
                to_target@,
            ),
    {
        let ghost app = applicable(self.policies_view(), self.s2m_view(), from_service@);
        let mortar_id = self.get_mortar_id(from_service);
        let mut ctx = PolicyEvaluationContext::new(from_service, to_target);
        if let Some(mid) = &mortar_id {
            ctx = ctx.with_mortar_id(mid.as_str());
        }
        let policies = self.get_applicable_policies(from_service);
        if policies.len() == 0 {
            assert(app.len() == 0);
            assert(evaluate_policies(app, from_service@, to_target@) == DecisionView::Allow);
            return PolicyDecision::Allow;
        }
        proof {
            assert(crate::policy::engine::policy_views(policies@) =~= app);
        }
        self.engine.evaluate(&ctx, policies.as_slice())
    }

    /// Gets the policies applicable to a service: only the policy of the
    /// service's mortar project applies.
    fn get_applicable_policies(&self, service_id: &str) -> (r: Vec<EvaluatedPolicy>)
        requires
            self.wf(),
        ensures
            crate::policy::engine::policy_views(r@) == applicable(self.policies_view(), self.s2m_view(), service_id@),
            forall|i: int| 0 <= i < r@.len() ==> #[trigger] r@[i].wf(),
    {
        let mut out: Vec<EvaluatedPolicy> = Vec::new();
        match self.service_to_mortar.get(service_id) {
            Some(mortar_id) => {
                match self.policies.get(mortar_id.as_str()) {
                    Some(p) => {
                        out.push(p.duplicate());
                        assert(crate::policy::engine::policy_views(out@) =~= applicable(self.policies_view(), self.s2m_view(), service_id@));
                    }
                    None => {
                        assert(crate::policy::engine::policy_views(out@) =~= applicable(self.policies_view(), self.s2m_view(), service_id@));
                    }
                }
            }
            None => {
                assert(crate::policy::engine::policy_views(out@) =~= applicable(self.policies_view(), self.s2m_view(), service_id@));
            }
        }
        out
    }

    /// Gets a copy of the policy of a mortar project.
    pub fn get_policy(&self, mortar_id: &str) -> (r: Option<EvaluatedPolicy>)
        requires
            self.wf(),
        ensures
            r is Some <==> self.policies_view().contains_key(mortar_id@),
            r matches Some(p) ==> p.wf() && p@ == self.policies_view()[mortar_id@],
    {
        match self.policies.get(mortar_id) {
            Some(p) => Some(p.duplicate()),
            None => None,
        }
    }

    /// Lists all loaded policies, one summary per mortar project.
    pub fn list_policies(&self) -> (r: Vec<PolicyInfo>)
        requires
            self.wf(),
        ensures
            r@.len() == self.policies_view().len(),
            forall|i: int| 0 <= i < r@.len() ==> self.policies_view().contains_key(#[trigger] r@[i].mortar_id@)
                && summarizes_policy(r@[i], self.policies_view()[r@[i].mortar_id@]),
            forall|k: Seq<char>| #[trigger] self.policies_view().contains_key(k)
                ==> exists|i: int| 0 <= i < r@.len() && #[trigger] r@[i].mortar_id@ == k,
    {
        let mut out: Vec<PolicyInfo> = Vec::new();
        let n = self.policies.len();
        let mut i: usize = 0;
        proof {
            self.policies.lemma_view();
            assert(self.policies_view().dom() =~= self.policies@.dom());
        }
        while i < n
            invariant
                self.wf(),
                n == self.policies.size(),
                n == self.policies_view().len(),
                i <= n,
                out@.len() == i,
                forall|j: int| 0 <= j < i ==> (#[trigger] out@[j]).mortar_id@ == self.policies.keys()[j]
                    && summarizes_policy(out@[j], self.policies_view()[self.policies.keys()[j]]),
            decreases n - i,
        {
            proof { self.policies.lemma_view(); }
            let k = self.policies.key_at(i);
            let p = self.policies.value_at(i);
            proof {
                assert(self.policies@.contains_key(k@));
                assert(self.policies@[k@] == *p);
            }
            out.push(PolicyInfo::from_evaluated(p));
            i = i + 1;
        }
        proof {
            self.policies.lemma_view();
            assert forall|k: Seq<char>| #[trigger] self.policies_view().contains_key(k)
                implies exists|i: int| 0 <= i < out@.len() && #[trigger] out@[i].mortar_id@ == k by {
                assert(self.policies@.contains_key(k));
                let j = choose|j: int| 0 <= j < self.policies.keys().len() && self.policies.keys()[j] == k;
                assert(out@[j].mortar_id@ == k);
            }
            assert forall|i: int| 0 <= i < out@.len() implies self.policies_view().contains_key(#[trigger] out@[i].mortar_id@)
                && summarizes_policy(out@[i], self.policies_view()[out@[i].mortar_id@]) by {
                assert(self.policies@.contains_key(self.policies.keys()[i]));
            }
        }
        out
    }

    /// Gets the mortar ID of a service.
    pub fn get_mortar_id(&self, service_id: &str) -> (r: Option<String>)
        requires
            self.wf(),
        ensures
            r is Some <==> self.s2m_view().contains_key(service_id@),
            r matches Some(m) ==> m@ == self.s2m_view()[service_id@],
    {
        match self.service_to_mortar.get(service_id) {
            Some(m) => Some(m.clone()),
            None => None,
        }
    }

    /// Checks if a service has any policies that apply to it.
    pub fn has_policies(&self, service_id: &str) -> (r: bool)
        requires
            self.wf(),
        ensures
            r == (applicable(self.policies_view(), self.s2m_view(), service_id@).len() > 0),
    {
        match self.service_to_mortar.get(service_id) {
            Some(m) => self.policies.contains_key(m.as_str()),
            None => false,
        }
    }
}

/// A service that belongs to no mortar project with loaded policies may
/// connect anywhere.
pub proof fn lemma_unmanaged_service_allowed(
    policies: Map<Seq<char>, EvaluatedPolicyView>,
    s2m: Map<Seq<char>, Seq<char>>,
    from: Seq<char>,
    to: Seq<char>,
)
    requires
        !s2m.contains_key(from) || !policies.contains_key(s2m[from]),
    ensures
        connection_decision(policies, s2m, from, to) == DecisionView::Allow,
{
}

/// After a project's policies are loaded, each of its services is judged
/// by exactly that policy.
pub proof fn lemma_loaded_policy_applies(
    policies: Map<Seq<char>, EvaluatedPolicyView>,
    s2m: Map<Seq<char>, Seq<char>>,
    ids: Set<Seq<char>>,
    mortar_id: Seq<char>,
    from: Seq<char>,
    to: Seq<char>,
)
    requires
        policies.contains_key(mortar_id),
        ids.contains(from),
    ensures
        connection_decision(policies, assign_all(s2m, ids, mortar_id), from, to)
            == evaluate_policies(seq![policies[mortar_id]], from, to),
{
}

/// After a project's policies are unloaded, its services are no longer
/// constrained: every connection they make is allowed.
pub proof fn lemma_unload_frees_services(
    policies: Map<Seq<char>, EvaluatedPolicyView>,
    s2m: Map<Seq<char>, Seq<char>>,
    mortar_id: Seq<char>,
    from: Seq<char>,
    to: Seq<char>,
)
    requires
        policies.contains_key(mortar_id),
        mapped_ids(policies[mortar_id].service_mappings).contains(from),
    ensures
        connection_decision(
            policies.remove(mortar_id),
            s2m.remove_keys(mapped_ids(policies[mortar_id].service_mappings)),
            from,
            to,
        ) == DecisionView::Allow,
{
}

} // verus!
