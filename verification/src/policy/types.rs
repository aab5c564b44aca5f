//! Policy decisions, evaluation context and loaded policies.

use vstd::prelude::*;

use crate::clock::now_millis;
use crate::keyed::KeyedList;
use crate::policy::model::{names_view, opt_text, rule_count, Policy, PolicyView};

verus! {

/// Result of evaluating a policy against a connection request.
#[derive(Debug)]
pub enum PolicyDecision {
    /// Connection is allowed.
    Allow,
    /// Connection is denied by policy.
    Deny {
        /// Description of the rule that caused the denial.
        rule_description: String,
        /// Reason for the denial.
        reason: String,
    },
    /// Connection is allowed but a warning is logged.
    Warn {
        /// Description of the rule that triggered the warning.
        rule_description: String,
        /// Reason for the warning.
        reason: String,
    },
}

/// Abstract value of a [`PolicyDecision`].
pub enum DecisionView {
    Allow,
    Deny { rule_description: Seq<char>, reason: Seq<char> },
    Warn { rule_description: Seq<char>, reason: Seq<char> },
}

impl View for PolicyDecision {
    type V = DecisionView;

    open spec fn view(&self) -> DecisionView {
        match self {
            PolicyDecision::Allow => DecisionView::Allow,
            PolicyDecision::Deny { rule_description, reason } => DecisionView::Deny {
                rule_description: rule_description@,
                reason: reason@,
            },
            PolicyDecision::Warn { rule_description, reason } => DecisionView::Warn {
                rule_description: rule_description@,
                reason: reason@,
            },
        }
    }
}

impl DecisionView {
    /// The connection may proceed (allowed, possibly with a warning).
    pub open spec fn allows(self) -> bool {
        !(self is Deny)
    }
}

impl PolicyDecision {
    /// Creates a new deny decision.
    pub fn deny(rule_description: &str, reason: &str) -> (r: Self)
        ensures
            r@ == (DecisionView::Deny { rule_description: rule_description@, reason: reason@ }),
    {
        PolicyDecision::Deny { rule_description: rule_description.to_owned(), reason: reason.to_owned() }
    }

    /// Creates a new warn decision.
    pub fn warn(rule_description: &str, reason: &str) -> (r: Self)
        ensures
            r@ == (DecisionView::Warn { rule_description: rule_description@, reason: reason@ }),
    {
        PolicyDecision::Warn { rule_description: rule_description.to_owned(), reason: reason.to_owned() }
    }

    /// Returns true if this decision allows the connection.
    pub fn is_allowed(&self) -> (r: bool)
        ensures
            r == (self is Allow || self is Warn),
            r == self@.allows(),
    {
        match self {
            PolicyDecision::Allow => true,
            PolicyDecision::Warn { .. } => true,
            PolicyDecision::Deny { .. } => false,
        }
    }

    /// Returns true if this decision denies the connection.
    pub fn is_denied(&self) -> (r: bool)
        ensures
            r == self is Deny,
    {
        match self {
            PolicyDecision::Deny { .. } => true,
            _ => false,
        }
    }

    /// Returns the decision type as a string.
    pub fn decision_type(&self) -> (r: &'static str)
        ensures
            r@ == decision_type_text(self@),
    {
        match self {
            PolicyDecision::Allow => "allow",
            PolicyDecision::Deny { .. } => "deny",
            PolicyDecision::Warn { .. } => "warn",
        }
    }

    /// Returns the rule description if this is a deny or warn decision.
    pub fn rule_description(&self) -> (r: Option<&str>)
        ensures
            match self@ {
                DecisionView::Allow => r is None,
                DecisionView::Deny { rule_description, .. } => r matches Some(s) && s@ == rule_description,
                DecisionView::Warn { rule_description, .. } => r matches Some(s) && s@ == rule_description,
            },
    {
        match self {
            PolicyDecision::Allow => None,
            PolicyDecision::Deny { rule_description, .. } => Some(rule_description.as_str()),
            PolicyDecision::Warn { rule_description, .. } => Some(rule_description.as_str()),
        }
    }

    /// Returns the reason if this is a deny or warn decision.
    pub fn reason(&self) -> (r: Option<&str>)
        ensures
            match self@ {
                DecisionView::Allow => r is None,
                DecisionView::Deny { reason, .. } => r matches Some(s) && s@ == reason,
                DecisionView::Warn { reason, .. } => r matches Some(s) && s@ == reason,
            },
    {
        match self {
            PolicyDecision::Allow => None,
            PolicyDecision::Deny { reason, .. } => Some(reason.as_str()),
            PolicyDecision::Warn { reason, .. } => Some(reason.as_str()),
        }
    }
}

/// The name of a decision's kind: "allow", "deny" or "warn".
pub open spec fn decision_type_text(d: DecisionView) -> Seq<char> {
    match d {
        DecisionView::Allow => "allow"@,
        DecisionView::Deny { .. } => "deny"@,
        DecisionView::Warn { .. } => "warn"@,
    }
}

/// Context for policy evaluation: who connects to what.
#[derive(Debug)]
pub struct PolicyEvaluationContext {
    /// Service ID initiating the connection.
    pub from_service: String,
    /// Target of the connection (service name, URL, or address).
    pub to_target: String,
    /// Mortar project ID the source service belongs to (if any).
    pub mortar_id: Option<String>,
    /// Time of the evaluation, in milliseconds since the Unix epoch.
    pub timestamp: i64,
}

impl PolicyEvaluationContext {
    /// Creates a new evaluation context stamped with the current time.
    pub fn new(from_service: &str, to_target: &str) -> (r: Self)
        ensures
            r.from_service@ == from_service@,
            r.to_target@ == to_target@,
            r.mortar_id is None,
    {
        PolicyEvaluationContext {
            from_service: from_service.to_owned(),
            to_target: to_target.to_owned(),
            mortar_id: None,
            timestamp: now_millis(),
        }
    }

    /// Sets the mortar project ID.
    pub fn with_mortar_id(self, mortar_id: &str) -> (r: Self)
        ensures
            r.from_service == self.from_service,
            r.to_target == self.to_target,
            r.timestamp == self.timestamp,
            r.mortar_id matches Some(m) && m@ == mortar_id@,
    {
        PolicyEvaluationContext { mortar_id: Some(mortar_id.to_owned()), ..self }
    }
}

/// The texts stored in a table of strings.
pub open spec fn text_map(m: Map<Seq<char>, String>) -> Map<Seq<char>, Seq<char>> {
    m.map_values(|s: String| s@)
}

/// `id_to_name` reverses `names`: its keys are exactly the values of
/// `names`, and each ID maps back to a name that maps to that ID.
pub open spec fn reverses(names: Map<Seq<char>, Seq<char>>, id_to_name: Map<Seq<char>, Seq<char>>) -> bool {
    &&& forall|id: Seq<char>| #[trigger] id_to_name.contains_key(id) ==>
            names.contains_key(id_to_name[id]) && names[id_to_name[id]] == id
    &&& forall|name: Seq<char>| #[trigger] names.contains_key(name) ==>
            id_to_name.contains_key(names[name])
}

/// A policy loaded from a mortar file with service mappings.
#[derive(Debug)]
pub struct EvaluatedPolicy {
    /// Mortar project ID.
    pub mortar_id: String,
    /// The policy from the mortar file.
    pub policy: Policy,
    /// Mapping from service names to service IDs.
    pub service_mappings: KeyedList<String>,
    /// Reverse mapping from service IDs to service names.
    pub id_to_name: KeyedList<String>,
}

/// Abstract value of an [`EvaluatedPolicy`].
pub struct EvaluatedPolicyView {
    pub mortar_id: Seq<char>,
    pub policy: PolicyView,
    pub service_mappings: Map<Seq<char>, Seq<char>>,
    pub id_to_name: Map<Seq<char>, Seq<char>>,
}

impl View for EvaluatedPolicy {
    type V = EvaluatedPolicyView;

    open spec fn view(&self) -> EvaluatedPolicyView {
        EvaluatedPolicyView {
            mortar_id: self.mortar_id@,
            policy: self.policy@,
            service_mappings: text_map(self.service_mappings@),
            id_to_name: text_map(self.id_to_name@),
        }
    }
}

impl EvaluatedPolicy {
    /// Both tables are well formed and the reverse table reverses the mappings.
    pub open spec fn wf(&self) -> bool {
        &&& self.service_mappings.wf()
        &&& self.id_to_name.wf()
        &&& reverses(self@.service_mappings, self@.id_to_name)
    }

    /// Creates a new evaluated policy, building the reverse mapping.
    pub fn new(mortar_id: &str, policy: Policy, service_mappings: KeyedList<String>) -> (r: Self)
        requires
            service_mappings.wf(),
        ensures
            r.wf(),
            r@.mortar_id == mortar_id@,
            r@.policy == policy@,
            r@.service_mappings == text_map(service_mappings@),
    {
        let mut id_to_name: KeyedList<String> = KeyedList::new();
        let n = service_mappings.len();
        let mut i: usize = 0;
        proof { service_mappings.lemma_view(); }
        while i < n
            invariant
                service_mappings.wf(),
                n == service_mappings.size(),
                i <= n,
                id_to_name.wf(),
                forall|id: Seq<char>| #[trigger] id_to_name@.contains_key(id) ==>
                    service_mappings@.contains_key(id_to_name@[id]@)
                    && service_mappings@[id_to_name@[id]@]@ == id,
                forall|j: int| 0 <= j < i ==>
                    id_to_name@.contains_key(#[trigger] service_mappings.vals()[j]@),
                forall|id: Seq<char>| #[trigger] id_to_name@.contains_key(id) ==>
                    exists|j: int| 0 <= j < i && service_mappings.vals()[j]@ == id,
            decreases n - i,
        {
            proof { service_mappings.lemma_view(); }
            let name = service_mappings.key_at(i).clone();
            let id = service_mappings.value_at(i).clone();
            let ghost before = id_to_name@;
            id_to_name.insert(id, name);
            proof {
                assert forall|idk: Seq<char>| #[trigger] id_to_name@.contains_key(idk) implies
                    exists|j: int| 0 <= j < i + 1 && service_mappings.vals()[j]@ == idk by {
                    if idk != service_mappings.vals()[i as int]@ {
                        assert(before.contains_key(idk));
                    }
                }
                assert forall|j: int| 0 <= j < i + 1 implies
                    id_to_name@.contains_key(#[trigger] service_mappings.vals()[j]@) by {
                    if j < i {
                        assert(before.contains_key(service_mappings.vals()[j]@));
                    }
                }
            }
            i = i + 1;
        }
        let r = EvaluatedPolicy { mortar_id: mortar_id.to_owned(), policy, service_mappings, id_to_name };
        proof {
            r.service_mappings.lemma_view();
            assert forall|name: Seq<char>| #[trigger] r@.service_mappings.contains_key(name) implies
                r@.id_to_name.contains_key(r@.service_mappings[name]) by {
                assert(r.service_mappings.keys().contains(name));
                let j = choose|j: int| 0 <= j < r.service_mappings.keys().len() && r.service_mappings.keys()[j] == name;
                assert(r.service_mappings@[r.service_mappings.keys()[j]] == r.service_mappings.vals()[j]);
                assert(id_to_name@.contains_key(r.service_mappings.vals()[j]@));
            }
            assert forall|id: Seq<char>| #[trigger] r@.id_to_name.contains_key(id) implies
                r@.service_mappings.contains_key(r@.id_to_name[id]) && r@.service_mappings[r@.id_to_name[id]] == id by {
                assert(id_to_name@.contains_key(id));
            }
        }
        r
    }

    /// A copy with the same abstract value.
    pub fn duplicate(&self) -> (r: Self)
        requires
            self.wf(),
        ensures
            r.wf(),
            r@ == self@,
    {
        EvaluatedPolicy {
            mortar_id: self.mortar_id.clone(),
            policy: self.policy.duplicate(),
            service_mappings: self.service_mappings.duplicate(),
            id_to_name: self.id_to_name.duplicate(),
        }
    }

    /// Gets the service name for a given service ID.
    pub fn service_name(&self, service_id: &str) -> (r: Option<&str>)
        requires
            self.wf(),
        ensures
            r is Some <==> self@.id_to_name.contains_key(service_id@),
            r matches Some(s) ==> s@ == self@.id_to_name[service_id@],
    {
        match self.id_to_name.get(service_id) {
            Some(s) => Some(s.as_str()),
            None => None,
        }
    }

    /// Gets the service ID for a given service name.
    pub fn service_id(&self, service_name: &str) -> (r: Option<&str>)
        requires
            self.wf(),
        ensures
            r is Some <==> self@.service_mappings.contains_key(service_name@),
            r matches Some(s) ==> s@ == self@.service_mappings[service_name@],
    {
        match self.service_mappings.get(service_name) {
            Some(s) => Some(s.as_str()),
            None => None,
        }
    }

    /// Checks if a service ID belongs to this mortar project.
    pub fn contains_service(&self, service_id: &str) -> (r: bool)
        requires
            self.wf(),
        ensures
            r == self@.id_to_name.contains_key(service_id@),
    {
        self.id_to_name.contains_key(service_id)
    }
}

/// API response for a policy.
#[derive(Debug)]
pub struct PolicyInfo {
    /// Mortar project ID.
    pub mortar_id: String,
    /// Policy description.
    pub description: Option<String>,
    /// Number of deny rules.
    pub deny_rules: usize,
    /// Number of require rules.
    pub require_rules: usize,
    /// Number of warn rules.
    pub warn_rules: usize,
    /// Services covered by this policy.
    pub services: Vec<String>,
}

/// `info` summarises the loaded policy `p`: its project, description,
/// rule counts, and each covered service name once.
pub open spec fn summarizes_policy(info: PolicyInfo, p: EvaluatedPolicyView) -> bool {
    &&& info.mortar_id@ == p.mortar_id
    &&& opt_text(info.description) == p.policy.description
    &&& info.deny_rules == rule_count(p.policy.deny)
    &&& info.require_rules == rule_count(p.policy.require)
    &&& info.warn_rules == rule_count(p.policy.warn)
    &&& names_view(info.services@).to_set() == p.service_mappings.dom()
    &&& names_view(info.services@).no_duplicates()
}

impl PolicyInfo {
    /// Summarises a loaded policy: its project, description, rule counts and
    /// the names of the services it covers.
    pub fn from_evaluated(ep: &EvaluatedPolicy) -> (r: Self)
        requires
            ep.wf(),
        ensures
            r.mortar_id@ == ep@.mortar_id,
            opt_text(r.description) == ep@.policy.description,
            r.deny_rules == rule_count(ep@.policy.deny),
            r.require_rules == rule_count(ep@.policy.require),
            r.warn_rules == rule_count(ep@.policy.warn),
            names_view(r.services@) == ep.service_mappings.keys(),
            names_view(r.services@).to_set() == ep@.service_mappings.dom(),
            summarizes_policy(r, ep@),
    {
        let deny_rules = match &ep.policy.deny { Some(v) => v.len(), None => 0 };
        let require_rules = match &ep.policy.require { Some(v) => v.len(), None => 0 };
        let warn_rules = match &ep.policy.warn { Some(v) => v.len(), None => 0 };
        let mut services: Vec<String> = Vec::new();
        let n = ep.service_mappings.len();
        let mut i: usize = 0;
        proof { ep.service_mappings.lemma_view(); }
        while i < n
            invariant
                ep.wf(),
                n == ep.service_mappings.size(),
                i <= n,
                services@.len() == i,
                forall|j: int| 0 <= j < i ==> #[trigger] services@[j]@ == ep.service_mappings.keys()[j],
            decreases n - i,
        {
            proof { ep.service_mappings.lemma_view(); }
            services.push(ep.service_mappings.key_at(i).clone());
            i = i + 1;
        }
        proof {
            ep.service_mappings.lemma_view();
            assert(names_view(services@) =~= ep.service_mappings.keys());
            assert(ep@.service_mappings.dom() =~= ep.service_mappings@.dom());
        }
        PolicyInfo {
            mortar_id: ep.mortar_id.clone(),
            description: crate::policy::model::clone_opt_string(&ep.policy.description),
            deny_rules,
            require_rules,
            warn_rules,
            services,
        }
    }
}

} // verus!
