//! Policy evaluation engine.
//!
//! Evaluates the loaded policies against a connection request: deny rules
//! first, then require rules, then warn rules; if no rule matches, the
//! connection is allowed.

use vstd::prelude::*;

use crate::events::bus::{event_views, history_after_all, kept, EventBus};
use crate::events::types::{Event, EventData, EventDataView, EventType, EventView};
use crate::policy::model::{
    deny_views, names_view, warn_views, DenyRule, DenyRuleView, RequireRule, WarnRule, WarnRuleView,
};
use crate::policy::types::{
    decision_type_text, DecisionView, EvaluatedPolicy, EvaluatedPolicyView, PolicyDecision, PolicyEvaluationContext,
};
use crate::text::{
    decimal, push_decimal, push_str, seq_contains_seq, seq_starts_with, str_contains, str_eq,
    str_has_char, str_starts_with,
};

verus! {

/// A source-list entry names the service: by ID, by its name in the
/// project, or by the wildcard `*`.
pub open spec fn service_entry_matches(entry: Seq<char>, service_id: Seq<char>, p: EvaluatedPolicyView) -> bool {
    ||| entry == service_id
    ||| (p.id_to_name.contains_key(service_id) && entry == p.id_to_name[service_id])
    ||| entry == "*"@
}

/// Some entry of the list names the service.
pub open spec fn in_service_list(list: Seq<Seq<char>>, service_id: Seq<char>, p: EvaluatedPolicyView) -> bool {
    exists|i: int| 0 <= i < list.len() && service_entry_matches(#[trigger] list[i], service_id, p)
}

/// A target-list entry names the target: literally, as a service name whose
/// ID is the target, by the wildcard `*`, or as the ID of the service the
/// target names.
pub open spec fn target_entry_matches(entry: Seq<char>, target: Seq<char>, p: EvaluatedPolicyView) -> bool {
    ||| entry == target
    ||| (p.service_mappings.contains_key(entry) && p.service_mappings[entry] == target)
    ||| entry == "*"@
    ||| (p.service_mappings.contains_key(target) && entry == p.service_mappings[target])
}

/// Some entry of the list names the target.
pub open spec fn in_target_list(list: Seq<Seq<char>>, target: Seq<char>, p: EvaluatedPolicyView) -> bool {
    exists|i: int| 0 <= i < list.len() && target_entry_matches(#[trigger] list[i], target, p)
}

/// A deny rule matches when its sources (if given) include the source, its
/// targets (if given) include the target, and neither is an exception.
pub open spec fn deny_matches(rule: DenyRuleView, from: Seq<char>, to: Seq<char>, p: EvaluatedPolicyView) -> bool {
    &&& match rule.from {
        Some(l) => in_service_list(l, from, p),
        None => true,
    }
    &&& match rule.to {
        Some(l) => in_target_list(l, to, p),
        None => true,
    }
    &&& !match rule.except {
        Some(l) => in_service_list(l, from, p) || in_target_list(l, to, p),
        None => false,
    }
}

/// A target looks like an outside address: a URL, a host with a port, a
/// dotted name, or something starting with "http".
pub open spec fn is_external_target(t: Seq<char>) -> bool {
    ||| seq_contains_seq(t, "://"@)
    ||| t.contains(':')
    ||| t.contains('.')
    ||| seq_starts_with(t, "http"@)
}

/// The target is a service of the project, by ID or by name.
pub open spec fn target_in_mortar(t: Seq<char>, p: EvaluatedPolicyView) -> bool {
    p.id_to_name.contains_key(t) || p.service_mappings.contains_key(t)
}

/// A warn rule matches cross-network connections (to a target outside the
/// project, or to an outside address) that are not exceptions.
pub open spec fn warn_matches(rule: WarnRuleView, to: Seq<char>, p: EvaluatedPolicyView) -> bool {
    &&& rule.cross_network == Some(true)
    &&& (!target_in_mortar(to, p) || is_external_target(to))
    &&& !match rule.except {
        Some(l) => in_target_list(l, to, p),
        None => false,
    }
}

/// Index of the first deny rule at or after `k` that matches.
pub open spec fn first_deny(rules: Seq<DenyRuleView>, k: int, from: Seq<char>, to: Seq<char>, p: EvaluatedPolicyView) -> Option<int>
    decreases rules.len() - k,
{
    if k < 0 || k >= rules.len() {
        None
    } else if deny_matches(rules[k], from, to, p) {
        Some(k)
    } else {
        first_deny(rules, k + 1, from, to, p)
    }
}

/// Index of the first warn rule at or after `k` that matches.
pub open spec fn first_warn(rules: Seq<WarnRuleView>, k: int, to: Seq<char>, p: EvaluatedPolicyView) -> Option<int>
    decreases rules.len() - k,
{
    if k < 0 || k >= rules.len() {
        None
    } else if warn_matches(rules[k], to, p) {
        Some(k)
    } else {
        first_warn(rules, k + 1, to, p)
    }
}

/// "<kind> rule <n> in <mortar>", with rules numbered from 1.
pub open spec fn rule_label(kind: Seq<char>, index: int, mortar_id: Seq<char>) -> Seq<char> {
    kind + " rule "@ + decimal((index + 1) as nat) + " in "@ + mortar_id
}

/// The reason a deny rule gives, or "denied by policy".
pub open spec fn deny_reason(rule: DenyRuleView) -> Seq<char> {
    match rule.reason {
        Some(r) => r,
        None => "denied by policy"@,
    }
}

/// The decision one policy reaches on its own, if any of its rules fires.
/// Require rules never fire: TLS, encryption and audit cannot be checked
/// from the connection request alone.
pub open spec fn policy_verdict(p: EvaluatedPolicyView, from: Seq<char>, to: Seq<char>) -> Option<DecisionView> {
    let deny = match p.policy.deny {
        Some(rules) => first_deny(rules, 0, from, to, p),
        None => None,
    };
    let warn = match p.policy.warn {
        Some(rules) => first_warn(rules, 0, to, p),
        None => None,
    };
    if deny is Some {
        Some(DecisionView::Deny {
            rule_description: rule_label("deny"@, deny->0, p.mortar_id),
            reason: deny_reason(p.policy.deny->0[deny->0]),
        })
    } else if warn is Some {
        Some(DecisionView::Warn {
            rule_description: rule_label("warn"@, warn->0, p.mortar_id),
            reason: "cross-network communication detected"@,
        })
    } else {
        None
    }
}

/// The decision for a connection under a list of policies: the first policy
/// whose rules fire decides; if none does, the connection is allowed.
pub open spec fn evaluate_policies(ps: Seq<EvaluatedPolicyView>, from: Seq<char>, to: Seq<char>) -> DecisionView
    decreases ps.len(),
{
    if ps.len() == 0 {
        DecisionView::Allow
    } else {
        match policy_verdict(ps[0], from, to) {
            Some(d) => d,
            None => evaluate_policies(ps.drop_first(), from, to),
        }
    }
}

/// Abstract values of a list of policies.
pub open spec fn policy_views(ps: Seq<EvaluatedPolicy>) -> Seq<EvaluatedPolicyView> {
    ps.map_values(|p: EvaluatedPolicy| p@)
}

/// Policy evaluation engine: evaluates policies against connection
/// requests and publishes the audit events of each evaluation on its event
/// bus.
pub struct PolicyEngine {
    /// Event bus for audit events.
    event_bus: EventBus,
}

/// `after` is the bus `before` after publishing `events` in turn: the
/// history takes them in, subscribers may be dropped but keep their order,
/// and the settings stay.
pub open spec fn published(before: EventBus, after: EventBus, events: Seq<EventView>) -> bool {
    &&& after.history_view() == history_after_all(before.history_view(), events, before.max_history_spec())
    &&& exists|keep: Seq<bool>| keep.len() == before.subscribers().len()
            && after.subscribers() == kept(before.subscribers(), keep)
    &&& after.max_history_spec() == before.max_history_spec()
    &&& after.buffer_size_spec() == before.buffer_size_spec()
}

/// `after` is the bus `before` after publishing the audit events of an
/// evaluation from `from` to `to` with decision `d`.
pub open spec fn evaluation_published(
    before: EventBus,
    after: EventBus,
    from: Seq<char>,
    to: Seq<char>,
    mortar_id: Option<Seq<char>>,
    d: DecisionView,
) -> bool {
    exists|events: Seq<EventView>| audit_events_match(events, from, to, mortar_id, d) && published(before, after, events)
}

/// Builds "<kind> rule <index + 1> in <mortar_id>".
fn make_rule_label(kind: &str, index: usize, mortar_id: &str) -> (r: String)
    requires
        index < usize::MAX,
    ensures
        r@ == rule_label(kind@, index as int, mortar_id@),
{
    let mut s = String::new();
    push_str(&mut s, kind);
    push_str(&mut s, " rule ");
    push_decimal(&mut s, (index + 1) as u64);
    push_str(&mut s, " in ");
    push_str(&mut s, mortar_id);
    assert(s@ =~= rule_label(kind@, index as int, mortar_id@));
    s
}

impl PolicyEngine {
    /// The event bus the engine publishes on.
    pub closed spec fn bus(&self) -> EventBus {
        self.event_bus
    }

    /// Creates a new policy engine publishing on `event_bus`.
    pub fn new(event_bus: EventBus) -> (r: Self)
        ensures
            r.bus() == event_bus,
    {
        PolicyEngine { event_bus }
    }

    /// The event bus the engine publishes on.
    pub fn event_bus(&self) -> (r: &EventBus)
        ensures
            *r == self.bus(),
    {
        &self.event_bus
    }

    /// Evaluates policies against a connection request and publishes the
    /// audit events of the evaluation: a `PolicyEvaluated` event carrying the
    /// decision, then, for a denial, a `PolicyViolation` event.
    ///
    /// Rules are evaluated in this order, policy by policy:
    /// 1. Deny rules - if any match, the connection is denied
    /// 2. Require rules - if any requirements aren't met, connection is denied
    /// 3. Warn rules - if any match, the connection is allowed with a warning
    /// 4. If no rules match, the connection is allowed
    pub fn evaluate(&mut self, ctx: &PolicyEvaluationContext, policies: &[EvaluatedPolicy]) -> (r: PolicyDecision)
        requires
            forall|i: int| 0 <= i < policies@.len() ==> #[trigger] policies@[i].wf(),
        ensures
            r@ == evaluate_policies(policy_views(policies@), ctx.from_service@, ctx.to_target@),
            evaluation_published(
                old(self).bus(),
                final(self).bus(),
                ctx.from_service@,
                ctx.to_target@,
                crate::policy::model::opt_text(ctx.mortar_id),
                r@,
            ),
    {
        let decision = self.decide(ctx, policies);
        let events = self.evaluation_events(ctx, &decision);
        let ghost evs = event_views(events@);
        self.event_bus.publish_all(events);
        proof {
            assert(audit_events_match(
                evs,
                ctx.from_service@,
                ctx.to_target@,
                crate::policy::model::opt_text(ctx.mortar_id),
                decision@,
            ));
            assert(published(old(self).bus(), self.bus(), evs));
        }
        decision
    }

    /// The decision of the policies on a connection request.
    fn decide(&self, ctx: &PolicyEvaluationContext, policies: &[EvaluatedPolicy]) -> (r: PolicyDecision)
        requires
            forall|i: int| 0 <= i < policies@.len() ==> #[trigger] policies@[i].wf(),
        ensures
            r@ == evaluate_policies(policy_views(policies@), ctx.from_service@, ctx.to_target@),
    {
        let ghost from = ctx.from_service@;
        let ghost to = ctx.to_target@;
        let ghost all = policy_views(policies@);
        let mut i: usize = 0;
        assert(all.skip(0) =~= all);
        while i < policies.len()
            invariant
                i <= policies@.len(),
                from == ctx.from_service@,
                to == ctx.to_target@,
                all == policy_views(policies@),
                forall|j: int| 0 <= j < policies@.len() ==> #[trigger] policies@[j].wf(),
                evaluate_policies(all, from, to) == evaluate_policies(all.skip(i as int), from, to),
            decreases policies.len() - i,
        {
            let policy = &policies[i];
            assert(all.len() == policies@.len());
            assert(all[i as int] == policies@[i as int]@);
            assert(all.skip(i as int)[0] == policy@);
            assert(all.skip(i as int).drop_first() =~= all.skip(i + 1));
            assert(all.skip(i as int).len() > 0);
            let verdict = self.evaluate_one(ctx, policy);
            assert(evaluate_policies(all.skip(i as int), from, to) == match policy_verdict(policy@, from, to) {
                Some(d) => d,
                None => evaluate_policies(all.skip(i + 1), from, to),
            });
            if let Some(d) = verdict {
                return d;
            }
            i = i + 1;
        }
        assert(all.skip(i as int).len() == 0);
        PolicyDecision::Allow
    }

    /// The decision one policy reaches on its own, if any.
    fn evaluate_one(&self, ctx: &PolicyEvaluationContext, policy: &EvaluatedPolicy) -> (r: Option<PolicyDecision>)
        requires
            policy.wf(),
        ensures
            match r {
                Some(d) => policy_verdict(policy@, ctx.from_service@, ctx.to_target@) == Some(d@),
                None => policy_verdict(policy@, ctx.from_service@, ctx.to_target@) is None,
            },
    {
        let ghost from = ctx.from_service@;
        let ghost to = ctx.to_target@;
        if let Some(deny_rules) = &policy.policy.deny {
            let ghost rules = deny_views(deny_rules@);
            let mut idx: usize = 0;
            while idx < deny_rules.len()
                invariant
                    policy.wf(),
                    from == ctx.from_service@,
                    to == ctx.to_target@,
                    policy.policy.deny == Some(*deny_rules),
                    rules == deny_views(deny_rules@),
                    idx <= deny_rules.len(),
                    first_deny(rules, 0, from, to, policy@) == first_deny(rules, idx as int, from, to, policy@),
                decreases deny_rules.len() - idx,
            {
                let rule = &deny_rules[idx];
                assert(rules.len() == deny_rules@.len());
                assert(rules[idx as int] == rule@);
                assert(policy@.policy.deny == Some(rules));
                if self.matches_deny_rule(rule, ctx, policy) {
                    assert(first_deny(rules, idx as int, from, to, policy@) == Some(idx as int));
                    let description = make_rule_label("deny", idx, policy.mortar_id.as_str());
                    let reason = match &rule.reason {
                        Some(r) => r.clone(),
                        None => crate::text::owned("denied by policy"),
                    };
                    return Some(PolicyDecision::Deny { rule_description: description, reason });
                }
                assert(first_deny(rules, idx as int, from, to, policy@) == first_deny(rules, idx + 1, from, to, policy@));
                idx = idx + 1;
            }
            assert(first_deny(rules, idx as int, from, to, policy@) is None);
        }
        if let Some(require_rules) = &policy.policy.require {
            let mut idx: usize = 0;
            while idx < require_rules.len()
                invariant
                    policy.wf(),
                    idx <= require_rules.len(),
                decreases require_rules.len() - idx,
            {
                if let Some(reason) = self.check_require_rule(&require_rules[idx], ctx, policy) {
                    let description = make_rule_label("require", idx, policy.mortar_id.as_str());
                    return Some(PolicyDecision::Deny { rule_description: description, reason });
                }
                idx = idx + 1;
            }
        }
        if let Some(warn_rules) = &policy.policy.warn {
            let ghost rules = warn_views(warn_rules@);
            let mut idx: usize = 0;
            while idx < warn_rules.len()
                invariant
                    policy.wf(),
                    from == ctx.from_service@,
                    to == ctx.to_target@,
                    policy.policy.warn == Some(*warn_rules),
                    rules == warn_views(warn_rules@),
                    idx <= warn_rules.len(),
                    first_warn(rules, 0, to, policy@) == first_warn(rules, idx as int, to, policy@),
                    match policy.policy.deny {
                        Some(d) => first_deny(deny_views(d@), 0, from, to, policy@) is None,
                        None => true,
                    },
                decreases warn_rules.len() - idx,
            {
                assert(rules.len() == warn_rules@.len());
                assert(rules[idx as int] == warn_rules@[idx as int]@);
                assert(policy@.policy.warn == Some(rules));
                if let Some(reason) = self.matches_warn_rule(&warn_rules[idx], ctx, policy) {
                    assert(first_warn(rules, idx as int, to, policy@) == Some(idx as int));
                    let description = make_rule_label("warn", idx, policy.mortar_id.as_str());
                    return Some(PolicyDecision::Warn { rule_description: description, reason });
                }
                assert(first_warn(rules, idx as int, to, policy@) == first_warn(rules, idx + 1, to, policy@));
                idx = idx + 1;
            }
        }
        None
    }

    /// Checks if a deny rule matches the connection.
    fn matches_deny_rule(&self, rule: &DenyRule, ctx: &PolicyEvaluationContext, policy: &EvaluatedPolicy) -> (r: bool)
        requires
            policy.wf(),
        ensures
            r == deny_matches(rule@, ctx.from_service@, ctx.to_target@, policy@),
    {
        let from_matches = match &rule.from {
            Some(froms) => self.matches_service_list(froms, ctx.from_service.as_str(), policy),
            None => true,
        };
        if !from_matches {
            return false;
        }
        let to_matches = match &rule.to {
            Some(tos) => self.matches_target_list(tos, ctx.to_target.as_str(), policy),
            None => true,
        };
        if !to_matches {
            return false;
        }
        if let Some(exceptions) = &rule.except {
            if self.matches_service_list(exceptions, ctx.from_service.as_str(), policy) {
                return false;
            }
            if self.matches_target_list(exceptions, ctx.to_target.as_str(), policy) {
                return false;
            }
        }
        true
    }

    /// Checks if a require rule is violated and returns the reason if so.
    ///
    /// TLS and encryption requirements need connection metadata that the
    /// request does not carry, and auditing is always on while policies are
    /// evaluated, so no requirement is reported as violated here.
    fn check_require_rule(&self, rule: &RequireRule, ctx: &PolicyEvaluationContext, policy: &EvaluatedPolicy) -> (r: Option<String>)
        requires
            policy.wf(),
        ensures
            r is None,
    {
        let applies = match &rule.services {
            Some(services) => self.matches_service_list(services, ctx.from_service.as_str(), policy),
            None => true,
        };
        if !applies {
            return None;
        }
        None
    }

    /// Checks if a warn rule matches and returns the warning reason if so.
    fn matches_warn_rule(&self, rule: &WarnRule, ctx: &PolicyEvaluationContext, policy: &EvaluatedPolicy) -> (r: Option<String>)
        requires
            policy.wf(),
        ensures
            r is Some <==> warn_matches(rule@, ctx.to_target@, policy@),
            r matches Some(s) ==> s@ == "cross-network communication detected"@,
    {
        if rule.cross_network == Some(true) {
            let target_in_mortar = self.is_target_in_mortar(ctx.to_target.as_str(), policy);
            let is_external = self.is_external_target(ctx.to_target.as_str());
            if !target_in_mortar || is_external {
                if let Some(exceptions) = &rule.except {
                    if self.matches_target_list(exceptions, ctx.to_target.as_str(), policy) {
                        return None;
                    }
                }
                return Some(crate::text::owned("cross-network communication detected"));
            }
        }
        None
    }

    /// Checks if a service ID matches any entry in the list.
    fn matches_service_list(&self, list: &Vec<String>, service_id: &str, policy: &EvaluatedPolicy) -> (r: bool)
        requires
            policy.wf(),
        ensures
            r == in_service_list(names_view(list@), service_id@, policy@),
    {
        let service_name = policy.service_name(service_id);
        let ghost l = names_view(list@);
        let mut i: usize = 0;
        while i < list.len()
            invariant
                policy.wf(),
                l == names_view(list@),
                i <= list.len(),
                service_name is Some <==> policy@.id_to_name.contains_key(service_id@),
                service_name matches Some(s) ==> s@ == policy@.id_to_name[service_id@],
                forall|j: int| 0 <= j < i ==> !service_entry_matches(#[trigger] l[j], service_id@, policy@),
            decreases list.len() - i,
        {
            let entry = list[i].as_str();
            assert(l[i as int] == entry@);
            if str_eq(entry, service_id) {
                return true;
            }
            if let Some(name) = service_name {
                if str_eq(entry, name) {
                    return true;
                }
            }
            if str_eq(entry, "*") {
                return true;
            }
            i = i + 1;
        }
        false
    }

    /// Checks if a target matches any entry in the list.
    fn matches_target_list(&self, list: &Vec<String>, target: &str, policy: &EvaluatedPolicy) -> (r: bool)
        requires
            policy.wf(),
        ensures
            r == in_target_list(names_view(list@), target@, policy@),
    {
        let ghost l = names_view(list@);
        let mut i: usize = 0;
        while i < list.len()
            invariant
                policy.wf(),
                l == names_view(list@),
                i <= list.len(),
                forall|j: int| 0 <= j < i ==> !target_entry_matches(#[trigger] l[j], target@, policy@),
            decreases list.len() - i,
        {
            let entry = list[i].as_str();
            assert(l[i as int] == entry@);
            if str_eq(entry, target) {
                return true;
            }
            if let Some(target_id) = policy.service_id(entry) {
                if str_eq(target_id, target) {
                    return true;
                }
            }
            if str_eq(entry, "*") {
                return true;
            }
            if let Some(target_id) = policy.service_id(target) {
                if str_eq(entry, target_id) {
                    return true;
                }
            }
            i = i + 1;
        }
        false
    }

    /// Checks if a target is within the same mortar project.
    fn is_target_in_mortar(&self, target: &str, policy: &EvaluatedPolicy) -> (r: bool)
        requires
            policy.wf(),
        ensures
            r == target_in_mortar(target@, policy@),
    {
        if policy.contains_service(target) {
            return true;
        }
        if policy.service_id(target).is_some() {
            return true;
        }
        false
    }

    /// Checks if a target is an external address (not a service).
    fn is_external_target(&self, target: &str) -> (r: bool)
        ensures
            r == is_external_target(target@),
    {
        str_contains(target, "://") || str_has_char(target, ':') || str_has_char(target, '.')
            || str_starts_with(target, "http")
    }
}

/// The rule description of a deny or warn decision.
pub open spec fn decision_rule(d: DecisionView) -> Option<Seq<char>> {
    match d {
        DecisionView::Allow => None,
        DecisionView::Deny { rule_description, .. } => Some(rule_description),
        DecisionView::Warn { rule_description, .. } => Some(rule_description),
    }
}

/// The reason of a deny or warn decision.
pub open spec fn decision_reason(d: DecisionView) -> Option<Seq<char>> {
    match d {
        DecisionView::Allow => None,
        DecisionView::Deny { reason, .. } => Some(reason),
        DecisionView::Warn { reason, .. } => Some(reason),
    }
}

/// The audit events of one evaluation: a `PolicyEvaluated` event carrying
/// the decision, followed, for a denial, by a `PolicyViolation` event.
pub open spec fn audit_events_match(
    events: Seq<EventView>,
    from: Seq<char>,
    to: Seq<char>,
    mortar_id: Option<Seq<char>>,
    d: DecisionView,
) -> bool {
    &&& events.len() == if d is Deny { 2nat } else { 1nat }
    &&& events[0].event_type == EventType::PolicyEvaluated
    &&& events[0].data == (EventDataView::Policy {
        from_service: from,
        to_target: to,
        mortar_id,
        decision: Some(decision_type_text(d)),
        rule_description: decision_rule(d),
        reason: decision_reason(d),
    })
    &&& d is Deny ==> {
        &&& events[1].event_type == EventType::PolicyViolation
        &&& events[1].data == (EventDataView::Policy {
            from_service: from,
            to_target: to,
            mortar_id,
            decision: None,
            rule_description: decision_rule(d),
            reason: decision_reason(d),
        })
    }
}

fn opt_str_to_string(s: Option<&str>) -> (r: Option<String>)
    ensures
        match s {
            Some(t) => r matches Some(u) && u@ == t@,
            None => r is None,
        },
{
    match s {
        Some(t) => Some(t.to_owned()),
        None => None,
    }
}

impl PolicyEngine {
    /// The audit events that record an evaluation: every evaluation is
    /// recorded, and a denial is also recorded as a violation.
    pub fn evaluation_events(&self, ctx: &PolicyEvaluationContext, decision: &PolicyDecision) -> (r: Vec<Event>)
        ensures
            audit_events_match(
                crate::events::bus::event_views(r@),
                ctx.from_service@,
                ctx.to_target@,
                crate::policy::model::opt_text(ctx.mortar_id),
                decision@,
            ),
    {
        let mut out: Vec<Event> = Vec::new();
        let data = EventData::Policy {
            from_service: ctx.from_service.clone(),
            to_target: ctx.to_target.clone(),
            mortar_id: crate::policy::model::clone_opt_string(&ctx.mortar_id),
            decision: Some(crate::text::owned(decision.decision_type())),
            rule_description: opt_str_to_string(decision.rule_description()),
            reason: opt_str_to_string(decision.reason()),
        };
        out.push(Event::new(EventType::PolicyEvaluated, data));
        if decision.is_denied() {
            let violation = EventData::Policy {
                from_service: ctx.from_service.clone(),
                to_target: ctx.to_target.clone(),
                mortar_id: crate::policy::model::clone_opt_string(&ctx.mortar_id),
                decision: None,
                rule_description: opt_str_to_string(decision.rule_description()),
                reason: opt_str_to_string(decision.reason()),
            };
            out.push(Event::new(EventType::PolicyViolation, violation));
        }
        out
    }
}

/// The wildcard `*` in a source list matches every service.
pub proof fn lemma_wildcard_source_matches_all(list: Seq<Seq<char>>, service_id: Seq<char>, p: EvaluatedPolicyView)
    requires
        list.contains("*"@),
    ensures
        in_service_list(list, service_id, p),
{
    let i = choose|i: int| 0 <= i < list.len() && list[i] == "*"@;
    assert(service_entry_matches(list[i], service_id, p));
}

/// A policy whose first deny rule takes its sources as `*`, names the
/// target (or names no targets) and has no exceptions denies a connection
/// to that target from any source whatever, by that rule and with its
/// reason.
pub proof fn lemma_wildcard_deny_denies_every_source(p: EvaluatedPolicyView, from: Seq<char>, to: Seq<char>)
    requires
        p.policy.deny matches Some(rules) && rules.len() > 0 && {
            let rule = rules[0];
            &&& rule.from == Some(seq!["*"@])
            &&& rule.except is None
            &&& match rule.to {
                Some(l) => in_target_list(l, to, p),
                None => true,
            }
        },
    ensures
        evaluate_policies(seq![p], from, to) == (DecisionView::Deny {
            rule_description: rule_label("deny"@, 0, p.mortar_id),
            reason: deny_reason(p.policy.deny->0[0]),
        }),
{
    let rules = p.policy.deny->0;
    assert(seq!["*"@][0] == "*"@);
    lemma_wildcard_source_matches_all(seq!["*"@], from, p);
    assert(deny_matches(rules[0], from, to, p));
    assert(first_deny(rules, 0, from, to, p) == Some(0int));
    assert(seq![p][0] == p);
}

/// A deny rule at or after `k` that matches makes the search find one, no
/// later than that rule.
proof fn lemma_first_deny_finds(rules: Seq<DenyRuleView>, k: int, j: int, from: Seq<char>, to: Seq<char>, p: EvaluatedPolicyView)
    requires
        0 <= k <= j < rules.len(),
        deny_matches(rules[j], from, to, p),
    ensures
        first_deny(rules, k, from, to, p) matches Some(x) && k <= x <= j,
    decreases j - k,
{
    if !deny_matches(rules[k], from, to, p) {
        lemma_first_deny_finds(rules, k + 1, j, from, to, p);
    }
}

/// With no policies, every connection is allowed.
pub proof fn lemma_no_policies_allow(from: Seq<char>, to: Seq<char>)
    ensures
        evaluate_policies(Seq::empty(), from, to) == DecisionView::Allow,
{
}

/// A connection is allowed exactly when no rule of any policy fires.
pub proof fn lemma_allow_iff_no_rule_fires(ps: Seq<EvaluatedPolicyView>, from: Seq<char>, to: Seq<char>)
    ensures
        (evaluate_policies(ps, from, to) == DecisionView::Allow) <==>
            (forall|i: int| 0 <= i < ps.len() ==> #[trigger] policy_verdict(ps[i], from, to) is None),
    decreases ps.len(),
{
    if ps.len() > 0 {
        lemma_allow_iff_no_rule_fires(ps.drop_first(), from, to);
        assert forall|i: int| 0 <= i < ps.drop_first().len() implies
            #[trigger] ps.drop_first()[i] == ps[i + 1] by {}
        if (forall|i: int| 0 <= i < ps.len() ==> #[trigger] policy_verdict(ps[i], from, to) is None) {
            assert(policy_verdict(ps[0], from, to) is None);
            assert forall|i: int| 0 <= i < ps.drop_first().len() implies
                #[trigger] policy_verdict(ps.drop_first()[i], from, to) is None by {
                assert(policy_verdict(ps[i + 1], from, to) is None);
            }
        }
        if evaluate_policies(ps, from, to) == DecisionView::Allow {
            assert(policy_verdict(ps[0], from, to) is None);
            assert forall|i: int| 0 <= i < ps.len() implies #[trigger] policy_verdict(ps[i], from, to) is None by {
                if i > 0 {
                    assert(policy_verdict(ps.drop_first()[i - 1], from, to) is None);
                }
            }
        }
    }
}

/// The first policy whose rules fire decides the connection, whatever the
/// later policies say.
pub proof fn lemma_first_firing_policy_decides(ps: Seq<EvaluatedPolicyView>, i: int, from: Seq<char>, to: Seq<char>)
    requires
        0 <= i < ps.len(),
        forall|j: int| 0 <= j < i ==> #[trigger] policy_verdict(ps[j], from, to) is None,
        policy_verdict(ps[i], from, to) is Some,
    ensures
        evaluate_policies(ps, from, to) == policy_verdict(ps[i], from, to)->0,
    decreases i,
{
    if i > 0 {
        assert(policy_verdict(ps[0], from, to) is None);
        let rest = ps.drop_first();
        assert forall|j: int| 0 <= j < i - 1 implies #[trigger] policy_verdict(rest[j], from, to) is None by {
            assert(rest[j] == ps[j + 1]);
        }
        assert(rest[i - 1] == ps[i]);
        lemma_first_firing_policy_decides(rest, i - 1, from, to);
    }
}

/// Deny rules come first: in a policy where some deny rule matches, the
/// policy denies, whatever its warn rules say, with the first matching deny
/// rule's label and reason.
pub proof fn lemma_deny_precedes_warn(p: EvaluatedPolicyView, k: int, from: Seq<char>, to: Seq<char>)
    requires
        p.policy.deny is Some,
        0 <= k < p.policy.deny->0.len(),
        deny_matches(p.policy.deny->0[k], from, to, p),
    ensures
        policy_verdict(p, from, to) matches Some(DecisionView::Deny { rule_description, reason })
            && first_deny(p.policy.deny->0, 0, from, to, p) matches Some(x)
            && x <= k
            && rule_description == rule_label("deny"@, x, p.mortar_id)
            && reason == deny_reason(p.policy.deny->0[x]),
{
    lemma_first_deny_finds(p.policy.deny->0, 0, k, from, to, p);
}

} // verus!
