use fabricks::events::bus::EventBus;
use fabricks::events::types::{EventData, EventType};
use fabricks::keyed::KeyedList;
use fabricks::policy::engine::PolicyEngine;
use fabricks::policy::manager::PolicyManager;
use fabricks::policy::model::{DenyRule, Policy, RequireRule, WarnRule};
use fabricks::policy::types::{EvaluatedPolicy, PolicyDecision, PolicyEvaluationContext, PolicyInfo};

fn mappings(pairs: &[(&str, &str)]) -> KeyedList<String> {
    let mut m = KeyedList::new();
    for (k, v) in pairs {
        m.insert(k.to_string(), v.to_string());
    }
    m
}

fn test_policy_with_deny(from: Option<Vec<&str>>, to: Option<Vec<&str>>) -> EvaluatedPolicy {
    let m = mappings(&[("api", "svc-api-1"), ("db", "svc-db-1"), ("cache", "svc-cache-1")]);
    let policy = Policy {
        description: Some("Test policy".to_string()),
        deny: Some(vec![DenyRule {
            from: from.map(|v| v.into_iter().map(String::from).collect()),
            to: to.map(|v| v.into_iter().map(String::from).collect()),
            except: None,
            reason: Some("Test denial".to_string()),
        }]),
        require: None,
        warn: None,
    };
    EvaluatedPolicy::new("mortar-1", policy, m)
}

#[test]
fn test_policy_decision_allow() {
    let decision = PolicyDecision::Allow;
    assert!(decision.is_allowed());
    assert!(!decision.is_denied());
    assert_eq!(decision.decision_type(), "allow");
    assert!(decision.rule_description().is_none());
    assert!(decision.reason().is_none());
}

#[test]
fn test_policy_decision_deny() {
    let decision = PolicyDecision::deny("deny rule 1", "connection not allowed");
    assert!(!decision.is_allowed());
    assert!(decision.is_denied());
    assert_eq!(decision.decision_type(), "deny");
    assert_eq!(decision.rule_description(), Some("deny rule 1"));
    assert_eq!(decision.reason(), Some("connection not allowed"));
}

#[test]
fn test_policy_decision_warn() {
    let decision = PolicyDecision::warn("warn rule 1", "cross-network communication");
    assert!(decision.is_allowed());
    assert!(!decision.is_denied());
    assert_eq!(decision.decision_type(), "warn");
    assert_eq!(decision.rule_description(), Some("warn rule 1"));
    assert_eq!(decision.reason(), Some("cross-network communication"));
}

#[test]
fn test_evaluation_context() {
    let ctx = PolicyEvaluationContext::new("svc-1", "svc-2").with_mortar_id("mortar-1");
    assert_eq!(ctx.from_service, "svc-1");
    assert_eq!(ctx.to_target, "svc-2");
    assert_eq!(ctx.mortar_id, Some("mortar-1".to_string()));
}

#[test]
fn test_evaluated_policy() {
    let m = mappings(&[("api", "svc-api-123"), ("db", "svc-db-456")]);
    let policy = Policy { description: Some("Test policy".to_string()), deny: None, require: None, warn: None };
    let ep = EvaluatedPolicy::new("mortar-1", policy, m);
    assert_eq!(ep.service_name("svc-api-123"), Some("api"));
    assert_eq!(ep.service_id("api"), Some("svc-api-123"));
    assert!(ep.contains_service("svc-api-123"));
    assert!(!ep.contains_service("svc-unknown"));
}

#[test]
fn test_policy_info_from_evaluated_policy() {
    let m = mappings(&[("api", "svc-1")]);
    let policy = Policy {
        description: Some("Test".to_string()),
        deny: Some(vec![
            DenyRule { from: None, to: None, except: None, reason: None },
            DenyRule { from: None, to: None, except: None, reason: None },
        ]),
        require: Some(vec![RequireRule { networks: None, services: None, tls: Some(true), audit: None, encryption: None }]),
        warn: None,
    };
    let ep = EvaluatedPolicy::new("mortar-1", policy, m);
    let info = PolicyInfo::from_evaluated(&ep);
    assert_eq!(info.mortar_id, "mortar-1");
    assert_eq!(info.description, Some("Test".to_string()));
    assert_eq!(info.deny_rules, 2);
    assert_eq!(info.require_rules, 1);
    assert_eq!(info.warn_rules, 0);
    assert_eq!(info.services.len(), 1);
}

#[test]
fn test_allow_when_no_rules() {
    let mut engine = PolicyEngine::new(EventBus::new(100, 100));
    let ctx = PolicyEvaluationContext::new("svc-api-1", "svc-db-1");
    let policies: Vec<EvaluatedPolicy> = vec![];
    let decision = engine.evaluate(&ctx, &policies);
    assert!(decision.is_allowed());
}

#[test]
fn test_deny_all_to_all() {
    let mut engine = PolicyEngine::new(EventBus::new(100, 100));
    let policy = test_policy_with_deny(None, None);
    let ctx = PolicyEvaluationContext::new("svc-api-1", "svc-db-1");
    let decision = engine.evaluate(&ctx, &[policy]);
    assert!(decision.is_denied());
}

#[test]
fn test_deny_specific_from() {
    let mut engine = PolicyEngine::new(EventBus::new(100, 100));
    let policy = test_policy_with_deny(Some(vec!["api"]), None);
    let ctx = PolicyEvaluationContext::new("svc-api-1", "svc-db-1");
    let decision = engine.evaluate(&ctx, &[policy.duplicate()]);
    assert!(decision.is_denied());
    let ctx = PolicyEvaluationContext::new("svc-cache-1", "svc-db-1");
    let decision = engine.evaluate(&ctx, &[policy]);
    assert!(decision.is_allowed());
}

#[test]
fn test_deny_specific_to() {
    let mut engine = PolicyEngine::new(EventBus::new(100, 100));
    let policy = test_policy_with_deny(None, Some(vec!["db"]));
    let ctx = PolicyEvaluationContext::new("svc-api-1", "svc-db-1");
    let decision = engine.evaluate(&ctx, &[policy.duplicate()]);
    assert!(decision.is_denied());
    let ctx = PolicyEvaluationContext::new("svc-api-1", "svc-cache-1");
    let decision = engine.evaluate(&ctx, &[policy]);
    assert!(decision.is_allowed());
}

#[test]
fn test_deny_from_to_combination() {
    let mut engine = PolicyEngine::new(EventBus::new(100, 100));
    let policy = test_policy_with_deny(Some(vec!["api"]), Some(vec!["db"]));
    let ctx = PolicyEvaluationContext::new("svc-api-1", "svc-db-1");
    assert!(engine.evaluate(&ctx, &[policy.duplicate()]).is_denied());
    let ctx = PolicyEvaluationContext::new("svc-api-1", "svc-cache-1");
    assert!(engine.evaluate(&ctx, &[policy.duplicate()]).is_allowed());
    let ctx = PolicyEvaluationContext::new("svc-cache-1", "svc-db-1");
    assert!(engine.evaluate(&ctx, &[policy]).is_allowed());
}

#[test]
fn test_deny_with_exception() {
    let mut engine = PolicyEngine::new(EventBus::new(100, 100));
    let m = mappings(&[("api", "svc-api-1"), ("db", "svc-db-1"), ("admin", "svc-admin-1")]);
    let policy = Policy {
        description: None,
        deny: Some(vec![DenyRule {
            from: None,
            to: Some(vec!["db".to_string()]),
            except: Some(vec!["admin".to_string()]),
            reason: Some("Only admin can access db".to_string()),
        }]),
        require: None,
        warn: None,
    };
    let ep = EvaluatedPolicy::new("mortar-1", policy, m);
    let ctx = PolicyEvaluationContext::new("svc-api-1", "svc-db-1");
    assert!(engine.evaluate(&ctx, &[ep.duplicate()]).is_denied());
    let ctx = PolicyEvaluationContext::new("svc-admin-1", "svc-db-1");
    assert!(engine.evaluate(&ctx, &[ep]).is_allowed());
}

#[test]
fn test_warn_cross_network() {
    let mut engine = PolicyEngine::new(EventBus::new(100, 100));
    let m = mappings(&[("api", "svc-api-1")]);
    let policy = Policy {
        description: None,
        deny: None,
        require: None,
        warn: Some(vec![WarnRule { cross_network: Some(true), except: None }]),
    };
    let ep = EvaluatedPolicy::new("mortar-1", policy, m);
    let ctx = PolicyEvaluationContext::new("svc-api-1", "https://api.example.com");
    let decision = engine.evaluate(&ctx, &[ep.duplicate()]);
    assert!(matches!(decision, PolicyDecision::Warn { .. }));
    let ctx = PolicyEvaluationContext::new("svc-api-1", "svc-api-1");
    assert!(engine.evaluate(&ctx, &[ep]).is_allowed());
}

#[test]
fn test_warn_with_exception() {
    let mut engine = PolicyEngine::new(EventBus::new(100, 100));
    let m = mappings(&[("api", "svc-api-1")]);
    let policy = Policy {
        description: None,
        deny: None,
        require: None,
        warn: Some(vec![WarnRule {
            cross_network: Some(true),
            except: Some(vec!["https://allowed.example.com".to_string()]),
        }]),
    };
    let ep = EvaluatedPolicy::new("mortar-1", policy, m);
    let ctx = PolicyEvaluationContext::new("svc-api-1", "https://api.example.com");
    let decision = engine.evaluate(&ctx, &[ep.duplicate()]);
    assert!(matches!(decision, PolicyDecision::Warn { .. }));
    let ctx = PolicyEvaluationContext::new("svc-api-1", "https://allowed.example.com");
    assert!(engine.evaluate(&ctx, &[ep]).is_allowed());
}

#[test]
fn test_load_and_unload_policy() {
    let mut manager = PolicyManager::new(EventBus::new(100, 100));
    let policy = Policy { description: Some("Test".to_string()), deny: None, require: None, warn: None };
    manager.load_policies("mortar-1", policy, mappings(&[("api", "svc-api-1")]));
    assert!(manager.get_policy("mortar-1").is_some());
    assert_eq!(manager.get_mortar_id("svc-api-1"), Some("mortar-1".to_string()));
    manager.unload_policies("mortar-1");
    assert!(manager.get_policy("mortar-1").is_none());
    assert!(manager.get_mortar_id("svc-api-1").is_none());
}

#[test]
fn test_list_policies() {
    let mut manager = PolicyManager::new(EventBus::new(100, 100));
    assert!(manager.list_policies().is_empty());
    let policy = Policy { description: Some("Test".to_string()), deny: None, require: None, warn: None };
    manager.load_policies("mortar-1", policy, mappings(&[("api", "svc-api-1")]));
    let policies = manager.list_policies();
    assert_eq!(policies.len(), 1);
    assert_eq!(policies[0].mortar_id, "mortar-1");
}

#[test]
fn test_evaluate_connection_no_policy() {
    let mut manager = PolicyManager::new(EventBus::new(100, 100));
    let decision = manager.evaluate_connection("svc-unknown", "svc-other");
    assert!(decision.is_allowed());
}

#[test]
fn test_evaluate_connection_with_deny() {
    let mut manager = PolicyManager::new(EventBus::new(100, 100));
    let policy = Policy {
        description: None,
        deny: Some(vec![DenyRule {
            from: Some(vec!["api".to_string()]),
            to: Some(vec!["db".to_string()]),
            except: None,
            reason: Some("API cannot directly access DB".to_string()),
        }]),
        require: None,
        warn: None,
    };
    manager.load_policies("mortar-1", policy, mappings(&[("api", "svc-api-1"), ("db", "svc-db-1")]));
    let decision = manager.evaluate_connection("svc-api-1", "svc-db-1");
    assert!(decision.is_denied());
    assert!(decision.reason().unwrap().contains("API cannot directly access DB"));
}

#[test]
fn test_has_policies() {
    let mut manager = PolicyManager::new(EventBus::new(100, 100));
    assert!(!manager.has_policies("svc-api-1"));
    let policy = Policy { description: None, deny: None, require: None, warn: None };
    manager.load_policies("mortar-1", policy, mappings(&[("api", "svc-api-1")]));
    assert!(manager.has_policies("svc-api-1"));
    assert!(!manager.has_policies("svc-unknown"));
}

#[test]
fn test_multiple_mortars() {
    let mut manager = PolicyManager::new(EventBus::new(100, 100));
    let policy1 = Policy { description: Some("Mortar 1".to_string()), deny: None, require: None, warn: None };
    let policy2 = Policy {
        description: Some("Mortar 2".to_string()),
        deny: Some(vec![DenyRule { from: None, to: None, except: None, reason: Some("Deny all".to_string()) }]),
        require: None,
        warn: None,
    };
    manager.load_policies("mortar-1", policy1, mappings(&[("api", "svc-api-1")]));
    manager.load_policies("mortar-2", policy2, mappings(&[("worker", "svc-worker-1")]));
    assert!(manager.evaluate_connection("svc-api-1", "external.com").is_allowed());
    assert!(manager.evaluate_connection("svc-worker-1", "external.com").is_denied());
}

#[test]
fn evaluation_is_recorded_for_audit() {
    let mut manager = PolicyManager::new(EventBus::new(100, 100));
    let policy = Policy {
        description: None,
        deny: Some(vec![DenyRule { from: None, to: None, except: None, reason: Some("Deny all".to_string()) }]),
        require: None,
        warn: None,
    };
    manager.load_policies("mortar-2", policy, mappings(&[("worker", "svc-worker-1")]));
    assert!(manager.evaluate_connection("svc-worker-1", "external.com").is_denied());
    assert_eq!(manager.event_bus().history(None).len(), 2);
    // No policy applies: nothing is published.
    assert!(manager.evaluate_connection("svc-other", "external.com").is_allowed());
    assert_eq!(manager.event_bus().history(None).len(), 2);
}

#[test]
fn unload_restores_previous_state() {
    let mut manager = PolicyManager::new(EventBus::new(100, 100));
    let policy = Policy { description: None, deny: None, require: None, warn: None };
    manager.load_policies("mortar-1", policy, mappings(&[("api", "svc-api-1")]));
    manager.unload_policies("mortar-1");
    assert!(manager.list_policies().is_empty());
    assert!(!manager.has_policies("svc-api-1"));
}

#[test]
fn deny_rule_takes_precedence_over_warn_rule() {
    let mut engine = PolicyEngine::new(EventBus::new(100, 100));
    let m = mappings(&[("api", "svc-api-1")]);
    let policy = Policy {
        description: None,
        deny: Some(vec![
            DenyRule { from: Some(vec!["nobody".to_string()]), to: None, except: None, reason: None },
            DenyRule { from: None, to: None, except: None, reason: None },
        ]),
        require: None,
        warn: Some(vec![WarnRule { cross_network: Some(true), except: None }]),
    };
    let ep = EvaluatedPolicy::new("shop", policy, m);
    let ctx = PolicyEvaluationContext::new("svc-api-1", "https://api.example.com");
    match engine.evaluate(&ctx, &[ep]) {
        PolicyDecision::Deny { rule_description, reason } => {
            assert_eq!(rule_description, "deny rule 2 in shop");
            assert_eq!(reason, "denied by policy");
        }
        other => panic!("unexpected: {:?}", other),
    }
}

#[test]
fn first_firing_policy_decides_and_no_policies_allow() {
    let mut engine = PolicyEngine::new(EventBus::new(100, 100));
    let ctx = PolicyEvaluationContext::new("svc-api-1", "svc-db-1");
    assert!(matches!(engine.evaluate(&ctx, &[]), PolicyDecision::Allow));
    let quiet = EvaluatedPolicy::new(
        "a",
        Policy { description: None, deny: None, require: None, warn: None },
        mappings(&[]),
    );
    let denying = test_policy_with_deny(None, None);
    match engine.evaluate(&ctx, &[quiet, denying]) {
        PolicyDecision::Deny { rule_description, .. } => assert_eq!(rule_description, "deny rule 1 in mortar-1"),
        other => panic!("unexpected: {:?}", other),
    }
}

#[test]
fn evaluation_events_are_published_in_order() {
    let mut engine = PolicyEngine::new(EventBus::new(10, 100));
    let policy = test_policy_with_deny(None, None);
    let ctx = PolicyEvaluationContext::new("svc-api-1", "svc-db-1").with_mortar_id("mortar-1");
    let decision = engine.evaluate(&ctx, &[policy]);
    assert!(decision.is_denied());
    let history = engine.event_bus().history(None);
    assert_eq!(history.len(), 2);
    assert_eq!(history[0].event_type, EventType::PolicyViolation);
    assert_eq!(history[1].event_type, EventType::PolicyEvaluated);
    match &history[1].data {
        EventData::Policy { from_service, to_target, mortar_id, decision, reason, .. } => {
            assert_eq!(from_service, "svc-api-1");
            assert_eq!(to_target, "svc-db-1");
            assert_eq!(mortar_id.as_deref(), Some("mortar-1"));
            assert_eq!(decision.as_deref(), Some("deny"));
            assert_eq!(reason.as_deref(), Some("Test denial"));
        }
        _ => panic!("expected policy data"),
    }
    match &history[0].data {
        EventData::Policy { decision, rule_description, .. } => {
            assert!(decision.is_none());
            assert_eq!(rule_description.as_deref(), Some("deny rule 1 in mortar-1"));
        }
        _ => panic!("expected policy data"),
    }

    let allowed = engine.evaluate(&PolicyEvaluationContext::new("svc-a", "svc-b"), &[]);
    assert!(allowed.is_allowed());
    let history = engine.event_bus().history(None);
    assert_eq!(history.len(), 3);
    assert_eq!(history[0].event_type, EventType::PolicyEvaluated);
}

#[test]
fn manager_publishes_evaluations_on_its_bus() {
    let mut manager = PolicyManager::new(EventBus::new(10, 100));
    let policy = Policy {
        description: None,
        deny: Some(vec![DenyRule { from: None, to: None, except: None, reason: Some("Deny all".to_string()) }]),
        require: None,
        warn: None,
    };
    manager.load_policies("mortar-2", policy, mappings(&[("worker", "svc-worker-1")]));
    assert!(manager.evaluate_connection("svc-worker-1", "external.com").is_denied());
    let history = manager.event_bus().history(None);
    assert_eq!(history.len(), 2);
    assert_eq!(history[1].event_type, EventType::PolicyEvaluated);
    assert_eq!(history[0].event_type, EventType::PolicyViolation);
    match &history[1].data {
        EventData::Policy { mortar_id, .. } => assert_eq!(mortar_id.as_deref(), Some("mortar-2")),
        _ => panic!("expected policy data"),
    }
}
