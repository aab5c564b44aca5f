use fabricks::clock::MonotonicClock;
use fabricks::api::health::{check_service_health, get_all_health, get_service_health};
use fabricks::api::response::ApiResponse;
use fabricks::events::bus::{delivery_plan, filter_accepts, retain_delivered, EventBus};
use fabricks::events::types::{Event, EventData, EventType};
use fabricks::health::monitor::{
    check_outcome, result_of, CheckMethod, HealthCheckRegistration, HealthMonitor, HttpHealthCheck,
};
use fabricks::health::types::{HealthCheckResult, HealthMonitorConfig, HealthStatus, ServiceHealth};

fn test_config() -> HealthMonitorConfig {
    HealthMonitorConfig { default_interval_ms: 1000, default_timeout_ms: 1000, max_history: 10, failure_threshold: 3 }
}

fn test_http_check() -> HttpHealthCheck {
    HttpHealthCheck {
        path: "/health".to_string(),
        port: Some(8080),
        interval_ms: Some(1000),
        timeout_ms: Some(1000),
        retries: Some(3),
        method: Some(CheckMethod::Get),
        expected_status: Some(200),
    }
}

#[test]
fn test_health_status_display() {
    assert_eq!(HealthStatus::Healthy.to_string(), "healthy");
    assert_eq!(HealthStatus::Unhealthy.to_string(), "unhealthy");
    assert_eq!(HealthStatus::Unknown.to_string(), "unknown");
    assert_eq!(HealthStatus::Starting.to_string(), "starting");
}

#[test]
fn test_health_check_result_healthy() {
    let result = HealthCheckResult::healthy(50);
    assert_eq!(result.status, HealthStatus::Healthy);
    assert_eq!(result.response_time_ms, Some(50));
    assert!(result.error.is_none());
}

#[test]
fn test_health_check_result_unhealthy() {
    let result = HealthCheckResult::unhealthy("Connection refused".to_string());
    assert_eq!(result.status, HealthStatus::Unhealthy);
    assert!(result.response_time_ms.is_none());
    assert_eq!(result.error, Some("Connection refused".to_string()));
}

#[test]
fn unhealthy_http_names_the_status() {
    let result = HealthCheckResult::unhealthy_http(503, 12);
    assert_eq!(result.error, Some("Unexpected HTTP status: 503".to_string()));
    assert_eq!(result.http_status, Some(503));
}

#[test]
fn test_service_health_tracking() {
    let mut health = ServiceHealth::new("svc-123".to_string());
    assert_eq!(health.status, HealthStatus::Unknown);
    assert_eq!(health.consecutive_failures, 0);
    health.record(HealthCheckResult::healthy(10), 10);
    assert_eq!(health.status, HealthStatus::Healthy);
    assert_eq!(health.consecutive_failures, 0);
    assert!(health.last_healthy.is_some());
    health.record(HealthCheckResult::unhealthy("timeout".to_string()), 10);
    assert_eq!(health.status, HealthStatus::Unhealthy);
    assert_eq!(health.consecutive_failures, 1);
    health.record(HealthCheckResult::unhealthy("timeout".to_string()), 10);
    assert_eq!(health.consecutive_failures, 2);
    health.record(HealthCheckResult::healthy(10), 10);
    assert_eq!(health.status, HealthStatus::Healthy);
    assert_eq!(health.consecutive_failures, 0);
}

#[test]
fn test_service_health_history_limit() {
    let mut health = ServiceHealth::new("svc-123".to_string());
    for _ in 0..15 {
        health.record(HealthCheckResult::healthy(10), 10);
    }
    assert_eq!(health.history.len(), 10);
}

#[test]
fn history_keeps_the_newest_results() {
    let mut health = ServiceHealth::new("svc-123".to_string());
    for i in 0..5u64 {
        health.record(HealthCheckResult::healthy(i), 3);
    }
    let times: Vec<Option<u64>> = health.history.iter().map(|r| r.response_time_ms).collect();
    assert_eq!(times, vec![Some(2), Some(3), Some(4)]);
    assert_eq!(health.last_result().unwrap().response_time_ms, Some(4));
}

#[test]
fn test_should_restart() {
    let mut health = ServiceHealth::new("svc-123".to_string());
    health.record(HealthCheckResult::unhealthy("error".to_string()), 10);
    assert!(!health.should_restart(3));
    health.record(HealthCheckResult::unhealthy("error".to_string()), 10);
    assert!(!health.should_restart(3));
    health.record(HealthCheckResult::unhealthy("error".to_string()), 10);
    assert!(health.should_restart(3));
}

#[test]
fn monitor_config_defaults() {
    let config = HealthMonitorConfig::default();
    assert_eq!(config.default_interval_ms, 30_000);
    assert_eq!(config.default_timeout_ms, 5_000);
    assert_eq!(config.max_history, 100);
    assert_eq!(config.failure_threshold, 3);
}

#[test]
fn test_register_and_unregister() {
    let mut monitor = HealthMonitor::new(test_config());
    monitor.register("svc-1".to_string(), test_http_check(), 8080);
    assert!(monitor.get_health("svc-1").is_some());
    assert_eq!(monitor.get_status("svc-1"), HealthStatus::Unknown);
    monitor.unregister("svc-1");
    assert!(monitor.get_health("svc-1").is_none());
}

#[test]
fn test_get_all_health() {
    let mut monitor = HealthMonitor::new(test_config());
    monitor.register("svc-1".to_string(), test_http_check(), 8080);
    monitor.register("svc-2".to_string(), test_http_check(), 8081);
    let all = monitor.get_all_health();
    assert_eq!(all.len(), 2);
    assert!(all.contains_key("svc-1"));
    assert!(all.contains_key("svc-2"));
}

#[test]
fn test_is_healthy() {
    let mut monitor = HealthMonitor::new(test_config());
    monitor.register("svc-1".to_string(), test_http_check(), 8080);
    assert!(!monitor.is_healthy("svc-1"));
    monitor.record_result("svc-1", HealthCheckResult::healthy(5));
    assert!(monitor.is_healthy("svc-1"));
}

#[test]
fn test_mark_starting() {
    let mut monitor = HealthMonitor::new(test_config());
    monitor.register("svc-1".to_string(), test_http_check(), 8080);
    monitor.mark_starting("svc-1");
    assert_eq!(monitor.get_status("svc-1"), HealthStatus::Starting);
}

#[test]
fn test_check_now_unregistered() {
    let monitor = HealthMonitor::new(test_config());
    assert!(monitor.registration("unknown-service").is_none());
}

#[test]
fn test_health_check_registration() {
    let clock = MonotonicClock::start();
    let mut reg = HealthCheckRegistration::new("svc-1".to_string(), test_http_check(), 8080, &clock);
    assert!(reg.is_due(&clock));
    reg.schedule_next(&clock);
    assert!(!reg.is_due(&clock));
    assert_eq!(reg.interval_ms(), 1000);
    assert_eq!(reg.timeout_ms(), 1000);
}

#[test]
fn registration_schedule_is_exact() {
    let mut reg = HealthCheckRegistration::new_at("svc-1".to_string(), test_http_check(), 8080, 100);
    assert!(reg.is_due_at(100));
    assert!(!reg.is_due_at(99));
    reg.schedule_next_at(100);
    assert!(!reg.is_due_at(1099));
    assert!(reg.is_due_at(1100));
    assert_eq!(reg.check_url(), "http://127.0.0.1:8080/health");
    assert_eq!(reg.check_method(), CheckMethod::Get);
    assert_eq!(reg.expected_status(), 200);
}

#[test]
fn schedule_from_saturates_at_the_end_of_time() {
    let mut reg = HealthCheckRegistration::new_at("svc-1".to_string(), test_http_check(), 8080, 0);
    reg.schedule_next_from(500);
    assert!(!reg.is_due_at(1499));
    assert!(reg.is_due_at(1500));
    reg.schedule_next_from(i64::MAX - 10);
    assert!(!reg.is_due_at(i64::MAX - 1));
    assert!(reg.is_due_at(i64::MAX));
}

#[test]
fn due_checks_lists_due_registrations() {
    let mut monitor = HealthMonitor::new(test_config());
    monitor.register_at("svc-1".to_string(), test_http_check(), 8080, 10);
    monitor.register_at("svc-2".to_string(), test_http_check(), 8081, 50);
    let due = monitor.due_checks(20);
    assert_eq!(due.len(), 1);
    assert_eq!(due[0].service_id, "svc-1");
    monitor.schedule_next_at("svc-1", 20);
    assert!(monitor.due_checks(20).is_empty());
    assert_eq!(monitor.due_checks(1020).len(), 2);
}

#[test]
fn check_outcomes() {
    assert_eq!(check_outcome(200, 200), Ok(200));
    assert_eq!(check_outcome(500, 200), Err("Unexpected status: 500, expected: 200".to_string()));
    let r = result_of(Err("Request failed: refused".to_string()), 7);
    assert_eq!(r.status, HealthStatus::Unhealthy);
    assert_eq!(r.error, Some("Request failed: refused".to_string()));
    let r = result_of(Ok(204), 7);
    assert_eq!(r.http_status, Some(204));
    assert_eq!(r.response_time_ms, Some(7));
}

#[test]
fn health_endpoints() {
    let mut monitor = HealthMonitor::new(test_config());
    monitor.register("svc-1".to_string(), test_http_check(), 8080);
    monitor.register("svc-2".to_string(), test_http_check(), 8081);
    monitor.record_result("svc-1", HealthCheckResult::healthy(5));
    monitor.mark_starting("svc-2");
    let all = get_all_health(&monitor);
    assert_eq!(all.summary.total, 2);
    assert_eq!(all.summary.healthy, 1);
    assert_eq!(all.summary.starting, 1);
    assert_eq!(all.summary.unhealthy, 0);
    assert_eq!(all.summary.unknown, 0);
    let (status, resp) = get_service_health(&monitor, "svc-9");
    assert_eq!(status, 404);
    match resp {
        ApiResponse::Error { error } => {
            assert_eq!(error.code, "SERVICE_NOT_MONITORED");
            assert_eq!(error.message, "Service 'svc-9' is not being monitored for health");
        }
        _ => panic!("expected an error"),
    }
    let (status, _) = get_service_health(&monitor, "svc-1");
    assert_eq!(status, 200);
}

#[test]
fn test_event_empty() {
    let event = Event::empty(EventType::DaemonStopping);
    assert_eq!(event.event_type, EventType::DaemonStopping);
    assert!(matches!(event.data, EventData::Empty));
}

#[test]
fn event_ids_are_uuids() {
    let event = Event::new(EventType::DaemonStarted, EventData::Json(r#"{"version":"1.0.0"}"#.to_string()));
    assert_eq!(event.event_type, EventType::DaemonStarted);
    assert_eq!(event.id.len(), 36);
    assert_ne!(event.id, Event::empty(EventType::DaemonStarted).id);
    assert_eq!(EventType::ServiceStarted.as_str(), "service_started");
}

#[test]
fn test_history() {
    let mut bus = EventBus::new(10, 100);
    bus.publish(Event::empty(EventType::ServiceCreated));
    bus.publish(Event::empty(EventType::ServiceStarted));
    bus.publish(Event::empty(EventType::ServiceStopped));
    let history = bus.history(None);
    assert_eq!(history.len(), 3);
    assert_eq!(history[0].event_type, EventType::ServiceStopped);
    assert_eq!(history[1].event_type, EventType::ServiceStarted);
    assert_eq!(history[2].event_type, EventType::ServiceCreated);
}

#[test]
fn test_history_limit() {
    let mut bus = EventBus::new(10, 100);
    for _ in 0..10 {
        bus.publish(Event::empty(EventType::ServiceCreated));
    }
    assert_eq!(bus.history(Some(5)).len(), 5);
}

#[test]
fn test_history_ring_buffer() {
    let mut bus = EventBus::new(10, 5);
    for i in 0..10 {
        bus.publish(Event::new(EventType::ServiceCreated, EventData::Json(format!("{{\"index\":{i}}}"))));
    }
    let history = bus.history(None);
    assert_eq!(history.len(), 5);
    assert!(matches!(&history[0].data, EventData::Json(s) if s == "{\"index\":9}"));
    assert!(matches!(&history[4].data, EventData::Json(s) if s == "{\"index\":5}"));
}

#[test]
fn test_clear_history() {
    let mut bus = EventBus::new(10, 100);
    bus.publish(Event::empty(EventType::ServiceCreated));
    bus.publish(Event::empty(EventType::ServiceStarted));
    assert_eq!(bus.history(None).len(), 2);
    bus.clear_history();
    assert_eq!(bus.history(None).len(), 0);
}

#[test]
fn test_filtered_subscription() {
    let filter = vec![EventType::ServiceStarted, EventType::ServiceStopped];
    assert!(!filter_accepts(&filter, EventType::DaemonStarted));
    assert!(filter_accepts(&filter, EventType::ServiceStarted));
    assert!(!filter_accepts(&filter, EventType::NetworkCreated));
    assert!(filter_accepts(&filter, EventType::ServiceStopped));
}

#[test]
fn test_publish_and_subscribe() {
    let mut bus = EventBus::new(10, 100);
    let mut rx = bus.subscribe();
    assert_eq!(bus.subscriber_count(), 1);
    let event = Event::new(EventType::DaemonStarted, EventData::Json(r#"{"version":"1.0.0"}"#.to_string()));
    let id = event.id.clone();
    bus.publish(event);
    let received = rx.try_recv().expect("should receive event");
    assert_eq!(received.id, id);
    assert_eq!(received.event_type, EventType::DaemonStarted);
}

#[test]
fn test_multiple_subscribers() {
    let mut bus = EventBus::new(10, 100);
    let mut rx1 = bus.subscribe();
    let mut rx2 = bus.subscribe();
    assert_eq!(bus.subscriber_count(), 2);
    let event = Event::empty(EventType::ServiceCreated);
    let id = event.id.clone();
    bus.publish(event);
    assert_eq!(rx1.try_recv().expect("should receive").id, id);
    assert_eq!(rx2.try_recv().expect("should receive").id, id);
}

#[test]
fn test_subscriber_cleanup_on_channel_close() {
    let mut bus = EventBus::new(10, 100);
    let rx = bus.subscribe();
    assert_eq!(bus.subscriber_count(), 1);
    drop(rx);
    bus.publish(Event::empty(EventType::DaemonStarted));
    assert_eq!(bus.subscriber_count(), 0);
}

#[test]
fn test_full_subscriber_dropped() {
    let mut bus = EventBus::new(1, 100);
    let mut rx = bus.subscribe();
    bus.publish(Event::empty(EventType::ServiceCreated));
    // The channel holds one event and is now full: the next publish drops it.
    bus.publish(Event::empty(EventType::ServiceStarted));
    assert_eq!(bus.subscriber_count(), 0);
    assert_eq!(rx.try_recv().expect("first event").event_type, EventType::ServiceCreated);
    assert_eq!(bus.history(None).len(), 2);
}

#[test]
fn test_event_creation() {
    let event = Event::new(EventType::DaemonStarted, EventData::Json(r#"{"version":"1.0.0"}"#.to_string()));
    assert_eq!(event.event_type, EventType::DaemonStarted);
    assert_ne!(event.id, "00000000-0000-0000-0000-000000000000");
    assert!(matches!(&event.data, EventData::Json(s) if s.contains("\"version\":\"1.0.0\"")));
}

#[test]
fn check_service_health_answers() {
    let (status, resp) = check_service_health("svc-9", None);
    assert_eq!(status, 404);
    match resp {
        ApiResponse::Error { error } => {
            assert_eq!(error.code, "SERVICE_NOT_MONITORED");
            assert_eq!(error.message, "Service 'svc-9' is not being monitored for health");
        }
        _ => panic!("expected an error"),
    }
    let (status, resp) = check_service_health("svc-1", Some(HealthCheckResult::healthy(5)));
    assert_eq!(status, 200);
    assert!(matches!(resp, ApiResponse::Success { .. }));
}

#[test]
fn publish_all_keeps_the_last_events_in_order() {
    let mut bus = EventBus::new(10, 3);
    let events: Vec<Event> = (0..5)
        .map(|i| Event::new(EventType::ServiceCreated, EventData::Json(format!("{i}"))))
        .collect();
    bus.publish_all(events);
    let history = bus.history(None);
    let texts: Vec<String> = history
        .iter()
        .map(|e| match &e.data {
            EventData::Json(s) => s.clone(),
            _ => panic!("expected JSON data"),
        })
        .collect();
    assert_eq!(texts, vec!["4".to_string(), "3".to_string(), "2".to_string()]);
    assert_eq!(bus.history(Some(2)).len(), 2);
}

#[test]
fn history_of_few_events_is_all_of_them_newest_first() {
    let mut bus = EventBus::new(10, 5);
    bus.publish(Event::empty(EventType::ServiceCreated));
    bus.publish(Event::empty(EventType::ServiceStarted));
    bus.publish(Event::empty(EventType::ServiceStopped));
    let all = bus.history(None);
    let types: Vec<EventType> = all.iter().map(|e| e.event_type).collect();
    assert_eq!(types, vec![EventType::ServiceStopped, EventType::ServiceStarted, EventType::ServiceCreated]);
    let two: Vec<EventType> = bus.history(Some(2)).iter().map(|e| e.event_type).collect();
    assert_eq!(two, vec![EventType::ServiceStopped, EventType::ServiceStarted]);
    assert_eq!(bus.history(Some(10)).len(), 3);
}

#[test]
fn retain_delivered_keeps_exactly_the_delivered() {
    let (a, _ra) = tokio::sync::mpsc::channel::<Event>(1);
    let (b, _rb) = tokio::sync::mpsc::channel::<Event>(1);
    let (c, _rc) = tokio::sync::mpsc::channel::<Event>(1);
    let a2 = a.clone();
    let c2 = c.clone();
    let kept = retain_delivered(vec![a, b, c], &vec![true, false, true]);
    assert_eq!(kept.len(), 2);
    assert!(kept[0].same_channel(&a2));
    assert!(kept[1].same_channel(&c2));
}

#[test]
fn delivery_plan_hands_the_same_event_to_each() {
    let event = Event::new(EventType::ServiceStarted, EventData::Json("{\"id\":1}".to_string()));
    let plan = delivery_plan(&event, 3);
    assert_eq!(plan.len(), 3);
    for e in &plan {
        assert_eq!(e.id, event.id);
        assert_eq!(e.event_type, EventType::ServiceStarted);
        assert!(matches!(&e.data, EventData::Json(s) if s == "{\"id\":1}"));
    }
    assert!(delivery_plan(&event, 0).is_empty());
}

#[test]
fn publish_keeps_open_subscribers_and_drops_closed_ones() {
    let mut bus = EventBus::new(4, 10);
    let mut open = bus.subscribe();
    let closed = bus.subscribe();
    drop(closed);
    bus.publish(Event::empty(EventType::ServiceCreated));
    assert_eq!(bus.subscriber_count(), 1);
    assert_eq!(open.try_recv().unwrap().event_type, EventType::ServiceCreated);
    bus.publish(Event::empty(EventType::ServiceStarted));
    assert_eq!(bus.subscriber_count(), 1);
    assert_eq!(open.try_recv().unwrap().event_type, EventType::ServiceStarted);
    assert!(bus.history_len() <= 10);
}
