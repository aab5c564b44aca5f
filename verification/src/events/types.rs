//! Event type definitions.

use vstd::prelude::*;

use crate::clock::now_millis;
use crate::ids::{is_hyphenated_uuid, new_uuid_text};
use crate::policy::model::{clone_opt_string, opt_text};

verus! {

/// Event categories for daemon operations.
#[derive(Debug, Clone, Copy, PartialEq, Eq, Structural, Hash)]
pub enum EventType {
    /// Daemon has started.
    DaemonStarted,
    /// Daemon is stopping.
    DaemonStopping,
    /// Daemon configuration was reloaded.
    DaemonConfigReloaded,
    /// A service was created.
    ServiceCreated,
    /// A service was started.
    ServiceStarted,
    /// A service was stopped.
    ServiceStopped,
    /// A service failed.
    ServiceFailed,
    /// A service was scaled.
    ServiceScaled,
    /// A service was deleted.
    ServiceDeleted,
    /// Service health status changed.
    HealthChanged,
    /// A network was created.
    NetworkCreated,
    /// A network was deleted.
    NetworkDeleted,
    /// A volume was created.
    VolumeCreated,
    /// A volume was deleted.
    VolumeDeleted,
    /// A connection was evaluated against policies.
    PolicyEvaluated,
    /// A connection was denied by a policy.
    PolicyViolation,
}

impl EventType {
    /// The snake_case name of the event type, as it appears in serialized events.
    pub fn as_str(&self) -> (r: &'static str)
        ensures
            r@ == event_type_name(*self),
    {
        match self {
            EventType::DaemonStarted => "daemon_started",
            EventType::DaemonStopping => "daemon_stopping",
            EventType::DaemonConfigReloaded => "daemon_config_reloaded",
            EventType::ServiceCreated => "service_created",
            EventType::ServiceStarted => "service_started",
            EventType::ServiceStopped => "service_stopped",
            EventType::ServiceFailed => "service_failed",
            EventType::ServiceScaled => "service_scaled",
            EventType::ServiceDeleted => "service_deleted",
            EventType::HealthChanged => "health_changed",
            EventType::NetworkCreated => "network_created",
            EventType::NetworkDeleted => "network_deleted",
            EventType::VolumeCreated => "volume_created",
            EventType::VolumeDeleted => "volume_deleted",
            EventType::PolicyEvaluated => "policy_evaluated",
            EventType::PolicyViolation => "policy_violation",
        }
    }
}

/// The snake_case name of an event type.
pub open spec fn event_type_name(t: EventType) -> Seq<char> {
    match t {
        EventType::DaemonStarted => "daemon_started"@,
        EventType::DaemonStopping => "daemon_stopping"@,
        EventType::DaemonConfigReloaded => "daemon_config_reloaded"@,
        EventType::ServiceCreated => "service_created"@,
        EventType::ServiceStarted => "service_started"@,
        EventType::ServiceStopped => "service_stopped"@,
        EventType::ServiceFailed => "service_failed"@,
        EventType::ServiceScaled => "service_scaled"@,
        EventType::ServiceDeleted => "service_deleted"@,
        EventType::HealthChanged => "health_changed"@,
        EventType::NetworkCreated => "network_created"@,
        EventType::NetworkDeleted => "network_deleted"@,
        EventType::VolumeCreated => "volume_created"@,
        EventType::VolumeDeleted => "volume_deleted"@,
        EventType::PolicyEvaluated => "policy_evaluated"@,
        EventType::PolicyViolation => "policy_violation"@,
    }
}

/// Event-specific data.
#[derive(Debug)]
pub enum EventData {
    /// No data.
    Empty,
    /// Arbitrary data, as JSON text.
    Json(String),
    /// The outcome of a policy evaluation for a connection.
    Policy {
        /// Service initiating the connection.
        from_service: String,
        /// Target of the connection.
        to_target: String,
        /// Mortar project of the source service, if known.
        mortar_id: Option<String>,
        /// "allow", "deny" or "warn" (absent on violation events).
        decision: Option<String>,
        /// The rule that decided, if any.
        rule_description: Option<String>,
        /// The reason given by that rule, if any.
        reason: Option<String>,
    },
}

/// Abstract value of [`EventData`].
pub enum EventDataView {
    Empty,
    Json(Seq<char>),
    Policy {
        from_service: Seq<char>,
        to_target: Seq<char>,
        mortar_id: Option<Seq<char>>,
        decision: Option<Seq<char>>,
        rule_description: Option<Seq<char>>,
        reason: Option<Seq<char>>,
    },
}

impl View for EventData {
    type V = EventDataView;

    open spec fn view(&self) -> EventDataView {
        match self {
            EventData::Empty => EventDataView::Empty,
            EventData::Json(s) => EventDataView::Json(s@),
            EventData::Policy { from_service, to_target, mortar_id, decision, rule_description, reason } =>
                EventDataView::Policy {
                    from_service: from_service@,
                    to_target: to_target@,
                    mortar_id: opt_text(*mortar_id),
                    decision: opt_text(*decision),
                    rule_description: opt_text(*rule_description),
                    reason: opt_text(*reason),
                },
        }
    }
}

impl EventData {
    /// A copy with the same abstract value.
    pub fn duplicate(&self) -> (r: Self)
        ensures
            r@ == self@,
    {
        match self {
            EventData::Empty => EventData::Empty,
            EventData::Json(s) => EventData::Json(s.clone()),
            EventData::Policy { from_service, to_target, mortar_id, decision, rule_description, reason } =>
                EventData::Policy {
                    from_service: from_service.clone(),
                    to_target: to_target.clone(),
                    mortar_id: clone_opt_string(mortar_id),
                    decision: clone_opt_string(decision),
                    rule_description: clone_opt_string(rule_description),
                    reason: clone_opt_string(reason),
                },
        }
    }
}

/// A daemon event.
#[derive(Debug)]
pub struct Event {
    /// Unique event ID (a hyphenated UUID).
    pub id: String,
    /// Event type.
    pub event_type: EventType,
    /// When the event occurred, in milliseconds since the Unix epoch.
    pub timestamp: i64,
    /// Event-specific data.
    pub data: EventData,
}

/// Abstract value of an [`Event`].
pub struct EventView {
    pub id: Seq<char>,
    pub event_type: EventType,
    pub timestamp: i64,
    pub data: EventDataView,
}

impl View for Event {
    type V = EventView;

    open spec fn view(&self) -> EventView {
        EventView { id: self.id@, event_type: self.event_type, timestamp: self.timestamp, data: self.data@ }
    }
}

impl Event {
    /// Creates a new event with the given type and data; the ID and the
    /// timestamp are generated.
    pub fn new(event_type: EventType, data: EventData) -> (r: Self)
        ensures
            r.event_type == event_type,
            r.data == data,
            is_hyphenated_uuid(r.id@),
    {
        Event { id: new_uuid_text(), event_type, timestamp: now_millis(), data }
    }

    /// Creates a new event with no data.
    pub fn empty(event_type: EventType) -> (r: Self)
        ensures
            r.event_type == event_type,
            r.data is Empty,
            is_hyphenated_uuid(r.id@),
    {
        Event { id: new_uuid_text(), event_type, timestamp: now_millis(), data: EventData::Empty }
    }

    /// A copy with the same abstract value.
    pub fn duplicate(&self) -> (r: Self)
        ensures
            r@ == self@,
    {
        Event { id: self.id.clone(), event_type: self.event_type, timestamp: self.timestamp, data: self.data.duplicate() }
    }
}

} // verus!
