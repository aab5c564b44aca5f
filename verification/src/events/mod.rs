//! Event system for daemon events: event types and the bus history.

pub mod bus;
pub mod types;
