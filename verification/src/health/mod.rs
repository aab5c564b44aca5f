//! Health monitoring for services: per-service health state, check
//! scheduling, and the results of checks.

pub mod types;
pub mod monitor;
