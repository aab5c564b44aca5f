//! Policy evaluation for connections between services.
//!
//! Policies come from mortar files and are evaluated rule by rule: deny
//! rules first, then require rules, then warn rules; a connection no rule
//! matches is allowed.

pub mod model;
pub mod types;
pub mod engine;
pub mod manager;
