//! Network management for service isolation and communication.
//!
//! Services can only communicate if they share at least one network. The
//! network manager handles network lifecycle, service membership, service
//! discovery and connection validation.

pub mod capability;
pub mod types;
pub mod registry;
pub mod manager;
pub mod validation;
