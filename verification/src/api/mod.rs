//! The daemon's HTTP API: request and response types, and what each
//! endpoint answers. The HTTP server itself hands requests in and sends the
//! answers out.

pub mod response;
pub mod networks;
pub mod health;
pub mod policies;
pub mod daemon;
pub mod services;
pub mod run_module;
pub mod mortar;
pub mod volumes;
pub mod metrics;
