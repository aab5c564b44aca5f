//! The service proxy: port bindings, load balancing and egress control.

pub mod loadbalancer;
pub mod router;
pub mod egress;
pub mod server;
