//! Verified core of the Fabricks orchestration platform.

pub mod clock;
pub mod error;
pub mod events;
pub mod ids;
pub mod keyed;
pub mod network;
pub mod policy;
pub mod text;
pub mod proxy;
pub mod health;
pub mod format;
pub mod toolchain;
pub mod api;
pub mod paths;
pub mod config;
pub mod digest;
pub mod cli;
