//! The `fabricks` command-line tool: its commands, the client of the
//! daemon, credentials and builders.

pub mod args;
pub mod builders;
pub mod client;
pub mod commands;
pub mod credentials;
pub mod module_build;
pub mod output;
