//! The generate command: produce a migration config from a repository host.

pub mod config;
