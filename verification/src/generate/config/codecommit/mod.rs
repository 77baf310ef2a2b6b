//! Generating a migration config for the repositories of AWS CodeCommit.

pub mod handler;
