//! Deleting every GitLab project listed in a migration report.

pub mod handler;
