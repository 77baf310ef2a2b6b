//! The delete command: remove the GitLab projects that a migration created.

pub mod from_report;
