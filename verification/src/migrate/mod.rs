//! The migrate command: clone each configured repository, create its GitLab
//! project, push a mirror and record it in the report.

pub mod config;
pub mod handler;
pub mod model;
pub mod util;

pub use model::{Config, MigratedRepository, Migration, MigrationReportItem, Project};
