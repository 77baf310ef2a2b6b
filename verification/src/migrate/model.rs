//! The documents of the tool: the migration config (input of the migrate
//! command) and the migration report (its output, the input of the replace
//! and delete commands).

use vstd::prelude::*;

verus! {

/// The migration config document.
#[derive(Debug, PartialEq, Eq)]
pub struct Config {
    /// The version of the config document (currently `v1`).
    pub version: String,
    /// The URL of the GitLab instance to migrate to.
    pub git_lab_url: String,
    /// The repositories to migrate.
    pub migrations: Vec<Migration>,
}

/// One repository to migrate.
#[derive(Debug, Clone, PartialEq, Eq)]
pub struct Migration {
    /// The URL of the Git repository migrated from.
    pub source: String,
    /// The GitLab group or user ID that receives the new project, if any.
    pub destination_namespace_id: Option<String>,
    /// The name of the GitLab project to create.
    pub destination_name: String,
}

/// A repository on its way to GitLab.
#[derive(Debug, Clone, PartialEq, Eq)]
pub struct MigratedRepository {
    pub migration: Migration,
    pub destination_url: String,
    pub rename_url: String,
    pub repo_path: String,
}

/// One entry of the migration report.
#[derive(Debug, PartialEq, Eq)]
pub struct MigrationReportItem {
    /// The GitLab project that was created.
    pub git_lab_project: Project,
    /// The URL of the repository migrated from.
    pub old_url: String,
    /// The URL of the new GitLab repository.
    pub new_url: String,
}

/// A GitLab project, as the GitLab API describes it.
#[derive(Debug, PartialEq, Eq)]
pub struct Project {
    pub id: u32,
    pub name: String,
    pub path_with_namespace: String,
}

} // verus!
