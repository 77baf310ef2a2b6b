//! The replace command: in every repository of a migration report, rewrite
//! the Terraform and Terragrunt sources that point at a migrated repository
//! so that they point at its new GitLab URL, then commit and push.

pub mod handler;
pub mod util;
