//! Verified core of the Git-to-GitLab migration tool: the data model of the
//! config and report documents, and the decisions of the migrate, replace,
//! delete, generate and schema commands.

pub mod error;
pub mod http;
pub mod lists;
pub mod migrate;
pub mod text;
pub mod replace;
pub mod delete;
pub mod generate;
pub mod schema;
