//! The steps of migrating one repository: `git clone --bare` into the
//! working directory, create the GitLab project through the API, then
//! `git push --mirror` to it. The commands and the HTTP request are run by
//! the caller; this module decides what they are and what is reported.

use reqwest::header::HeaderValue;
use vstd::prelude::*;

use crate::error::GtoglError;
use crate::http::{header_value_of, is_valid_header_value, private_token_header};
use vstd::string::StringSliceAdditionalSpecFns;
use crate::migrate::model::{Migration, MigrationReportItem, Project};
use crate::text::{join_strs, join_with_slash, slash_join};

verus! {

/// Where a migration clones its repository: `<folder>/<destination name>`.
pub fn repo_path(migration_folder_name: &str, migration: &Migration) -> (res: String)
    ensures
        res@ == slash_join(migration_folder_name@, migration.destination_name@),
{
    join_with_slash(migration_folder_name, migration.destination_name.as_str())
}

/// The arguments of `git clone --bare <source> <repo path>`.
pub fn clone_bare_args(migration: &Migration, repo_path: &str) -> (res: Vec<String>)
    ensures
        res@.len() == 4,
        res@[0]@ == "clone"@,
        res@[1]@ == "--bare"@,
        res@[2]@ == migration.source@,
        res@[3]@ == repo_path@,
{
    vec!["clone".to_owned(), "--bare".to_owned(), migration.source.clone(), repo_path.to_owned()]
}

/// The GitLab API endpoint that creates projects: `<GitLab URL>/api/v4/projects`.
pub fn create_project_url(git_lab_url: &str) -> (res: String)
    ensures
        res@ == git_lab_url@ + "/api/v4/projects"@,
{
    join_strs(git_lab_url, "/api/v4/projects")
}

/// The fields of the project-creation request: the project's name, its
/// namespace when the migration names one, and no README.
pub open spec fn create_project_payload_spec(migration: Migration) -> Seq<(Seq<char>, Seq<char>)> {
    match migration.destination_namespace_id {
        Some(namespace_id) => seq![
            ("name"@, migration.destination_name@),
            ("namespace_id"@, namespace_id@),
            ("initialize_with_readme"@, "false"@),
        ],
        None => seq![
            ("name"@, migration.destination_name@),
            ("initialize_with_readme"@, "false"@),
        ],
    }
}

/// The project-creation request names the project after the migration,
/// sends the migration's namespace exactly when it has one, and asks for no
/// README; its fields are distinct.
pub proof fn lemma_create_project_payload(migration: Migration)
    ensures
        ({
            let payload = create_project_payload_spec(migration);
            &&& payload.len() >= 2
            &&& payload[0] == ("name"@, migration.destination_name@)
            &&& payload.last() == ("initialize_with_readme"@, "false"@)
            &&& (exists|i: int| 0 <= i < payload.len() && (#[trigger] payload[i]).0 == "namespace_id"@)
                <==> migration.destination_namespace_id is Some
            &&& forall|i: int|
                0 <= i < payload.len() && (#[trigger] payload[i]).0 == "namespace_id"@
                    ==> payload[i].1 == migration.destination_namespace_id->0@
            &&& forall|i: int, j: int| 0 <= i < j < payload.len() ==> (#[trigger] payload[i]).0 != (#[trigger] payload[j]).0
        }),
{
    reveal_strlit("name");
    reveal_strlit("namespace_id");
    reveal_strlit("initialize_with_readme");
    let payload = create_project_payload_spec(migration);
    assert("name"@.len() != "namespace_id"@.len());
    assert("name"@.len() != "initialize_with_readme"@.len());
    assert("namespace_id"@.len() != "initialize_with_readme"@.len());
    match migration.destination_namespace_id {
        Some(ns) => {
            assert(payload[1].0 == "namespace_id"@);
        },
        None => {
            assert forall|i: int| 0 <= i < payload.len() implies (#[trigger] payload[i]).0 != "namespace_id"@ by {
                assert(payload[i].0.len() != "namespace_id"@.len());
            }
        },
    }
}

/// The view of a list of string pairs.
pub open spec fn pairs_view(pairs: Seq<(String, String)>) -> Seq<(Seq<char>, Seq<char>)> {
    pairs.map_values(|p: (String, String)| (p.0@, p.1@))
}

/// The JSON fields of the request that creates the GitLab project.
pub fn create_project_payload(migration: &Migration) -> (res: Vec<(String, String)>)
    ensures
        pairs_view(res@) == create_project_payload_spec(*migration),
{
    let mut payload: Vec<(String, String)> = Vec::new();
    payload.push(("name".to_owned(), migration.destination_name.clone()));
    match &migration.destination_namespace_id {
        Some(namespace_id) => {
            payload.push(("namespace_id".to_owned(), namespace_id.clone()));
        },
        None => {},
    }
    payload.push(("initialize_with_readme".to_owned(), "false".to_owned()));
    assert(pairs_view(payload@) =~= create_project_payload_spec(*migration));
    payload
}

/// The request that creates a migration's GitLab project.
pub struct CreateProjectRequest {
    /// The endpoint to POST to.
    pub url: String,
    /// The value of the `PRIVATE-TOKEN` header.
    pub token: HeaderValue,
    /// The JSON fields of the body.
    pub payload: Vec<(String, String)>,
}

/// The request that creates the GitLab project of a migration, or
/// `InvalidToken` when the token cannot be sent in a header.
pub fn create_project_request(migration: &Migration, git_lab_url: &str, git_lab_token: &str) -> (res:
    Result<CreateProjectRequest, GtoglError>)
    ensures
        res is Ok <==> is_valid_header_value(git_lab_token),
        res matches Err(e) ==> e == GtoglError::InvalidToken,
        res matches Ok(request) ==> {
            &&& request.url@ == git_lab_url@ + "/api/v4/projects"@
            &&& request.token == header_value_of(git_lab_token.spec_bytes())
            &&& pairs_view(request.payload@) == create_project_payload_spec(*migration)
        },
{
    let url = create_project_url(git_lab_url);
    let token = private_token_header(git_lab_token)?;
    let payload = create_project_payload(migration);
    Ok(CreateProjectRequest { url, token, payload })
}

/// The URL of the new GitLab repository: `<GitLab URL>/<path with namespace>`.
pub fn destination_repo_url(git_lab_url: &str, project: &Project) -> (res: String)
    ensures
        res@ == slash_join(git_lab_url@, project.path_with_namespace@),
{
    join_with_slash(git_lab_url, project.path_with_namespace.as_str())
}

/// The arguments of `git push --mirror <destination URL>`.
pub fn push_mirror_args(destination_repo_url: &str) -> (res: Vec<String>)
    ensures
        res@.len() == 3,
        res@[0]@ == "push"@,
        res@[1]@ == "--mirror"@,
        res@[2]@ == destination_repo_url@,
{
    vec!["push".to_owned(), "--mirror".to_owned(), destination_repo_url.to_owned()]
}

/// The report entry of a finished migration: the created project, the
/// source URL as the old URL and the pushed-to URL as the new one.
pub fn report_item(migration: Migration, project: Project, destination_repo_url: String) -> (res: MigrationReportItem)
    ensures
        res.git_lab_project == project,
        res.old_url == migration.source,
        res.new_url == destination_repo_url,
{
    MigrationReportItem { git_lab_project: project, old_url: migration.source, new_url: destination_repo_url }
}

/// Why the migration of one repository stopped.
#[derive(Debug, Clone, Copy, PartialEq, Eq)]
pub enum MigrationFailure {
    /// `git clone --bare` could not be run.
    Clone,
    /// The GitLab token cannot be sent in a header.
    InvalidToken,
    /// The project-creation request failed or its reply is not a project.
    CreateProject,
    /// `git push --mirror` could not be run.
    Push,
}

/// The first step of a migration: cloning the source repository.
pub struct CloneBare {
    /// The migration under way.
    pub migration: Migration,
    /// Where the repository is cloned.
    pub repo_path: String,
    /// The arguments of the `git` command to run.
    pub args: Vec<String>,
}

/// The second step: creating the GitLab project, once the clone has run.
pub struct CreateProject {
    pub migration: Migration,
    pub repo_path: String,
    /// The request to send.
    pub request: CreateProjectRequest,
}

/// The last step: pushing the mirror, once the project exists.
pub struct PushMirror {
    pub migration: Migration,
    /// The created project.
    pub project: Project,
    /// The URL of the new repository.
    pub destination_repo_url: String,
    /// The working directory of the `git` command.
    pub repo_path: String,
    /// The arguments of the `git` command to run.
    pub args: Vec<String>,
}

/// Starts the migration of one repository: it is first cloned into the
/// migration's working directory.
pub fn start_migration(migration: Migration, migration_folder_name: &str) -> (step: CloneBare)
    ensures
        step.migration == migration,
        step.repo_path@ == slash_join(migration_folder_name@, migration.destination_name@),
        step.args@.len() == 4,
        step.args@[0]@ == "clone"@,
        step.args@[1]@ == "--bare"@,
        step.args@[2]@ == migration.source@,
        step.args@[3]@ == step.repo_path@,
{
    let repo_path = repo_path(migration_folder_name, &migration);
    let args = clone_bare_args(&migration, repo_path.as_str());
    CloneBare { migration, repo_path, args }
}

/// The step after the clone: when the clone could not be run the migration
/// stops; otherwise the project is created next, unless the token cannot be
/// sent in a header.
pub fn after_clone(step: CloneBare, cloned: bool, git_lab_url: &str, git_lab_token: &str) -> (next: Result<
    CreateProject,
    MigrationFailure,
>)
    ensures
        !cloned ==> next == Err::<CreateProject, MigrationFailure>(MigrationFailure::Clone),
        cloned && !is_valid_header_value(git_lab_token) ==> next == Err::<CreateProject, MigrationFailure>(
            MigrationFailure::InvalidToken,
        ),
        cloned && is_valid_header_value(git_lab_token) ==> next is Ok,
        next matches Ok(create) ==> {
            &&& create.migration == step.migration
            &&& create.repo_path == step.repo_path
            &&& create.request.url@ == git_lab_url@ + "/api/v4/projects"@
            &&& create.request.token == header_value_of(git_lab_token.spec_bytes())
            &&& pairs_view(create.request.payload@) == create_project_payload_spec(step.migration)
        },
{
    if !cloned {
        return Err(MigrationFailure::Clone);
    }
    match create_project_request(&step.migration, git_lab_url, git_lab_token) {
        Ok(request) => Ok(CreateProject { migration: step.migration, repo_path: step.repo_path, request }),
        Err(_) => Err(MigrationFailure::InvalidToken),
    }
}

/// The step after the project-creation request: without a created project
/// the migration stops; with one, its new repository is pushed to next.
pub fn after_create_project(step: CreateProject, git_lab_url: &str, project: Option<Project>) -> (next: Result<
    PushMirror,
    MigrationFailure,
>)
    ensures
        project is None ==> next == Err::<PushMirror, MigrationFailure>(MigrationFailure::CreateProject),
        project matches Some(p) ==> (next matches Ok(push) && {
            &&& push.migration == step.migration
            &&& push.project == p
            &&& push.repo_path == step.repo_path
            &&& push.destination_repo_url@ == slash_join(git_lab_url@, p.path_with_namespace@)
            &&& push.args@.len() == 3
            &&& push.args@[0]@ == "push"@
            &&& push.args@[1]@ == "--mirror"@
            &&& push.args@[2]@ == push.destination_repo_url@
        }),
{
    match project {
        None => Err(MigrationFailure::CreateProject),
        Some(project) => {
            let destination_repo_url = destination_repo_url(git_lab_url, &project);
            let args = push_mirror_args(destination_repo_url.as_str());
            Ok(PushMirror { migration: step.migration, project, destination_repo_url, repo_path: step.repo_path, args })
        },
    }
}

/// The end of a migration: when the push could not be run it failed;
/// otherwise it is reported with its source as old URL and the pushed-to
/// repository as new URL.
pub fn after_push(step: PushMirror, pushed: bool) -> (res: Result<MigrationReportItem, MigrationFailure>)
    ensures
        !pushed ==> res == Err::<MigrationReportItem, MigrationFailure>(MigrationFailure::Push),
        pushed ==> res == Ok::<MigrationReportItem, MigrationFailure>(
            MigrationReportItem {
                git_lab_project: step.project,
                old_url: step.migration.source,
                new_url: step.destination_repo_url,
            },
        ),
{
    if !pushed {
        return Err(MigrationFailure::Push);
    }
    Ok(report_item(step.migration, step.project, step.destination_repo_url))
}

} // verus!
