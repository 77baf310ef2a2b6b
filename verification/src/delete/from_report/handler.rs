//! Which DELETE requests remove the projects of a migration report.

use vstd::prelude::*;
use vstd::string::StringExecFns;

use crate::migrate::model::{MigrationReportItem, Project};
use crate::text::{decimal_value, lemma_decimal_digits, lemma_decimal_value, join_strs, decimal_spec, trim_trailing_slash, trim_trailing_slash_spec, u64_to_decimal};

verus! {

/// A project to delete and the API endpoint that deletes it.
#[derive(Debug, PartialEq, Eq)]
pub struct ProjectDeletion {
    pub project: Project,
    pub url: String,
}

/// The endpoint that deletes a project: `<GitLab URL>/api/v4/projects/<id>/`.
pub open spec fn delete_project_url_spec(git_lab_url: Seq<char>, id: u32) -> Seq<char> {
    git_lab_url + "/api/v4/projects/"@ + decimal_spec(id as nat) + "/"@
}

/// The endpoint that deletes the project with `id`.
pub fn delete_project_url(git_lab_url: &str, id: u32) -> (res: String)
    ensures
        res@ == delete_project_url_spec(git_lab_url@, id),
{
    let mut url = join_strs(git_lab_url, "/api/v4/projects/");
    url.append(u64_to_decimal(id as u64).as_str());
    url.append("/");
    url
}

/// One deletion per project, in order, each with its endpoint.
pub open spec fn deletions_match(deletions: Seq<ProjectDeletion>, projects: Seq<Project>, git_lab_url: Seq<char>) -> bool {
    &&& deletions.len() == projects.len()
    &&& forall|i: int|
        0 <= i < projects.len() ==> {
            &&& (#[trigger] deletions[i]).project == projects[i]
            &&& deletions[i].url@ == delete_project_url_spec(git_lab_url, projects[i].id)
        }
}

/// The deletions of the given projects under the GitLab URL `git_lab_url`.
pub fn delete_projects(projects: Vec<Project>, git_lab_url: &str) -> (res: Vec<ProjectDeletion>)
    ensures
        deletions_match(res@, projects@, git_lab_url@),
{
    let ghost all = projects@;
    let mut rest = projects;
    let mut reversed: Vec<ProjectDeletion> = Vec::new();
    while rest.len() > 0
        invariant
            all.len() == rest@.len() + reversed@.len(),
            rest@ == all.take(rest@.len() as int),
            forall|j: int|
                0 <= j < reversed@.len() ==> {
                    &&& (#[trigger] reversed@[j]).project == all[all.len() - 1 - j]
                    &&& reversed@[j].url@ == delete_project_url_spec(git_lab_url@, all[all.len() - 1 - j].id)
                },
        decreases rest.len(),
    {
        let project = rest.pop().unwrap();
        let url = delete_project_url(git_lab_url, project.id);
        reversed.push(ProjectDeletion { project, url });
        assert(rest@ =~= all.take(rest@.len() as int));
    }
    let mut res: Vec<ProjectDeletion> = Vec::new();
    while reversed.len() > 0
        invariant
            all.len() == reversed@.len() + res@.len(),
            forall|j: int|
                0 <= j < reversed@.len() ==> {
                    &&& (#[trigger] reversed@[j]).project == all[all.len() - 1 - j]
                    &&& reversed@[j].url@ == delete_project_url_spec(git_lab_url@, all[all.len() - 1 - j].id)
                },
            deletions_match(res@, all.take(res@.len() as int), git_lab_url@),
        decreases reversed.len(),
    {
        let deletion = reversed.pop().unwrap();
        res.push(deletion);
        assert forall|i: int| 0 <= i < res@.len() implies {
            &&& (#[trigger] res@[i]).project == all.take(res@.len() as int)[i]
            &&& res@[i].url@ == delete_project_url_spec(git_lab_url@, all.take(res@.len() as int)[i].id)
        } by {
            if i < res@.len() - 1 {
                assert(all.take(res@.len() as int)[i] == all.take(res@.len() - 1)[i]);
            }
        }
    }
    assert(all.take(all.len() as int) =~= all);
    res
}

/// The GitLab projects of a report, in report order.
pub open spec fn report_projects(items: Seq<MigrationReportItem>) -> Seq<Project> {
    items.map_values(|item: MigrationReportItem| item.git_lab_project)
}

/// The deletions that remove every project of a migration report; one
/// trailing `/` is removed from the GitLab URL first.
pub fn handler(migration_items: Vec<MigrationReportItem>, git_lab_url: &str) -> (res: Vec<ProjectDeletion>)
    ensures
        deletions_match(res@, report_projects(migration_items@), trim_trailing_slash_spec(git_lab_url@)),
{
    let git_lab_url_refined = trim_trailing_slash(git_lab_url);
    let ghost items = migration_items@;
    let mut projects: Vec<Project> = Vec::new();
    let mut rest = migration_items;
    let mut reversed: Vec<Project> = Vec::new();
    while rest.len() > 0
        invariant
            items.len() == rest@.len() + reversed@.len(),
            rest@ == items.take(rest@.len() as int),
            forall|j: int| 0 <= j < reversed@.len() ==> #[trigger] reversed@[j] == items[items.len() - 1 - j].git_lab_project,
        decreases rest.len(),
    {
        let item = rest.pop().unwrap();
        reversed.push(item.git_lab_project);
        assert(rest@ =~= items.take(rest@.len() as int));
    }
    while reversed.len() > 0
        invariant
            items.len() == reversed@.len() + projects@.len(),
            forall|j: int| 0 <= j < reversed@.len() ==> #[trigger] reversed@[j] == items[items.len() - 1 - j].git_lab_project,
            projects@ == report_projects(items.take(projects@.len() as int)),
        decreases reversed.len(),
    {
        let project = reversed.pop().unwrap();
        projects.push(project);
        assert(projects@ =~= report_projects(items.take(projects@.len() as int)));
    }
    assert(items.take(items.len() as int) =~= items);
    delete_projects(projects, git_lab_url_refined.as_str())
}


/// The delete endpoint names the project it deletes: it is the GitLab URL,
/// then `/api/v4/projects/`, then decimal digits that denote exactly the
/// project's id, then `/`.
pub proof fn lemma_delete_url_names_project(git_lab_url: Seq<char>, id: u32)
    ensures
        ({
            let url = delete_project_url_spec(git_lab_url, id);
            let start = git_lab_url.len() as int + 17;
            &&& url.len() > start + 1
            &&& url.subrange(0, start) == git_lab_url + "/api/v4/projects/"@
            &&& url.last() == '/'
            &&& decimal_value(url.subrange(start, url.len() - 1)) == id
            &&& forall|i: int| start <= i < url.len() - 1 ==> '0' <= #[trigger] url[i] <= '9'
        }),
{
    reveal_strlit("/api/v4/projects/");
    reveal_strlit("/");
    let digits = decimal_spec(id as nat);
    let url = delete_project_url_spec(git_lab_url, id);
    let start = git_lab_url.len() as int + 17;
    lemma_decimal_value(id as nat);
    lemma_decimal_digits(id as nat);
    assert(url =~= (git_lab_url + "/api/v4/projects/"@) + digits + seq!['/']);
    assert(url.subrange(0, start) =~= git_lab_url + "/api/v4/projects/"@);
    assert(url.subrange(start, url.len() - 1) =~= digits);
    assert forall|i: int| start <= i < url.len() - 1 implies '0' <= #[trigger] url[i] <= '9' by {
        assert(url[i] == digits[i - start]);
    }
}

} // verus!
