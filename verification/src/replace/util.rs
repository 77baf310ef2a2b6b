//! Rewriting the module sources of one migrated repository.

use vstd::prelude::*;
use vstd::string::StringExecFns;

use crate::migrate::model::MigrationReportItem;
use crate::text::{
    join_strs, ends_with, join_with_slash, lemma_replace_absent, lemma_replace_by_itself, lemma_replace_concat, occurs_at,
    replace_all, replace_spec, slash_join, str_ends_with,
};

verus! {

/// Where a repository is cloned for its changes:
/// `<folder>/<project name>-tt-changes`.
pub fn tt_changes_path(replace_folder_path: &str, migrated_repo: &MigrationReportItem) -> (res: String)
    ensures
        res@ == slash_join(replace_folder_path@, migrated_repo.git_lab_project.name@) + "-tt-changes"@,
{
    let mut path = join_with_slash(replace_folder_path, migrated_repo.git_lab_project.name.as_str());
    path.append("-tt-changes");
    path
}

/// The arguments of `git clone <new URL> <path>`.
pub fn clone_args(migrated_repo: &MigrationReportItem, tt_changes_path: &str) -> (res: Vec<String>)
    ensures
        res@.len() == 3,
        res@[0]@ == "clone"@,
        res@[1]@ == migrated_repo.new_url@,
        res@[2]@ == tt_changes_path@,
{
    vec!["clone".to_owned(), migrated_repo.new_url.clone(), tt_changes_path.to_owned()]
}

/// The files whose sources are rewritten: Terraform (`.tf`) and Terragrunt
/// or HCL (`.hcl`) files, but not Terraform lock files.
pub open spec fn is_change_candidate_spec(path: Seq<char>) -> bool {
    !ends_with(path, ".terraform.lock.hcl"@) && (ends_with(path, ".hcl"@) || ends_with(path, ".tf"@))
}

/// Whether the file at `path` is one whose sources are rewritten.
pub fn is_change_candidate(path: &str) -> (res: bool)
    ensures
        res == is_change_candidate_spec(path@),
{
    if str_ends_with(path, ".terraform.lock.hcl") {
        return false;
    }
    str_ends_with(path, ".hcl") || str_ends_with(path, ".tf")
}

/// How a module source names a Git repository: `git::<url>`.
pub open spec fn git_source(url: Seq<char>) -> Seq<char> {
    "git::"@ + url
}

/// The text of a file after the sources of the migrated repositories
/// `repos` are rewritten, one repository after the other in report order:
/// each `git::<old URL>` becomes `git::<new URL>`.
pub open spec fn rewrite_sources_spec(content: Seq<char>, repos: Seq<MigrationReportItem>) -> Seq<char>
    decreases repos.len(),
{
    if repos.len() == 0 {
        content
    } else {
        replace_spec(
            rewrite_sources_spec(content, repos.drop_last()),
            git_source(repos.last().old_url@),
            git_source(repos.last().new_url@),
        )
    }
}

/// Rewrites the module sources in `content` that point at a migrated
/// repository so that they point at its new URL.
pub fn rewrite_sources(content: &str, repos: &Vec<MigrationReportItem>) -> (res: String)
    ensures
        res@ == rewrite_sources_spec(content@, repos@),
{
    let mut text = content.to_owned();
    let mut i: usize = 0;
    proof {
        reveal_strlit("git::");
    }
    while i < repos.len()
        invariant
            i <= repos.len(),
            "git::"@.len() == 5,
            text@ == rewrite_sources_spec(content@, repos@.take(i as int)),
        decreases repos.len() - i,
    {
        let from = join_strs("git::", repos[i].old_url.as_str());
        let to = join_strs("git::", repos[i].new_url.as_str());
        text = replace_all(text.as_str(), from.as_str(), to.as_str());
        i = i + 1;
        assert(repos@.take(i as int).drop_last() =~= repos@.take(i - 1));
    }
    assert(repos@.take(repos.len() as int) =~= repos@);
    text
}

/// Where the new text of a file is written before it replaces the file:
/// `<path>.tmp`.
pub fn tmp_file_path(path: &str) -> (res: String)
    ensures
        res@ == path@ + ".tmp"@,
{
    join_strs(path, ".tmp")
}

/// The arguments of `git add -A`.
pub fn add_args() -> (res: Vec<String>)
    ensures
        res@.len() == 2,
        res@[0]@ == "add"@,
        res@[1]@ == "-A"@,
{
    vec!["add".to_owned(), "-A".to_owned()]
}

/// The arguments of `git commit -m "Migration changes"`.
pub fn commit_args() -> (res: Vec<String>)
    ensures
        res@.len() == 3,
        res@[0]@ == "commit"@,
        res@[1]@ == "-m"@,
        res@[2]@ == "Migration changes"@,
{
    vec!["commit".to_owned(), "-m".to_owned(), "Migration changes".to_owned()]
}

/// The arguments of `git push`.
pub fn push_args() -> (res: Vec<String>)
    ensures
        res@.len() == 1,
        res@[0]@ == "push"@,
{
    vec!["push".to_owned()]
}

/// Why the rewrite of one repository stopped.
#[derive(Debug, Clone, Copy, PartialEq, Eq)]
pub enum ReplaceFailure {
    /// `git clone` could not be run.
    Clone,
    /// `git add` could not be run.
    Add,
    /// `git commit` could not be run.
    Commit,
    /// `git push` could not be run.
    Push,
}

/// A `git` command to run in a repository's working copy.
pub struct GitStep {
    /// The working copy: `<folder>/<project name>-tt-changes`.
    pub path: String,
    /// The arguments of the command.
    pub args: Vec<String>,
}

/// The working copy once it is cloned, whose files are rewritten next.
pub struct RewriteFiles {
    /// The working copy to walk.
    pub path: String,
}

/// Starts the rewrite of one migrated repository: its new repository is
/// cloned into `<folder>/<project name>-tt-changes`.
pub fn start_replace(migrated_repo: &MigrationReportItem, replace_folder_path: &str) -> (step: GitStep)
    ensures
        step.path@ == slash_join(replace_folder_path@, migrated_repo.git_lab_project.name@) + "-tt-changes"@,
        step.args@.len() == 3,
        step.args@[0]@ == "clone"@,
        step.args@[1]@ == migrated_repo.new_url@,
        step.args@[2]@ == step.path@,
{
    let path = tt_changes_path(replace_folder_path, migrated_repo);
    let args = clone_args(migrated_repo, path.as_str());
    GitStep { path, args }
}

/// The step after the clone: when it could not be run the rewrite stops;
/// otherwise the files of the working copy are rewritten.
pub fn after_clone(step: GitStep, cloned: bool) -> (next: Result<RewriteFiles, ReplaceFailure>)
    ensures
        !cloned ==> next == Err::<RewriteFiles, ReplaceFailure>(ReplaceFailure::Clone),
        cloned ==> (next matches Ok(rewrite) && rewrite.path == step.path),
{
    if !cloned {
        return Err(ReplaceFailure::Clone);
    }
    Ok(RewriteFiles { path: step.path })
}

/// Once every file is rewritten, the changes are staged with `git add -A`.
pub fn after_rewrites(step: RewriteFiles) -> (next: GitStep)
    ensures
        next.path == step.path,
        next.args@.len() == 2,
        next.args@[0]@ == "add"@,
        next.args@[1]@ == "-A"@,
{
    GitStep { path: step.path, args: add_args() }
}

/// The step after `git add`: when it could not be run the rewrite stops;
/// otherwise the changes are committed.
pub fn after_add(step: GitStep, added: bool) -> (next: Result<GitStep, ReplaceFailure>)
    ensures
        !added ==> next == Err::<GitStep, ReplaceFailure>(ReplaceFailure::Add),
        added ==> (next matches Ok(commit) && {
            &&& commit.path == step.path
            &&& commit.args@.len() == 3
            &&& commit.args@[0]@ == "commit"@
            &&& commit.args@[1]@ == "-m"@
            &&& commit.args@[2]@ == "Migration changes"@
        }),
{
    if !added {
        return Err(ReplaceFailure::Add);
    }
    Ok(GitStep { path: step.path, args: commit_args() })
}

/// The step after `git commit`: when it could not be run the rewrite stops;
/// otherwise the commit is pushed.
pub fn after_commit(step: GitStep, committed: bool) -> (next: Result<GitStep, ReplaceFailure>)
    ensures
        !committed ==> next == Err::<GitStep, ReplaceFailure>(ReplaceFailure::Commit),
        committed ==> (next matches Ok(push) && {
            &&& push.path == step.path
            &&& push.args@.len() == 1
            &&& push.args@[0]@ == "push"@
        }),
{
    if !committed {
        return Err(ReplaceFailure::Commit);
    }
    Ok(GitStep { path: step.path, args: push_args() })
}

/// The end of a rewrite: it succeeded exactly when the push could be run.
pub fn after_push(pushed: bool) -> (res: Result<(), ReplaceFailure>)
    ensures
        !pushed ==> res == Err::<(), ReplaceFailure>(ReplaceFailure::Push),
        pushed ==> res is Ok,
{
    if pushed {
        Ok(())
    } else {
        Err(ReplaceFailure::Push)
    }
}

/// A report whose repositories all keep their URL changes no file.
pub proof fn lemma_rewrite_unchanged_urls(content: Seq<char>, repos: Seq<MigrationReportItem>)
    requires
        forall|i: int| 0 <= i < repos.len() ==> #[trigger] repos[i].old_url@ == repos[i].new_url@,
    ensures
        rewrite_sources_spec(content, repos) == content,
    decreases repos.len(),
{
    if repos.len() > 0 {
        let prefix = repos.drop_last();
        assert forall|i: int| 0 <= i < prefix.len() implies #[trigger] prefix[i].old_url@ == prefix[i].new_url@ by {
            assert(prefix[i] == repos[i]);
        }
        lemma_rewrite_unchanged_urls(content, prefix);
        assert(repos.last() == repos[repos.len() - 1]);
        lemma_replace_by_itself(content, git_source(repos.last().old_url@));
    }
}

/// A file in which no `git::` source occurs is left as it is, whatever the
/// report holds.
pub proof fn lemma_rewrite_without_git_sources(content: Seq<char>, repos: Seq<MigrationReportItem>)
    requires
        forall|i: int| !occurs_at(content, "git::"@, i),
    ensures
        rewrite_sources_spec(content, repos) == content,
    decreases repos.len(),
{
    if repos.len() > 0 {
        lemma_rewrite_without_git_sources(content, repos.drop_last());
        let from = git_source(repos.last().old_url@);
        let to = git_source(repos.last().new_url@);
        reveal_strlit("git::");
        assert forall|i: int| !occurs_at(content, from, i) by {
            if occurs_at(content, from, i) {
                assert(content.subrange(i, i + 5) =~= from.subrange(0, 5));
                assert(from.subrange(0, 5) =~= "git::"@);
                assert(occurs_at(content, "git::"@, i));
            }
        }
        lemma_replace_absent(content, from, to);
    }
}

/// A source that names exactly the old URL of a migrated repository is
/// rewritten to name its new URL.
pub proof fn lemma_rewrite_migrated_source(item: MigrationReportItem)
    ensures
        rewrite_sources_spec(git_source(item.old_url@), seq![item]) == git_source(item.new_url@),
{
    let from = git_source(item.old_url@);
    let to = git_source(item.new_url@);
    let repos = seq![item];
    reveal_strlit("git::");
    assert(repos.drop_last() =~= Seq::<MigrationReportItem>::empty());
    assert(repos.last() == item);
    assert(rewrite_sources_spec(from, repos.drop_last()) == from);
    assert(rewrite_sources_spec(from, repos) == replace_spec(from, from, to));
    assert(from.subrange(0, from.len() as int) =~= from);
    assert(occurs_at(from, from, 0));
    assert(from.skip(from.len() as int) =~= Seq::<char>::empty());
    assert(replace_spec(from, from, to) =~= to + replace_spec(Seq::<char>::empty(), from, to));
    assert(to + Seq::<char>::empty() =~= to);
}


/// Every Terraform file is rewritten, and every HCL file but Terraform lock
/// files; lock files never are, and nothing else is.
pub proof fn lemma_change_candidates(path: Seq<char>)
    ensures
        path.len() >= 3 && path.subrange(path.len() - 3, path.len() as int) == ".tf"@
            ==> is_change_candidate_spec(path),
        path.len() >= 4 && path.subrange(path.len() - 4, path.len() as int) == ".hcl"@ && !(path.len() >= 19
            && path.subrange(path.len() - 19, path.len() as int) == ".terraform.lock.hcl"@)
            ==> is_change_candidate_spec(path),
        path.len() >= 19 && path.subrange(path.len() - 19, path.len() as int) == ".terraform.lock.hcl"@
            ==> !is_change_candidate_spec(path),
        is_change_candidate_spec(path) ==> (path.len() >= 3 && path.subrange(path.len() - 3, path.len() as int)
            == ".tf"@) || (path.len() >= 4 && path.subrange(path.len() - 4, path.len() as int) == ".hcl"@),
{
    reveal_strlit(".tf");
    reveal_strlit(".hcl");
    reveal_strlit(".terraform.lock.hcl");
    let n = path.len() as int;
    if n >= 3 && path.subrange(n - 3, n) == ".tf"@ {
        if n >= 19 && path.subrange(n - 19, n) == ".terraform.lock.hcl"@ {
            assert(path.subrange(n - 3, n)[2] == path.subrange(n - 19, n)[18]);
        }
    }
}

/// With no migrated repositories, no file changes.
pub proof fn lemma_rewrite_no_repos(content: Seq<char>)
    ensures
        rewrite_sources_spec(content, Seq::<MigrationReportItem>::empty()) == content,
{
}

/// The rewrite for one repository replaces every `git::<old URL>` by
/// `git::<new URL>`, left to right and without overlap.
pub proof fn lemma_rewrite_one_repo(content: Seq<char>, repo: MigrationReportItem)
    ensures
        rewrite_sources_spec(content, seq![repo]) == replace_spec(content, "git::"@ + repo.old_url@, "git::"@
            + repo.new_url@),
{
    let repos = seq![repo];
    assert(repos.drop_last() =~= Seq::<MigrationReportItem>::empty());
    assert(repos.last() == repo);
    assert(rewrite_sources_spec(content, repos.drop_last()) == content);
    assert(git_source(repo.old_url@) == "git::"@ + repo.old_url@);
    assert(git_source(repo.new_url@) == "git::"@ + repo.new_url@);
}

/// The repositories of a report are rewritten one after the other: adding a
/// repository at the end of the report rewrites its sources in the text that
/// the earlier ones left.
pub proof fn lemma_rewrite_in_report_order(content: Seq<char>, repos: Seq<MigrationReportItem>, repo: MigrationReportItem)
    ensures
        rewrite_sources_spec(content, repos.push(repo)) == rewrite_sources_spec(
            rewrite_sources_spec(content, repos),
            seq![repo],
        ),
{
    lemma_rewrite_one_repo(rewrite_sources_spec(content, repos), repo);
    assert(repos.push(repo).drop_last() =~= repos);
    assert(repos.push(repo).last() == repo);
}

/// A file is rewritten piece by piece: when no source of the repository
/// straddles the border between two parts of a file, each part is rewritten
/// on its own, so every source of the repository is rewritten, wherever it
/// stands.
pub proof fn lemma_rewrite_pieces(s1: Seq<char>, s2: Seq<char>, repo: MigrationReportItem)
    requires
        forall|i: int|
            0 <= i < s1.len() && i + ("git::"@ + repo.old_url@).len() > s1.len() ==> !occurs_at(
                s1 + s2,
                "git::"@ + repo.old_url@,
                i,
            ),
    ensures
        rewrite_sources_spec(s1 + s2, seq![repo]) == rewrite_sources_spec(s1, seq![repo])
            + rewrite_sources_spec(s2, seq![repo]),
{
    reveal_strlit("git::");
    lemma_rewrite_one_repo(s1 + s2, repo);
    lemma_rewrite_one_repo(s1, repo);
    lemma_rewrite_one_repo(s2, repo);
    lemma_replace_concat(s1, s2, "git::"@ + repo.old_url@, "git::"@ + repo.new_url@);
}

} // verus!
