use gtogl::migrate::{MigrationReportItem, Project};
use gtogl::replace::handler::replace_folder_name;
use gtogl::replace::util::{
    add_args, after_add, after_clone, after_commit, after_push, after_rewrites, clone_args, commit_args,
    is_change_candidate, push_args, rewrite_sources, start_replace, tmp_file_path, tt_changes_path, ReplaceFailure,
};

fn item(name: &str, old: &str, new: &str) -> MigrationReportItem {
    MigrationReportItem {
        git_lab_project: Project { id: 1, name: name.to_string(), path_with_namespace: format!("g/{}", name) },
        old_url: old.to_string(),
        new_url: new.to_string(),
    }
}

#[test]
fn replace_folder() {
    assert_eq!(replace_folder_name(1700000000000), "rep-1700000000000");
}

#[test]
fn paths_and_commands() {
    let repo = item("infra", "https://old/infra", "https://new/g/infra");
    let path = tt_changes_path("rep-1", &repo);
    assert_eq!(path, "rep-1/infra-tt-changes");
    assert_eq!(clone_args(&repo, &path), vec!["clone", "https://new/g/infra", "rep-1/infra-tt-changes"]);
    assert_eq!(tmp_file_path("a/main.tf"), "a/main.tf.tmp");
    assert_eq!(add_args(), vec!["add", "-A"]);
    assert_eq!(commit_args(), vec!["commit", "-m", "Migration changes"]);
    assert_eq!(push_args(), vec!["push"]);
}

#[test]
fn change_candidates() {
    assert!(is_change_candidate("repo/main.tf"));
    assert!(is_change_candidate("repo/live/terragrunt.hcl"));
    assert!(!is_change_candidate("repo/.terraform.lock.hcl"));
    assert!(!is_change_candidate("repo/sub/.terraform.lock.hcl"));
    assert!(!is_change_candidate("repo/README.md"));
    assert!(!is_change_candidate("repo/main.tf.json"));
    assert!(!is_change_candidate("repo"));
}

#[test]
fn rewrite_sources_of_migrated_repos() {
    let repos = vec![
        item("a", "https://old/a", "https://gitlab/g/a"),
        item("b", "https://old/b", "https://gitlab/g/b"),
    ];
    let content = "module \"a\" {\n  source = \"git::https://old/a//modules/x?ref=v1\"\n}\nmodule \"b\" {\n  source = \"git::https://old/b\"\n}\nmodule \"c\" {\n  source = \"git::https://old/c\"\n}\n";
    let expected = "module \"a\" {\n  source = \"git::https://gitlab/g/a//modules/x?ref=v1\"\n}\nmodule \"b\" {\n  source = \"git::https://gitlab/g/b\"\n}\nmodule \"c\" {\n  source = \"git::https://old/c\"\n}\n";
    assert_eq!(rewrite_sources(content, &repos), expected);
}

#[test]
fn rewrite_is_sequential_in_report_order() {
    // The second repository's old URL is the first one's new URL: its rewrite
    // applies to the result of the first.
    let repos = vec![item("a", "https://x", "https://y"), item("b", "https://y", "https://z")];
    assert_eq!(rewrite_sources("git::https://x", &repos), "git::https://z");
}

#[test]
fn rewrite_without_repos_or_sources() {
    assert_eq!(rewrite_sources("source = \"git::https://old/a\"", &vec![]), "source = \"git::https://old/a\"");
    let repos = vec![item("a", "https://old/a", "https://new/a")];
    assert_eq!(rewrite_sources("source = \"./local\"", &repos), "source = \"./local\"");
    // A URL without the git:: prefix is not a Git source and stays.
    assert_eq!(rewrite_sources("url = \"https://old/a\"", &repos), "url = \"https://old/a\"");
}

#[test]
fn rewrite_with_unchanged_urls() {
    let repos = vec![item("a", "https://same", "https://same")];
    assert_eq!(rewrite_sources("git::https://same", &repos), "git::https://same");
}

#[test]
fn rewrite_migrated_source() {
    let repo = item("a", "https://old/a", "https://new/a");
    assert_eq!(rewrite_sources("git::https://old/a", &vec![repo]), "git::https://new/a");
}

#[test]
fn replace_steps_in_order() {
    let repo = item("infra", "https://old/infra", "https://new/g/infra");
    let clone = start_replace(&repo, "rep-1");
    assert_eq!(clone.path, "rep-1/infra-tt-changes");
    assert_eq!(clone.args, vec!["clone", "https://new/g/infra", "rep-1/infra-tt-changes"]);
    let rewrite = after_clone(clone, true).ok().unwrap();
    assert_eq!(rewrite.path, "rep-1/infra-tt-changes");
    let add = after_rewrites(rewrite);
    assert_eq!(add.args, vec!["add", "-A"]);
    let commit = after_add(add, true).ok().unwrap();
    assert_eq!(commit.args, vec!["commit", "-m", "Migration changes"]);
    let push = after_commit(commit, true).ok().unwrap();
    assert_eq!(push.args, vec!["push"]);
    assert_eq!(push.path, "rep-1/infra-tt-changes");
    assert!(after_push(true).is_ok());
}

#[test]
fn replace_stops_at_failures() {
    let repo = item("infra", "https://old/infra", "https://new/g/infra");
    assert_eq!(after_clone(start_replace(&repo, "r"), false).err(), Some(ReplaceFailure::Clone));
    let add = after_rewrites(after_clone(start_replace(&repo, "r"), true).ok().unwrap());
    assert_eq!(after_add(add, false).err(), Some(ReplaceFailure::Add));
    let add = after_rewrites(after_clone(start_replace(&repo, "r"), true).ok().unwrap());
    let commit = after_add(add, true).ok().unwrap();
    assert_eq!(after_commit(commit, false).err(), Some(ReplaceFailure::Commit));
    assert_eq!(after_push(false), Err(ReplaceFailure::Push));
}
