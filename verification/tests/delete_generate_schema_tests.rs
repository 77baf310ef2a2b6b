use gtogl::delete::from_report::handler::{delete_project_url, delete_projects, handler, ProjectDeletion};
use gtogl::error::GtoglError;
use gtogl::generate::config::codecommit::handler::{
    handler as generate_handler, name_batches, repository_names, RepositoryInfo, BATCH_SIZE,
};
use gtogl::http::{is_server_error, private_token_header};
use gtogl::migrate::{Migration, MigrationReportItem, Project};
use gtogl::schema::{config, report, BANNER};

fn project(id: u32, name: &str) -> Project {
    Project { id, name: name.to_string(), path_with_namespace: format!("g/{}", name) }
}

#[test]
fn delete_url_of_project() {
    assert_eq!(delete_project_url("https://g", 42), "https://g/api/v4/projects/42/");
    assert_eq!(delete_project_url("https://g", 0), "https://g/api/v4/projects/0/");
}

#[test]
fn delete_projects_in_order() {
    let deletions = delete_projects(vec![project(1, "a"), project(20, "b")], "https://g");
    assert_eq!(
        deletions,
        vec![
            ProjectDeletion { project: project(1, "a"), url: "https://g/api/v4/projects/1/".to_string() },
            ProjectDeletion { project: project(20, "b"), url: "https://g/api/v4/projects/20/".to_string() },
        ]
    );
    assert!(delete_projects(vec![], "https://g").is_empty());
}

#[test]
fn delete_handler_trims_url_and_takes_report_projects() {
    let items = vec![
        MigrationReportItem { git_lab_project: project(5, "a"), old_url: "o".to_string(), new_url: "n".to_string() },
        MigrationReportItem { git_lab_project: project(6, "b"), old_url: "o2".to_string(), new_url: "n2".to_string() },
    ];
    let deletions = handler(items, "https://g/");
    assert_eq!(deletions.len(), 2);
    assert_eq!(deletions[0].project, project(5, "a"));
    assert_eq!(deletions[0].url, "https://g/api/v4/projects/5/");
    assert_eq!(deletions[1].url, "https://g/api/v4/projects/6/");
}

#[test]
fn token_header() {
    assert_eq!(private_token_header("glpat-123").unwrap().to_str().unwrap(), "glpat-123");
    assert_eq!(private_token_header("tab\there").unwrap().as_bytes(), b"tab\there");
    assert_eq!(private_token_header("line\nbreak").err(), Some(GtoglError::InvalidToken));
    assert_eq!(private_token_header("del\u{7f}").err(), Some(GtoglError::InvalidToken));
    assert!(private_token_header("").is_ok());
    assert!(private_token_header("ünicode").is_ok());
}

#[test]
fn server_errors() {
    assert!(!is_server_error(200));
    assert!(!is_server_error(499));
    assert!(is_server_error(500));
    assert!(is_server_error(599));
    assert!(!is_server_error(600));
}

#[test]
fn names_skip_missing() {
    let listed = vec![Some("a".to_string()), None, Some("b".to_string())];
    assert_eq!(repository_names(&listed), vec!["a", "b"]);
}

#[test]
fn batches_of_twenty_five() {
    let names: Vec<String> = (0..60).map(|i| format!("r{}", i)).collect();
    let batches = name_batches(&names);
    assert_eq!(batches.len(), 3);
    assert_eq!(batches[0].len(), BATCH_SIZE);
    assert_eq!(batches[1].len(), 25);
    assert_eq!(batches[2].len(), 10);
    let flat: Vec<String> = batches.concat();
    assert_eq!(flat, names);
    assert!(name_batches(&vec![]).is_empty());
    assert_eq!(name_batches(&names[..25].to_vec()).len(), 1);
}

#[test]
fn generated_config() {
    let repos = vec![
        RepositoryInfo { repository_name: Some("a".to_string()), clone_url_http: Some("https://cc/a".to_string()) },
        RepositoryInfo { repository_name: None, clone_url_http: Some("https://cc/x".to_string()) },
        RepositoryInfo { repository_name: Some("y".to_string()), clone_url_http: None },
        RepositoryInfo { repository_name: Some("b".to_string()), clone_url_http: Some("https://cc/b".to_string()) },
    ];
    let config = generate_handler("https://g/", Some("12".to_string()), &repos);
    assert_eq!(config.version, "v1");
    assert_eq!(config.git_lab_url, "https://g/");
    assert_eq!(
        config.migrations,
        vec![
            Migration {
                source: "https://cc/a".to_string(),
                destination_namespace_id: Some("12".to_string()),
                destination_name: "a".to_string(),
            },
            Migration {
                source: "https://cc/b".to_string(),
                destination_namespace_id: Some("12".to_string()),
                destination_name: "b".to_string(),
            },
        ]
    );
    let no_ns = generate_handler("https://g", None, &repos);
    assert_eq!(no_ns.migrations[0].destination_namespace_id, None);
}

#[test]
fn schema_output() {
    let out = config::handle();
    assert!(out.starts_with(&format!("{}\n{{", BANNER)));
    assert!(out.ends_with(&format!("}}\n{}\n", BANNER)));
    assert_eq!(out, format!("{}\n{}\n{}\n", BANNER, config::CONFIG_RAW_SCHEMA, BANNER));
    assert!(config::CONFIG_RAW_SCHEMA.contains("\"gitLabUrl\""));
    let out = report::handle();
    assert_eq!(out, format!("{}\n{}\n{}\n", BANNER, report::REPORT_RAW_SCHEMA, BANNER));
    assert!(report::REPORT_RAW_SCHEMA.contains("\"path_with_namespace\""));
    assert_eq!(BANNER.len(), 34);
}
