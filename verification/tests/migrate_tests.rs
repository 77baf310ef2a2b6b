use gtogl::error::GtoglError;
use gtogl::migrate::config::{config_format, migration_folder_name, read_config, ConfigFormat};
use gtogl::migrate::handler::{migration_order, report_file_name, MigrationReport};
use gtogl::migrate::util::{
    after_clone, after_create_project, after_push, clone_bare_args, create_project_payload, create_project_request,
    create_project_url, destination_repo_url, push_mirror_args, repo_path, report_item, start_migration,
    MigrationFailure,
};
use gtogl::migrate::{Config, Migration, MigrationReportItem, Project};

fn migration(name: &str, ns: Option<&str>) -> Migration {
    Migration {
        source: format!("https://old.example.com/{}", name),
        destination_namespace_id: ns.map(String::from),
        destination_name: name.to_string(),
    }
}

fn project(id: u32, name: &str) -> Project {
    Project { id, name: name.to_string(), path_with_namespace: format!("group/{}", name) }
}

#[test]
fn config_format_by_first_character() {
    assert_eq!(config_format("{\"version\": \"v1\"}"), ConfigFormat::Json);
    assert_eq!(config_format("version: v1"), ConfigFormat::Yaml);
    assert_eq!(config_format(" {"), ConfigFormat::Yaml);
    assert_eq!(config_format(""), ConfigFormat::Yaml);
}

#[test]
fn read_config_normalises_url() {
    let config = Config {
        version: "v1".to_string(),
        git_lab_url: "https://gitlab.example.com/".to_string(),
        migrations: vec![migration("a", Some("1"))],
    };
    let (config, folder, token) = read_config(config, 1690000000123, "secret".to_string());
    assert_eq!(config.git_lab_url, "https://gitlab.example.com");
    assert_eq!(config.version, "v1");
    assert_eq!(config.migrations, vec![migration("a", Some("1"))]);
    assert_eq!(folder, "mig-1690000000123");
    assert_eq!(token, "secret");
}

#[test]
fn read_config_keeps_url_without_slash() {
    let config = Config { version: "v1".to_string(), git_lab_url: "https://g".to_string(), migrations: vec![] };
    let (config, _, _) = read_config(config, 0, String::new());
    assert_eq!(config.git_lab_url, "https://g");
}

#[test]
fn folder_name_of_negative_timestamp() {
    assert_eq!(migration_folder_name(-12), "mig--12");
}

#[test]
fn migration_steps() {
    let m = migration("proj", Some("7"));
    let path = repo_path("mig-1", &m);
    assert_eq!(path, "mig-1/proj");
    assert_eq!(clone_bare_args(&m, &path), vec!["clone", "--bare", "https://old.example.com/proj", "mig-1/proj"]);
    assert_eq!(create_project_url("https://g"), "https://g/api/v4/projects");
    let p = project(3, "proj");
    let dest = destination_repo_url("https://g", &p);
    assert_eq!(dest, "https://g/group/proj");
    assert_eq!(push_mirror_args(&dest), vec!["push", "--mirror", "https://g/group/proj"]);
    let item = report_item(m, project(3, "proj"), dest);
    assert_eq!(
        item,
        MigrationReportItem {
            git_lab_project: project(3, "proj"),
            old_url: "https://old.example.com/proj".to_string(),
            new_url: "https://g/group/proj".to_string(),
        }
    );
}

#[test]
fn payload_with_and_without_namespace() {
    let with_ns = create_project_payload(&migration("p", Some("9")));
    assert_eq!(
        with_ns,
        vec![
            ("name".to_string(), "p".to_string()),
            ("namespace_id".to_string(), "9".to_string()),
            ("initialize_with_readme".to_string(), "false".to_string()),
        ]
    );
    let without_ns = create_project_payload(&migration("p", None));
    assert_eq!(
        without_ns,
        vec![("name".to_string(), "p".to_string()), ("initialize_with_readme".to_string(), "false".to_string())]
    );
}

#[test]
fn create_project_request_checks_token() {
    let m = migration("p", None);
    let request = create_project_request(&m, "https://g", "glpat-abc").unwrap();
    assert_eq!(request.url, "https://g/api/v4/projects");
    assert_eq!(request.token.to_str().unwrap(), "glpat-abc");
    assert_eq!(request.payload.len(), 2);
    assert_eq!(create_project_request(&m, "https://g", "bad\ntoken").err(), Some(GtoglError::InvalidToken));
}

#[test]
fn report_file_in_folder() {
    assert_eq!(report_file_name("mig-5"), "mig-5/report.yaml");
}

#[test]
fn migrations_start_from_the_end() {
    let order = migration_order(vec![migration("a", None), migration("b", None), migration("c", None)]);
    let names: Vec<&str> = order.iter().map(|m| m.destination_name.as_str()).collect();
    assert_eq!(names, vec!["c", "b", "a"]);
    assert!(migration_order(vec![]).is_empty());
}

#[test]
fn report_grows_with_successes_only() {
    let (mut report, write_now) = MigrationReport::new();
    assert!(write_now);
    assert!(report.items().is_empty());
    let item = MigrationReportItem { git_lab_project: project(1, "a"), old_url: "o".to_string(), new_url: "n".to_string() };
    assert!(report.record::<String>(Ok(item)));
    assert_eq!(report.items().len(), 1);
    assert!(!report.record::<String>(Err("clone failed".to_string())));
    assert_eq!(report.items().len(), 1);
    let second = MigrationReportItem { git_lab_project: project(2, "b"), old_url: "o2".to_string(), new_url: "n2".to_string() };
    assert!(report.record::<String>(Ok(second)));
    let ids: Vec<u32> = report.items().iter().map(|i| i.git_lab_project.id).collect();
    assert_eq!(ids, vec![1, 2]);
}

#[test]
fn migration_steps_in_order() {
    let clone = start_migration(migration("proj", None), "mig-1");
    assert_eq!(clone.repo_path, "mig-1/proj");
    assert_eq!(clone.args, vec!["clone", "--bare", "https://old.example.com/proj", "mig-1/proj"]);
    let create = after_clone(clone, true, "https://g", "tok").ok().unwrap();
    assert_eq!(create.request.url, "https://g/api/v4/projects");
    assert_eq!(create.request.token.to_str().unwrap(), "tok");
    let push = after_create_project(create, "https://g", Some(project(4, "proj"))).ok().unwrap();
    assert_eq!(push.destination_repo_url, "https://g/group/proj");
    assert_eq!(push.args, vec!["push", "--mirror", "https://g/group/proj"]);
    assert_eq!(push.repo_path, "mig-1/proj");
    let item = after_push(push, true).unwrap();
    assert_eq!(item.old_url, "https://old.example.com/proj");
    assert_eq!(item.new_url, "https://g/group/proj");
    assert_eq!(item.git_lab_project, project(4, "proj"));
}

#[test]
fn migration_stops_at_failures() {
    let clone = start_migration(migration("p", None), "mig");
    assert_eq!(after_clone(clone, false, "https://g", "tok").err(), Some(MigrationFailure::Clone));
    let clone = start_migration(migration("p", None), "mig");
    assert_eq!(after_clone(clone, true, "https://g", "bad\ntok").err(), Some(MigrationFailure::InvalidToken));
    let clone = start_migration(migration("p", None), "mig");
    let create = after_clone(clone, true, "https://g", "tok").ok().unwrap();
    assert_eq!(after_create_project(create, "https://g", None).err(), Some(MigrationFailure::CreateProject));
    let clone = start_migration(migration("p", None), "mig");
    let create = after_clone(clone, true, "https://g", "tok").ok().unwrap();
    let push = after_create_project(create, "https://g", Some(project(1, "p"))).ok().unwrap();
    assert_eq!(after_push(push, false).err(), Some(MigrationFailure::Push));
}

#[test]
fn distinct_timestamps_give_distinct_folders() {
    assert_ne!(migration_folder_name(1), migration_folder_name(2));
    assert_ne!(migration_folder_name(-1), migration_folder_name(1));
    assert_ne!(migration_folder_name(10), migration_folder_name(1));
    assert_ne!(
        gtogl::replace::handler::replace_folder_name(5),
        gtogl::replace::handler::replace_folder_name(50)
    );
}
