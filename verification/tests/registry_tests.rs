use murex::config::Config;
use murex::error::Error;
use murex::manager::{BuildPlan, ProjectManager};
use murex::registry::{Project, ProjectRegistry};
use murex::templates::{InstantiationPlan, TemplateManager};

fn record(name: &str, template: &str) -> Project {
    Project::new(
        name.to_string(),
        format!("/tmp/{}", name),
        template.to_string(),
    )
}

fn test_config() -> Config {
    Config {
        default_template: "rust".to_string(),
        projects_dir: "/home/u/murex-projects".to_string(),
        bin_dir: "/home/u/murex-projects/bin".to_string(),
        auto_build: false,
        editor: None,
    }
}

#[test]
fn add_project_is_an_upsert() {
    let mut reg = ProjectRegistry::empty();
    reg.add_project(record("foo", "rust"));
    reg.add_project(record("bar", "go"));
    reg.add_project(record("foo", "python"));
    assert_eq!(reg.projects.len(), 2);
    let found = reg.get_project("foo").expect("foo must be present");
    assert_eq!(found.template, "python");
    assert_eq!(reg.get_project("bar").expect("bar must be present").template, "go");
}

#[test]
fn remove_project_reports_whether_it_removed() {
    let mut reg = ProjectRegistry::empty();
    reg.add_project(record("foo", "rust"));
    assert!(reg.remove_project("foo"));
    assert!(!reg.remove_project("foo"));
    assert!(reg.get_project("foo").is_none());
}

#[test]
fn list_projects_keeps_order() {
    let mut reg = ProjectRegistry::empty();
    reg.add_project(record("a", "rust"));
    reg.add_project(record("b", "go"));
    let listed = reg.list_projects();
    assert_eq!(listed.len(), 2);
    assert_eq!(listed[0].name, "a");
    assert_eq!(listed[1].name, "b");
}

#[test]
fn registry_document_round_trip() {
    let mut reg = ProjectRegistry::empty();
    let mut p = record("we;ird\\name", "rust");
    p.last_built = Some("2024-01-02 03:04:05 UTC".to_string());
    reg.add_project(p);
    reg.add_project(record("plain", "custom;tpl"));
    let doc = reg.to_document();
    let loaded = ProjectRegistry::from_document(&doc).expect("own document must parse");
    assert_eq!(loaded.projects.len(), 2);
    assert_eq!(loaded.projects[0].name, "we;ird\\name");
    assert_eq!(loaded.projects[0].template, "rust");
    assert_eq!(loaded.projects[0].path, reg.projects[0].path);
    assert_eq!(loaded.projects[0].created_at, reg.projects[0].created_at);
    assert_eq!(
        loaded.projects[0].last_built.as_deref(),
        Some("2024-01-02 03:04:05 UTC")
    );
    assert_eq!(loaded.projects[1].name, "plain");
    assert_eq!(loaded.projects[1].last_built, None);
}

#[test]
fn uniqueness_survives_the_round_trip() {
    let mut reg = ProjectRegistry::empty();
    reg.add_project(record("foo", "rust"));
    reg.add_project(record("bar", "node"));
    reg.add_project(record("foo", "go"));
    let loaded =
        ProjectRegistry::from_document(&reg.to_document()).expect("own document must parse");
    assert_eq!(loaded.projects.len(), 2);
    let names: Vec<&str> = loaded.projects.iter().map(|p| p.name.as_str()).collect();
    assert_eq!(names.iter().filter(|n| **n == "foo").count(), 1);
    assert_eq!(loaded.get_project("foo").expect("foo is tracked").template, "go");
}

#[test]
fn empty_registry_round_trip() {
    let reg = ProjectRegistry::empty();
    let doc = reg.to_document();
    assert_eq!(doc, "");
    let loaded = ProjectRegistry::from_document(&doc).expect("empty document is fine");
    assert!(loaded.projects.is_empty());
}

#[test]
fn malformed_registry_document_is_a_parse_error() {
    let r = ProjectRegistry::from_document("unterminated field");
    assert!(matches!(r, Err(Error::Parse)));
    let r2 = ProjectRegistry::from_document("a;b;c;");
    assert!(matches!(r2, Err(Error::Parse)));
}

#[test]
fn create_then_get_finds_the_new_record() {
    let catalog = TemplateManager::new();
    let config = test_config();
    let mut mgr = ProjectManager::new(ProjectRegistry::empty(), config);
    let (project, plan) = mgr
        .create_project("foo".to_string(), "rust".to_string(), false, &catalog)
        .expect("creating foo from the rust template must work");
    assert_eq!(project.name, "foo");
    assert_eq!(project.template, "rust");
    assert_eq!(project.path, "/home/u/murex-projects/foo");
    assert_eq!(project.last_built, None);
    match plan {
        InstantiationPlan::Builtin(files) => {
            let paths: Vec<&str> = files.iter().map(|f| f.path.as_str()).collect();
            assert_eq!(paths, vec!["Cargo.toml", "src/main.rs", "README.md"]);
        }
        InstantiationPlan::CustomCopy(_) => panic!("rust is a built-in template"),
    }
    let fetched = mgr.get_project("foo").expect("foo was just created");
    assert_eq!(fetched.name, "foo");
    assert_eq!(fetched.template, "rust");
    assert_eq!(fetched.created_at, project.created_at);
}

#[test]
fn create_does_not_clobber_an_occupied_path() {
    let catalog = TemplateManager::new();
    let mut mgr = ProjectManager::new(ProjectRegistry::empty(), test_config());
    let before = mgr.registry_document();
    let r = mgr.create_project("foo".to_string(), "rust".to_string(), true, &catalog);
    match r {
        Err(Error::AlreadyExists(path)) => {
            assert_eq!(path, "/home/u/murex-projects/foo");
        }
        _ => panic!("an occupied path must be rejected"),
    }
    assert_eq!(mgr.registry_document(), before);
    assert!(!mgr.project_exists("foo"));
}

#[test]
fn create_rejects_an_unknown_template() {
    let catalog = TemplateManager::new();
    let mut mgr = ProjectManager::new(ProjectRegistry::empty(), test_config());
    let r = mgr.create_project("foo".to_string(), "nonexistent".to_string(), false, &catalog);
    match r {
        Err(Error::UnknownTemplate(t)) => assert_eq!(t, "nonexistent"),
        _ => panic!("an unknown template must be rejected"),
    }
    assert!(!mgr.project_exists("foo"));
}

#[test]
fn remove_cleans_the_registry_entry() {
    let catalog = TemplateManager::new();
    let mut mgr = ProjectManager::new(ProjectRegistry::empty(), test_config());
    mgr.create_project("foo".to_string(), "rust".to_string(), false, &catalog)
        .expect("creating foo must work");
    assert!(mgr.project_exists("foo"));
    mgr.remove_project("foo").expect("removing foo must work");
    assert!(!mgr.project_exists("foo"));
    match mgr.get_project("foo") {
        Err(Error::NotFound(n)) => assert_eq!(n, "foo"),
        _ => panic!("a removed project must not be found"),
    }
    match mgr.remove_project("foo") {
        Err(Error::NotFound(n)) => assert_eq!(n, "foo"),
        _ => panic!("removing an absent project must fail"),
    }
}

#[test]
fn manager_lists_snapshot_copies() {
    let catalog = TemplateManager::new();
    let mut mgr = ProjectManager::new(ProjectRegistry::empty(), test_config());
    mgr.create_project("a".to_string(), "go".to_string(), false, &catalog)
        .expect("creating a must work");
    mgr.create_project("b".to_string(), "bash".to_string(), false, &catalog)
        .expect("creating b must work");
    let listed = mgr.list_projects();
    assert_eq!(listed.len(), 2);
    assert_eq!(listed[0].name, "a");
    assert_eq!(listed[1].name, "b");
}

#[test]
fn build_dispatches_by_template() {
    assert!(matches!(record("x", "rust").build(true), Ok(BuildPlan::Rust)));
    assert!(matches!(record("x", "python").build(true), Ok(BuildPlan::Python)));
    assert!(matches!(record("x", "node").build(true), Ok(BuildPlan::Node)));
    assert!(matches!(record("x", "go").build(true), Ok(BuildPlan::Go)));
    assert!(matches!(record("x", "bash").build(true), Ok(BuildPlan::Bash)));
    assert!(matches!(record("x", "zsh").build(true), Ok(BuildPlan::Zsh)));
    assert!(matches!(record("x", "bun").build(true), Ok(BuildPlan::Bun)));
}

#[test]
fn build_needs_the_directory_and_a_builtin_template() {
    match record("x", "rust").build(false) {
        Err(Error::NotFound(p)) => assert_eq!(p, "/tmp/x"),
        _ => panic!("a missing directory must abort the build"),
    }
    match record("x", "mycustom").build(true) {
        Err(Error::UnknownTemplate(t)) => assert_eq!(t, "mycustom"),
        _ => panic!("a custom template has no build convention"),
    }
}

#[test]
fn error_messages_name_the_offender() {
    assert!(Error::AlreadyExists("/p".to_string()).message().contains("/p"));
    assert!(Error::NotFound("foo".to_string()).message().contains("foo"));
    assert!(Error::UnknownTemplate("t".to_string()).message().contains("t"));
    assert!(Error::InvalidPath("/q".to_string()).message().contains("/q"));
    assert!(Error::Parse.message().contains("malformed"));
    assert!(Error::Io("disk full".to_string()).message().contains("disk full"));
    assert!(Error::BuildFailed("bad crate".to_string()).message().contains("bad crate"));
}
