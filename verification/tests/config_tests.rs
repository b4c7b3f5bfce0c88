use murex::config::{
    Config, get_config_dir, get_config_file_path, get_projects_file_path,
    get_templates_file_path,
};
use murex::error::Error;

fn sample() -> Config {
    Config {
        default_template: "go".to_string(),
        projects_dir: "/home/u/projects".to_string(),
        bin_dir: "/home/u/projects/bin".to_string(),
        auto_build: true,
        editor: Some("vim".to_string()),
    }
}

#[test]
fn first_run_defaults() {
    let c = Config::default_config(Some("hx".to_string()));
    assert_eq!(c.default_template, "rust");
    assert!(c.projects_dir.ends_with("/murex-projects"));
    assert_eq!(c.bin_dir, format!("{}/bin", c.projects_dir));
    assert!(!c.auto_build);
    assert_eq!(c.editor.as_deref(), Some("hx"));
    let without = Config::default_config(None);
    assert_eq!(without.editor, None);
}

#[test]
fn config_document_round_trip() {
    let c = sample();
    let doc = c.to_document();
    let loaded = Config::from_document(&doc).expect("own document must parse");
    assert_eq!(loaded.default_template, "go");
    assert_eq!(loaded.projects_dir, "/home/u/projects");
    assert_eq!(loaded.bin_dir, "/home/u/projects/bin");
    assert!(loaded.auto_build);
    assert_eq!(loaded.editor.as_deref(), Some("vim"));
}

#[test]
fn config_document_round_trip_without_editor() {
    let mut c = sample();
    c.auto_build = false;
    c.editor = None;
    let doc = c.to_document();
    let loaded = Config::from_document(&doc).expect("own document must parse");
    assert!(!loaded.auto_build);
    assert_eq!(loaded.editor, None);
}

#[test]
fn malformed_config_documents_are_rejected() {
    assert!(matches!(Config::from_document(""), Err(Error::Parse)));
    assert!(matches!(Config::from_document("a;b;c;"), Err(Error::Parse)));
    // a bad auto-build flag
    assert!(matches!(Config::from_document("a;b;c;x;n;"), Err(Error::Parse)));
    // trailing garbage after a well-formed document
    let mut doc = sample().to_document();
    doc.push_str("extra");
    assert!(matches!(Config::from_document(&doc), Err(Error::Parse)));
}

#[test]
fn set_value_updates_known_keys_only() {
    let mut c = sample();
    assert!(c.set_value("default_template", "node"));
    assert_eq!(c.default_template, "node");
    assert!(c.set_value("projects_dir", "/elsewhere"));
    assert_eq!(c.projects_dir, "/elsewhere");
    assert!(c.set_value("bin_dir", "/bin2"));
    assert_eq!(c.bin_dir, "/bin2");
    assert!(c.set_value("auto_build", "true"));
    assert!(c.auto_build);
    assert!(c.set_value("auto_build", "yes"));
    assert!(!c.auto_build);
    assert!(!c.set_value("editor_color", "blue"));
    assert_eq!(c.default_template, "node");
}

#[test]
fn state_paths_share_the_config_directory() {
    // These consult the environment's configuration directory; when it
    // is known, every document path sits directly under the tool's own
    // directory.
    match get_config_dir() {
        Ok(dir) => {
            assert!(dir.ends_with("/murex"));
            assert_eq!(get_config_file_path().expect("same env"), format!("{}/config.toml", dir));
            assert_eq!(
                get_projects_file_path().expect("same env"),
                format!("{}/projects.json", dir)
            );
            assert_eq!(
                get_templates_file_path().expect("same env"),
                format!("{}/templates.json", dir)
            );
        }
        Err(e) => {
            assert!(matches!(e, Error::NotFound(_)));
        }
    }
}
