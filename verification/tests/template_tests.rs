use murex::builtin::{
    BASH_MAIN_SH, BUN_BUN_JS, GO_MAIN_GO, GO_MOD, NODE_INDEX_JS, NODE_PACKAGE_JSON,
    PYTHON_MAIN_PY, PYTHON_REQUIREMENTS, RUST_CARGO_TOML, RUST_MAIN_RS, RUST_README,
    ZSH_MAIN_ZSH, builtin_project_files, extension_of, instantiate_file, is_substitutable_path,
    substitute_placeholders,
};
use murex::error::Error;
use murex::templates::{InstantiationPlan, TemplateManager, TemplateType};

#[test]
fn list_templates_starts_with_the_builtins_sorted() {
    let catalog = TemplateManager::new();
    let listed = catalog.list_templates();
    assert_eq!(listed, vec!["bash", "bun", "go", "node", "python", "rust", "zsh"]);
}

#[test]
fn list_templates_includes_custom_registrations() {
    let mut catalog = TemplateManager::new();
    catalog
        .add_template("mytpl".to_string(), "/tmp/tpl".to_string(), true)
        .expect("a directory path must register");
    let listed = catalog.list_templates();
    assert_eq!(
        listed,
        vec!["bash", "bun", "go", "mytpl", "node", "python", "rust", "zsh"]
    );
}

#[test]
fn add_template_rejects_a_missing_directory() {
    let mut catalog = TemplateManager::new();
    match catalog.add_template("t".to_string(), "/nope".to_string(), false) {
        Err(Error::InvalidPath(p)) => assert_eq!(p, "/nope"),
        _ => panic!("a path that is not a directory must be rejected"),
    }
    assert_eq!(catalog.list_templates().len(), 7);
}

#[test]
fn add_template_replaces_a_prior_registration() {
    let mut catalog = TemplateManager::new();
    catalog.add_template("t".to_string(), "/a".to_string(), true).expect("must register");
    catalog.add_template("t".to_string(), "/b".to_string(), true).expect("must register");
    assert_eq!(catalog.list_templates().iter().filter(|s| *s == "t").count(), 1);
    assert_eq!(catalog.get_template("t").expect("t is registered").path, "/b");
}

#[test]
fn remove_template_needs_a_registration() {
    let mut catalog = TemplateManager::new();
    catalog.add_template("t".to_string(), "/a".to_string(), true).expect("must register");
    catalog.remove_template("t").expect("t was registered");
    match catalog.remove_template("t") {
        Err(Error::NotFound(n)) => assert_eq!(n, "t"),
        _ => panic!("removing an unregistered template must fail"),
    }
}

#[test]
fn catalog_document_round_trip() {
    let mut catalog = TemplateManager::new();
    catalog.add_template("one".to_string(), "/pa;th".to_string(), true).expect("register");
    catalog.add_template("two".to_string(), "/other".to_string(), true).expect("register");
    let doc = catalog.to_document();
    let loaded = TemplateManager::from_document(&doc).expect("own document must parse");
    assert_eq!(loaded.get_template("one").expect("kept").path, "/pa;th");
    assert_eq!(loaded.get_template("two").expect("kept").path, "/other");
    assert!(loaded.get_template("three").is_none());
}

#[test]
fn malformed_catalog_document_is_a_parse_error() {
    assert!(matches!(TemplateManager::from_document("zzz"), Err(Error::Parse)));
}

#[test]
fn unknown_template_is_rejected_with_no_files() {
    let catalog = TemplateManager::new();
    match catalog.create_project_from_template("nonexistent", "x") {
        Err(Error::UnknownTemplate(t)) => assert_eq!(t, "nonexistent"),
        _ => panic!("an unregistered identifier must be rejected"),
    }
}

#[test]
fn custom_template_dispatches_to_its_source_directory() {
    let mut catalog = TemplateManager::new();
    catalog.add_template("mine".to_string(), "/tpl/src".to_string(), true).expect("register");
    match catalog.create_project_from_template("mine", "demo") {
        Ok(InstantiationPlan::CustomCopy(src)) => assert_eq!(src, "/tpl/src"),
        _ => panic!("a registered custom template must be copied"),
    }
}

#[test]
fn builtin_rust_files_interpolate_the_name() {
    let files = builtin_project_files("rust", "demo").expect("rust is a built-in");
    assert_eq!(files.len(), 3);
    assert_eq!(files[0].path, "Cargo.toml");
    assert_eq!(files[0].content, RUST_CARGO_TOML.replace("{{PROJECT_NAME}}", "demo"));
    assert_eq!(files[1].path, "src/main.rs");
    assert_eq!(files[1].content, RUST_MAIN_RS.replace("{{PROJECT_NAME}}", "demo"));
    assert_eq!(files[2].path, "README.md");
    assert_eq!(files[2].content, RUST_README.replace("{{PROJECT_NAME}}", "demo"));
    assert!(files[0].content.starts_with("[package]\nname = \"demo\"\n"));
}

#[test]
fn every_builtin_synthesizes_its_file_set() {
    let cases: Vec<(&str, Vec<&str>)> = vec![
        ("rust", vec!["Cargo.toml", "src/main.rs", "README.md"]),
        ("python", vec!["main.py", "requirements.txt", "README.md"]),
        ("node", vec!["package.json", "index.js", "README.md"]),
        ("go", vec!["go.mod", "main.go", "README.md"]),
        ("bash", vec!["main.sh", "README.md"]),
        ("zsh", vec!["main.zsh", "README.md"]),
        ("bun", vec!["bun.js", "README.md"]),
    ];
    for (template, expected) in cases {
        let files = builtin_project_files(template, "demo").expect("built-in template");
        let paths: Vec<&str> = files.iter().map(|f| f.path.as_str()).collect();
        assert_eq!(paths, expected, "file set of template {}", template);
    }
    assert!(builtin_project_files("mycustom", "demo").is_none());
}

#[test]
fn builtin_contents_match_an_independent_substitution() {
    let all = vec![
        ("python", 0, PYTHON_MAIN_PY),
        ("python", 1, PYTHON_REQUIREMENTS),
        ("node", 0, NODE_PACKAGE_JSON),
        ("node", 1, NODE_INDEX_JS),
        ("go", 0, GO_MOD),
        ("go", 1, GO_MAIN_GO),
        ("bash", 0, BASH_MAIN_SH),
        ("zsh", 0, ZSH_MAIN_ZSH),
        ("bun", 0, BUN_BUN_JS),
    ];
    for (template, idx, raw) in all {
        let files = builtin_project_files(template, "my-tool").expect("built-in template");
        assert_eq!(
            files[idx].content,
            raw.replace("{{PROJECT_NAME}}", "my-tool"),
            "content {} of template {}",
            idx,
            template
        );
    }
}

#[test]
fn placeholder_substitution_is_scoped_to_text_extensions() {
    let content = "# {{PROJECT_NAME}}\nbinary? {{PROJECT_NAME}}";
    let md = instantiate_file("notes.md", content, "demo");
    assert_eq!(md, "# demo\nbinary? demo");
    let png = instantiate_file("logo.png", content, "demo");
    assert_eq!(png, content);
}

#[test]
fn substitutable_paths_follow_the_allow_list() {
    assert!(is_substitutable_path("a.rs"));
    assert!(is_substitutable_path("deep/dir/a.py"));
    assert!(is_substitutable_path("x.js"));
    assert!(is_substitutable_path("x.go"));
    assert!(is_substitutable_path("x.md"));
    assert!(is_substitutable_path("Cargo.toml"));
    assert!(is_substitutable_path("pkg.json"));
    assert!(!is_substitutable_path("logo.png"));
    assert!(!is_substitutable_path("archive.tar.gz"));
    assert!(!is_substitutable_path(".gitignore"));
    assert!(!is_substitutable_path("no_extension"));
    assert!(!is_substitutable_path("dir.md/file"));
}

#[test]
fn extension_of_reads_the_last_segment() {
    assert_eq!(extension_of("a/b/c.rs").as_deref(), Some("rs"));
    assert_eq!(extension_of("a.tar.gz").as_deref(), Some("gz"));
    assert_eq!(extension_of("trailing.").as_deref(), Some(""));
    assert_eq!(extension_of(".hidden"), None);
    assert_eq!(extension_of("plain"), None);
    assert_eq!(extension_of("dir.d/plain"), None);
}

#[test]
fn substitution_handles_repeats_and_near_misses() {
    assert_eq!(
        substitute_placeholders("{{PROJECT_NAME}}{{PROJECT_NAME}}", "ab"),
        "abab"
    );
    assert_eq!(substitute_placeholders("{{PROJECT_NAME", "ab"), "{{PROJECT_NAME");
    assert_eq!(substitute_placeholders("", "ab"), "");
    assert_eq!(
        substitute_placeholders("x{{PROJECT_NAME}}y", "{{PROJECT_NAME}}"),
        "x{{PROJECT_NAME}}y"
    );
}

#[test]
fn template_type_identifiers_round_trip() {
    for name in ["rust", "python", "node", "go", "bash", "zsh", "bun", "weird"] {
        let t = TemplateType::from_name(name);
        assert_eq!(t.name(), name);
    }
    assert!(matches!(TemplateType::from_name("rust"), TemplateType::Rust));
    assert!(matches!(TemplateType::from_name("other"), TemplateType::Custom(_)));
}
