use murex::config::Config;
use murex::error::Error;
use murex::path_manager::{PathManager, install_entries};
use murex::registry::Project;
use murex::strutil::{path_join, replace_all_str, sort_strings, split_str, str_eq, str_le};
use murex::utils::{
    first_present_index, is_valid_project_dir, main_file_candidates, project_marker_files,
    validate_project_name,
};

fn test_config() -> Config {
    Config {
        default_template: "rust".to_string(),
        projects_dir: "/home/u/murex-projects".to_string(),
        bin_dir: "/home/u/.murex/bin".to_string(),
        auto_build: false,
        editor: None,
    }
}

fn project(name: &str, template: &str) -> Project {
    Project::new(name.to_string(), format!("/proj/{}", name), template.to_string())
}

#[test]
fn rust_candidates_prefer_the_release_build() {
    let pm = PathManager::new(test_config());
    let cands = pm.binary_candidates(&project("foo", "rust")).expect("rust has a convention");
    assert_eq!(
        cands,
        vec![
            "/proj/foo/target/release/foo".to_string(),
            "/proj/foo/target/debug/foo".to_string(),
        ]
    );
}

#[test]
fn single_candidate_templates() {
    let pm = PathManager::new(test_config());
    let cases = vec![
        ("go", "/proj/foo/foo"),
        ("python", "/proj/foo/main.py"),
        ("node", "/proj/foo/index.js"),
        ("bash", "/proj/foo/main.sh"),
        ("zsh", "/proj/foo/main.zsh"),
        ("bun", "/proj/foo/bun.js"),
    ];
    for (template, expected) in cases {
        let cands = pm.binary_candidates(&project("foo", template)).expect("built-in");
        assert_eq!(cands, vec![expected.to_string()], "template {}", template);
    }
}

#[test]
fn resolution_falls_back_to_the_debug_build() {
    let pm = PathManager::new(test_config());
    let p = project("foo", "rust");
    let got = pm.find_project_binary(&p, &vec![false, true]).expect("debug build present");
    assert_eq!(got, "/proj/foo/target/debug/foo");
    let release = pm.find_project_binary(&p, &vec![true, true]).expect("release preferred");
    assert_eq!(release, "/proj/foo/target/release/foo");
    match pm.find_project_binary(&p, &vec![false, false]) {
        Err(Error::NotFound(n)) => assert_eq!(n, "foo"),
        _ => panic!("with no artifact present resolution must fail"),
    }
}

#[test]
fn unknown_template_has_no_artifact_convention() {
    let pm = PathManager::new(test_config());
    match pm.binary_candidates(&project("foo", "mycustom")) {
        Err(Error::UnknownTemplate(t)) => assert_eq!(t, "mycustom"),
        _ => panic!("a custom template has no convention"),
    }
    match pm.find_project_binary(&project("foo", "mycustom"), &vec![]) {
        Err(Error::UnknownTemplate(t)) => assert_eq!(t, "mycustom"),
        _ => panic!("a custom template has no convention"),
    }
}

#[test]
fn binary_exists_swallows_the_error() {
    let pm = PathManager::new(test_config());
    let p = project("foo", "go");
    assert!(pm.binary_exists(&p, &vec![true]));
    assert!(!pm.binary_exists(&p, &vec![false]));
    assert!(!pm.binary_exists(&project("foo", "mycustom"), &vec![]));
}

#[test]
fn installing_twice_leaves_one_entry() {
    let entries = vec!["alpha".to_string(), "foo".to_string(), "beta".to_string()];
    let once = install_entries(&entries, "foo");
    assert_eq!(once, vec!["alpha".to_string(), "beta".to_string(), "foo".to_string()]);
    let twice = install_entries(&once, "foo");
    assert_eq!(twice, once);
    assert_eq!(once.iter().filter(|e| *e == "foo").count(), 1);
}

#[test]
fn install_target_sits_under_the_bin_dir() {
    let pm = PathManager::new(test_config());
    assert_eq!(pm.install_target("foo"), "/home/u/.murex/bin/foo");
}

#[test]
fn bin_dir_membership_is_exact_per_segment() {
    let pm = PathManager::new(test_config());
    assert!(pm.is_bin_dir_in_path("/usr/bin:/home/u/.murex/bin:/sbin"));
    assert!(pm.is_bin_dir_in_path("/home/u/.murex/bin"));
    assert!(!pm.is_bin_dir_in_path("/usr/bin:/home/u/.murex/binx"));
    assert!(!pm.is_bin_dir_in_path("/usr/bin:/home/u/.murex/bin/"));
    assert!(!pm.is_bin_dir_in_path(""));
}

#[test]
fn path_instructions_depend_on_the_shell() {
    let pm = PathManager::new(test_config());
    assert_eq!(pm.get_path_instructions("/usr/bin/fish"), "fish_add_path /home/u/.murex/bin");
    assert_eq!(
        pm.get_path_instructions("/bin/zsh"),
        "export PATH=\"/home/u/.murex/bin:$PATH\""
    );
    assert_eq!(
        pm.get_path_instructions("/bin/bash"),
        "export PATH=\"/home/u/.murex/bin:$PATH\""
    );
}

#[test]
fn list_installed_sorts_names() {
    let pm = PathManager::new(test_config());
    let names = vec!["zeta".to_string(), "alpha".to_string(), "midway".to_string()];
    assert_eq!(
        pm.list_installed(&names),
        vec!["alpha".to_string(), "midway".to_string(), "zeta".to_string()]
    );
}

#[test]
fn string_helpers_behave() {
    assert_eq!(path_join("/a/b", "c"), "/a/b/c");
    assert_eq!(split_str("a:b::c", ':'), vec!["a", "b", "", "c"]);
    assert_eq!(split_str("", ':'), vec![""]);
    assert!(str_eq("same", "same"));
    assert!(!str_eq("same", "sam"));
    assert!(str_le("abc", "abd"));
    assert!(str_le("ab", "abc"));
    assert!(!str_le("b", "ab"));
    assert_eq!(replace_all_str("xyxyx", "xy", "z"), "zzx");
    assert_eq!(replace_all_str("aaa", "aa", "b"), "ba");
}

#[test]
fn sort_keeps_duplicates() {
    let v = vec!["b".to_string(), "a".to_string(), "b".to_string()];
    assert_eq!(
        sort_strings(&v),
        vec!["a".to_string(), "b".to_string(), "b".to_string()]
    );
}

#[test]
fn project_names_are_validated() {
    assert!(validate_project_name("my-tool_2").is_ok());
    assert!(validate_project_name("caf\u{e9}").is_ok());
    let empty = validate_project_name("").expect_err("empty names are invalid");
    assert!(empty.contains("empty"));
    let long = "x".repeat(65);
    assert!(validate_project_name(&long).is_err());
    assert!(validate_project_name(&"x".repeat(64)).is_ok());
    assert!(validate_project_name("has space").is_err());
    assert!(validate_project_name("-lead").is_err());
    assert!(validate_project_name("_lead").is_err());
    assert!(validate_project_name("mid-dash_ok").is_ok());
}

#[test]
fn project_dir_detection_needs_a_marker() {
    let markers = project_marker_files();
    assert_eq!(markers.len(), 5);
    assert_eq!(markers[0], "Cargo.toml");
    assert!(is_valid_project_dir(true, &vec![false, false, true, false, false]));
    assert!(!is_valid_project_dir(true, &vec![false, false, false, false, false]));
    assert!(!is_valid_project_dir(false, &vec![true, true, true, true, true]));
}

#[test]
fn main_file_candidates_are_ordered() {
    let cands = main_file_candidates();
    assert_eq!(cands[0], "src/main.rs");
    assert_eq!(cands.len(), 8);
    assert_eq!(first_present_index(&vec![false, true, true]), Some(1));
    assert_eq!(first_present_index(&vec![false, false]), None);
}
