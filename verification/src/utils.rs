//! Small helpers: project-name validation, the markers that identify a
//! project directory, and the candidate files an editor opens first.
//! Probing the disk is the caller's; the decisions from the probe
//! results are made here.

use vstd::prelude::*;

verus! {

/// What `char::is_alphanumeric` holds of a character; the Unicode
/// tables behind it are not restated here.
pub uninterp spec fn alnum(c: char) -> bool;

/// Relies on `char::is_alphanumeric`: the result depends on the
/// character alone.
pub assume_specification[ char::is_alphanumeric ](c: char) -> (r: bool)
    ensures
        r == alnum(c),
;

/// A character a project name may contain.
pub open spec fn valid_name_char(c: char) -> bool {
    alnum(c) || c == '-' || c == '_'
}

/// A sound project name: non-empty, at most 64 characters, only
/// alphanumerics, dashes and underscores, and not starting with a dash
/// or an underscore.
pub open spec fn spec_valid_project_name(s: Seq<char>) -> bool {
    &&& s.len() > 0
    &&& s.len() <= 64
    &&& (forall|i: int| 0 <= i < s.len() ==> valid_name_char(#[trigger] s[i]))
    &&& s[0] != '-'
    &&& s[0] != '_'
}

/// Validates a project name; the message names the first rule the name
/// breaks, in the order the rules are checked: emptiness, length, the
/// character set, then the leading character.
pub fn validate_project_name(name: &str) -> (r: Result<(), String>)
    ensures
        r is Ok <==> spec_valid_project_name(name@),
        name@.len() == 0 ==> (r matches Err(m) && m@ == "Project name cannot be empty"@),
        name@.len() > 64 ==> (r matches Err(m) && m@
            == "Project name cannot be longer than 64 characters"@),
        (0 < name@.len() <= 64 && !(forall|i: int|
            0 <= i < name@.len() ==> valid_name_char(#[trigger] name@[i]))) ==> (r matches Err(m)
            && m@ == "Project name can only contain letters, numbers, dashes, and underscores"@),
        (0 < name@.len() <= 64 && (forall|i: int|
            0 <= i < name@.len() ==> valid_name_char(#[trigger] name@[i])) && (name@[0] == '-'
            || name@[0] == '_')) ==> (r matches Err(m) && m@
            == "Project name cannot start with dash or underscore"@),
{
    let len = name.unicode_len();
    if len == 0 {
        return Err(String::from_str("Project name cannot be empty"));
    }
    if len > 64 {
        return Err(String::from_str("Project name cannot be longer than 64 characters"));
    }
    let mut i: usize = 0;
    while i < len
        invariant
            len == name@.len(),
            0 < len <= 64,
            i <= len,
            forall|k: int| 0 <= k < i ==> valid_name_char(#[trigger] name@[k]),
        decreases len - i,
    {
        let c = name.get_char(i);
        if !(c.is_alphanumeric() || c == '-' || c == '_') {
            proof {
                assert(!valid_name_char(name@[i as int]));
            }
            return Err(
                String::from_str(
                    "Project name can only contain letters, numbers, dashes, and underscores",
                ),
            );
        }
        i = i + 1;
    }
    let first = name.get_char(0);
    if first == '-' || first == '_' {
        return Err(String::from_str("Project name cannot start with dash or underscore"));
    }
    Ok(())
}

/// The files whose presence marks a directory as a project.
pub fn project_marker_files() -> (r: Vec<String>)
    ensures
        r@.map_values(|t: String| t@) == seq![
            "Cargo.toml"@,
            "package.json"@,
            "go.mod"@,
            "main.py"@,
            "pyproject.toml"@,
        ],
{
    let mut v: Vec<String> = Vec::new();
    v.push(String::from_str("Cargo.toml"));
    v.push(String::from_str("package.json"));
    v.push(String::from_str("go.mod"));
    v.push(String::from_str("main.py"));
    v.push(String::from_str("pyproject.toml"));
    proof {
        assert(v@.map_values(|t: String| t@) =~= seq![
            "Cargo.toml"@,
            "package.json"@,
            "go.mod"@,
            "main.py"@,
            "pyproject.toml"@,
        ]);
    }
    v
}

/// Whether a directory holds a project: it must exist as a directory
/// and show at least one of the marker files.  The caller probes the
/// disk and hands the results in.
pub fn is_valid_project_dir(is_dir: bool, markers_present: &Vec<bool>) -> (r: bool)
    ensures
        r == (is_dir && exists|i: int|
            0 <= i < markers_present@.len() && #[trigger] markers_present@[i]),
{
    if !is_dir {
        return false;
    }
    let mut i: usize = 0;
    while i < markers_present.len()
        invariant
            is_dir,
            i <= markers_present@.len(),
            forall|j: int| 0 <= j < i ==> !markers_present@[j],
        decreases markers_present@.len() - i,
    {
        if markers_present[i] {
            proof {
                assert(0 <= i < markers_present@.len() && markers_present@[i as int]);
            }
            return true;
        }
        i = i + 1;
    }
    false
}

/// The files an editor is pointed at, most specific first; the caller
/// opens the first of them that exists, or the directory itself.
pub fn main_file_candidates() -> (r: Vec<String>)
    ensures
        r@.map_values(|t: String| t@) == seq![
            "src/main.rs"@,
            "main.py"@,
            "index.js"@,
            "bun.js"@,
            "main.go"@,
            "main.sh"@,
            "main.zsh"@,
            "README.md"@,
        ],
{
    let mut v: Vec<String> = Vec::new();
    v.push(String::from_str("src/main.rs"));
    v.push(String::from_str("main.py"));
    v.push(String::from_str("index.js"));
    v.push(String::from_str("bun.js"));
    v.push(String::from_str("main.go"));
    v.push(String::from_str("main.sh"));
    v.push(String::from_str("main.zsh"));
    v.push(String::from_str("README.md"));
    proof {
        assert(v@.map_values(|t: String| t@) =~= seq![
            "src/main.rs"@,
            "main.py"@,
            "index.js"@,
            "bun.js"@,
            "main.go"@,
            "main.sh"@,
            "main.zsh"@,
            "README.md"@,
        ]);
    }
    v
}

/// The first present candidate, by the probe results.
pub fn first_present_index(present: &Vec<bool>) -> (r: Option<usize>)
    ensures
        match r {
            Some(i) => i < present@.len() && present@[i as int] && (forall|j: int|
                0 <= j < i ==> !present@[j]),
            None => forall|j: int| 0 <= j < present@.len() ==> !present@[j],
        },
{
    let mut i: usize = 0;
    while i < present.len()
        invariant
            i <= present@.len(),
            forall|j: int| 0 <= j < i ==> !present@[j],
        decreases present@.len() - i,
    {
        if present[i] {
            return Some(i);
        }
        i = i + 1;
    }
    None
}

} // verus!
