//! Artifact resolution and installation paths.  Each template kind has
//! a fixed convention for where its build output lives; installation
//! links the resolved artifact under the configured bin directory,
//! replacing whatever was there under the project's name.  Probing and
//! linking on disk are the caller's; this module decides.

use vstd::prelude::*;

use crate::config::{Config, ConfigV};
use crate::error::Error;
use crate::registry::{Project, ProjectV};
use crate::strutil::{has_sub, contains_sub, path_join, split_sep, split_str, str_eq, strs_sorted,
    sort_strings};

verus! {

/// A path under a directory.
pub open spec fn pjoin(a: Seq<char>, b: Seq<char>) -> Seq<char> {
    a.push('/') + b
}

/// The artifact locations a project's template convention admits, in
/// preference order: the optimized build output before the debug one
/// for the compiled-binary template, a single fixed location for the
/// others, and none at all when the template is not a built-in.
pub open spec fn candidates_v(p: ProjectV) -> Option<Seq<Seq<char>>> {
    if p.template == "rust"@ {
        Some(
            seq![
                pjoin(pjoin(p.path, "target/release"@), p.name),
                pjoin(pjoin(p.path, "target/debug"@), p.name),
            ],
        )
    } else if p.template == "go"@ {
        Some(seq![pjoin(p.path, p.name)])
    } else if p.template == "python"@ {
        Some(seq![pjoin(p.path, "main.py"@)])
    } else if p.template == "node"@ {
        Some(seq![pjoin(p.path, "index.js"@)])
    } else if p.template == "bash"@ {
        Some(seq![pjoin(p.path, "main.sh"@)])
    } else if p.template == "zsh"@ {
        Some(seq![pjoin(p.path, "main.zsh"@)])
    } else if p.template == "bun"@ {
        Some(seq![pjoin(p.path, "bun.js"@)])
    } else {
        None
    }
}

/// Keeping every entry that does not bear `name`.
pub open spec fn other_than(name: Seq<char>) -> spec_fn(Seq<char>) -> bool {
    |e: Seq<char>| e != name
}

/// Keeping exactly the entries that bear `name`.
pub open spec fn named(name: Seq<char>) -> spec_fn(Seq<char>) -> bool {
    |e: Seq<char>| e == name
}

/// The bin directory after installing `name` over a listing: any entry
/// already bearing the name leaves, then the new link appears.
pub open spec fn install_entry_v(entries: Seq<Seq<char>>, name: Seq<char>) -> Seq<Seq<char>> {
    entries.filter(other_than(name)).push(name)
}

/// Installing the same artifact twice leaves exactly what one install
/// leaves — the second install overwrites, it does not duplicate — and
/// either way exactly one entry bears the name.
pub proof fn lemma_install_idempotent(entries: Seq<Seq<char>>, name: Seq<char>)
    ensures
        install_entry_v(install_entry_v(entries, name), name) == install_entry_v(entries, name),
        install_entry_v(entries, name).filter(named(name)) == seq![name],
{
    let keep = other_than(name);
    let once = entries.filter(keep);
    once.lemma_filter_push(name, keep);
    lemma_filter_idempotent(entries, keep);
    let only = named(name);
    lemma_filter_excluded(entries, keep, only);
    once.lemma_filter_push(name, only);
    assert(once.filter(only).push(name) =~= seq![name]);
}

/// Filtering twice with one predicate filters once.
proof fn lemma_filter_idempotent<A>(s: Seq<A>, p: spec_fn(A) -> bool)
    ensures
        s.filter(p).filter(p) == s.filter(p),
    decreases s.len(),
{
    if s.len() == 0 {
        assert(s.filter(p) =~= Seq::<A>::empty());
        assert(s.filter(p).filter(p) =~= s.filter(p));
    } else {
        let s0 = s.drop_last();
        let x = s.last();
        lemma_filter_idempotent(s0, p);
        assert(s =~= s0.push(x));
        s0.lemma_filter_push(x, p);
        if p(x) {
            s0.filter(p).lemma_filter_push(x, p);
        }
    }
}

/// Nothing kept by `p` survives a filter by a predicate that rejects
/// everything `p` keeps.
proof fn lemma_filter_excluded<A>(s: Seq<A>, p: spec_fn(A) -> bool, q: spec_fn(A) -> bool)
    requires
        forall|x: A| #[trigger] p(x) ==> !q(x),
    ensures
        s.filter(p).filter(q) == Seq::<A>::empty(),
    decreases s.len(),
{
    if s.len() == 0 {
        assert(s.filter(p) =~= Seq::<A>::empty());
        assert(s.filter(p).filter(q) =~= Seq::<A>::empty());
    } else {
        let s0 = s.drop_last();
        let x = s.last();
        lemma_filter_excluded(s0, p, q);
        assert(s =~= s0.push(x));
        s0.lemma_filter_push(x, p);
        if p(x) {
            s0.filter(p).lemma_filter_push(x, q);
        }
    }
}

/// A bin-directory listing after an install, for checking install
/// semantics against a concrete listing.
pub fn install_entries(entries: &Vec<String>, name: &str) -> (r: Vec<String>)
    ensures
        r@.map_values(|t: String| t@) == install_entry_v(
            entries@.map_values(|t: String| t@),
            name@,
        ),
{
    let ghost keep = other_than(name@);
    let mut out: Vec<String> = Vec::new();
    let mut i: usize = 0;
    proof {
        assert(entries@.map_values(|t: String| t@).take(0) =~= Seq::<Seq<char>>::empty());
        assert(Seq::<Seq<char>>::empty().filter(keep) =~= Seq::<Seq<char>>::empty());
        assert(out@.map_values(|t: String| t@) =~= Seq::<Seq<char>>::empty());
    }
    while i < entries.len()
        invariant
            i <= entries@.len(),
            keep == other_than(name@),
            out@.map_values(|t: String| t@) == entries@.map_values(|t: String| t@).take(
                i as int,
            ).filter(keep),
        decreases entries@.len() - i,
    {
        let ghost views = entries@.map_values(|t: String| t@);
        proof {
            assert(views.take(i + 1) =~= views.take(i as int).push(views[i as int]));
            views.take(i as int).lemma_filter_push(views[i as int], keep);
        }
        if !str_eq(entries[i].as_str(), name) {
            let ghost pre = out@.map_values(|t: String| t@);
            out.push(entries[i].clone());
            proof {
                assert(out@.map_values(|t: String| t@) =~= pre.push(views[i as int]));
            }
        }
        i = i + 1;
    }
    proof {
        let views = entries@.map_values(|t: String| t@);
        assert(views.take(i as int) =~= views);
    }
    let ghost pre = out@.map_values(|t: String| t@);
    out.push(String::from_str(name));
    proof {
        assert(out@.map_values(|t: String| t@) =~= pre.push(name@));
    }
    out
}

/// Resolves artifacts and installation targets against the configured
/// bin directory.
#[derive(Debug)]
pub struct PathManager {
    config: Config,
}

impl PathManager {
    pub closed spec fn config_view(&self) -> ConfigV {
        self.config@
    }

    /// A resolver over a loaded configuration.
    pub fn new(config: Config) -> (r: Self)
        ensures
            r.config_view() == config@,
    {
        PathManager { config }
    }

    /// The candidate artifact paths for `project`, in preference order;
    /// a template that is not a built-in has no convention.
    pub fn binary_candidates(&self, project: &Project) -> (r: Result<Vec<String>, Error>)
        ensures
            match r {
                Ok(c) => candidates_v(project@) == Some(c@.map_values(|t: String| t@)),
                Err(e) => candidates_v(project@) is None && (e matches Error::UnknownTemplate(t)
                    && t@ == project@.template),
            },
    {
        let t = project.template.as_str();
        let mut out: Vec<String> = Vec::new();
        if str_eq(t, "rust") {
            out.push(
                path_join(
                    path_join(project.path.as_str(), "target/release").as_str(),
                    project.name.as_str(),
                ),
            );
            out.push(
                path_join(
                    path_join(project.path.as_str(), "target/debug").as_str(),
                    project.name.as_str(),
                ),
            );
            proof {
                assert(out@.map_values(|s: String| s@) =~= candidates_v(project@)->Some_0);
            }
            Ok(out)
        } else if str_eq(t, "go") {
            out.push(path_join(project.path.as_str(), project.name.as_str()));
            proof {
                assert(out@.map_values(|s: String| s@) =~= candidates_v(project@)->Some_0);
            }
            Ok(out)
        } else if str_eq(t, "python") {
            out.push(path_join(project.path.as_str(), "main.py"));
            proof {
                assert(out@.map_values(|s: String| s@) =~= candidates_v(project@)->Some_0);
            }
            Ok(out)
        } else if str_eq(t, "node") {
            out.push(path_join(project.path.as_str(), "index.js"));
            proof {
                assert(out@.map_values(|s: String| s@) =~= candidates_v(project@)->Some_0);
            }
            Ok(out)
        } else if str_eq(t, "bash") {
            out.push(path_join(project.path.as_str(), "main.sh"));
            proof {
                assert(out@.map_values(|s: String| s@) =~= candidates_v(project@)->Some_0);
            }
            Ok(out)
        } else if str_eq(t, "zsh") {
            out.push(path_join(project.path.as_str(), "main.zsh"));
            proof {
                assert(out@.map_values(|s: String| s@) =~= candidates_v(project@)->Some_0);
            }
            Ok(out)
        } else if str_eq(t, "bun") {
            out.push(path_join(project.path.as_str(), "bun.js"));
            proof {
                assert(out@.map_values(|s: String| s@) =~= candidates_v(project@)->Some_0);
            }
            Ok(out)
        } else {
            Err(Error::UnknownTemplate(String::from_str(t)))
        }
    }

    /// Picks the artifact: the first candidate that is present on disk,
    /// as the caller probed it.  With none present the project has no
    /// built artifact; with an unknown template there is no convention
    /// to consult.
    pub fn find_project_binary(&self, project: &Project, present: &Vec<bool>) -> (r: Result<
        String,
        Error,
    >)
        requires
            (candidates_v(project@) matches Some(c) ==> present@.len() == c.len()),
        ensures
            match r {
                Ok(path) => candidates_v(project@) matches Some(c) && (exists|i: int|
                    0 <= i < c.len() && present@[i] && path@ == c[i] && (forall|j: int|
                        0 <= j < i ==> !present@[j])),
                Err(e) => match candidates_v(project@) {
                    Some(c) => (forall|i: int| 0 <= i < c.len() ==> !present@[i]) && (
                    e matches Error::NotFound(n) && n@ == project@.name),
                    None => e matches Error::UnknownTemplate(t) && t@ == project@.template,
                },
            },
    {
        let cands = match self.binary_candidates(project) {
            Ok(c) => c,
            Err(e) => {
                return Err(e);
            },
        };
        let mut i: usize = 0;
        while i < cands.len()
            invariant
                i <= cands@.len(),
                present@.len() == cands@.len(),
                candidates_v(project@) == Some(cands@.map_values(|t: String| t@)),
                forall|j: int| 0 <= j < i ==> !present@[j],
            decreases cands@.len() - i,
        {
            if present[i] {
                let ghost c = candidates_v(project@)->Some_0;
                proof {
                    assert(c[i as int] == cands@[i as int]@);
                }
                return Ok(cands[i].clone());
            }
            i = i + 1;
        }
        Err(Error::NotFound(self.project_name_copy(project)))
    }

    /// A copy of the project's name, for error payloads.
    fn project_name_copy(&self, project: &Project) -> (r: String)
        ensures
            r@ == project@.name,
    {
        project.name.clone()
    }

    /// Whether some candidate artifact is present: the error of
    /// [`Self::find_project_binary`] swallowed into a flag.
    pub fn binary_exists(&self, project: &Project, present: &Vec<bool>) -> (r: bool)
        requires
            (candidates_v(project@) matches Some(c) ==> present@.len() == c.len()),
        ensures
            r == (candidates_v(project@) matches Some(c) && exists|i: int|
                0 <= i < c.len() && present@[i]),
    {
        match self.find_project_binary(project, present) {
            Ok(_) => true,
            Err(_) => false,
        }
    }

    /// Where an artifact for `name` is installed: directly under the
    /// bin directory, under the project's name.
    pub fn install_target(&self, name: &str) -> (r: String)
        ensures
            r@ == pjoin(self.config_view().bin_dir, name@),
    {
        path_join(self.config.bin_dir.as_str(), name)
    }

    /// Whether the bin directory appears in the search-path variable,
    /// by exact string membership among its colon-separated segments;
    /// no canonicalization.
    pub fn is_bin_dir_in_path(&self, path_var: &str) -> (r: bool)
        ensures
            r == split_sep(path_var@, ':').contains(self.config_view().bin_dir),
    {
        let parts = split_str(path_var, ':');
        let mut i: usize = 0;
        while i < parts.len()
            invariant
                i <= parts@.len(),
                parts@.map_values(|t: String| t@) == split_sep(path_var@, ':'),
                forall|j: int| 0 <= j < i ==> split_sep(path_var@, ':')[j]
                    != self.config_view().bin_dir,
            decreases parts@.len() - i,
        {
            if str_eq(parts[i].as_str(), self.config.bin_dir.as_str()) {
                proof {
                    assert(split_sep(path_var@, ':')[i as int] == self.config_view().bin_dir);
                }
                return true;
            }
            i = i + 1;
        }
        proof {
            if split_sep(path_var@, ':').contains(self.config_view().bin_dir) {
                let j = choose|j: int|
                    0 <= j < split_sep(path_var@, ':').len() && split_sep(path_var@, ':')[j]
                        == self.config_view().bin_dir;
                assert(!(split_sep(path_var@, ':')[j] == self.config_view().bin_dir));
            }
        }
        false
    }

    /// The line to add to a shell profile so the bin directory is on
    /// the search path: the fish shell has its own command, every other
    /// shell exports the variable.
    pub fn get_path_instructions(&self, shell: &str) -> (r: String)
        ensures
            has_sub(shell@, "fish"@) ==> r@ == "fish_add_path "@ + self.config_view().bin_dir,
            !has_sub(shell@, "fish"@) ==> r@ == "export PATH=\""@ + self.config_view().bin_dir
                + ":$PATH\""@,
    {
        if contains_sub(shell, "fish") {
            let mut out = String::from_str("fish_add_path ");
            out.append(self.config.bin_dir.as_str());
            out
        } else {
            let mut out = String::from_str("export PATH=\"");
            out.append(self.config.bin_dir.as_str());
            out.append(":$PATH\"");
            proof {
                assert("export PATH=\""@ + self.config_view().bin_dir + ":$PATH\""@ =~= ("export PATH=\""@
                    + self.config_view().bin_dir) + ":$PATH\""@);
            }
            out
        }
    }

    /// The names found in the bin directory, sorted; the caller lists
    /// the directory's file and link entries and hands the names in.
    pub fn list_installed(&self, names: &Vec<String>) -> (r: Vec<String>)
        ensures
            strs_sorted(r@.map_values(|t: String| t@)),
            r@.map_values(|t: String| t@).to_multiset() == names@.map_values(
                |t: String| t@,
            ).to_multiset(),
    {
        sort_strings(names)
    }
}

} // verus!
