//! The project manager: the orchestration of configuration, registry
//! and template catalog behind create, list, fetch and remove.  The
//! filesystem itself is the caller's: it reports whether the target
//! path exists, writes the planned files, deletes directories, and
//! persists the documents this module hands back.

use vstd::prelude::*;

use crate::config::{Config, ConfigV};
use crate::error::Error;
use crate::regdoc::enc_records;
use crate::registry::{Project, ProjectV, ProjectRegistry, contains_name_v, find_named_v,
    remove_named_v, lemma_remove_named_absent, lemma_find_contains};
use crate::strutil::path_join;
use crate::templates::{TemplateManager, InstantiationPlan, ct_find_named};
use crate::builtin::{TemplateFile, builtin_files_v, is_builtin_name};

verus! {

/// The path a project named `name` is created at.
pub open spec fn project_path_v(c: ConfigV, name: Seq<char>) -> Seq<char> {
    c.projects_dir.push('/') + name
}

/// Whether `template` can be instantiated at all: it is a built-in, or
/// the catalog registers it.
pub open spec fn template_known(
    catalog: Seq<crate::templates::CustomTemplateV>,
    template: Seq<char>,
) -> bool {
    is_builtin_name(template) || ct_find_named(catalog, template) is Some
}

/// Which external toolchain builds a project; the caller invokes it as
/// an opaque step and reports its exit as success or failure.
#[derive(Debug, Clone, Copy, PartialEq, Eq, Structural)]
pub enum BuildPlan {
    /// Build the optimized output with the Rust toolchain.
    Rust,
    /// Install listed Python dependencies if any, then mark the entry
    /// script executable.
    Python,
    /// Install Node packages and run the build script if one exists.
    Node,
    /// Compile with the Go toolchain, naming the output after the
    /// project.
    Go,
    /// Mark the shell entry script executable.
    Bash,
    /// Mark the shell entry script executable.
    Zsh,
    /// Install with Bun and run its start script.
    Bun,
}

/// The build step each built-in template calls for.
pub open spec fn build_plan_of(t: Seq<char>) -> BuildPlan {
    if t == "rust"@ {
        BuildPlan::Rust
    } else if t == "python"@ {
        BuildPlan::Python
    } else if t == "node"@ {
        BuildPlan::Node
    } else if t == "go"@ {
        BuildPlan::Go
    } else if t == "bash"@ {
        BuildPlan::Bash
    } else if t == "zsh"@ {
        BuildPlan::Zsh
    } else {
        BuildPlan::Bun
    }
}

impl Project {
    /// Dispatches the build: the project directory must exist as the
    /// caller probed it, and the template must be a built-in — custom
    /// templates have no build convention.  The returned plan names the
    /// external toolchain to invoke.
    pub fn build(&self, path_exists: bool) -> (r: Result<BuildPlan, Error>)
        ensures
            !path_exists ==> (r matches Err(e) && e matches Error::NotFound(p) && p@
                == self@.path),
            path_exists && !is_builtin_name(self@.template) ==> (r matches Err(e) && e matches
                Error::UnknownTemplate(t) && t@ == self@.template),
            path_exists && is_builtin_name(self@.template) ==> r == Ok::<BuildPlan, Error>(
                build_plan_of(self@.template),
            ),
    {
        if !path_exists {
            return Err(Error::NotFound(self.path.clone()));
        }
        let t = self.template.as_str();
        if crate::strutil::str_eq(t, "rust") {
            Ok(BuildPlan::Rust)
        } else if crate::strutil::str_eq(t, "python") {
            Ok(BuildPlan::Python)
        } else if crate::strutil::str_eq(t, "node") {
            Ok(BuildPlan::Node)
        } else if crate::strutil::str_eq(t, "go") {
            Ok(BuildPlan::Go)
        } else if crate::strutil::str_eq(t, "bash") {
            Ok(BuildPlan::Bash)
        } else if crate::strutil::str_eq(t, "zsh") {
            Ok(BuildPlan::Zsh)
        } else if crate::strutil::str_eq(t, "bun") {
            Ok(BuildPlan::Bun)
        } else {
            Err(Error::UnknownTemplate(String::from_str(t)))
        }
    }
}

/// Orchestrates the registry and the template catalog.  Filesystem
/// effects stay with the caller: it performs them in the order the
/// contracts describe, and persists the registry document only after
/// they succeed.
#[derive(Debug)]
pub struct ProjectManager {
    registry: ProjectRegistry,
    config: Config,
}

impl ProjectManager {
    pub closed spec fn registry_view(&self) -> Seq<ProjectV> {
        self.registry@
    }

    pub closed spec fn config_view(&self) -> ConfigV {
        self.config@
    }

    /// A manager over a loaded registry and configuration.
    pub fn new(registry: ProjectRegistry, config: Config) -> (r: Self)
        ensures
            r.registry_view() == registry@,
            r.config_view() == config@,
    {
        ProjectManager { registry, config }
    }

    /// The registry document to persist after a mutation.
    pub fn registry_document(&self) -> (r: String)
        ensures
            r@ == enc_records(self.registry_view()),
    {
        self.registry.to_document()
    }

    /// Creates a project: the caller reports whether the target path is
    /// already occupied on disk (checked before any registry change),
    /// the template dispatches through the catalog, and on success the
    /// new record is upserted into the registry.  The caller then
    /// materializes the returned plan and persists the registry
    /// document; if materialization fails partway it simply does not
    /// persist, so no registry entry outlives the failure.
    pub fn create_project(
        &mut self,
        name: String,
        template: String,
        path_exists: bool,
        catalog: &TemplateManager,
    ) -> (r: Result<(Project, InstantiationPlan), Error>)
        ensures
            final(self).config_view() == old(self).config_view(),
            r is Err ==> final(self).registry_view() == old(self).registry_view(),
            path_exists ==> (r matches Err(e) && e matches Error::AlreadyExists(p) && p@
                == project_path_v(old(self).config_view(), name@)),
            !path_exists && !template_known(catalog@, template@) ==> (r matches Err(e)
                && e matches Error::UnknownTemplate(t) && t@ == template@),
            !path_exists && template_known(catalog@, template@) ==> (r matches Ok(pr) && {
                let p = pr.0;
                let plan = pr.1;
                &&& p@.name == name@
                &&& p@.template == template@
                &&& p@.path == project_path_v(old(self).config_view(), name@)
                &&& p@.last_built is None
                &&& final(self).registry_view() == remove_named_v(
                    old(self).registry_view(),
                    name@,
                ).push(p@)
                &&& (is_builtin_name(template@) ==> (plan matches InstantiationPlan::Builtin(
                    files,
                ) && files@.map_values(|f: TemplateFile| f@) == builtin_files_v(
                    template@,
                    name@,
                )))
                &&& (!is_builtin_name(template@) ==> (plan matches
                    InstantiationPlan::CustomCopy(src) && Some(src@) == (match ct_find_named(
                    catalog@,
                    template@,
                ) {
                    Some(ct) => Some(ct.path),
                    None => None::<Seq<char>>,
                })))
            }),
    {
        let project_path = path_join(self.config.projects_dir.as_str(), name.as_str());
        if path_exists {
            return Err(Error::AlreadyExists(project_path));
        }
        let plan = match catalog.create_project_from_template(template.as_str(), name.as_str()) {
            Ok(plan) => plan,
            Err(e) => {
                return Err(e);
            },
        };
        let project = Project::new(name, project_path, template);
        let stored = project.clone();
        self.registry.add_project(stored);
        Ok((project, plan))
    }

    /// A snapshot copy of every record, in registry order.
    pub fn list_projects(&self) -> (r: Vec<Project>)
        ensures
            r@.len() == self.registry_view().len(),
            forall|k: int|
                0 <= k < r@.len() ==> (#[trigger] r@[k])@ == self.registry_view()[k],
    {
        let mut out: Vec<Project> = Vec::new();
        let mut i: usize = 0;
        while i < self.registry.projects.len()
            invariant
                i <= self.registry.projects@.len(),
                out@.len() == i,
                forall|k: int|
                    0 <= k < i ==> (#[trigger] out@[k])@ == self.registry_view()[k],
            decreases self.registry.projects@.len() - i,
        {
            out.push(self.registry.projects[i].clone());
            i = i + 1;
        }
        out
    }

    /// The record bearing `name`, or the not-found failure.
    pub fn get_project(&self, name: &str) -> (r: Result<Project, Error>)
        ensures
            match find_named_v(self.registry_view(), name@) {
                Some(pv) => r matches Ok(p) && p@ == pv,
                None => r matches Err(e) && e matches Error::NotFound(n) && n@ == name@,
            },
    {
        match self.registry.get_project(name) {
            Some(p) => Ok(p.clone()),
            None => Err(Error::NotFound(String::from_str(name))),
        }
    }

    /// Drops the record bearing `name` from the registry.  The caller
    /// deletes the project directory *before* this call and aborts on a
    /// deletion failure, so a failed disk removal leaves the entry
    /// intact; afterwards it persists the registry document.
    pub fn remove_project(&mut self, name: &str) -> (r: Result<(), Error>)
        ensures
            final(self).config_view() == old(self).config_view(),
            contains_name_v(old(self).registry_view(), name@) ==> r is Ok
                && final(self).registry_view() == remove_named_v(
                old(self).registry_view(),
                name@,
            ),
            !contains_name_v(old(self).registry_view(), name@) ==> final(self).registry_view()
                == old(self).registry_view() && (r matches Err(e) && e matches Error::NotFound(n)
                && n@ == name@),
    {
        let removed = self.registry.remove_project(name);
        if !removed {
            proof {
                lemma_remove_named_absent(old(self).registry_view(), name@);
            }
            Err(Error::NotFound(String::from_str(name)))
        } else {
            Ok(())
        }
    }

    /// Whether the registry tracks `name`; the filesystem is not
    /// consulted.
    pub fn project_exists(&self, name: &str) -> (r: bool)
        ensures
            r == contains_name_v(self.registry_view(), name@),
    {
        proof {
            lemma_find_contains(self.registry_view(), name@);
        }
        match self.registry.get_project(name) {
            Some(_) => true,
            None => false,
        }
    }
}

} // verus!
