//! The project registry: an ordered collection of project records keyed
//! by unique name.  Adding a record is an upsert — any record with the
//! same name is removed first — so the registry never holds two records
//! with the same name.

use vstd::prelude::*;

verus! {

/// One tracked project.  `name` is the registry key and the directory
/// name; `path` is where the project lives; `template` names the template
/// it was created from; `created_at` is set once at creation;
/// `last_built` is informational only.
#[derive(Debug)]
pub struct Project {
    pub name: String,
    pub path: String,
    pub template: String,
    pub created_at: String,
    pub last_built: Option<String>,
}

/// The mathematical value of a record: its fields as character sequences.
pub struct ProjectV {
    pub name: Seq<char>,
    pub path: Seq<char>,
    pub template: Seq<char>,
    pub created_at: Seq<char>,
    pub last_built: Option<Seq<char>>,
}

impl View for Project {
    type V = ProjectV;

    open spec fn view(&self) -> ProjectV {
        ProjectV {
            name: self.name@,
            path: self.path@,
            template: self.template@,
            created_at: self.created_at@,
            last_built: match self.last_built {
                Some(s) => Some(s@),
                None => None,
            },
        }
    }
}

impl Clone for Project {
    fn clone(&self) -> (r: Self)
        ensures
            r@ == self@,
    {
        Project {
            name: self.name.clone(),
            path: self.path.clone(),
            template: self.template.clone(),
            created_at: self.created_at.clone(),
            last_built: match &self.last_built {
                Some(s) => Some(s.clone()),
                None => None,
            },
        }
    }
}

/// Whether some record in `s` bears `name`.
pub open spec fn contains_name_v(s: Seq<ProjectV>, name: Seq<char>) -> bool {
    exists|i: int| 0 <= i < s.len() && #[trigger] s[i].name == name
}

/// The first record in `s` bearing `name`.
pub open spec fn find_named_v(s: Seq<ProjectV>, name: Seq<char>) -> Option<ProjectV>
    decreases s.len(),
{
    if s.len() == 0 {
        None
    } else if s[0].name == name {
        Some(s[0])
    } else {
        find_named_v(s.skip(1), name)
    }
}

/// `s` with every record bearing `name` removed, order otherwise kept.
pub open spec fn remove_named_v(s: Seq<ProjectV>, name: Seq<char>) -> Seq<ProjectV>
    decreases s.len(),
{
    if s.len() == 0 {
        s
    } else if s[0].name == name {
        remove_named_v(s.skip(1), name)
    } else {
        seq![s[0]] + remove_named_v(s.skip(1), name)
    }
}

/// No two records bear the same name.
pub open spec fn unique_names(s: Seq<ProjectV>) -> bool {
    forall|i: int, j: int| 0 <= i < j < s.len() ==> s[i].name != s[j].name
}

pub proof fn lemma_remove_named_len(s: Seq<ProjectV>, name: Seq<char>)
    ensures
        remove_named_v(s, name).len() <= s.len(),
        (remove_named_v(s, name).len() == s.len()) <==> !contains_name_v(s, name),
    decreases s.len(),
{
    if s.len() != 0 {
        lemma_remove_named_len(s.skip(1), name);
        if s[0].name == name {
            assert(contains_name_v(s, name));
        } else {
            assert(contains_name_v(s.skip(1), name) ==> contains_name_v(s, name)) by {
                if contains_name_v(s.skip(1), name) {
                    let i = choose|i: int|
                        0 <= i < s.skip(1).len() && #[trigger] s.skip(1)[i].name == name;
                    assert(s[i + 1].name == name);
                }
            }
            if contains_name_v(s, name) {
                let i = choose|i: int| 0 <= i < s.len() && #[trigger] s[i].name == name;
                assert(s.skip(1)[i - 1].name == name);
            }
        }
    }
}

/// Everything `remove_named_v` keeps comes from `s` and does not bear
/// `name`.
pub proof fn lemma_remove_named_members(s: Seq<ProjectV>, name: Seq<char>)
    ensures
        forall|k: int|
            0 <= k < remove_named_v(s, name).len() ==> (#[trigger] remove_named_v(s, name)[k]).name
                != name,
        forall|k: int|
            0 <= k < remove_named_v(s, name).len() ==> exists|l: int|
                0 <= l < s.len() && s[l] == #[trigger] remove_named_v(s, name)[k],
    decreases s.len(),
{
    if s.len() != 0 {
        lemma_remove_named_members(s.skip(1), name);
        let r = remove_named_v(s, name);
        let r2 = remove_named_v(s.skip(1), name);
        if s[0].name == name {
            assert forall|k: int| 0 <= k < r.len() implies exists|l: int|
                0 <= l < s.len() && s[l] == #[trigger] r[k] by {
                let l2 = choose|l: int| 0 <= l < s.skip(1).len() && s.skip(1)[l] == r2[k];
                assert(s[l2 + 1] == r[k]);
            }
        } else {
            assert forall|k: int| 0 <= k < r.len() implies exists|l: int|
                0 <= l < s.len() && s[l] == #[trigger] r[k] by {
                if k == 0 {
                    assert(s[0] == r[0]);
                } else {
                    let l2 = choose|l: int|
                        0 <= l < s.skip(1).len() && s.skip(1)[l] == r2[k - 1];
                    assert(s[l2 + 1] == r[k]);
                }
            }
        }
    }
}

/// Upserting preserves name uniqueness.
pub proof fn lemma_remove_named_unique(s: Seq<ProjectV>, name: Seq<char>)
    requires
        unique_names(s),
    ensures
        unique_names(remove_named_v(s, name)),
    decreases s.len(),
{
    if s.len() != 0 {
        assert(unique_names(s.skip(1))) by {
            assert forall|i: int, j: int| 0 <= i < j < s.skip(1).len() implies s.skip(1)[i].name
                != s.skip(1)[j].name by {
                assert(s[i + 1].name != s[j + 1].name);
            }
        }
        lemma_remove_named_unique(s.skip(1), name);
        if s[0].name != name {
            let r2 = remove_named_v(s.skip(1), name);
            lemma_remove_named_members(s.skip(1), name);
            assert forall|i: int, j: int|
                0 <= i < j < remove_named_v(s, name).len() implies remove_named_v(s, name)[i].name
                != remove_named_v(s, name)[j].name by {
                if i == 0 {
                    let l = choose|l: int|
                        0 <= l < s.skip(1).len() && s.skip(1)[l] == r2[j - 1];
                    assert(s[0].name != s[l + 1].name);
                } else {
                    assert(r2[i - 1].name != r2[j - 1].name);
                }
            }
        }
    }
}

/// After records whose name is not `name`, the search finds the pushed
/// record.
pub proof fn lemma_find_named_after_push(s: Seq<ProjectV>, p: ProjectV)
    requires
        forall|k: int| 0 <= k < s.len() ==> (#[trigger] s[k]).name != p.name,
    ensures
        find_named_v(s.push(p), p.name) == Some(p),
    decreases s.len(),
{
    if s.len() == 0 {
        assert(s.push(p)[0] == p);
    } else {
        assert(s.push(p).skip(1) =~= s.skip(1).push(p));
        assert forall|k: int| 0 <= k < s.skip(1).len() implies (#[trigger] s.skip(1)[k]).name
            != p.name by {
            assert(s[k + 1].name != p.name);
        }
        lemma_find_named_after_push(s.skip(1), p);
    }
}

impl Project {
    /// A fresh record: `created_at` is stamped from the clock once, at
    /// creation, and never changes; `last_built` starts unset.
    pub fn new(name: String, path: String, template: String) -> (r: Project)
        ensures
            r@.name == name@,
            r@.path == path@,
            r@.template == template@,
            r@.last_built is None,
    {
        Project {
            name,
            path,
            template,
            created_at: crate::clock::now_timestamp(),
            last_built: None,
        }
    }
}

/// Removing a name that no record bears changes nothing.
pub proof fn lemma_remove_named_absent(s: Seq<ProjectV>, name: Seq<char>)
    requires
        !contains_name_v(s, name),
    ensures
        remove_named_v(s, name) == s,
    decreases s.len(),
{
    if s.len() != 0 {
        assert(s[0].name != name);
        assert(!contains_name_v(s.skip(1), name)) by {
            if contains_name_v(s.skip(1), name) {
                let i = choose|i: int|
                    0 <= i < s.skip(1).len() && #[trigger] s.skip(1)[i].name == name;
                assert(s[i + 1].name == name);
            }
        }
        lemma_remove_named_absent(s.skip(1), name);
        assert(seq![s[0]] + s.skip(1) =~= s);
    }
}

/// When no record bears `name`, the search comes up empty.
pub proof fn lemma_find_named_absent(s: Seq<ProjectV>, name: Seq<char>)
    requires
        forall|k: int| 0 <= k < s.len() ==> (#[trigger] s[k]).name != name,
    ensures
        find_named_v(s, name) is None,
    decreases s.len(),
{
    if s.len() != 0 {
        assert forall|k: int| 0 <= k < s.skip(1).len() implies (#[trigger] s.skip(1)[k]).name
            != name by {
            assert(s[k + 1].name != name);
        }
        lemma_find_named_absent(s.skip(1), name);
    }
}

/// The search succeeds exactly when some record bears the name.
pub proof fn lemma_find_contains(s: Seq<ProjectV>, name: Seq<char>)
    ensures
        (find_named_v(s, name) is Some) <==> contains_name_v(s, name),
    decreases s.len(),
{
    if s.len() != 0 {
        if s[0].name == name {
            assert(contains_name_v(s, name));
        } else {
            lemma_find_contains(s.skip(1), name);
            if contains_name_v(s, name) {
                let i = choose|i: int| 0 <= i < s.len() && #[trigger] s[i].name == name;
                assert(s.skip(1)[i - 1].name == name);
            }
            if contains_name_v(s.skip(1), name) {
                let i = choose|i: int|
                    0 <= i < s.skip(1).len() && #[trigger] s.skip(1)[i].name == name;
                assert(s[i + 1].name == name);
            }
        }
    }
}

/// After a successful create, looking the project's name up finds
/// exactly the record that was just added, with its fields intact.
pub proof fn lemma_create_then_get(s: Seq<ProjectV>, p: ProjectV)
    ensures
        find_named_v(remove_named_v(s, p.name).push(p), p.name) == Some(p),
{
    lemma_remove_named_members(s, p.name);
    lemma_find_named_after_push(remove_named_v(s, p.name), p);
}

/// After a successful removal, looking the name up fails: no record
/// bears it any more.
pub proof fn lemma_remove_then_get(s: Seq<ProjectV>, name: Seq<char>)
    ensures
        find_named_v(remove_named_v(s, name), name) is None,
{
    lemma_remove_named_members(s, name);
    lemma_find_named_absent(remove_named_v(s, name), name);
}

/// The registry: the ordered sequence of tracked records.  Lookup is by
/// name, never by position.
#[derive(Debug)]
pub struct ProjectRegistry {
    pub projects: Vec<Project>,
}

impl View for ProjectRegistry {
    type V = Seq<ProjectV>;

    open spec fn view(&self) -> Seq<ProjectV> {
        self.projects@.map_values(|p: Project| p@)
    }
}

impl ProjectRegistry {
    /// A registry tracking nothing.
    pub fn empty() -> (r: Self)
        ensures
            r@ == Seq::<ProjectV>::empty(),
    {
        let r = ProjectRegistry { projects: Vec::new() };
        proof {
            assert(r@ =~= Seq::<ProjectV>::empty());
        }
        r
    }

    /// Removes any record with the same name, then appends the new one.
    /// In-memory only; the caller persists the document separately.
    pub fn add_project(&mut self, project: Project)
        ensures
            final(self)@ == remove_named_v(old(self)@, project@.name).push(project@),
    {
        let ghost nm = project@.name;
        let mut i: usize = 0;
        proof {
            assert(self@.subrange(0, 0) =~= Seq::<ProjectV>::empty());
            assert(self@.skip(0) =~= self@);
            assert(Seq::<ProjectV>::empty() + remove_named_v(self@, nm) =~= remove_named_v(
                self@,
                nm,
            ));
        }
        while i < self.projects.len()
            invariant
                i <= self.projects.len(),
                nm == project@.name,
                remove_named_v(old(self)@, nm) == self@.subrange(0, i as int) + remove_named_v(
                    self@.skip(i as int),
                    nm,
                ),
                forall|k: int| 0 <= k < i ==> (#[trigger] self@[k]).name != nm,
            decreases self.projects.len() - i,
        {
            let ghost cur = self@;
            proof {
                assert(cur.skip(i as int).len() != 0);
                assert(cur.skip(i as int)[0] == cur[i as int]);
                assert(cur.skip(i as int).skip(1) =~= cur.skip(i + 1));
            }
            if self.projects[i].name == project.name {
                self.projects.remove(i);
                proof {
                    assert(self@ =~= cur.remove(i as int));
                    assert(self@.subrange(0, i as int) =~= cur.subrange(0, i as int));
                    assert(self@.skip(i as int) =~= cur.skip(i + 1));
                }
            } else {
                proof {
                    assert(cur.subrange(0, i + 1) =~= cur.subrange(0, i as int).push(
                        cur[i as int],
                    ));
                    assert(cur.subrange(0, i as int).push(cur[i as int]) + remove_named_v(
                        cur.skip(i + 1),
                        nm,
                    ) =~= cur.subrange(0, i as int) + (seq![cur[i as int]] + remove_named_v(
                        cur.skip(i + 1),
                        nm,
                    )));
                }
                i = i + 1;
            }
        }
        proof {
            assert(self@.skip(i as int) =~= Seq::<ProjectV>::empty());
            assert(self@.subrange(0, i as int) =~= self@);
            assert(self@ + Seq::<ProjectV>::empty() =~= self@);
        }
        let ghost cleaned = self@;
        self.projects.push(project);
        proof {
            assert(self@ =~= cleaned.push(project@));
        }
    }

    /// Removes the record bearing `name` if present; reports whether a
    /// removal occurred.
    pub fn remove_project(&mut self, name: &str) -> (removed: bool)
        ensures
            final(self)@ == remove_named_v(old(self)@, name@),
            removed == contains_name_v(old(self)@, name@),
    {
        let ghost nm = name@;
        let n0 = self.projects.len();
        let mut i: usize = 0;
        proof {
            assert(self@.subrange(0, 0) =~= Seq::<ProjectV>::empty());
            assert(self@.skip(0) =~= self@);
            assert(Seq::<ProjectV>::empty() + remove_named_v(self@, nm) =~= remove_named_v(
                self@,
                nm,
            ));
        }
        while i < self.projects.len()
            invariant
                i <= self.projects.len(),
                nm == name@,
                remove_named_v(old(self)@, nm) == self@.subrange(0, i as int) + remove_named_v(
                    self@.skip(i as int),
                    nm,
                ),
                forall|k: int| 0 <= k < i ==> (#[trigger] self@[k]).name != nm,
            decreases self.projects.len() - i,
        {
            let ghost cur = self@;
            proof {
                assert(cur.skip(i as int).len() != 0);
                assert(cur.skip(i as int)[0] == cur[i as int]);
                assert(cur.skip(i as int).skip(1) =~= cur.skip(i + 1));
            }
            if crate::strutil::str_eq(self.projects[i].name.as_str(), name) {
                self.projects.remove(i);
                proof {
                    assert(self@ =~= cur.remove(i as int));
                    assert(self@.subrange(0, i as int) =~= cur.subrange(0, i as int));
                    assert(self@.skip(i as int) =~= cur.skip(i + 1));
                }
            } else {
                proof {
                    assert(cur.subrange(0, i + 1) =~= cur.subrange(0, i as int).push(
                        cur[i as int],
                    ));
                    assert(cur.subrange(0, i as int).push(cur[i as int]) + remove_named_v(
                        cur.skip(i + 1),
                        nm,
                    ) =~= cur.subrange(0, i as int) + (seq![cur[i as int]] + remove_named_v(
                        cur.skip(i + 1),
                        nm,
                    )));
                }
                i = i + 1;
            }
        }
        proof {
            assert(self@.skip(i as int) =~= Seq::<ProjectV>::empty());
            assert(self@.subrange(0, i as int) =~= self@);
            assert(self@ + Seq::<ProjectV>::empty() =~= self@);
            lemma_remove_named_len(old(self)@, nm);
        }
        self.projects.len() != n0
    }

    /// The first record bearing `name`, if any; no side effects.
    pub fn get_project(&self, name: &str) -> (r: Option<&Project>)
        ensures
            match r {
                Some(p) => find_named_v(self@, name@) == Some(p@),
                None => find_named_v(self@, name@) is None,
            },
    {
        let ghost nm = name@;
        let mut i: usize = 0;
        proof {
            assert(self@.skip(0) =~= self@);
        }
        while i < self.projects.len()
            invariant
                i <= self.projects.len(),
                nm == name@,
                find_named_v(self@, nm) == find_named_v(self@.skip(i as int), nm),
            decreases self.projects.len() - i,
        {
            proof {
                assert(self@.skip(i as int)[0] == self@[i as int]);
                assert(self@.skip(i as int).skip(1) =~= self@.skip(i + 1));
            }
            if crate::strutil::str_eq(self.projects[i].name.as_str(), name) {
                return Some(&self.projects[i]);
            }
            i = i + 1;
        }
        proof {
            assert(self@.skip(i as int) =~= Seq::<ProjectV>::empty());
        }
        None
    }

    /// A read-only walk over all records, in registry order.
    pub fn list_projects(&self) -> (r: Vec<&Project>)
        ensures
            r@.len() == self@.len(),
            forall|k: int| 0 <= k < r@.len() ==> (#[trigger] r@[k])@ == self@[k],
    {
        let mut out: Vec<&Project> = Vec::new();
        let mut i: usize = 0;
        while i < self.projects.len()
            invariant
                i <= self.projects.len(),
                out@.len() == i,
                forall|k: int| 0 <= k < i ==> (#[trigger] out@[k])@ == self@[k],
            decreases self.projects.len() - i,
        {
            out.push(&self.projects[i]);
            i = i + 1;
        }
        out
    }
}

/// After any upsert into a registry with unique names, the names are
/// still unique and looking the name up finds exactly the record that
/// was just added.
pub proof fn lemma_add_project_unique(s: Seq<ProjectV>, p: ProjectV)
    requires
        unique_names(s),
    ensures
        unique_names(remove_named_v(s, p.name).push(p)),
        find_named_v(remove_named_v(s, p.name).push(p), p.name) == Some(p),
{
    let r = remove_named_v(s, p.name);
    lemma_remove_named_unique(s, p.name);
    lemma_remove_named_members(s, p.name);
    lemma_find_named_after_push(r, p);
    assert forall|i: int, j: int| 0 <= i < j < r.push(p).len() implies r.push(p)[i].name != r.push(
        p,
    )[j].name by {
        if j < r.len() {
            assert(r[i].name != r[j].name);
        } else {
            assert(r[i].name != p.name);
        }
    }
}

} // verus!
