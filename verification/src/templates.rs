//! The template catalog: the fixed built-in identifiers plus the
//! user-registered custom templates, and the dispatch that instantiates
//! a project from either.  Built-ins are checked first, so a custom
//! template sharing a built-in name is never reached.

use vstd::prelude::*;

use crate::builtin::{TemplateFile, builtin_files_v, builtin_names, builtin_project_files,
    is_builtin_name};
use crate::codec::{ef, sp_field, sp_opt, enc_opt, lemma_concat_subrange, lemma_field_round_trip,
    lemma_opt_round_trip, lemma_ef_len, push_field, push_opt, parse_field, parse_opt};
use crate::error::Error;
use crate::strutil::{str_eq, strs_sorted, sort_strings};

verus! {

/// A template identifier: one of the fixed built-in kinds, or the name
/// of a user-registered custom template.
#[derive(Debug)]
pub enum TemplateType {
    Rust,
    Python,
    Node,
    Go,
    Bash,
    Zsh,
    Bun,
    Custom(String),
}

/// The identifier a template kind is written as.
pub open spec fn template_name(t: TemplateType) -> Seq<char> {
    match t {
        TemplateType::Rust => "rust"@,
        TemplateType::Python => "python"@,
        TemplateType::Node => "node"@,
        TemplateType::Go => "go"@,
        TemplateType::Bash => "bash"@,
        TemplateType::Zsh => "zsh"@,
        TemplateType::Bun => "bun"@,
        TemplateType::Custom(n) => n@,
    }
}

impl TemplateType {
    /// Reads an identifier; anything that is not a built-in is a custom
    /// template name.
    pub fn from_name(s: &str) -> (r: TemplateType)
        ensures
            template_name(r) == s@,
            (r is Custom) <==> !is_builtin_name(s@),
    {
        if str_eq(s, "rust") {
            TemplateType::Rust
        } else if str_eq(s, "python") {
            TemplateType::Python
        } else if str_eq(s, "node") {
            TemplateType::Node
        } else if str_eq(s, "go") {
            TemplateType::Go
        } else if str_eq(s, "bash") {
            TemplateType::Bash
        } else if str_eq(s, "zsh") {
            TemplateType::Zsh
        } else if str_eq(s, "bun") {
            TemplateType::Bun
        } else {
            TemplateType::Custom(String::from_str(s))
        }
    }

    /// Writes the identifier back out.
    pub fn name(&self) -> (r: String)
        ensures
            r@ == template_name(*self),
    {
        match self {
            TemplateType::Rust => String::from_str("rust"),
            TemplateType::Python => String::from_str("python"),
            TemplateType::Node => String::from_str("node"),
            TemplateType::Go => String::from_str("go"),
            TemplateType::Bash => String::from_str("bash"),
            TemplateType::Zsh => String::from_str("zsh"),
            TemplateType::Bun => String::from_str("bun"),
            TemplateType::Custom(n) => n.clone(),
        }
    }
}

/// A user-registered template: a name and the directory its files are
/// copied from; the directory must exist when it is registered.
#[derive(Debug)]
pub struct CustomTemplate {
    pub name: String,
    pub path: String,
    pub description: Option<String>,
}

pub struct CustomTemplateV {
    pub name: Seq<char>,
    pub path: Seq<char>,
    pub description: Option<Seq<char>>,
}

impl View for CustomTemplate {
    type V = CustomTemplateV;

    open spec fn view(&self) -> CustomTemplateV {
        CustomTemplateV {
            name: self.name@,
            path: self.path@,
            description: match self.description {
                Some(d) => Some(d@),
                None => None,
            },
        }
    }
}

impl Clone for CustomTemplate {
    fn clone(&self) -> (r: Self)
        ensures
            r@ == self@,
    {
        CustomTemplate {
            name: self.name.clone(),
            path: self.path.clone(),
            description: match &self.description {
                Some(d) => Some(d.clone()),
                None => None,
            },
        }
    }
}

/// Whether some registration in `s` bears `name`.
pub open spec fn ct_contains_name(s: Seq<CustomTemplateV>, name: Seq<char>) -> bool {
    exists|i: int| 0 <= i < s.len() && #[trigger] s[i].name == name
}

/// The first registration in `s` bearing `name`.
pub open spec fn ct_find_named(s: Seq<CustomTemplateV>, name: Seq<char>) -> Option<
    CustomTemplateV,
>
    decreases s.len(),
{
    if s.len() == 0 {
        None
    } else if s[0].name == name {
        Some(s[0])
    } else {
        ct_find_named(s.skip(1), name)
    }
}

/// `s` with every registration bearing `name` removed.
pub open spec fn ct_remove_named(s: Seq<CustomTemplateV>, name: Seq<char>) -> Seq<
    CustomTemplateV,
>
    decreases s.len(),
{
    if s.len() == 0 {
        s
    } else if s[0].name == name {
        ct_remove_named(s.skip(1), name)
    } else {
        seq![s[0]] + ct_remove_named(s.skip(1), name)
    }
}

pub proof fn lemma_ct_remove_named_len(s: Seq<CustomTemplateV>, name: Seq<char>)
    ensures
        ct_remove_named(s, name).len() <= s.len(),
        (ct_remove_named(s, name).len() == s.len()) <==> !ct_contains_name(s, name),
    decreases s.len(),
{
    if s.len() != 0 {
        lemma_ct_remove_named_len(s.skip(1), name);
        if s[0].name == name {
            assert(ct_contains_name(s, name));
        } else {
            assert(ct_contains_name(s.skip(1), name) ==> ct_contains_name(s, name)) by {
                if ct_contains_name(s.skip(1), name) {
                    let i = choose|i: int|
                        0 <= i < s.skip(1).len() && #[trigger] s.skip(1)[i].name == name;
                    assert(s[i + 1].name == name);
                }
            }
            if ct_contains_name(s, name) {
                let i = choose|i: int| 0 <= i < s.len() && #[trigger] s[i].name == name;
                assert(s.skip(1)[i - 1].name == name);
            }
        }
    }
}

/// Removing a name that no registration bears changes nothing.
pub proof fn lemma_ct_remove_named_absent(s: Seq<CustomTemplateV>, name: Seq<char>)
    requires
        !ct_contains_name(s, name),
    ensures
        ct_remove_named(s, name) == s,
    decreases s.len(),
{
    if s.len() != 0 {
        assert(s[0].name != name);
        assert(!ct_contains_name(s.skip(1), name)) by {
            if ct_contains_name(s.skip(1), name) {
                let i = choose|i: int|
                    0 <= i < s.skip(1).len() && #[trigger] s.skip(1)[i].name == name;
                assert(s[i + 1].name == name);
            }
        }
        lemma_ct_remove_named_absent(s.skip(1), name);
        assert(seq![s[0]] + s.skip(1) =~= s);
    }
}

/// What instantiating a template asks of the caller: write the given
/// files, or copy a custom template's directory and then run the
/// substitution pass over it.
#[derive(Debug)]
pub enum InstantiationPlan {
    /// A built-in template synthesizes these files under the project
    /// directory.
    Builtin(Vec<TemplateFile>),
    /// A custom template is copied recursively from this source
    /// directory, then each copied file passes through the placeholder
    /// substitution step.
    CustomCopy(String),
}

/// The catalog of user-registered templates; the built-ins are fixed in
/// code and take precedence in dispatch.
#[derive(Debug)]
pub struct TemplateManager {
    custom_templates: Vec<CustomTemplate>,
}

impl View for TemplateManager {
    type V = Seq<CustomTemplateV>;

    closed spec fn view(&self) -> Seq<CustomTemplateV> {
        self.custom_templates@.map_values(|c: CustomTemplate| c@)
    }
}

impl TemplateManager {
    /// A catalog with no custom registrations; a persisted catalog is
    /// read back with [`Self::from_document`].
    pub fn new() -> (r: Self)
        ensures
            r@ == Seq::<CustomTemplateV>::empty(),
    {
        let r = TemplateManager { custom_templates: Vec::new() };
        proof {
            assert(r@ =~= Seq::<CustomTemplateV>::empty());
        }
        r
    }

    /// Every available identifier — the built-ins and every custom
    /// registration, duplicates kept — sorted lexicographically.
    pub fn list_templates(&self) -> (r: Vec<String>)
        ensures
            strs_sorted(r@.map_values(|t: String| t@)),
            r@.map_values(|t: String| t@).to_multiset() == (builtin_names() + self@.map_values(
                |c: CustomTemplateV| c.name,
            )).to_multiset(),
    {
        let mut v: Vec<String> = Vec::new();
        v.push(String::from_str("rust"));
        v.push(String::from_str("python"));
        v.push(String::from_str("node"));
        v.push(String::from_str("go"));
        v.push(String::from_str("bash"));
        v.push(String::from_str("zsh"));
        v.push(String::from_str("bun"));
        proof {
            assert(v@.map_values(|t: String| t@) =~= builtin_names());
        }
        let mut i: usize = 0;
        proof {
            assert(self@.map_values(|c: CustomTemplateV| c.name).subrange(0, 0)
                =~= Seq::<Seq<char>>::empty());
            assert(v@.map_values(|t: String| t@) =~= builtin_names() + self@.map_values(
                |c: CustomTemplateV| c.name,
            ).subrange(0, 0));
        }
        while i < self.custom_templates.len()
            invariant
                i <= self.custom_templates@.len(),
                v@.map_values(|t: String| t@) == builtin_names() + self@.map_values(
                    |c: CustomTemplateV| c.name,
                ).subrange(0, i as int),
            decreases self.custom_templates@.len() - i,
        {
            let ghost vvold = v@.map_values(|t: String| t@);
            let nm = self.custom_templates[i].name.clone();
            v.push(nm);
            proof {
                let names = self@.map_values(|c: CustomTemplateV| c.name);
                assert(self@[i as int] == self.custom_templates@[i as int]@);
                assert(names[i as int] == self@[i as int].name);
                assert(v@.map_values(|t: String| t@) =~= vvold.push(names[i as int]));
                assert(names.subrange(0, i + 1) =~= names.subrange(0, i as int).push(
                    names[i as int],
                ));
                assert(builtin_names() + names.subrange(0, i + 1) =~= (builtin_names()
                    + names.subrange(0, i as int)).push(names[i as int]));
            }
            i = i + 1;
        }
        proof {
            let names = self@.map_values(|c: CustomTemplateV| c.name);
            assert(names.subrange(0, i as int) =~= names);
        }
        sort_strings(&v)
    }

    /// The first registration bearing `name`, if any.
    pub fn get_template(&self, name: &str) -> (r: Option<&CustomTemplate>)
        ensures
            match r {
                Some(c) => ct_find_named(self@, name@) == Some(c@),
                None => ct_find_named(self@, name@) is None,
            },
    {
        let mut i: usize = 0;
        proof {
            assert(self@.skip(0) =~= self@);
        }
        while i < self.custom_templates.len()
            invariant
                i <= self.custom_templates@.len(),
                ct_find_named(self@, name@) == ct_find_named(self@.skip(i as int), name@),
            decreases self.custom_templates@.len() - i,
        {
            proof {
                assert(self@.skip(i as int)[0] == self@[i as int]);
                assert(self@.skip(i as int).skip(1) =~= self@.skip(i + 1));
            }
            if str_eq(self.custom_templates[i].name.as_str(), name) {
                return Some(&self.custom_templates[i]);
            }
            i = i + 1;
        }
        proof {
            assert(self@.skip(i as int) =~= Seq::<CustomTemplateV>::empty());
        }
        None
    }

    /// Registers a custom template.  `path_is_dir` reports whether the
    /// source path exists and is a directory on disk; without that the
    /// registration is rejected and nothing changes.  Registering an
    /// already-used name replaces the prior registration.
    pub fn add_template(&mut self, name: String, path: String, path_is_dir: bool) -> (r: Result<
        (),
        Error,
    >)
        ensures
            !path_is_dir ==> final(self)@ == old(self)@ && (r matches Err(e) && e matches
                Error::InvalidPath(p) && p@ == path@),
            path_is_dir ==> r is Ok && final(self)@ == ct_remove_named(old(self)@, name@).push(
                CustomTemplateV { name: name@, path: path@, description: None },
            ),
    {
        if !path_is_dir {
            return Err(Error::InvalidPath(path));
        }
        let ghost nm = name@;
        let ghost pv = path@;
        let mut i: usize = 0;
        proof {
            assert(self@.subrange(0, 0) =~= Seq::<CustomTemplateV>::empty());
            assert(self@.skip(0) =~= self@);
            assert(Seq::<CustomTemplateV>::empty() + ct_remove_named(self@, nm)
                =~= ct_remove_named(self@, nm));
        }
        while i < self.custom_templates.len()
            invariant
                i <= self.custom_templates@.len(),
                nm == name@,
                ct_remove_named(old(self)@, nm) == self@.subrange(0, i as int) + ct_remove_named(
                    self@.skip(i as int),
                    nm,
                ),
                forall|k: int| 0 <= k < i ==> (#[trigger] self@[k]).name != nm,
            decreases self.custom_templates@.len() - i,
        {
            let ghost cur = self@;
            proof {
                assert(cur.skip(i as int).len() != 0);
                assert(cur.skip(i as int)[0] == cur[i as int]);
                assert(cur.skip(i as int).skip(1) =~= cur.skip(i + 1));
            }
            if str_eq(self.custom_templates[i].name.as_str(), name.as_str()) {
                self.custom_templates.remove(i);
                proof {
                    assert(self@ =~= cur.remove(i as int));
                    assert(self@.subrange(0, i as int) =~= cur.subrange(0, i as int));
                    assert(self@.skip(i as int) =~= cur.skip(i + 1));
                }
            } else {
                proof {
                    assert(cur.subrange(0, i + 1) =~= cur.subrange(0, i as int).push(
                        cur[i as int],
                    ));
                    assert(cur.subrange(0, i as int).push(cur[i as int]) + ct_remove_named(
                        cur.skip(i + 1),
                        nm,
                    ) =~= cur.subrange(0, i as int) + (seq![cur[i as int]] + ct_remove_named(
                        cur.skip(i + 1),
                        nm,
                    )));
                }
                i = i + 1;
            }
        }
        proof {
            assert(self@.skip(i as int) =~= Seq::<CustomTemplateV>::empty());
            assert(self@.subrange(0, i as int) =~= self@);
            assert(self@ + Seq::<CustomTemplateV>::empty() =~= self@);
        }
        let ghost cleaned = self@;
        self.custom_templates.push(CustomTemplate { name, path, description: None });
        proof {
            assert(self@ =~= cleaned.push(
                CustomTemplateV { name: nm, path: pv, description: None },
            ));
        }
        Ok(())
    }

    /// Unregisters a custom template; the identifier must be registered.
    /// Projects already created from it are untouched.
    pub fn remove_template(&mut self, name: &str) -> (r: Result<(), Error>)
        ensures
            ct_contains_name(old(self)@, name@) ==> r is Ok && final(self)@ == ct_remove_named(
                old(self)@,
                name@,
            ),
            !ct_contains_name(old(self)@, name@) ==> final(self)@ == old(self)@ && (r matches Err(
                e,
            ) && e matches Error::NotFound(n) && n@ == name@),
    {
        let ghost nm = name@;
        let n0 = self.custom_templates.len();
        let mut i: usize = 0;
        proof {
            assert(self@.subrange(0, 0) =~= Seq::<CustomTemplateV>::empty());
            assert(self@.skip(0) =~= self@);
            assert(Seq::<CustomTemplateV>::empty() + ct_remove_named(self@, nm)
                =~= ct_remove_named(self@, nm));
        }
        while i < self.custom_templates.len()
            invariant
                i <= self.custom_templates@.len(),
                nm == name@,
                ct_remove_named(old(self)@, nm) == self@.subrange(0, i as int) + ct_remove_named(
                    self@.skip(i as int),
                    nm,
                ),
                forall|k: int| 0 <= k < i ==> (#[trigger] self@[k]).name != nm,
            decreases self.custom_templates@.len() - i,
        {
            let ghost cur = self@;
            proof {
                assert(cur.skip(i as int).len() != 0);
                assert(cur.skip(i as int)[0] == cur[i as int]);
                assert(cur.skip(i as int).skip(1) =~= cur.skip(i + 1));
            }
            if str_eq(self.custom_templates[i].name.as_str(), name) {
                self.custom_templates.remove(i);
                proof {
                    assert(self@ =~= cur.remove(i as int));
                    assert(self@.subrange(0, i as int) =~= cur.subrange(0, i as int));
                    assert(self@.skip(i as int) =~= cur.skip(i + 1));
                }
            } else {
                proof {
                    assert(cur.subrange(0, i + 1) =~= cur.subrange(0, i as int).push(
                        cur[i as int],
                    ));
                    assert(cur.subrange(0, i as int).push(cur[i as int]) + ct_remove_named(
                        cur.skip(i + 1),
                        nm,
                    ) =~= cur.subrange(0, i as int) + (seq![cur[i as int]] + ct_remove_named(
                        cur.skip(i + 1),
                        nm,
                    )));
                }
                i = i + 1;
            }
        }
        proof {
            assert(self@.skip(i as int) =~= Seq::<CustomTemplateV>::empty());
            assert(self@.subrange(0, i as int) =~= self@);
            assert(self@ + Seq::<CustomTemplateV>::empty() =~= self@);
            lemma_ct_remove_named_len(old(self)@, nm);
            if !ct_contains_name(old(self)@, nm) {
                lemma_ct_remove_named_absent(old(self)@, nm);
            }
        }
        if self.custom_templates.len() == n0 {
            Err(Error::NotFound(String::from_str(name)))
        } else {
            Ok(())
        }
    }

    /// Dispatches a template identifier: a built-in synthesizes its
    /// fixed file set with the project name interpolated; otherwise a
    /// registered custom template is copied from its source directory;
    /// any other identifier is rejected and nothing is created.
    pub fn create_project_from_template(&self, template: &str, project_name: &str) -> (r: Result<
        InstantiationPlan,
        Error,
    >)
        ensures
            is_builtin_name(template@) ==> (r matches Ok(p) && p matches
                InstantiationPlan::Builtin(files) && files@.map_values(|f: TemplateFile| f@)
                == builtin_files_v(template@, project_name@)),
            !is_builtin_name(template@) ==> match ct_find_named(self@, template@) {
                Some(ct) => r matches Ok(p) && p matches InstantiationPlan::CustomCopy(src)
                    && src@ == ct.path,
                None => r matches Err(e) && e matches Error::UnknownTemplate(t) && t@
                    == template@,
            },
    {
        match builtin_project_files(template, project_name) {
            Some(files) => Ok(InstantiationPlan::Builtin(files)),
            None => {
                match self.get_template(template) {
                    Some(ct) => Ok(InstantiationPlan::CustomCopy(ct.path.clone())),
                    None => Err(Error::UnknownTemplate(String::from_str(template))),
                }
            },
        }
    }
}

/// The encoding of one registration: name, path, then the optional
/// description.
pub open spec fn enc_ct(c: CustomTemplateV) -> Seq<char> {
    ef(c.name) + ef(c.path) + enc_opt(c.description)
}

/// The whole catalog document: registrations back to back.
pub open spec fn enc_cts(cs: Seq<CustomTemplateV>) -> Seq<char>
    decreases cs.len(),
{
    if cs.len() == 0 {
        Seq::<char>::empty()
    } else {
        enc_ct(cs[0]) + enc_cts(cs.skip(1))
    }
}

/// Parsing one registration at `i`.
pub open spec fn sp_ct(s: Seq<char>, i: int) -> Option<(CustomTemplateV, int)> {
    match sp_field(s, i) {
        Some((name, i1)) => match sp_field(s, i1) {
            Some((path, i2)) => match sp_opt(s, i2) {
                Some((description, i3)) => Some((CustomTemplateV { name, path, description }, i3)),
                None => None,
            },
            None => None,
        },
        None => None,
    }
}

/// Parsing the whole catalog document.
pub open spec fn sp_cts(s: Seq<char>, i: int) -> Option<Seq<CustomTemplateV>>
    decreases s.len() - i,
{
    if i == s.len() {
        Some(Seq::<CustomTemplateV>::empty())
    } else if 0 <= i < s.len() {
        match sp_ct(s, i) {
            Some((c, j)) => if i < j <= s.len() {
                match sp_cts(s, j) {
                    Some(rest) => Some(seq![c] + rest),
                    None => None,
                }
            } else {
                None
            },
            None => None,
        }
    } else {
        None
    }
}

pub proof fn lemma_ct_round_trip(c: CustomTemplateV, s: Seq<char>, i: int)
    requires
        0 <= i,
        i + enc_ct(c).len() <= s.len(),
        s.subrange(i, i + enc_ct(c).len() as int) == enc_ct(c),
    ensures
        sp_ct(s, i) == Some((c, i + enc_ct(c).len() as int)),
{
    let r1 = ef(c.path) + enc_opt(c.description);
    assert(s.subrange(i, i + enc_ct(c).len() as int) == ef(c.name) + r1);
    lemma_concat_subrange(s, i, ef(c.name), r1);
    let i1 = i + ef(c.name).len();
    lemma_field_round_trip(c.name, s, i);
    lemma_concat_subrange(s, i1, ef(c.path), enc_opt(c.description));
    let i2 = i1 + ef(c.path).len();
    lemma_field_round_trip(c.path, s, i1);
    lemma_opt_round_trip(c.description, s, i2);
}

pub proof fn lemma_cts_round_trip(cs: Seq<CustomTemplateV>, s: Seq<char>, i: int)
    requires
        0 <= i,
        i + enc_cts(cs).len() == s.len(),
        s.subrange(i, s.len() as int) == enc_cts(cs),
    ensures
        sp_cts(s, i) == Some(cs),
    decreases cs.len(),
{
    if cs.len() == 0 {
        assert(cs =~= Seq::<CustomTemplateV>::empty());
    } else {
        let c = cs[0];
        let rest = cs.skip(1);
        assert(s.subrange(i, i + enc_ct(c).len() + enc_cts(rest).len()) == enc_ct(c) + enc_cts(
            rest,
        ));
        lemma_concat_subrange(s, i, enc_ct(c), enc_cts(rest));
        lemma_ct_round_trip(c, s, i);
        let j = i + enc_ct(c).len();
        lemma_ef_len(c.name);
        assert(s.subrange(j, s.len() as int) == enc_cts(rest));
        lemma_cts_round_trip(rest, s, j);
        assert(seq![c] + rest =~= cs);
    }
}

/// Writing the catalog out and reading it back reproduces every
/// registration.
pub proof fn lemma_catalog_round_trip(cs: Seq<CustomTemplateV>)
    ensures
        sp_cts(enc_cts(cs), 0) == Some(cs),
{
    let s = enc_cts(cs);
    assert(s.subrange(0, s.len() as int) =~= s);
    lemma_cts_round_trip(cs, s, 0);
}

/// Parses one registration of the document starting at `pos`.
fn parse_ct(s: &str, slen: usize, pos: usize) -> (r: Option<(CustomTemplate, usize)>)
    requires
        slen == s@.len(),
        pos <= slen,
    ensures
        match r {
            Some(p) => sp_ct(s@, pos as int) == Some((p.0@, p.1 as int)) && pos < p.1 && p.1
                <= slen,
            None => sp_ct(s@, pos as int) is None,
        },
{
    match parse_field(s, slen, pos) {
        None => None,
        Some((name, i1)) => {
            match parse_field(s, slen, i1) {
                None => None,
                Some((path, i2)) => {
                    match parse_opt(s, slen, i2) {
                        None => None,
                        Some((description, i3)) => {
                            Some((CustomTemplate { name, path, description }, i3))
                        },
                    }
                },
            }
        },
    }
}

impl TemplateManager {
    /// Serializes every registration into one document.
    pub fn to_document(&self) -> (r: String)
        ensures
            r@ == enc_cts(self@),
    {
        let mut out = String::new();
        let mut i: usize = 0;
        proof {
            assert(self@.skip(0) =~= self@);
            assert(out@ + enc_cts(self@) =~= enc_cts(self@));
        }
        while i < self.custom_templates.len()
            invariant
                i <= self.custom_templates@.len(),
                enc_cts(self@) == out@ + enc_cts(self@.skip(i as int)),
            decreases self.custom_templates@.len() - i,
        {
            let ghost pre = out@;
            let ghost restv = self@.skip(i as int);
            proof {
                assert(restv.len() != 0 && restv[0] == self@[i as int]);
                assert(restv.skip(1) =~= self@.skip(i + 1));
                assert(self@[i as int] == self.custom_templates@[i as int]@);
            }
            let c = &self.custom_templates[i];
            push_field(&mut out, c.name.as_str());
            push_field(&mut out, c.path.as_str());
            push_opt(&mut out, &c.description);
            proof {
                assert(out@ =~= pre + enc_ct(self@[i as int]));
                assert(out@ + enc_cts(self@.skip(i + 1)) =~= enc_cts(self@));
            }
            i = i + 1;
        }
        proof {
            assert(self@.skip(i as int) =~= Seq::<CustomTemplateV>::empty());
            assert(out@ + Seq::<char>::empty() =~= out@);
        }
        out
    }

    /// Reads a catalog document back.  The empty document gives the
    /// empty catalog; a malformed document is rejected.
    pub fn from_document(doc: &str) -> (r: Result<TemplateManager, Error>)
        ensures
            match r {
                Ok(m) => sp_cts(doc@, 0) == Some(m@),
                Err(e) => sp_cts(doc@, 0) is None && e matches Error::Parse,
            },
    {
        let slen = doc.unicode_len();
        let mut custom_templates: Vec<CustomTemplate> = Vec::new();
        let mut pos: usize = 0;
        loop
            invariant
                slen == doc@.len(),
                pos <= slen,
                sp_cts(doc@, 0) == (match sp_cts(doc@, pos as int) {
                    Some(res) => Some(custom_templates@.map_values(|c: CustomTemplate| c@) + res),
                    None => None::<Seq<CustomTemplateV>>,
                }),
            decreases slen - pos,
        {
            if pos >= slen {
                proof {
                    assert(sp_cts(doc@, pos as int) == Some(Seq::<CustomTemplateV>::empty()));
                    assert(custom_templates@.map_values(|c: CustomTemplate| c@)
                        + Seq::<CustomTemplateV>::empty() =~= custom_templates@.map_values(
                        |c: CustomTemplate| c@,
                    ));
                }
                let m = TemplateManager { custom_templates };
                return Ok(m);
            }
            match parse_ct(doc, slen, pos) {
                None => {
                    return Err(Error::Parse);
                },
                Some((c, j)) => {
                    let ghost prev = custom_templates@.map_values(|q: CustomTemplate| q@);
                    custom_templates.push(c);
                    proof {
                        assert(custom_templates@.map_values(|q: CustomTemplate| q@) =~= prev.push(
                            c@,
                        ));
                        if sp_cts(doc@, j as int) is Some {
                            let res = sp_cts(doc@, j as int)->Some_0;
                            assert(sp_cts(doc@, pos as int) == Some(seq![c@] + res));
                            assert(prev + (seq![c@] + res) =~= prev.push(c@) + res);
                        } else {
                            assert(sp_cts(doc@, pos as int) is None);
                        }
                    }
                    pos = j;
                },
            }
        }
    }
}

} // verus!
