//! The configuration store: one record per user environment, loaded
//! lazily and saved explicitly, with defaults synthesized on first run.
//! The persisted locations live under the user's configuration
//! directory, which only the `dirs` crate can name.

use vstd::prelude::*;

use crate::codec::{ef, sp_field, sp_opt, enc_opt, lemma_concat_subrange, lemma_field_round_trip,
    lemma_opt_round_trip, push_field, push_opt, parse_field, parse_opt};
use crate::error::Error;
use crate::strutil::path_join;

verus! {

/// The configuration record: the template used when none is named, the
/// root under which projects are created, the install target for built
/// artifacts, an auto-build policy flag read by collaborators, and an
/// optional editor preference.
#[derive(Debug)]
pub struct Config {
    pub default_template: String,
    pub projects_dir: String,
    pub bin_dir: String,
    pub auto_build: bool,
    pub editor: Option<String>,
}

pub struct ConfigV {
    pub default_template: Seq<char>,
    pub projects_dir: Seq<char>,
    pub bin_dir: Seq<char>,
    pub auto_build: bool,
    pub editor: Option<Seq<char>>,
}

impl View for Config {
    type V = ConfigV;

    open spec fn view(&self) -> ConfigV {
        ConfigV {
            default_template: self.default_template@,
            projects_dir: self.projects_dir@,
            bin_dir: self.bin_dir@,
            auto_build: self.auto_build,
            editor: match self.editor {
                Some(e) => Some(e@),
                None => None,
            },
        }
    }
}

impl Clone for Config {
    fn clone(&self) -> (r: Self)
        ensures
            r@ == self@,
    {
        Config {
            default_template: self.default_template.clone(),
            projects_dir: self.projects_dir.clone(),
            bin_dir: self.bin_dir.clone(),
            auto_build: self.auto_build,
            editor: match &self.editor {
                Some(e) => Some(e.clone()),
                None => None,
            },
        }
    }
}

/// Relies on `dirs::config_dir` for the user's configuration directory;
/// the result depends on the environment, so nothing is promised of it.
#[verifier::external_body]
fn os_config_dir() -> Option<String> {
    dirs::config_dir().map(|p| p.to_string_lossy().into_owned())
}

/// Relies on `dirs::home_dir` for the user's home directory; the result
/// depends on the environment, so nothing is promised of it.
#[verifier::external_body]
fn os_home_dir() -> Option<String> {
    dirs::home_dir().map(|p| p.to_string_lossy().into_owned())
}

impl Config {
    /// The first-run configuration: compiled-language template by
    /// default, projects under a directory in the user's home (or the
    /// working directory when no home is known), binaries under it, no
    /// auto-build, and whatever editor preference the caller read from
    /// the environment.
    pub fn default_config(editor: Option<String>) -> (r: Config)
        ensures
            r@.default_template == "rust"@,
            exists|h: Seq<char>| r@.projects_dir == #[trigger] h.push('/') + "murex-projects"@,
            r@.bin_dir == r@.projects_dir.push('/') + "bin"@,
            r@.auto_build == false,
            r@.editor == (match editor {
                Some(e) => Some(e@),
                None => None::<Seq<char>>,
            }),
    {
        let home = match os_home_dir() {
            Some(h) => h,
            None => String::from_str("."),
        };
        let projects_dir = path_join(home.as_str(), "murex-projects");
        let bin_dir = path_join(projects_dir.as_str(), "bin");
        let r = Config {
            default_template: String::from_str("rust"),
            projects_dir,
            bin_dir,
            auto_build: false,
            editor,
        };
        proof {
            assert(r@.projects_dir == home@.push('/') + "murex-projects"@);
        }
        r
    }

    /// Applies `config set <key> <value>`: the recognized keys update
    /// their field, everything else changes nothing and is reported
    /// unknown.  `auto_build` reads `true` as true and any other value
    /// as false.
    pub fn set_value(&mut self, key: &str, value: &str) -> (known: bool)
        ensures
            key@ == "default_template"@ ==> known && final(self)@ == (ConfigV {
                default_template: value@,
                ..old(self)@
            }),
            key@ == "projects_dir"@ ==> known && final(self)@ == (ConfigV {
                projects_dir: value@,
                ..old(self)@
            }),
            key@ == "bin_dir"@ ==> known && final(self)@ == (ConfigV {
                bin_dir: value@,
                ..old(self)@
            }),
            key@ == "auto_build"@ ==> known && final(self)@ == (ConfigV {
                auto_build: value@ == "true"@,
                ..old(self)@
            }),
            (key@ != "default_template"@ && key@ != "projects_dir"@ && key@ != "bin_dir"@ && key@
                != "auto_build"@) ==> !known && final(self)@ == old(self)@,
    {
        proof {
            reveal_strlit("default_template");
            reveal_strlit("projects_dir");
            reveal_strlit("bin_dir");
            reveal_strlit("auto_build");
            // the four keys have pairwise different lengths
            assert("default_template"@.len() == 16);
            assert("projects_dir"@.len() == 12);
            assert("bin_dir"@.len() == 7);
            assert("auto_build"@.len() == 10);
        }
        if crate::strutil::str_eq(key, "default_template") {
            self.default_template = String::from_str(value);
            true
        } else if crate::strutil::str_eq(key, "projects_dir") {
            self.projects_dir = String::from_str(value);
            true
        } else if crate::strutil::str_eq(key, "bin_dir") {
            self.bin_dir = String::from_str(value);
            true
        } else if crate::strutil::str_eq(key, "auto_build") {
            self.auto_build = crate::strutil::str_eq(value, "true");
            true
        } else {
            false
        }
    }
}

/// The encoding of the configuration document: the three path fields,
/// the auto-build flag as a `t` or `f` field, then the optional editor.
pub open spec fn enc_config(c: ConfigV) -> Seq<char> {
    ef(c.default_template) + ef(c.projects_dir) + ef(c.bin_dir) + ef(
        if c.auto_build {
            seq!['t']
        } else {
            seq!['f']
        },
    ) + enc_opt(c.editor)
}

/// Parsing the configuration document; it must end exactly with the
/// last field.
pub open spec fn sp_config(s: Seq<char>) -> Option<ConfigV> {
    match sp_field(s, 0) {
        Some((default_template, i1)) => match sp_field(s, i1) {
            Some((projects_dir, i2)) => match sp_field(s, i2) {
                Some((bin_dir, i3)) => match sp_field(s, i3) {
                    Some((flag, i4)) => if flag == seq!['t'] || flag == seq!['f'] {
                        match sp_opt(s, i4) {
                            Some((editor, i5)) => if i5 == s.len() {
                                Some(
                                    ConfigV {
                                        default_template,
                                        projects_dir,
                                        bin_dir,
                                        auto_build: flag == seq!['t'],
                                        editor,
                                    },
                                )
                            } else {
                                None
                            },
                            None => None,
                        }
                    } else {
                        None
                    },
                    None => None,
                },
                None => None,
            },
            None => None,
        },
        None => None,
    }
}

/// Writing the configuration out and reading it back reproduces every
/// field.
#[verifier::rlimit(60)]
pub proof fn lemma_config_round_trip(c: ConfigV)
    ensures
        sp_config(enc_config(c)) == Some(c),
{
    let s = enc_config(c);
    let flag: Seq<char> = if c.auto_build {
        seq!['t']
    } else {
        seq!['f']
    };
    let r1 = ef(c.projects_dir) + ef(c.bin_dir) + ef(flag) + enc_opt(c.editor);
    let r2 = ef(c.bin_dir) + ef(flag) + enc_opt(c.editor);
    let r3 = ef(flag) + enc_opt(c.editor);
    assert(s.subrange(0, s.len() as int) =~= s);
    assert(s.subrange(0, s.len() as int) == ef(c.default_template) + r1);
    lemma_concat_subrange(s, 0, ef(c.default_template), r1);
    let i1 = ef(c.default_template).len() as int;
    lemma_field_round_trip(c.default_template, s, 0);
    assert(s.subrange(i1, i1 + r1.len() as int) == ef(c.projects_dir) + r2) by {
        assert(r1 =~= ef(c.projects_dir) + r2);
    }
    lemma_concat_subrange(s, i1, ef(c.projects_dir), r2);
    let i2 = i1 + ef(c.projects_dir).len();
    lemma_field_round_trip(c.projects_dir, s, i1);
    assert(s.subrange(i2, i2 + r2.len() as int) == ef(c.bin_dir) + r3) by {
        assert(r2 =~= ef(c.bin_dir) + r3);
    }
    lemma_concat_subrange(s, i2, ef(c.bin_dir), r3);
    let i3 = i2 + ef(c.bin_dir).len();
    lemma_field_round_trip(c.bin_dir, s, i2);
    lemma_concat_subrange(s, i3, ef(flag), enc_opt(c.editor));
    let i4 = i3 + ef(flag).len();
    lemma_field_round_trip(flag, s, i3);
    lemma_opt_round_trip(c.editor, s, i4);
}

impl Config {
    /// Serializes the record into one document.
    pub fn to_document(&self) -> (r: String)
        ensures
            r@ == enc_config(self@),
    {
        proof {
            reveal_strlit("t");
            reveal_strlit("f");
            assert("t"@ =~= seq!['t']);
            assert("f"@ =~= seq!['f']);
        }
        let mut out = String::new();
        push_field(&mut out, self.default_template.as_str());
        push_field(&mut out, self.projects_dir.as_str());
        push_field(&mut out, self.bin_dir.as_str());
        if self.auto_build {
            push_field(&mut out, "t");
        } else {
            push_field(&mut out, "f");
        }
        push_opt(&mut out, &self.editor);
        proof {
            assert(out@ =~= enc_config(self@));
        }
        out
    }

    /// Reads a configuration document back; a malformed one is
    /// rejected.
    pub fn from_document(doc: &str) -> (r: Result<Config, Error>)
        ensures
            match r {
                Ok(c) => sp_config(doc@) == Some(c@),
                Err(e) => sp_config(doc@) is None && e matches Error::Parse,
            },
    {
        proof {
            reveal_strlit("t");
            reveal_strlit("f");
            assert("t"@ =~= seq!['t']);
            assert("f"@ =~= seq!['f']);
        }
        let slen = doc.unicode_len();
        match parse_field(doc, slen, 0) {
            None => Err(Error::Parse),
            Some((default_template, i1)) => match parse_field(doc, slen, i1) {
                None => Err(Error::Parse),
                Some((projects_dir, i2)) => match parse_field(doc, slen, i2) {
                    None => Err(Error::Parse),
                    Some((bin_dir, i3)) => match parse_field(doc, slen, i3) {
                        None => Err(Error::Parse),
                        Some((flag, i4)) => {
                            let is_t = crate::strutil::str_eq(flag.as_str(), "t");
                            let is_f = crate::strutil::str_eq(flag.as_str(), "f");
                            if !is_t && !is_f {
                                return Err(Error::Parse);
                            }
                            match parse_opt(doc, slen, i4) {
                                None => Err(Error::Parse),
                                Some((editor, i5)) => {
                                    if i5 != slen {
                                        return Err(Error::Parse);
                                    }
                                    Ok(
                                        Config {
                                            default_template,
                                            projects_dir,
                                            bin_dir,
                                            auto_build: is_t,
                                            editor,
                                        },
                                    )
                                },
                            }
                        },
                    },
                },
            },
        }
    }
}

/// The directory this tool keeps its persisted state in, under the
/// user's configuration directory.
pub fn get_config_dir() -> (r: Result<String, Error>)
    ensures
        match r {
            Ok(d) => exists|b: Seq<char>| d@ == #[trigger] b.push('/') + "murex"@,
            Err(e) => e matches Error::NotFound(what) && what@ == "config directory"@,
        },
{
    match os_config_dir() {
        Some(base) => {
            let d = path_join(base.as_str(), "murex");
            proof {
                assert(d@ == base@.push('/') + "murex"@);
            }
            Ok(d)
        },
        None => Err(Error::NotFound(String::from_str("config directory"))),
    }
}

/// Where the configuration document lives.
pub fn get_config_file_path() -> (r: Result<String, Error>)
    ensures
        match r {
            Ok(p) => exists|d: Seq<char>| p@ == #[trigger] d.push('/') + "config.toml"@,
            Err(e) => e matches Error::NotFound(what) && what@ == "config directory"@,
        },
{
    match get_config_dir() {
        Ok(d) => Ok(path_join(d.as_str(), "config.toml")),
        Err(e) => Err(e),
    }
}

/// Where the registry document lives.
pub fn get_projects_file_path() -> (r: Result<String, Error>)
    ensures
        match r {
            Ok(p) => exists|d: Seq<char>| p@ == #[trigger] d.push('/') + "projects.json"@,
            Err(e) => e matches Error::NotFound(what) && what@ == "config directory"@,
        },
{
    match get_config_dir() {
        Ok(d) => Ok(path_join(d.as_str(), "projects.json")),
        Err(e) => Err(e),
    }
}

/// Where the custom-template catalog document lives.
pub fn get_templates_file_path() -> (r: Result<String, Error>)
    ensures
        match r {
            Ok(p) => exists|d: Seq<char>| p@ == #[trigger] d.push('/') + "templates.json"@,
            Err(e) => e matches Error::NotFound(what) && what@ == "config directory"@,
        },
{
    match get_config_dir() {
        Ok(d) => Ok(path_join(d.as_str(), "templates.json")),
        Err(e) => Err(e),
    }
}

} // verus!
