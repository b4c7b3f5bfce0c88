//! The persisted registry document: every record's fields written as
//! escaped fields, records back to back, the document ending with the
//! last record.  Loading is proved to be the exact inverse of saving.

use vstd::prelude::*;

use crate::codec::{ef, sp_field, sp_opt, enc_opt, lemma_concat_subrange, lemma_field_round_trip,
    lemma_opt_round_trip, lemma_ef_len, push_field, push_opt, parse_field, parse_opt};
use crate::error::Error;
use crate::registry::{Project, ProjectV, ProjectRegistry};

verus! {

/// The encoding of one record: its four fields, then the optional
/// last-built mark.
pub open spec fn enc_record(p: ProjectV) -> Seq<char> {
    ef(p.name) + ef(p.path) + ef(p.template) + ef(p.created_at) + enc_opt(p.last_built)
}

/// The whole document: records back to back.
pub open spec fn enc_records(rs: Seq<ProjectV>) -> Seq<char>
    decreases rs.len(),
{
    if rs.len() == 0 {
        Seq::<char>::empty()
    } else {
        enc_record(rs[0]) + enc_records(rs.skip(1))
    }
}

/// Parsing one record at `i`.
pub open spec fn sp_record(s: Seq<char>, i: int) -> Option<(ProjectV, int)> {
    match sp_field(s, i) {
        Some((name, i1)) => match sp_field(s, i1) {
            Some((path, i2)) => match sp_field(s, i2) {
                Some((template, i3)) => match sp_field(s, i3) {
                    Some((created_at, i4)) => match sp_opt(s, i4) {
                        Some((last_built, i5)) => Some(
                            (ProjectV { name, path, template, created_at, last_built }, i5),
                        ),
                        None => None,
                    },
                    None => None,
                },
                None => None,
            },
            None => None,
        },
        None => None,
    }
}

/// Parsing the whole document: records until the end of the text.
pub open spec fn sp_records(s: Seq<char>, i: int) -> Option<Seq<ProjectV>>
    decreases s.len() - i,
{
    if i == s.len() {
        Some(Seq::<ProjectV>::empty())
    } else if 0 <= i < s.len() {
        match sp_record(s, i) {
            Some((p, j)) => if i < j <= s.len() {
                match sp_records(s, j) {
                    Some(rest) => Some(seq![p] + rest),
                    None => None,
                }
            } else {
                None
            },
            None => None,
        }
    } else {
        None
    }
}

pub proof fn lemma_record_round_trip(p: ProjectV, s: Seq<char>, i: int)
    requires
        0 <= i,
        i + enc_record(p).len() <= s.len(),
        s.subrange(i, i + enc_record(p).len() as int) == enc_record(p),
    ensures
        sp_record(s, i) == Some((p, i + enc_record(p).len() as int)),
{
    let r1 = ef(p.path) + ef(p.template) + ef(p.created_at) + enc_opt(p.last_built);
    let r2 = ef(p.template) + ef(p.created_at) + enc_opt(p.last_built);
    let r3 = ef(p.created_at) + enc_opt(p.last_built);
    assert(s.subrange(i, i + enc_record(p).len() as int) == ef(p.name) + r1);
    lemma_concat_subrange(s, i, ef(p.name), r1);
    let i1 = i + ef(p.name).len();
    lemma_field_round_trip(p.name, s, i);
    assert(s.subrange(i1, i1 + r1.len() as int) == ef(p.path) + r2) by {
        assert(r1 =~= ef(p.path) + r2);
    }
    lemma_concat_subrange(s, i1, ef(p.path), r2);
    let i2 = i1 + ef(p.path).len();
    lemma_field_round_trip(p.path, s, i1);
    assert(s.subrange(i2, i2 + r2.len() as int) == ef(p.template) + r3) by {
        assert(r2 =~= ef(p.template) + r3);
    }
    lemma_concat_subrange(s, i2, ef(p.template), r3);
    let i3 = i2 + ef(p.template).len();
    lemma_field_round_trip(p.template, s, i2);
    lemma_concat_subrange(s, i3, ef(p.created_at), enc_opt(p.last_built));
    let i4 = i3 + ef(p.created_at).len();
    lemma_field_round_trip(p.created_at, s, i3);
    lemma_opt_round_trip(p.last_built, s, i4);
}

pub proof fn lemma_records_round_trip(rs: Seq<ProjectV>, s: Seq<char>, i: int)
    requires
        0 <= i,
        i + enc_records(rs).len() == s.len(),
        s.subrange(i, s.len() as int) == enc_records(rs),
    ensures
        sp_records(s, i) == Some(rs),
    decreases rs.len(),
{
    if rs.len() == 0 {
        assert(rs =~= Seq::<ProjectV>::empty());
    } else {
        let p = rs[0];
        let rest = rs.skip(1);
        assert(s.subrange(i, i + enc_record(p).len() + enc_records(rest).len()) == enc_record(p)
            + enc_records(rest));
        lemma_concat_subrange(s, i, enc_record(p), enc_records(rest));
        lemma_record_round_trip(p, s, i);
        let j = i + enc_record(p).len();
        lemma_ef_len(p.name);
        assert(s.subrange(j, s.len() as int) == enc_records(rest));
        lemma_records_round_trip(rest, s, j);
        assert(seq![p] + rest =~= rs);
    }
}

/// Saving and then loading reproduces every record of any registry
/// state, the empty one included.
pub proof fn lemma_registry_round_trip(rs: Seq<ProjectV>)
    ensures
        sp_records(enc_records(rs), 0) == Some(rs),
{
    let s = enc_records(rs);
    assert(s.subrange(0, s.len() as int) =~= s);
    lemma_records_round_trip(rs, s, 0);
}

/// A registry grown by upserts holds at most one record per distinct
/// name; the name looks up exactly the record most recently added under
/// it; and the save/load round trip preserves that state record for
/// record.
pub proof fn lemma_upsert_unique_after_round_trip(s: Seq<ProjectV>, p: ProjectV)
    requires
        crate::registry::unique_names(s),
    ensures
        ({
            let r = crate::registry::remove_named_v(s, p.name).push(p);
            &&& crate::registry::unique_names(r)
            &&& crate::registry::find_named_v(r, p.name) == Some(p)
            &&& sp_records(enc_records(r), 0) == Some(r)
        }),
{
    crate::registry::lemma_add_project_unique(s, p);
    lemma_registry_round_trip(crate::registry::remove_named_v(s, p.name).push(p));
}

impl ProjectRegistry {
    /// Serializes the full current state into one document.
    pub fn to_document(&self) -> (r: String)
        ensures
            r@ == enc_records(self@),
    {
        let mut out = String::new();
        let mut i: usize = 0;
        proof {
            assert(self@.skip(0) =~= self@);
            assert(out@ + enc_records(self@) =~= enc_records(self@));
        }
        while i < self.projects.len()
            invariant
                i <= self.projects.len(),
                enc_records(self@) == out@ + enc_records(self@.skip(i as int)),
            decreases self.projects.len() - i,
        {
            let ghost pre = out@;
            let ghost restv = self@.skip(i as int);
            proof {
                assert(restv.len() != 0 && restv[0] == self@[i as int]);
                assert(restv.skip(1) =~= self@.skip(i + 1));
                assert(self@[i as int] == self.projects@[i as int]@);
            }
            let p = &self.projects[i];
            push_field(&mut out, p.name.as_str());
            push_field(&mut out, p.path.as_str());
            push_field(&mut out, p.template.as_str());
            push_field(&mut out, p.created_at.as_str());
            push_opt(&mut out, &p.last_built);
            proof {
                assert(out@ =~= pre + enc_record(self@[i as int]));
                assert(out@ + enc_records(self@.skip(i + 1)) =~= enc_records(self@));
            }
            i = i + 1;
        }
        proof {
            assert(self@.skip(i as int) =~= Seq::<ProjectV>::empty());
            assert(out@ + Seq::<char>::empty() =~= out@);
        }
        out
    }

    /// Reads a document back into a registry.  The empty document gives
    /// the empty registry; a malformed document is rejected.
    pub fn from_document(doc: &str) -> (r: Result<ProjectRegistry, Error>)
        ensures
            match r {
                Ok(reg) => sp_records(doc@, 0) == Some(reg@),
                Err(e) => sp_records(doc@, 0) is None && e matches Error::Parse,
            },
    {
        let slen = doc.unicode_len();
        let mut projects: Vec<Project> = Vec::new();
        let mut pos: usize = 0;
        loop
            invariant
                slen == doc@.len(),
                pos <= slen,
                sp_records(doc@, 0) == (match sp_records(doc@, pos as int) {
                    Some(res) => Some(projects@.map_values(|p: Project| p@) + res),
                    None => None::<Seq<ProjectV>>,
                }),
            decreases slen - pos,
        {
            if pos >= slen {
                proof {
                    assert(sp_records(doc@, pos as int) == Some(Seq::<ProjectV>::empty()));
                    assert(projects@.map_values(|p: Project| p@) + Seq::<ProjectV>::empty()
                        =~= projects@.map_values(|p: Project| p@));
                }
                return Ok(ProjectRegistry { projects });
            }
            match parse_record(doc, slen, pos) {
                None => {
                    return Err(Error::Parse);
                },
                Some((p, j)) => {
                    let ghost prev = projects@.map_values(|q: Project| q@);
                    projects.push(p);
                    proof {
                        assert(projects@.map_values(|q: Project| q@) =~= prev.push(p@));
                        if sp_records(doc@, j as int) is Some {
                            let res = sp_records(doc@, j as int)->Some_0;
                            assert(sp_records(doc@, pos as int) == Some(seq![p@] + res));
                            assert(prev + (seq![p@] + res) =~= prev.push(p@) + res);
                        } else {
                            assert(sp_records(doc@, pos as int) is None);
                        }
                    }
                    pos = j;
                },
            }
        }
    }
}

/// Parses one record of the document starting at `pos`.
fn parse_record(s: &str, slen: usize, pos: usize) -> (r: Option<(Project, usize)>)
    requires
        slen == s@.len(),
        pos <= slen,
    ensures
        match r {
            Some(p) => sp_record(s@, pos as int) == Some((p.0@, p.1 as int)) && pos < p.1 && p.1
                <= slen,
            None => sp_record(s@, pos as int) is None,
        },
{
    let f1 = parse_field(s, slen, pos);
    match f1 {
        None => None,
        Some((name, i1)) => {
            match parse_field(s, slen, i1) {
                None => None,
                Some((path, i2)) => {
                    match parse_field(s, slen, i2) {
                        None => None,
                        Some((template, i3)) => {
                            match parse_field(s, slen, i3) {
                                None => None,
                                Some((created_at, i4)) => {
                                    match parse_opt(s, slen, i4) {
                                        None => None,
                                        Some((last_built, i5)) => {
                                            let p = Project {
                                                name,
                                                path,
                                                template,
                                                created_at,
                                                last_built,
                                            };
                                            Some((p, i5))
                                        },
                                    }
                                },
                            }
                        },
                    }
                },
            }
        },
    }
}

} // verus!
