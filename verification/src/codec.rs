//! The field layer of the persisted documents.  A document is a plain
//! concatenation of fields; a field is its text with `;` and `\` escaped
//! by a leading `\`, closed by an unescaped `;`.  Parsing a field is the
//! exact inverse of encoding it, which is what the registry and catalog
//! round-trip laws rest on.

use vstd::prelude::*;

verus! {

/// The encoding of one character inside a field.
pub open spec fn esc(c: char) -> Seq<char> {
    if c == ';' || c == '\\' {
        seq!['\\', c]
    } else {
        seq![c]
    }
}

/// The encoding of a whole field: every character escaped, then the
/// closing `;`.
pub open spec fn ef(t: Seq<char>) -> Seq<char>
    decreases t.len(),
{
    if t.len() == 0 {
        seq![';']
    } else {
        esc(t[0]) + ef(t.skip(1))
    }
}

/// Parsing one field of `s` starting at `i`: the decoded text and the
/// position just past the closing `;`, or `None` when `s` ends before
/// the field is closed.
pub open spec fn sp_field(s: Seq<char>, i: int) -> Option<(Seq<char>, int)>
    decreases s.len() - i,
{
    if i < 0 || i >= s.len() {
        None
    } else if s[i] == '\\' {
        if i + 1 >= s.len() {
            None
        } else {
            match sp_field(s, i + 2) {
                Some((v, j)) => Some((seq![s[i + 1]] + v, j)),
                None => None,
            }
        }
    } else if s[i] == ';' {
        Some((Seq::<char>::empty(), i + 1))
    } else {
        match sp_field(s, i + 1) {
            Some((v, j)) => Some((seq![s[i]] + v, j)),
            None => None,
        }
    }
}

/// An encoded field is never empty: at the least it holds its `;`.
pub proof fn lemma_ef_len(t: Seq<char>)
    ensures
        ef(t).len() >= 1,
{
    if t.len() == 0 {
    } else {
    }
}

/// A concatenation sitting inside `s` splits into its two halves.
pub proof fn lemma_concat_subrange(s: Seq<char>, i: int, a: Seq<char>, b: Seq<char>)
    requires
        0 <= i,
        i + a.len() + b.len() <= s.len(),
        s.subrange(i, i + a.len() + b.len()) == a + b,
    ensures
        s.subrange(i, i + a.len() as int) == a,
        s.subrange(i + a.len(), i + a.len() + b.len()) == b,
{
    assert forall|k: int| 0 <= k < a.len() implies s.subrange(i, i + a.len() as int)[k]
        == a[k] by {
        assert(s.subrange(i, i + a.len() + b.len())[k] == (a + b)[k]);
    }
    assert forall|k: int|
        0 <= k < b.len() implies s.subrange(i + a.len(), i + a.len() + b.len())[k] == b[k] by {
        assert(s.subrange(i + a.len(), i + a.len() + b.len())[k] == s[i + a.len() + k]);
        assert(s.subrange(i, i + a.len() + b.len())[a.len() + k] == s[i + a.len() + k]);
        assert((a + b)[a.len() + k] == b[k]);
    }
    assert(s.subrange(i, i + a.len() as int) =~= a);
    assert(s.subrange(i + a.len(), i + a.len() + b.len()) =~= b);
}

/// Parsing reads back exactly the text that encoding wrote, and stops
/// just past it.
pub proof fn lemma_field_round_trip(t: Seq<char>, s: Seq<char>, i: int)
    requires
        0 <= i,
        i + ef(t).len() <= s.len(),
        s.subrange(i, i + ef(t).len() as int) == ef(t),
    ensures
        sp_field(s, i) == Some((t, i + ef(t).len() as int)),
    decreases t.len(),
{
    if t.len() == 0 {
        assert(s.subrange(i, i + 1)[0] == s[i]);
        assert(s[i] == ';');
        assert(sp_field(s, i) == Some((Seq::<char>::empty(), i + 1)));
        assert(t =~= Seq::<char>::empty());
    } else {
        let t2 = t.skip(1);
        let c = t[0];
        lemma_concat_subrange(s, i, esc(c), ef(t2));
        if c == ';' || c == '\\' {
            assert(s.subrange(i, i + 2)[0] == s[i]);
            assert(s.subrange(i, i + 2)[1] == s[i + 1]);
            assert(s[i] == '\\' && s[i + 1] == c);
            lemma_field_round_trip(t2, s, i + 2);
            assert(seq![s[i + 1]] + t2 =~= t);
        } else {
            assert(s.subrange(i, i + 1)[0] == s[i]);
            assert(s[i] == c);
            lemma_field_round_trip(t2, s, i + 1);
            assert(seq![s[i]] + t2 =~= t);
        }
    }
}

/// The encoding of an optional field: a tag field `n` or `s`, the value
/// following only after `s`.
pub open spec fn enc_opt(o: Option<Seq<char>>) -> Seq<char> {
    match o {
        None => ef(seq!['n']),
        Some(v) => ef(seq!['s']) + ef(v),
    }
}

/// Parsing an optional field at `i`.
pub open spec fn sp_opt(s: Seq<char>, i: int) -> Option<(Option<Seq<char>>, int)> {
    match sp_field(s, i) {
        Some((t, j)) => {
            if t == seq!['n'] {
                Some((None, j))
            } else if t == seq!['s'] {
                match sp_field(s, j) {
                    Some((v, k)) => Some((Some(v), k)),
                    None => None,
                }
            } else {
                None
            }
        },
        None => None,
    }
}

pub proof fn lemma_opt_round_trip(o: Option<Seq<char>>, s: Seq<char>, i: int)
    requires
        0 <= i,
        i + enc_opt(o).len() <= s.len(),
        s.subrange(i, i + enc_opt(o).len() as int) == enc_opt(o),
    ensures
        sp_opt(s, i) == Some((o, i + enc_opt(o).len() as int)),
{
    match o {
        None => {
            lemma_field_round_trip(seq!['n'], s, i);
        },
        Some(v) => {
            lemma_concat_subrange(s, i, ef(seq!['s']), ef(v));
            lemma_field_round_trip(seq!['s'], s, i);
            lemma_field_round_trip(v, s, i + ef(seq!['s']).len());
        },
    }
}

/// Appends the encoding of an optional value at the end of `out`.
pub fn push_opt(out: &mut String, v: &Option<String>)
    ensures
        final(out)@ == old(out)@ + enc_opt(match v {
            Some(t) => Some(t@),
            None => None,
        }),
{
    proof {
        reveal_strlit("n");
        reveal_strlit("s");
        assert("n"@ =~= seq!['n']);
        assert("s"@ =~= seq!['s']);
    }
    match v {
        None => {
            push_field(out, "n");
        },
        Some(t) => {
            push_field(out, "s");
            push_field(out, t.as_str());
            proof {
                assert(old(out)@ + ef(seq!['s']) + ef(t@) =~= old(out)@ + (ef(seq!['s']) + ef(
                    t@,
                )));
            }
        },
    }
}

/// Parses an optional field of `s` starting at `pos`.
pub fn parse_opt(s: &str, slen: usize, pos: usize) -> (r: Option<(Option<String>, usize)>)
    requires
        slen == s@.len(),
        pos <= slen,
    ensures
        match r {
            Some(p) => sp_opt(s@, pos as int) == Some(
                (
                    match p.0 {
                        Some(t) => Some(t@),
                        None => None,
                    },
                    p.1 as int,
                ),
            ) && pos < p.1 && p.1 <= slen,
            None => sp_opt(s@, pos as int) is None,
        },
{
    proof {
        reveal_strlit("n");
        reveal_strlit("s");
        assert("n"@ =~= seq!['n']);
        assert("s"@ =~= seq!['s']);
    }
    match parse_field(s, slen, pos) {
        None => None,
        Some((tag, j)) => {
            if crate::strutil::str_eq(tag.as_str(), "n") {
                Some((None, j))
            } else if crate::strutil::str_eq(tag.as_str(), "s") {
                match parse_field(s, slen, j) {
                    None => None,
                    Some((v, k)) => Some((Some(v), k)),
                }
            } else {
                None
            }
        },
    }
}

/// Appends the encoding of `v` as one field at the end of `out`.
pub fn push_field(out: &mut String, v: &str)
    ensures
        final(out)@ == old(out)@ + ef(v@),
{
    let vlen = v.unicode_len();
    let mut k: usize = 0;
    proof {
        assert(v@.skip(0) =~= v@);
    }
    while k < vlen
        invariant
            vlen == v@.len(),
            k <= vlen,
            old(out)@ + ef(v@) == out@ + ef(v@.skip(k as int)),
        decreases vlen - k,
    {
        let ghost rest = v@.skip(k as int);
        proof {
            assert(rest.len() != 0 && rest[0] == v@[k as int]);
            assert(rest.skip(1) =~= v@.skip(k + 1));
            assert(ef(rest) == esc(rest[0]) + ef(v@.skip(k + 1)));
        }
        let c = v.get_char(k);
        if c == ';' || c == '\\' {
            out.push('\\');
            out.push(c);
            proof {
                assert(out@ + ef(v@.skip(k + 1)) =~= old(out)@ + ef(v@));
            }
        } else {
            out.push(c);
            proof {
                assert(out@ + ef(v@.skip(k + 1)) =~= old(out)@ + ef(v@));
            }
        }
        k = k + 1;
    }
    out.push(';');
    proof {
        assert(v@.skip(vlen as int) =~= Seq::<char>::empty());
        assert(out@ =~= old(out)@ + ef(v@));
    }
}

/// Parses one field of `s` starting at `pos`; gives back the decoded
/// text and the position just past the closing `;`.
pub fn parse_field(s: &str, slen: usize, pos: usize) -> (r: Option<(String, usize)>)
    requires
        slen == s@.len(),
        pos <= slen,
    ensures
        match r {
            Some(p) => sp_field(s@, pos as int) == Some((p.0@, p.1 as int)) && pos < p.1
                && p.1 <= slen,
            None => sp_field(s@, pos as int) is None,
        },
{
    let mut out = String::new();
    let mut i: usize = pos;
    loop
        invariant
            slen == s@.len(),
            pos <= i <= slen,
            forall|v: Seq<char>, j: int|
                #[trigger] sp_field(s@, i as int) == Some((v, j)) ==> sp_field(s@, pos as int)
                    == Some((out@ + v, j)),
            (sp_field(s@, i as int) is None) ==> (sp_field(s@, pos as int) is None),
        decreases slen - i,
    {
        if i >= slen {
            return None;
        }
        let c = s.get_char(i);
        if c == '\\' {
            if i + 1 >= slen {
                return None;
            }
            let c2 = s.get_char(i + 1);
            let ghost oldout = out@;
            out.push(c2);
            proof {
                assert forall|v: Seq<char>, j: int|
                    #[trigger] sp_field(s@, i + 2) == Some((v, j)) implies sp_field(
                    s@,
                    pos as int,
                ) == Some((out@ + v, j)) by {
                    assert(sp_field(s@, i as int) == Some((seq![s@[i + 1]] + v, j)));
                    assert(oldout + (seq![s@[i + 1]] + v) =~= out@ + v);
                }
            }
            i = i + 2;
        } else if c == ';' {
            proof {
                assert(sp_field(s@, i as int) == Some((Seq::<char>::empty(), i + 1)));
                assert(out@ + Seq::<char>::empty() =~= out@);
            }
            return Some((out, i + 1));
        } else {
            let ghost oldout = out@;
            out.push(c);
            proof {
                assert forall|v: Seq<char>, j: int|
                    #[trigger] sp_field(s@, i + 1) == Some((v, j)) implies sp_field(
                    s@,
                    pos as int,
                ) == Some((out@ + v, j)) by {
                    assert(sp_field(s@, i as int) == Some((seq![s@[i as int]] + v, j)));
                    assert(oldout + (seq![s@[i as int]] + v) =~= out@ + v);
                }
            }
            i = i + 1;
        }
    }
}

} // verus!
