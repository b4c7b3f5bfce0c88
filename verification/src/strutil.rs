//! String helpers shared across the crate: equality and lexicographic
//! comparison, substring search, placeholder replacement, separator
//! splitting and path joining, all specified over `Seq<char>` views.

use vstd::prelude::*;

verus! {

/// Relies on `String::push` from std: appends one character at the end.
pub assume_specification[ String::push ](s: &mut String, ch: char)
    ensures
        final(s)@ == old(s)@.push(ch),
;

/// Character-wise equality of two string slices.
pub fn str_eq(a: &str, b: &str) -> (r: bool)
    ensures
        r == (a@ == b@),
{
    let alen = a.unicode_len();
    let blen = b.unicode_len();
    if alen != blen {
        return false;
    }
    let mut i: usize = 0;
    while i < alen
        invariant
            alen == a@.len(),
            alen == b@.len(),
            i <= alen,
            forall|k: int| 0 <= k < i ==> a@[k] == b@[k],
        decreases alen - i,
    {
        if a.get_char(i) != b.get_char(i) {
            return false;
        }
        i = i + 1;
    }
    proof {
        assert(a@ =~= b@);
    }
    true
}

/// Lexicographic order on character sequences, by code point.
pub open spec fn lex_le(a: Seq<char>, b: Seq<char>) -> bool
    decreases a.len(),
{
    if a.len() == 0 {
        true
    } else if b.len() == 0 {
        false
    } else if (a[0] as u32) < (b[0] as u32) {
        true
    } else if (a[0] as u32) > (b[0] as u32) {
        false
    } else {
        lex_le(a.skip(1), b.skip(1))
    }
}

pub proof fn lemma_lex_le_total(a: Seq<char>, b: Seq<char>)
    ensures
        lex_le(a, b) || lex_le(b, a),
    decreases a.len(),
{
    if a.len() != 0 && b.len() != 0 && (a[0] as u32) == (b[0] as u32) {
        lemma_lex_le_total(a.skip(1), b.skip(1));
    }
}

pub proof fn lemma_lex_le_trans(a: Seq<char>, b: Seq<char>, c: Seq<char>)
    requires
        lex_le(a, b),
        lex_le(b, c),
    ensures
        lex_le(a, c),
    decreases a.len(),
{
    if a.len() != 0 && b.len() != 0 && c.len() != 0 && (a[0] as u32) == (b[0] as u32) && (b[0]
        as u32) == (c[0] as u32) {
        lemma_lex_le_trans(a.skip(1), b.skip(1), c.skip(1));
    }
}

/// Lexicographic comparison of two string slices.
pub fn str_le(a: &str, b: &str) -> (r: bool)
    ensures
        r == lex_le(a@, b@),
{
    let alen = a.unicode_len();
    let blen = b.unicode_len();
    let mut i: usize = 0;
    proof {
        assert(a@.skip(0) =~= a@);
        assert(b@.skip(0) =~= b@);
    }
    loop
        invariant
            alen == a@.len(),
            blen == b@.len(),
            i <= alen,
            i <= blen,
            lex_le(a@, b@) == lex_le(a@.skip(i as int), b@.skip(i as int)),
        decreases alen - i,
    {
        if i >= alen {
            return true;
        }
        if i >= blen {
            return false;
        }
        let ca = a.get_char(i);
        let cb = b.get_char(i);
        if (ca as u32) < (cb as u32) {
            return true;
        }
        if (ca as u32) > (cb as u32) {
            return false;
        }
        proof {
            assert(a@.skip(i as int).skip(1) =~= a@.skip(i + 1));
            assert(b@.skip(i as int).skip(1) =~= b@.skip(i + 1));
        }
        i = i + 1;
    }
}

/// Whether `sub` occurs in `s` starting at some index.
pub open spec fn has_sub(s: Seq<char>, sub: Seq<char>) -> bool {
    exists|i: int|
        0 <= i && i + sub.len() <= s.len() && #[trigger] s.subrange(i, i + sub.len() as int)
            == sub
}

/// Whether `sub` occurs in `s` starting exactly at `i`.
fn match_at(s: &str, slen: usize, i: usize, sub: &str, sublen: usize) -> (r: bool)
    requires
        slen == s@.len(),
        sublen == sub@.len(),
        i + sublen <= slen,
    ensures
        r == (s@.subrange(i as int, i + sub@.len() as int) == sub@),
{
    let mut k: usize = 0;
    while k < sublen
        invariant
            slen == s@.len(),
            sublen == sub@.len(),
            i + sublen <= slen,
            k <= sublen,
            forall|j: int| 0 <= j < k ==> s@[i + j] == sub@[j],
        decreases sublen - k,
    {
        if s.get_char(i + k) != sub.get_char(k) {
            proof {
                assert(s@.subrange(i as int, i + sub@.len() as int)[k as int] == s@[i + k]);
            }
            return false;
        }
        k = k + 1;
    }
    proof {
        assert(s@.subrange(i as int, i + sub@.len() as int) =~= sub@);
    }
    true
}

/// Substring search.
pub fn contains_sub(s: &str, sub: &str) -> (r: bool)
    ensures
        r == has_sub(s@, sub@),
{
    let slen = s.unicode_len();
    let sublen = sub.unicode_len();
    if sublen > slen {
        return false;
    }
    let bound = slen - sublen;
    let mut i: usize = 0;
    loop
        invariant
            slen == s@.len(),
            sublen == sub@.len(),
            sublen <= slen,
            bound == slen - sublen,
            i <= bound,
            forall|j: int|
                0 <= j < i ==> #[trigger] s@.subrange(j, j + sub@.len() as int) != sub@,
        decreases bound - i,
    {
        if match_at(s, slen, i, sub, sublen) {
            return true;
        }
        if i == bound {
            return false;
        }
        i = i + 1;
    }
}

/// Every occurrence of `pat` in `s`, scanning left to right without
/// rescanning replaced text, replaced by `rep`.
pub open spec fn replace_all(s: Seq<char>, pat: Seq<char>, rep: Seq<char>) -> Seq<char>
    decreases s.len(),
{
    if pat.len() == 0 || s.len() < pat.len() {
        s
    } else if s.subrange(0, pat.len() as int) == pat {
        rep + replace_all(s.skip(pat.len() as int), pat, rep)
    } else {
        seq![s[0]] + replace_all(s.skip(1), pat, rep)
    }
}

/// Replaces every occurrence of `pat` in `s` by `rep`.
pub fn replace_all_str(s: &str, pat: &str, rep: &str) -> (r: String)
    requires
        pat@.len() > 0,
    ensures
        r@ == replace_all(s@, pat@, rep@),
{
    let slen = s.unicode_len();
    let patlen = pat.unicode_len();
    let mut out = String::new();
    let mut i: usize = 0;
    proof {
        assert(s@.skip(0) =~= s@);
    }
    while i < slen
        invariant
            slen == s@.len(),
            patlen == pat@.len(),
            patlen > 0,
            i <= slen,
            replace_all(s@, pat@, rep@) == out@ + replace_all(s@.skip(i as int), pat@, rep@),
        decreases slen - i,
    {
        let ghost rest = s@.skip(i as int);
        if patlen <= slen - i && match_at(s, slen, i, pat, patlen) {
            proof {
                assert(rest.subrange(0, pat@.len() as int) =~= s@.subrange(
                    i as int,
                    i + pat@.len() as int,
                ));
                assert(rest.skip(pat@.len() as int) =~= s@.skip(i + patlen));
            }
            out.append(rep);
            i = i + patlen;
        } else {
            proof {
                if patlen <= slen - i {
                    assert(rest.subrange(0, pat@.len() as int) =~= s@.subrange(
                        i as int,
                        i + pat@.len() as int,
                    ));
                } else {
                    assert(rest.len() < pat@.len());
                }
                assert(rest.skip(1) =~= s@.skip(i + 1));
                assert(seq![rest[0]] =~= seq![s@[i as int]]);
            }
            out.push(s.get_char(i));
            i = i + 1;
        }
        proof {
            assert(out@ + replace_all(s@.skip(i as int), pat@, rep@) == replace_all(
                s@,
                pat@,
                rep@,
            ));
        }
    }
    proof {
        assert(s@.skip(i as int) =~= Seq::<char>::empty());
        assert(replace_all(Seq::<char>::empty(), pat@, rep@) =~= Seq::<char>::empty());
        assert(out@ + Seq::<char>::empty() =~= out@);
    }
    out
}

/// The segments of `s` split on the separator `sep`; splitting the empty
/// sequence gives one empty segment, as `str::split` does.
pub open spec fn split_sep(s: Seq<char>, sep: char) -> Seq<Seq<char>>
    decreases s.len(),
{
    if s.len() == 0 {
        seq![Seq::<char>::empty()]
    } else if s[0] == sep {
        seq![Seq::<char>::empty()] + split_sep(s.skip(1), sep)
    } else {
        let rest = split_sep(s.skip(1), sep);
        seq![seq![s[0]] + rest[0]] + rest.skip(1)
    }
}

pub proof fn lemma_split_sep_nonempty(s: Seq<char>, sep: char)
    ensures
        split_sep(s, sep).len() >= 1,
    decreases s.len(),
{
    if s.len() != 0 {
        lemma_split_sep_nonempty(s.skip(1), sep);
    }
}

/// Splits `s` on `sep` into owned segments.
pub fn split_str(s: &str, sep: char) -> (r: Vec<String>)
    ensures
        r@.map_values(|t: String| t@) == split_sep(s@, sep),
{
    let slen = s.unicode_len();
    let mut parts: Vec<String> = Vec::new();
    let mut cur = String::new();
    let mut i: usize = 0;
    proof {
        assert(s@.skip(0) =~= s@);
        lemma_split_sep_nonempty(s@, sep);
        assert(split_sep(s@, sep) =~= seq![split_sep(s@, sep)[0]] + split_sep(s@, sep).skip(1));
        assert(cur@ + split_sep(s@, sep)[0] =~= split_sep(s@, sep)[0]);
        assert(parts@.map_values(|t: String| t@) + seq![cur@ + split_sep(s@, sep)[0]]
            + split_sep(s@, sep).skip(1) =~= split_sep(s@, sep));
    }
    while i < slen
        invariant
            slen == s@.len(),
            i <= slen,
            split_sep(s@, sep) == parts@.map_values(|t: String| t@) + seq![cur@ + split_sep(
                s@.skip(i as int),
                sep,
            )[0]] + split_sep(s@.skip(i as int), sep).skip(1),
        decreases slen - i,
    {
        let ghost rest = s@.skip(i as int);
        let ghost restn = s@.skip(i + 1);
        let ghost oldparts = parts@;
        let ghost oldcur = cur@;
        proof {
            lemma_split_sep_nonempty(restn, sep);
            assert(rest.skip(1) =~= restn);
            assert(rest.len() != 0 && rest[0] == s@[i as int]);
        }
        let c = s.get_char(i);
        if c == sep {
            let done = cur;
            cur = String::new();
            parts.push(done);
            proof {
                // split of the remainder starts with an empty segment that
                // `done` closes off.
                assert(split_sep(rest, sep) == seq![Seq::<char>::empty()] + split_sep(
                    restn,
                    sep,
                ));
                assert(oldcur + split_sep(rest, sep)[0] =~= oldcur);
                assert(parts@.map_values(|t: String| t@) =~= oldparts.map_values(
                    |t: String| t@,
                ).push(oldcur));
                assert(split_sep(rest, sep).skip(1) =~= split_sep(restn, sep));
                assert(split_sep(restn, sep) =~= seq![split_sep(restn, sep)[0]] + split_sep(
                    restn,
                    sep,
                ).skip(1));
                assert(cur@ + split_sep(restn, sep)[0] =~= split_sep(restn, sep)[0]);
                assert(parts@.map_values(|t: String| t@) + seq![cur@ + split_sep(restn, sep)[0]]
                    + split_sep(restn, sep).skip(1) =~= split_sep(s@, sep));
            }
        } else {
            cur.push(c);
            proof {
                assert(split_sep(rest, sep) == seq![seq![rest[0]] + split_sep(restn, sep)[0]]
                    + split_sep(restn, sep).skip(1));
                assert(oldcur + split_sep(rest, sep)[0] =~= cur@ + split_sep(restn, sep)[0]);
                assert(split_sep(rest, sep).skip(1) =~= split_sep(restn, sep).skip(1));
                assert(parts@.map_values(|t: String| t@) + seq![cur@ + split_sep(restn, sep)[0]]
                    + split_sep(restn, sep).skip(1) =~= split_sep(s@, sep));
            }
        }
        i = i + 1;
    }
    let ghost oldparts = parts@;
    parts.push(cur);
    proof {
        assert(s@.skip(i as int) =~= Seq::<char>::empty());
        assert(split_sep(Seq::<char>::empty(), sep) == seq![Seq::<char>::empty()]);
        assert(cur@ + split_sep(Seq::<char>::empty(), sep)[0] =~= cur@);
        assert(split_sep(Seq::<char>::empty(), sep).skip(1) =~= Seq::<Seq<char>>::empty());
        assert(parts@.map_values(|t: String| t@) =~= oldparts.map_values(|t: String| t@).push(
            cur@,
        ));
        assert(parts@.map_values(|t: String| t@) =~= split_sep(s@, sep));
    }
    parts
}

/// The sequences appear in lexicographically non-decreasing order.
pub open spec fn strs_sorted(s: Seq<Seq<char>>) -> bool {
    forall|i: int, j: int| 0 <= i < j < s.len() ==> lex_le(s[i], s[j])
}

/// The position at which `x` belongs in the sorted vector `out`.
fn find_insert_pos(out: &Vec<String>, x: &str) -> (k: usize)
    ensures
        k <= out@.len(),
        forall|m: int| 0 <= m < k ==> !lex_le(x@, (#[trigger] out@[m])@),
        k < out@.len() ==> lex_le(x@, out@[k as int]@),
{
    let mut k: usize = 0;
    while k < out.len()
        invariant
            k <= out@.len(),
            forall|m: int| 0 <= m < k ==> !lex_le(x@, (#[trigger] out@[m])@),
        decreases out@.len() - k,
    {
        if str_le(x, out[k].as_str()) {
            return k;
        }
        k = k + 1;
    }
    k
}

/// Sorts the strings lexicographically; the result is a permutation of
/// the input.
pub fn sort_strings(v: &Vec<String>) -> (r: Vec<String>)
    ensures
        strs_sorted(r@.map_values(|t: String| t@)),
        r@.map_values(|t: String| t@).to_multiset() == v@.map_values(|t: String| t@).to_multiset(),
{
    let mut out: Vec<String> = Vec::new();
    let mut i: usize = 0;
    proof {
        let vv = v@.map_values(|t: String| t@);
        assert(vv.subrange(0, 0) =~= Seq::<Seq<char>>::empty());
        assert(out@.map_values(|t: String| t@) =~= Seq::<Seq<char>>::empty());
        Seq::<Seq<char>>::empty().to_multiset_ensures();
    }
    while i < v.len()
        invariant
            i <= v@.len(),
            strs_sorted(out@.map_values(|t: String| t@)),
            out@.map_values(|t: String| t@).to_multiset() == v@.map_values(
                |t: String| t@,
            ).subrange(0, i as int).to_multiset(),
        decreases v@.len() - i,
    {
        let ghost vv = v@.map_values(|t: String| t@);
        let ghost ov = out@.map_values(|t: String| t@);
        let x = v[i].clone();
        let ghost xv = x@;
        let k = find_insert_pos(&out, x.as_str());
        out.insert(k, x);
        proof {
            // the new element sits between everything at most `x` and
            // everything at least `x`
            let nv = out@.map_values(|t: String| t@);
            assert(nv =~= ov.insert(k as int, xv));
            ov.insert_ensures(k as int, xv);
            assert forall|a: int, b: int| 0 <= a < b < nv.len() implies lex_le(
                nv[a],
                nv[b],
            ) by {
                if b < k {
                    assert(lex_le(ov[a], ov[b]));
                } else if b == k {
                    assert(!lex_le(xv, ov[a]));
                    lemma_lex_le_total(xv, ov[a]);
                } else if a == k {
                    if b - 1 == k {
                        assert(lex_le(xv, ov[k as int]));
                    } else {
                        assert(lex_le(xv, ov[k as int]));
                        assert(lex_le(ov[k as int], ov[b - 1]));
                        lemma_lex_le_trans(xv, ov[k as int], ov[b - 1]);
                    }
                } else if a < k {
                    assert(lex_le(ov[a], ov[b - 1]));
                } else {
                    assert(lex_le(ov[a - 1], ov[b - 1]));
                }
            }
            // the multiset gains exactly `x`
            let sub0 = ov.subrange(0, k as int);
            let sub1 = ov.subrange(k as int, ov.len() as int);
            vstd::seq_lib::lemma_multiset_commutative(sub0.push(xv), sub1);
            vstd::seq_lib::lemma_multiset_commutative(sub0, sub1);
            sub0.to_multiset_ensures();
            assert(ov =~= sub0 + sub1);
            broadcast use vstd::multiset::group_multiset_axioms;

            assert(nv.to_multiset() =~= ov.to_multiset().insert(xv));
            assert(vv.subrange(0, i + 1) =~= vv.subrange(0, i as int).push(vv[i as int]));
            vv.subrange(0, i as int).to_multiset_ensures();
            assert(xv == vv[i as int]);
        }
        i = i + 1;
    }
    proof {
        let vv = v@.map_values(|t: String| t@);
        assert(vv.subrange(0, i as int) =~= vv);
    }
    out
}

/// `base` and `name` joined with a single slash.
pub fn path_join(base: &str, name: &str) -> (r: String)
    ensures
        r@ == base@.push('/') + name@,
{
    let mut out = String::from_str(base);
    out.push('/');
    out.append(name);
    out
}

} // verus!
