//! Download URL templates holding `{version}` and `{file}` placeholders.

use vstd::prelude::*;
use crate::text::{matches_at, occurs_at, replace_all, replaced};

verus! {

pub open spec fn version_slot() -> Seq<char> {
    "{version}"@
}

pub open spec fn file_slot() -> Seq<char> {
    "{file}"@
}

/// The template with `{version}` replaced first, then `{file}`.
pub open spec fn composed(template: Seq<char>, version: Seq<char>, file: Seq<char>) -> Seq<char> {
    replaced(replaced(template, version_slot(), version), file_slot(), file)
}

/// Fills a URL template with a version and a file name.
pub fn compose_url(template: &str, version: &str, file: &str) -> (r: String)
    ensures
        r@ == composed(template@, version@, file@),
{
    proof {
        reveal_strlit("{version}");
        reveal_strlit("{file}");
    }
    let with_version = replace_all(template, "{version}", version);
    replace_all(with_version.as_str(), "{file}", file)
}

/// The first index at or after `i` where `pat` occurs in `s`.
pub open spec fn find_from(s: Seq<char>, pat: Seq<char>, i: int) -> Option<int>
    decreases s.len() + 1 - i,
{
    if i < 0 || i + pat.len() > s.len() {
        None
    } else if occurs_at(s, pat, i) {
        Some(i)
    } else {
        find_from(s, pat, i + 1)
    }
}

/// The first index where `pat` occurs in `s`.
pub open spec fn first_index(s: Seq<char>, pat: Seq<char>) -> Option<int> {
    find_from(s, pat, 0)
}

/// The version and file that `url` holds where `template` has its
/// placeholders: the template must hold `{version}` before `{file}`; the
/// text before, between and after them must frame `url`; the version ends
/// at the first occurrence of the text between the placeholders.
pub open spec fn split_spec(template: Seq<char>, url: Seq<char>) -> Option<(Seq<char>, Seq<char>)> {
    match (first_index(template, version_slot()), first_index(template, file_slot())) {
        (Some(vi), Some(fi)) => {
            if vi + version_slot().len() <= fi {
                let p = template.subrange(0, vi);
                let m = template.subrange(vi + version_slot().len(), fi);
                let s = template.subrange(fi + file_slot().len(), template.len() as int);
                if url.len() >= p.len() + s.len() && url.subrange(0, p.len() as int) == p
                    && url.subrange(url.len() - s.len(), url.len() as int) == s {
                    let mid = url.subrange(p.len() as int, url.len() - s.len());
                    match first_index(mid, m) {
                        Some(j) => Some((mid.subrange(0, j), mid.subrange(j + m.len(), mid.len() as int))),
                        None => None,
                    }
                } else {
                    None
                }
            } else {
                None
            }
        },
        _ => None,
    }
}

/// The first index where `pat` occurs in `s`.
pub fn find(s: &str, pat: &str) -> (r: Option<usize>)
    ensures
        match r {
            Some(i) => first_index(s@, pat@) == Some(i as int),
            None => first_index(s@, pat@) is None,
        },
{
    let n = s.unicode_len();
    let m = pat.unicode_len();
    if m > n {
        assert(find_from(s@, pat@, 0) is None);
        return None;
    }
    let mut i: usize = 0;
    loop
        invariant
            n == s@.len(),
            m == pat@.len(),
            m <= n,
            i <= n - m,
            find_from(s@, pat@, 0) == find_from(s@, pat@, i as int),
        decreases n - m - i,
    {
        if matches_at(s, i, pat) {
            return Some(i);
        }
        if i == n - m {
            assert(find_from(s@, pat@, i + 1) is None);
            return None;
        }
        i = i + 1;
    }
}

/// Reads back the version and file that [`compose_url`] put into `url`,
/// per [`split_spec`].
pub fn split_download_url(template: &str, url: &str) -> (r: Option<(String, String)>)
    ensures
        match r {
            Some((v, f)) => split_spec(template@, url@) == Some((v@, f@)),
            None => split_spec(template@, url@) is None,
        },
{
    proof {
        reveal_strlit("{version}");
        reveal_strlit("{file}");
    }
    let vi = match find(template, "{version}") {
        Some(i) => i,
        None => return None,
    };
    let fi = match find(template, "{file}") {
        Some(i) => i,
        None => return None,
    };
    let t_len = template.unicode_len();
    if vi > fi || fi - vi < 9 {
        return None;
    }
    assert(fi + 6 <= t_len) by {
        assert(occurs_at(template@, file_slot(), fi as int)) by {
            lemma_found_occurs(template@, file_slot(), 0);
        }
    }
    let p = template.substring_char(0, vi);
    let m = template.substring_char(vi + 9, fi);
    let s = template.substring_char(fi + 6, t_len);
    let u_len = url.unicode_len();
    let p_len = p.unicode_len();
    let s_len = s.unicode_len();
    if u_len < p_len || u_len - p_len < s_len {
        return None;
    }
    if !matches_at(url, 0, p) || !matches_at(url, u_len - s_len, s) {
        return None;
    }
    let mid = url.substring_char(p_len, u_len - s_len);
    match find(mid, m) {
        Some(j) => {
            assert(j + m@.len() <= mid@.len()) by {
                lemma_found_occurs(mid@, m@, 0);
            }
            let version = String::from_str(mid.substring_char(0, j));
            let file = String::from_str(mid.substring_char(j + m.unicode_len(), mid.unicode_len()));
            Some((version, file))
        },
        None => None,
    }
}

/// A found index is an occurrence.
pub proof fn lemma_found_occurs(s: Seq<char>, pat: Seq<char>, i: int)
    requires
        find_from(s, pat, i) is Some,
    ensures
        occurs_at(s, pat, find_from(s, pat, i)->Some_0),
        i <= find_from(s, pat, i)->Some_0,
    decreases s.len() + 1 - i,
{
    if i >= 0 && i + pat.len() <= s.len() && !occurs_at(s, pat, i) {
        lemma_found_occurs(s, pat, i + 1);
    }
}

/// `s` holds no `{`.
pub open spec fn brace_free(s: Seq<char>) -> bool {
    forall|i: int| 0 <= i < s.len() ==> s[i] != '{'
}

/// A template with one `{version}` and, after it, one `{file}`.
pub open spec fn template_of(p: Seq<char>, m: Seq<char>, s: Seq<char>) -> Seq<char> {
    p + version_slot() + m + file_slot() + s
}

proof fn lemma_occurs_char(s: Seq<char>, pat: Seq<char>, i: int, k: int)
    requires
        occurs_at(s, pat, i),
        0 <= k < pat.len(),
    ensures
        s[i + k] == pat[k],
{
    assert(s.subrange(i, i + pat.len())[k] == s[i + k]);
}

/// Replacing in `a + b`, where no occurrence of `pat` starts inside `a`,
/// leaves `a` as it is.
proof fn lemma_replaced_prefix(a: Seq<char>, b: Seq<char>, pat: Seq<char>, rep: Seq<char>)
    requires
        pat.len() > 0,
        forall|i: int| 0 <= i < a.len() ==> !occurs_at(a + b, pat, i),
    ensures
        replaced(a + b, pat, rep) == a + replaced(b, pat, rep),
    decreases a.len(),
{
    if a.len() == 0 {
        assert(a + b =~= b);
        assert(a + replaced(b, pat, rep) =~= replaced(b, pat, rep));
    } else {
        let ab = a + b;
        assert(!occurs_at(ab, pat, 0));
        assert(ab[0] == a[0]);
        let rest = a.skip(1);
        assert(ab.skip(1) =~= rest + b);
        assert forall|i: int| 0 <= i < rest.len() implies !occurs_at(rest + b, pat, i) by {
            if occurs_at(rest + b, pat, i) {
                assert((rest + b).subrange(i, i + pat.len()) =~= ab.subrange(i + 1, i + 1 + pat.len()));
                assert(occurs_at(ab, pat, i + 1));
            }
        }
        lemma_replaced_prefix(rest, b, pat, rep);
        assert(seq![a[0]] + (rest + replaced(b, pat, rep)) =~= a + replaced(b, pat, rep));
    }
}

/// Replacing in `pat + rest` starts with the replacement.
proof fn lemma_replaced_head(pat: Seq<char>, rest: Seq<char>, rep: Seq<char>)
    requires
        pat.len() > 0,
    ensures
        replaced(pat + rest, pat, rep) == rep + replaced(rest, pat, rep),
{
    let x = pat + rest;
    assert(x.subrange(0, pat.len() as int) =~= pat);
    assert(x.skip(pat.len() as int) =~= rest);
}

/// No occurrence of a pattern that starts with `{` begins at a position of
/// `x` that holds another character.
proof fn lemma_no_occurrence_off_brace(x: Seq<char>, pat: Seq<char>, i: int)
    requires
        pat.len() > 0,
        pat[0] == '{',
        0 <= i < x.len(),
        x[i] != '{',
    ensures
        !occurs_at(x, pat, i),
{
    if occurs_at(x, pat, i) {
        lemma_occurs_char(x, pat, i, 0);
    }
}

proof fn lemma_find_from_first(s: Seq<char>, pat: Seq<char>, i: int, k: int)
    requires
        0 <= i <= k,
        occurs_at(s, pat, k),
        forall|j: int| 0 <= j < k ==> !occurs_at(s, pat, j),
    ensures
        find_from(s, pat, i) == Some(k),
    decreases k - i,
{
    if i < k {
        lemma_find_from_first(s, pat, i + 1, k);
    }
}

/// Filling a template of the form `P{version}M{file}S` puts the version and
/// the file in the placeholders' places: the URL is `P + version + M + file + S`.
/// The template's texts and the version hold no `{`.
pub proof fn lemma_composed_shape(p: Seq<char>, m: Seq<char>, s: Seq<char>, v: Seq<char>, f: Seq<char>)
    requires
        brace_free(p),
        brace_free(m),
        brace_free(s),
        brace_free(v),
    ensures
        composed(template_of(p, m, s), v, f) == p + v + m + f + s,
{
    reveal_strlit("{version}");
    reveal_strlit("{file}");
    let vs = version_slot();
    let fs = file_slot();
    let t = template_of(p, m, s);
    let r1 = m + (fs + s);
    assert(t =~= p + (vs + r1));
    // Replacing `{version}`.
    assert forall|i: int| 0 <= i < p.len() implies !occurs_at(p + (vs + r1), vs, i) by {
        lemma_no_occurrence_off_brace(p + (vs + r1), vs, i);
    }
    lemma_replaced_prefix(p, vs + r1, vs, v);
    lemma_replaced_head(vs, r1, v);
    assert forall|i: int| 0 <= i < r1.len() implies !occurs_at(r1 + Seq::<char>::empty(), vs, i) by {
        let x = r1 + Seq::<char>::empty();
        assert(x =~= r1);
        if i < m.len() || i > m.len() {
            if i > m.len() && i < m.len() + 6 {
                assert(x[i] == fs[i - m.len()]);
            }
            lemma_no_occurrence_off_brace(x, vs, i);
        } else if occurs_at(x, vs, i) {
            lemma_occurs_char(x, vs, i, 1);
            assert(x[i + 1] == fs[1]);
        }
    }
    lemma_replaced_prefix(r1, Seq::<char>::empty(), vs, v);
    assert(r1 + Seq::<char>::empty() =~= r1);
    assert(r1 + replaced(Seq::<char>::empty(), vs, v) =~= r1);
    let w = replaced(t, vs, v);
    assert(w == p + (v + r1));
    // Replacing `{file}`.
    let a = p + v + m;
    assert(w =~= a + (fs + s));
    assert forall|i: int| 0 <= i < a.len() implies !occurs_at(a + (fs + s), fs, i) by {
        lemma_no_occurrence_off_brace(a + (fs + s), fs, i);
    }
    lemma_replaced_prefix(a, fs + s, fs, f);
    lemma_replaced_head(fs, s, f);
    assert forall|i: int| 0 <= i < s.len() implies !occurs_at(s + Seq::<char>::empty(), fs, i) by {
        assert(s + Seq::<char>::empty() =~= s);
        lemma_no_occurrence_off_brace(s + Seq::<char>::empty(), fs, i);
    }
    lemma_replaced_prefix(s, Seq::<char>::empty(), fs, f);
    assert(s + Seq::<char>::empty() =~= s);
    assert(s + replaced(Seq::<char>::empty(), fs, f) =~= s);
    let u = composed(t, v, f);
    assert(u == a + (f + s));
    assert(a + (f + s) =~= p + v + m + f + s);
}

/// Round trip of URL templates: filling a template of the form
/// `P{version}M{file}S` with a version and a file and splitting the URL
/// against the same template gives the version and the file back. The
/// template's texts and the version hold no `{`, and the text between the
/// placeholders does not occur in the URL before the version ends (where it
/// does, the version cannot be told apart from what follows it).
pub proof fn lemma_url_round_trip(p: Seq<char>, m: Seq<char>, s: Seq<char>, v: Seq<char>, f: Seq<char>)
    requires
        brace_free(p),
        brace_free(m),
        brace_free(s),
        brace_free(v),
        forall|i: int| 0 <= i < v.len() ==> !occurs_at(v + m + f, m, i),
    ensures
        split_spec(template_of(p, m, s), composed(template_of(p, m, s), v, f)) == Some((v, f)),
{
    reveal_strlit("{version}");
    reveal_strlit("{file}");
    let vs = version_slot();
    let fs = file_slot();
    let t = template_of(p, m, s);
    lemma_composed_shape(p, m, s, v, f);
    let u = composed(t, v, f);
    let a = p + v + m;
    assert(u =~= a + (f + s));
    // Splitting.
    let vi = p.len() as int;
    let fi = (p.len() + 9 + m.len()) as int;
    assert(t.subrange(vi, vi + 9) =~= vs);
    assert forall|j: int| 0 <= j < vi implies !occurs_at(t, vs, j) by {
        lemma_no_occurrence_off_brace(t, vs, j);
    }
    lemma_find_from_first(t, vs, 0, vi);
    assert(t.subrange(fi, fi + 6) =~= fs);
    assert forall|j: int| 0 <= j < fi implies !occurs_at(t, fs, j) by {
        if j == vi {
            if occurs_at(t, fs, j) {
                lemma_occurs_char(t, fs, j, 1);
            }
        } else {
            if vi < j < vi + 9 {
                assert(t[j] == vs[j - vi]);
            }
            lemma_no_occurrence_off_brace(t, fs, j);
        }
    }
    lemma_find_from_first(t, fs, 0, fi);
    assert(t.subrange(0, vi) =~= p);
    assert(t.subrange(vi + 9, fi) =~= m);
    assert(t.subrange(fi + 6, t.len() as int) =~= s);
    assert(u.subrange(0, p.len() as int) =~= p);
    assert(u.subrange(u.len() - s.len(), u.len() as int) =~= s);
    let mid = u.subrange(p.len() as int, u.len() - s.len());
    assert(mid =~= v + m + f);
    assert(mid.subrange(v.len() as int, (v.len() + m.len()) as int) =~= m);
    lemma_find_from_first(mid, m, 0, v.len() as int);
    assert(mid.subrange(0, v.len() as int) =~= v);
    assert(mid.subrange((v.len() + m.len()) as int, mid.len() as int) =~= f);
}

} // verus!
