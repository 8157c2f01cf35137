//! Version normalization: the rules that turn upstream tags into version
//! candidates, one rule per tool convention.

use vstd::prelude::*;
use crate::error::{ErrorView, PluginError};
use crate::text::texts;
use crate::wrappers::{captures_of, regex_captures};

verus! {

/// How a tool's upstream tags become version candidates.
#[derive(Clone, Copy, Debug, PartialEq, Eq, Structural)]
pub enum TagRule {
    /// Tags carry a leading `v`, which is dropped; other tags are not releases.
    StripV,
    /// Tags are bare versions; tags with a leading `v` are not releases.
    DropV,
    /// Every tag is a version.
    Keep,
    /// `v` tags with `_` separators: the first two become `.`, the rest `-`;
    /// the 0.x and 1.x lines are not supported.
    Underscored,
    /// CPython tags, read through [`PYTHON_TAG`]; the `legacy-trunk` branch is
    /// no release.
    Python,
}

/// CPython's tag pattern: major, minor, optional patch, and an optional
/// pre-release kind with its number.
pub const PYTHON_TAG: &'static str = "v?(?<major>[0-9]+)\\.(?<minor>[0-9]+)(?:\\.(?<patch>[0-9]+))?(?:(?<pre>a|b|c|rc)(?<preid>[0-9]+))?";

pub open spec fn strip_v(tag: Seq<char>) -> Option<Seq<char>> {
    if tag.len() > 0 && tag[0] == 'v' {
        Some(tag.skip(1))
    } else {
        None
    }
}

/// `s` with its first `dots` underscores turned into `.` and the others into `-`.
pub open spec fn rewrite_underscores(s: Seq<char>, dots: nat) -> Seq<char>
    decreases s.len(),
{
    if s.len() == 0 {
        s
    } else if s[0] == '_' {
        if dots > 0 {
            seq!['.'] + rewrite_underscores(s.skip(1), (dots - 1) as nat)
        } else {
            seq!['-'] + rewrite_underscores(s.skip(1), 0)
        }
    } else {
        seq![s[0]] + rewrite_underscores(s.skip(1), dots)
    }
}

pub open spec fn underscored_tag(tag: Seq<char>) -> Option<Seq<char>> {
    match strip_v(tag) {
        Some(rest) => {
            let v = rewrite_underscores(rest, 2);
            if v.len() > 0 && (v[0] == '0' || v[0] == '1') {
                None
            } else {
                Some(v)
            }
        },
        None => None,
    }
}

/// The canonical pre-release word for a CPython pre-release marker.
pub open spec fn pre_word(pre: Seq<char>) -> Seq<char> {
    if pre == "a"@ {
        "alpha"@
    } else if pre == "b"@ {
        "beta"@
    } else {
        "rc"@
    }
}

/// The version that CPython tag captures stand for: `major.minor.patch`
/// (patch 0 when absent), then `-<word>.<n>` for a pre-release. Captures
/// without major or minor stand for none.
pub open spec fn python_version_of(groups: Seq<Option<Seq<char>>>) -> Option<Seq<char>> {
    if groups.len() < 6 || groups[1] is None || groups[2] is None {
        None
    } else {
        let patch = match groups[3] {
            Some(p) => p,
            None => "0"@,
        };
        let core = groups[1]->Some_0 + "."@ + groups[2]->Some_0 + "."@ + patch;
        match (groups[4], groups[5]) {
            (Some(pre), Some(id)) => Some(core + "-"@ + pre_word(pre) + "."@ + id),
            _ => Some(core),
        }
    }
}

pub open spec fn python_tag(tag: Seq<char>) -> Option<Seq<char>> {
    if tag == "legacy-trunk"@ {
        None
    } else {
        match captures_of(PYTHON_TAG@, tag) {
            Some(groups) => python_version_of(groups),
            None => None,
        }
    }
}

/// The candidate a tag gives under `rule`, if any.
pub open spec fn tag_candidate(rule: TagRule, tag: Seq<char>) -> Option<Seq<char>> {
    match rule {
        TagRule::StripV => strip_v(tag),
        TagRule::DropV => if tag.len() > 0 && tag[0] == 'v' { None } else { Some(tag) },
        TagRule::Keep => Some(tag),
        TagRule::Underscored => underscored_tag(tag),
        TagRule::Python => python_tag(tag),
    }
}

/// The candidates of `tags` under `rule`, each once, in the order of the
/// first tag that gives it.
pub open spec fn candidates(rule: TagRule, tags: Seq<Seq<char>>) -> Seq<Seq<char>>
    decreases tags.len(),
{
    if tags.len() == 0 {
        Seq::empty()
    } else {
        let prev = candidates(rule, tags.drop_last());
        match tag_candidate(rule, tags.last()) {
            Some(t) => if prev.contains(t) {
                prev
            } else {
                prev.push(t)
            },
            None => prev,
        }
    }
}

/// Some tag of `tags` gives the candidate `c` under `rule`.
pub open spec fn from_some_tag(rule: TagRule, tags: Seq<Seq<char>>, c: Seq<char>) -> bool {
    exists|i: int| 0 <= i < tags.len() && tag_candidate(rule, tags[i]) == Some(c)
}

/// The candidates hold no repeats, and they are exactly what the tags give:
/// a candidate comes from some tag, and every tag that gives a candidate has
/// it listed.
pub proof fn lemma_candidates_exact(rule: TagRule, tags: Seq<Seq<char>>)
    ensures
        candidates(rule, tags).no_duplicates(),
        forall|c: Seq<char>| #[trigger]
            candidates(rule, tags).contains(c) <==> from_some_tag(rule, tags, c),
    decreases tags.len(),
{
    if tags.len() > 0 {
        let init = tags.drop_last();
        lemma_candidates_exact(rule, init);
        let prev = candidates(rule, init);
        let last = tags.last();
        let out = candidates(rule, tags);
        assert forall|c: Seq<char>| from_some_tag(rule, tags, c) <==> (from_some_tag(rule, init, c)
            || tag_candidate(rule, last) == Some(c)) by {
            if from_some_tag(rule, tags, c) {
                let i = choose|i: int| 0 <= i < tags.len() && tag_candidate(rule, tags[i]) == Some(c);
                if i < init.len() {
                    assert(init[i] == tags[i]);
                }
            }
            if from_some_tag(rule, init, c) {
                let i = choose|i: int| 0 <= i < init.len() && tag_candidate(rule, init[i]) == Some(c);
                assert(tags[i] == init[i]);
            }
            if tag_candidate(rule, last) == Some(c) {
                assert(tags[tags.len() - 1] == last);
            }
        }
        match tag_candidate(rule, last) {
            Some(t) => {
                if !prev.contains(t) {
                    assert forall|c: Seq<char>| out.contains(c) <==> (prev.contains(c) || c == t) by {
                        if out.contains(c) {
                            let k = choose|k: int| 0 <= k < out.len() && out[k] == c;
                            if k < prev.len() {
                                assert(prev[k] == c);
                            }
                        }
                        if prev.contains(c) {
                            let k = choose|k: int| 0 <= k < prev.len() && prev[k] == c;
                            assert(out[k] == c);
                        }
                        if c == t {
                            assert(out[out.len() - 1] == t);
                        }
                    }
                    assert forall|i: int, j: int|
                        0 <= i < out.len() && 0 <= j < out.len() && i != j implies out[i] != out[j] by {
                        if i == prev.len() {
                            assert(!prev.contains(out[j]) || j < prev.len());
                            if j < prev.len() {
                                assert(prev[j] == out[j]);
                            }
                        } else if j == prev.len() {
                            assert(prev[i] == out[i]);
                        } else {
                            assert(prev[i] == out[i] && prev[j] == out[j]);
                        }
                    }
                }
            },
            None => {},
        }
    }
}

pub open spec fn group_texts(groups: Seq<Option<String>>) -> Seq<Option<Seq<char>>> {
    groups.map_values(|g: Option<String>| crate::plan::opt_text(g))
}

fn starts_with_v(tag: &str) -> (r: bool)
    ensures
        r == (tag@.len() > 0 && tag@[0] == 'v'),
{
    tag.unicode_len() > 0 && tag.get_char(0) == 'v'
}

/// `s` with its first two underscores turned into `.` and the others into `-`.
pub fn rewrite_separators(s: &str) -> (r: String)
    ensures
        r@ == rewrite_underscores(s@, 2),
{
    let n = s.unicode_len();
    let mut out = String::new();
    let mut dots: u64 = 2;
    let mut i: usize = 0;
    assert(s@.skip(0) =~= s@);
    assert(out@ + rewrite_underscores(s@, 2) =~= rewrite_underscores(s@, 2));
    while i < n
        invariant
            n == s@.len(),
            i <= n,
            dots <= 2,
            rewrite_underscores(s@, 2) == out@ + rewrite_underscores(s@.skip(i as int), dots as nat),
        decreases n - i,
    {
        let ghost before = out@;
        let ghost rest = s@.skip(i as int);
        let ghost old_dots = dots as nat;
        assert(rest.skip(1) =~= s@.skip(i + 1));
        let c = s.get_char(i);
        if c == '_' {
            if dots > 0 {
                out = out.concat(".");
                dots = dots - 1;
            } else {
                out = out.concat("-");
            }
        } else {
            let piece = s.substring_char(i, i + 1);
            assert(piece@ =~= seq![c]);
            out = out.concat(piece);
        }
        proof {
            reveal_strlit(".");
            reveal_strlit("-");
        }
        i = i + 1;
        assert(out@ + rewrite_underscores(s@.skip(i as int), dots as nat) =~= before
            + rewrite_underscores(rest, old_dots)) by {
            assert(rest[0] == c);
        }
    }
    assert(s@.skip(n as int) =~= Seq::<char>::empty());
    assert(out@ + Seq::<char>::empty() =~= out@);
    out
}

fn pre_word_of(pre: &String) -> (r: &'static str)
    ensures
        r@ == pre_word(pre@),
{
    if *pre == String::from_str("a") {
        "alpha"
    } else if *pre == String::from_str("b") {
        "beta"
    } else {
        "rc"
    }
}

/// The version that the capture groups of a CPython tag stand for, per
/// [`python_version_of`].
pub fn from_python_version(groups: &Vec<Option<String>>) -> (r: Option<String>)
    ensures
        crate::plan::opt_text(r) == python_version_of(group_texts(groups@)),
{
    if groups.len() < 6 {
        return None;
    }
    let (major, minor) = match (&groups[1], &groups[2]) {
        (Some(major), Some(minor)) => (major, minor),
        _ => return None,
    };
    let patch = match &groups[3] {
        Some(p) => p.clone(),
        None => String::from_str("0"),
    };
    let core = String::from_str(major.as_str()).concat(".").concat(minor.as_str()).concat(".").concat(
        patch.as_str(),
    );
    match (&groups[4], &groups[5]) {
        (Some(pre), Some(id)) => Some(core.concat("-").concat(pre_word_of(pre)).concat(".").concat(id.as_str())),
        _ => Some(core),
    }
}

/// The candidate a tag gives under `rule`, if any.
pub fn normalize_tag(rule: TagRule, tag: &str) -> (r: Option<String>)
    ensures
        crate::plan::opt_text(r) == tag_candidate(rule, tag@),
{
    match rule {
        TagRule::StripV => {
            if starts_with_v(tag) {
                Some(String::from_str(tag.substring_char(1, tag.unicode_len())))
            } else {
                None
            }
        },
        TagRule::DropV => {
            if starts_with_v(tag) {
                None
            } else {
                Some(String::from_str(tag))
            }
        },
        TagRule::Keep => Some(String::from_str(tag)),
        TagRule::Underscored => {
            if !starts_with_v(tag) {
                return None;
            }
            let v = rewrite_separators(tag.substring_char(1, tag.unicode_len()));
            if v.unicode_len() > 0 && (v.as_str().get_char(0) == '0' || v.as_str().get_char(0) == '1') {
                None
            } else {
                Some(v)
            }
        },
        TagRule::Python => {
            if String::from_str(tag) == String::from_str("legacy-trunk") {
                return None;
            }
            match regex_captures(PYTHON_TAG, tag) {
                Some(groups) => from_python_version(&groups),
                None => None,
            }
        },
    }
}

/// The candidates of `tags` under `rule`, in tag order.
pub fn normalize_tags(rule: TagRule, tags: &Vec<String>) -> (r: Vec<String>)
    ensures
        texts(r@) == candidates(rule, texts(tags@)),
        texts(r@).no_duplicates(),
{
    let mut out: Vec<String> = Vec::new();
    let mut i: usize = 0;
    assert(texts(tags@).take(0) =~= Seq::<Seq<char>>::empty());
    while i < tags.len()
        invariant
            i <= tags@.len(),
            texts(out@) == candidates(rule, texts(tags@).take(i as int)),
        decreases tags@.len() - i,
    {
        let ghost all = texts(tags@);
        assert(all.take(i + 1).drop_last() =~= all.take(i as int));
        assert(all.take(i + 1).last() == tags@[i as int]@);
        match normalize_tag(rule, tags[i].as_str()) {
            Some(t) => {
                if !contains_text(&out, &t) {
                    out.push(t);
                    assert(texts(out@) =~= candidates(rule, all.take(i as int)).push(
                        tag_candidate(rule, tags@[i as int]@)->Some_0,
                    ));
                }
            },
            None => {},
        }
        i = i + 1;
    }
    assert(texts(tags@).take(i as int) =~= texts(tags@));
    proof {
        lemma_candidates_exact(rule, texts(tags@));
    }
    out
}

fn contains_text(v: &Vec<String>, t: &String) -> (r: bool)
    ensures
        r == texts(v@).contains(t@),
{
    let mut i: usize = 0;
    while i < v.len()
        invariant
            i <= v@.len(),
            forall|k: int| 0 <= k < i ==> v@[k]@ != t@,
        decreases v@.len() - i,
    {
        if v[i] == *t {
            assert(texts(v@)[i as int] == t@);
            return true;
        }
        i = i + 1;
    }
    assert(!texts(v@).contains(t@)) by {
        if texts(v@).contains(t@) {
            let k = choose|k: int| 0 <= k < texts(v@).len() && texts(v@)[k] == t@;
            assert(v@[k]@ == t@);
        }
    }
    false
}

/// The outcome of normalizing what was fetched from `repository`: a failed
/// fetch is `SourceUnavailable`, never an empty list.
pub open spec fn loaded(rule: TagRule, repository: Seq<char>, fetched: Option<Seq<Seq<char>>>) -> Result<Seq<Seq<char>>, ErrorView> {
    match fetched {
        Some(tags) => Ok(candidates(rule, tags)),
        None => Err(ErrorView::SourceUnavailable { resource: repository }),
    }
}

pub open spec fn fetched_texts(fetched: Option<Vec<String>>) -> Option<Seq<Seq<char>>> {
    match fetched {
        Some(tags) => Some(texts(tags@)),
        None => None,
    }
}

pub open spec fn loaded_view(r: Result<Vec<String>, PluginError>) -> Result<Seq<Seq<char>>, ErrorView> {
    match r {
        Ok(v) => Ok(texts(v@)),
        Err(e) => Err(e@),
    }
}

/// The version candidates among the tags fetched from `repository`, or
/// `SourceUnavailable` when the fetch failed (`None`).
pub fn load_candidates(rule: TagRule, repository: &str, fetched: Option<Vec<String>>) -> (r: Result<Vec<String>, PluginError>)
    ensures
        loaded_view(r) == loaded(rule, repository@, fetched_texts(fetched)),
        r is Ok ==> texts(r->Ok_0@).no_duplicates(),
{
    match fetched {
        Some(tags) => Ok(normalize_tags(rule, &tags)),
        None => Err(PluginError::SourceUnavailable { resource: String::from_str(repository) }),
    }
}

} // verus!
