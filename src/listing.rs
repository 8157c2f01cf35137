//! The version list handed to the host: every candidate read as a version,
//! and the `latest` alias.

use vstd::prelude::*;
use crate::error::{ErrorView, PluginError};
use crate::plan::opt_text;
use crate::text::texts;
use crate::version::{SemVer, Version};
use crate::wrappers::{parse_version, parsed_of};

verus! {

/// A version as read from its text.
#[derive(Debug)]
pub struct ParsedVersion {
    /// A semantic version; otherwise a calendar version.
    pub semantic: bool,
    /// The prefix before the version, as `vendor` in `vendor-1.2.3`.
    pub scope: Option<String>,
    pub major: u64,
    pub minor: u64,
    pub patch: u64,
    pub prerelease: Option<String>,
    pub build: Option<String>,
}

pub struct ParsedView {
    pub semantic: bool,
    pub scope: Option<Seq<char>>,
    pub major: nat,
    pub minor: nat,
    pub patch: nat,
    pub prerelease: Option<Seq<char>>,
    pub build: Option<Seq<char>>,
}

impl View for ParsedVersion {
    type V = ParsedView;

    open spec fn view(&self) -> ParsedView {
        ParsedView {
            semantic: self.semantic,
            scope: opt_text(self.scope),
            major: self.major as nat,
            minor: self.minor as nat,
            patch: self.patch as nat,
            prerelease: opt_text(self.prerelease),
            build: opt_text(self.build),
        }
    }
}

/// The candidates read as versions, or the first one that is no version.
pub open spec fn parse_all(candidates: Seq<Seq<char>>) -> Result<Seq<ParsedView>, Seq<char>>
    decreases candidates.len(),
{
    if candidates.len() == 0 {
        Ok(Seq::empty())
    } else {
        match parse_all(candidates.drop_last()) {
            Err(first) => Err(first),
            Ok(prev) => match parsed_of(candidates.last()) {
                Some(p) => Ok(prev.push(p)),
                None => Err(candidates.last()),
            },
        }
    }
}

/// A stable release: a semantic version without scope, pre-release or build.
pub open spec fn is_release(p: ParsedView) -> bool {
    p.semantic && p.scope is None && p.prerelease is None && p.build is None
}

/// `a` has a higher `major.minor.patch` than `b`.
pub open spec fn numbers_above(a: ParsedView, b: ParsedView) -> bool {
    a.major > b.major || (a.major == b.major && (a.minor > b.minor || (a.minor == b.minor
        && a.patch > b.patch)))
}

/// The highest stable release of `ps`; of equal ones, the first.
pub open spec fn highest_release(ps: Seq<ParsedView>) -> Option<ParsedView>
    decreases ps.len(),
{
    if ps.len() == 0 {
        None
    } else {
        let best = highest_release(ps.drop_last());
        if is_release(ps.last()) && (best is None || numbers_above(ps.last(), best->Some_0)) {
            Some(ps.last())
        } else {
            best
        }
    }
}

/// The version the `latest` alias points at: the highest stable release, or
/// `0.0.0` when there is none.
pub open spec fn latest_of(ps: Seq<ParsedView>) -> SemVer {
    match highest_release(ps) {
        Some(p) => SemVer { major: p.major, minor: p.minor, patch: p.patch, pre: Seq::empty(), build: Seq::empty() },
        None => SemVer { major: 0, minor: 0, patch: 0, pre: Seq::empty(), build: Seq::empty() },
    }
}

/// The versions of a tool and its `latest` alias.
#[derive(Debug)]
pub struct LoadedVersions {
    pub versions: Vec<ParsedVersion>,
    pub latest: Version,
}

pub open spec fn parsed_views(v: Seq<ParsedVersion>) -> Seq<ParsedView> {
    v.map_values(|p: ParsedVersion| p@)
}

pub open spec fn output_view(r: Result<LoadedVersions, PluginError>) -> Result<(Seq<ParsedView>, SemVer), ErrorView> {
    match r {
        Ok(out) => Ok((parsed_views(out.versions@), out.latest@)),
        Err(e) => Err(e@),
    }
}

/// What the host gets for a candidate list: each candidate read as a
/// version, with `latest` at the highest stable release; the first candidate
/// that is no version fails with `InvalidVersion`.
pub open spec fn versions_of(candidates: Seq<Seq<char>>) -> Result<(Seq<ParsedView>, SemVer), ErrorView> {
    match parse_all(candidates) {
        Ok(ps) => Ok((ps, latest_of(ps))),
        Err(first) => Err(ErrorView::InvalidVersion { version: first }),
    }
}

fn numbers_above_exec(a: &ParsedVersion, b: &ParsedVersion) -> (r: bool)
    ensures
        r == numbers_above(a@, b@),
{
    a.major > b.major || (a.major == b.major && (a.minor > b.minor || (a.minor == b.minor
        && a.patch > b.patch)))
}

/// Reads every candidate as a version and picks the `latest` alias.
pub fn versions_output(candidates: &Vec<String>) -> (r: Result<LoadedVersions, PluginError>)
    ensures
        output_view(r) == versions_of(texts(candidates@)),
{
    let ghost all = texts(candidates@);
    let mut versions: Vec<ParsedVersion> = Vec::new();
    let mut i: usize = 0;
    assert(all.take(0) =~= Seq::<Seq<char>>::empty());
    assert(parsed_views(versions@) =~= Seq::<ParsedView>::empty());
    while i < candidates.len()
        invariant
            i <= candidates@.len(),
            all == texts(candidates@),
            parse_all(all.take(i as int)) == Ok::<Seq<ParsedView>, Seq<char>>(parsed_views(versions@)),
        decreases candidates@.len() - i,
    {
        assert(all.take(i + 1).drop_last() =~= all.take(i as int));
        assert(all.take(i + 1).last() == candidates@[i as int]@);
        match parse_version(candidates[i].as_str()) {
            Some(p) => {
                let ghost before = parsed_views(versions@);
                let ghost pv = p@;
                versions.push(p);
                assert(parsed_views(versions@) =~= before.push(pv));
            },
            None => {
                proof {
                    lemma_parse_all_fails(all, i as int);
                }
                return Err(PluginError::InvalidVersion { version: candidates[i].clone() });
            },
        }
        i = i + 1;
    }
    assert(all.take(i as int) =~= all);
    let ghost ps = parsed_views(versions@);
    let mut best: Option<usize> = None;
    let mut k: usize = 0;
    assert(ps.take(0) =~= Seq::<ParsedView>::empty());
    while k < versions.len()
        invariant
            k <= versions@.len(),
            ps == parsed_views(versions@),
            match best {
                Some(b) => b < k && highest_release(ps.take(k as int)) == Some(ps[b as int]),
                None => highest_release(ps.take(k as int)) is None,
            },
        decreases versions@.len() - k,
    {
        assert(ps.take(k + 1).drop_last() =~= ps.take(k as int));
        assert(ps.take(k + 1).last() == ps[k as int]);
        let v = &versions[k];
        let release = v.semantic && v.scope.is_none() && v.prerelease.is_none() && v.build.is_none();
        if release {
            let better = match best {
                None => true,
                Some(b) => numbers_above_exec(v, &versions[b]),
            };
            if better {
                best = Some(k);
            }
        }
        k = k + 1;
    }
    assert(ps.take(k as int) =~= ps);
    let latest = match best {
        Some(b) => Version::new(versions[b].major, versions[b].minor, versions[b].patch),
        None => Version::new(0, 0, 0),
    };
    Ok(LoadedVersions { versions, latest })
}

/// Once a candidate is no version, reading the list fails on the first such.
proof fn lemma_parse_all_fails(all: Seq<Seq<char>>, i: int)
    requires
        0 <= i < all.len(),
        parse_all(all.take(i)) is Ok,
        parsed_of(all[i]) is None,
    ensures
        parse_all(all) == Err::<Seq<ParsedView>, Seq<char>>(all[i]),
    decreases all.len() - i,
{
    if i + 1 == all.len() {
        assert(all.drop_last() =~= all.take(i));
    } else {
        assert(all.drop_last().take(i) =~= all.take(i));
        assert(all.drop_last()[i] == all[i]);
        lemma_parse_all_fails(all.drop_last(), i);
    }
}

} // verus!
