//! Calls into outside crates that Verus cannot read, each behind a contract.

use vstd::prelude::*;
use crate::listing::{ParsedVersion, ParsedView};

verus! {

/// What matching `pattern` against `text` gives: the groups of the leftmost
/// match, by index, group 0 being the whole match; none when the pattern is
/// invalid or does not match. It depends on the two texts alone.
pub uninterp spec fn captures_of(pattern: Seq<char>, text: Seq<char>) -> Option<Seq<Option<Seq<char>>>>;

/// Relies on regex's `Regex::new` and `Regex::captures`: compiles `pattern`
/// and returns the capture groups of its leftmost match in `text`.
#[verifier::external_body]
pub(crate) fn regex_captures(pattern: &str, text: &str) -> (r: Option<Vec<Option<String>>>)
    ensures
        match r {
            Some(groups) => captures_of(pattern@, text@) == Some(
                groups@.map_values(|g: Option<String>| crate::plan::opt_text(g)),
            ),
            None => captures_of(pattern@, text@) is None,
        },
{
    let re = regex::Regex::new(pattern).ok()?;
    let caps = re.captures(text)?;
    Some(caps.iter().map(|m| m.map(|m| m.as_str().to_string())).collect())
}

/// What reading `text` as a version gives: its kind, scope and parts; none
/// when it is no version. It depends on the text alone.
pub uninterp spec fn parsed_of(text: Seq<char>) -> Option<ParsedView>;

/// Relies on version_spec's `Version::parse`: reads a semantic or calendar
/// version, with its optional scope, pre-release and build metadata.
#[verifier::external_body]
pub(crate) fn parse_version(text: &str) -> (r: Option<ParsedVersion>)
    ensures
        match r {
            Some(p) => parsed_of(text@) == Some(p@),
            None => parsed_of(text@) is None,
        },
{
    let v = version_spec::Version::parse(text).ok()?;
    Some(ParsedVersion {
        semantic: v.is_semantic(),
        scope: v.scope.map(|s| s.to_string()),
        major: v.major as u64,
        minor: v.minor as u64,
        patch: v.patch as u64,
        prerelease: v.prerelease.map(|s| s.to_string()),
        build: v.build.map(|s| s.to_string()),
    })
}

} // verus!
