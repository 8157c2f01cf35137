//! Requested versions: a semantic version, an alias such as `latest`, or the
//! rolling `canary` channel; their text; and the checksum-policy threshold.

use vstd::prelude::*;
use crate::text::{decimal, decimal_string};

verus! {

/// A semantic version. Empty `pre` and `build` mean that there is none.
#[derive(Clone, Debug)]
pub struct Version {
    pub major: u64,
    pub minor: u64,
    pub patch: u64,
    pub pre: String,
    pub build: String,
}

/// The mathematical value of a [`Version`].
pub struct SemVer {
    pub major: nat,
    pub minor: nat,
    pub patch: nat,
    pub pre: Seq<char>,
    pub build: Seq<char>,
}

impl View for Version {
    type V = SemVer;

    open spec fn view(&self) -> SemVer {
        SemVer {
            major: self.major as nat,
            minor: self.minor as nat,
            patch: self.patch as nat,
            pre: self.pre@,
            build: self.build@,
        }
    }
}

/// A requested version.
#[derive(Clone, Debug)]
pub enum VersionSpec {
    /// The rolling nightly channel, identified by a content hash upstream.
    Canary,
    /// A named alias, such as `latest`.
    Alias(String),
    /// A concrete semantic version.
    Semantic(Version),
}

/// The mathematical value of a [`VersionSpec`].
pub enum SpecView {
    Canary,
    Alias(Seq<char>),
    Semantic(SemVer),
}

impl View for VersionSpec {
    type V = SpecView;

    open spec fn view(&self) -> SpecView {
        match self {
            VersionSpec::Canary => SpecView::Canary,
            VersionSpec::Alias(a) => SpecView::Alias(a@),
            VersionSpec::Semantic(v) => SpecView::Semantic(v@),
        }
    }
}

/// `major.minor.patch`, then `-pre` and `+build` when present.
pub open spec fn semver_text(v: SemVer) -> Seq<char> {
    let core = decimal(v.major) + "."@ + decimal(v.minor) + "."@ + decimal(v.patch);
    let with_pre = if v.pre.len() == 0 { core } else { core + "-"@ + v.pre };
    if v.build.len() == 0 { with_pre } else { with_pre + "+"@ + v.build }
}

pub open spec fn spec_text(v: SpecView) -> Seq<char> {
    match v {
        SpecView::Canary => "canary"@,
        SpecView::Alias(a) => a,
        SpecView::Semantic(s) => semver_text(s),
    }
}

pub open spec fn is_canary(v: SpecView) -> bool {
    v is Canary
}

pub open spec fn is_latest(v: SpecView) -> bool {
    v == SpecView::Alias("latest"@)
}

/// Semantic-version precedence against a threshold `t` without pre-release:
/// compare the numeric parts; on a tie, a pre-release sorts below the threshold.
pub open spec fn at_or_above(v: SemVer, t: (nat, nat, nat)) -> bool {
    if v.major != t.0 {
        v.major > t.0
    } else if v.minor != t.1 {
        v.minor > t.1
    } else if v.patch != t.2 {
        v.patch > t.2
    } else {
        v.pre.len() == 0
    }
}

impl Version {
    pub fn new(major: u64, minor: u64, patch: u64) -> (r: Version)
        ensures
            r@ == (SemVer { major: major as nat, minor: minor as nat, patch: patch as nat, pre: Seq::empty(), build: Seq::empty() }),
    {
        Version { major, minor, patch, pre: String::new(), build: String::new() }
    }

    /// The version's text, as it appears in tags and file names.
    pub fn to_text(&self) -> (r: String)
        ensures
            r@ == semver_text(self@),
    {
        let core = decimal_string(self.major).concat(".").concat(
            decimal_string(self.minor).as_str(),
        ).concat(".").concat(decimal_string(self.patch).as_str());
        let with_pre = if self.pre.unicode_len() == 0 {
            core
        } else {
            core.concat("-").concat(self.pre.as_str())
        };
        if self.build.unicode_len() == 0 {
            with_pre
        } else {
            with_pre.concat("+").concat(self.build.as_str())
        }
    }

    /// Whether this version is at or above `major.minor.patch` in precedence.
    pub fn at_or_above(&self, major: u64, minor: u64, patch: u64) -> (r: bool)
        ensures
            r == at_or_above(self@, (major as nat, minor as nat, patch as nat)),
    {
        if self.major != major {
            self.major > major
        } else if self.minor != minor {
            self.minor > minor
        } else if self.patch != patch {
            self.patch > patch
        } else {
            self.pre.unicode_len() == 0
        }
    }

    /// Whether two versions are equal in every part.
    pub fn same_as(&self, other: &Version) -> (r: bool)
        ensures
            r == (self@ == other@),
    {
        self.major == other.major && self.minor == other.minor && self.patch == other.patch
            && self.pre == other.pre && self.build == other.build
    }
}

impl VersionSpec {
    pub fn is_canary(&self) -> (r: bool)
        ensures
            r == is_canary(self@),
    {
        match self {
            VersionSpec::Canary => true,
            _ => false,
        }
    }

    pub fn is_latest(&self) -> (r: bool)
        ensures
            r == is_latest(self@),
    {
        match self {
            VersionSpec::Alias(a) => {
                let latest = String::from_str("latest");
                *a == latest
            },
            _ => false,
        }
    }

    pub fn as_version(&self) -> (r: Option<&Version>)
        ensures
            match r {
                Some(v) => self@ == SpecView::Semantic(v@),
                None => !(self@ is Semantic),
            },
    {
        match self {
            VersionSpec::Semantic(v) => Some(v),
            _ => None,
        }
    }

    /// The text of the requested version.
    pub fn to_text(&self) -> (r: String)
        ensures
            r@ == spec_text(self@),
    {
        match self {
            VersionSpec::Canary => String::from_str("canary"),
            VersionSpec::Alias(a) => a.clone(),
            VersionSpec::Semantic(v) => v.to_text(),
        }
    }
}

} // verus!
