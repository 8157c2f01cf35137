//! Python: prebuilt standalone builds listed in a release manifest, a build
//! from source through pyenv's python-build, and a layout with a legacy
//! fallback.

use vstd::prelude::*;
use crate::error::{ErrorView, PluginError};
use crate::host::{HostEnvironment, HostOS, get_target_triple, triple_of, unsupported};
use crate::locate::{ExeView, ExecutableConfig, LayoutView, LocateExecutablesOutput, primary_exe};
use crate::plan::{BuildInstructionsOutput, BuildPlan, DependencyView, DownloadPlan, DownloadPrebuiltOutput, HostPackageManager, builder_build, builder_plan, opt_text, packages_for};
use crate::text::{decimal, decimal_string, split_at_char, texts};
use crate::version::{SemVer, SpecView, Version, VersionSpec, is_canary, spec_text};
use crate::tags::{TagRule, load_candidates, loaded, loaded_view, fetched_texts};
use crate::metadata::{DetectVersionOutput, PluginType, ToolMetadata, detect_view, metadata, metadata_of, version_file};

verus! {

pub open spec fn python_name() -> Seq<char> {
    "Python"@
}

pub const APT_PACKAGES: &'static str = "build-essential libssl-dev zlib1g-dev libbz2-dev libreadline-dev libsqlite3-dev curl git libncursesw5-dev xz-utils tk-dev libxml2-dev libxmlsec1-dev libffi-dev liblzma-dev";

pub const BREW_PACKAGES: &'static str = "openssl readline sqlite3 xz zlib tcl-tk@8";

pub const DNF_PACKAGES: &'static str = "make gcc patch zlib-devel bzip2 bzip2-devel readline-devel sqlite sqlite-devel openssl-devel tk-devel libffi-devel xz-devel libuuid-devel gdbm-libs libnsl2";

pub const PACMAN_PACKAGES: &'static str = "base-devel openssl zlib xz tk";

pub const YUM_PACKAGES: &'static str = "gcc make patch zlib-devel bzip2 bzip2-devel readline-devel sqlite sqlite-devel openssl-devel tk-devel libffi-devel xz-devel";

pub open spec fn pm_packages(manager: HostPackageManager, list: Seq<char>) -> DependencyView {
    DependencyView { os: None, arch: None, manager: Some(manager), packages: split_at_char(list, ' ') }
}

/// The native packages a Python build needs, per package manager.
pub open spec fn python_dependencies() -> Seq<DependencyView> {
    seq![
        pm_packages(HostPackageManager::Apt, APT_PACKAGES@),
        pm_packages(HostPackageManager::Brew, BREW_PACKAGES@),
        pm_packages(HostPackageManager::Dnf, DNF_PACKAGES@),
        pm_packages(HostPackageManager::Pacman, PACMAN_PACKAGES@),
        pm_packages(HostPackageManager::Yum, YUM_PACKAGES@),
    ]
}

pub open spec fn python_build_plan(version: Seq<char>) -> BuildPlan {
    builder_plan(
        "https://github.com/pyenv/pyenv/blob/master/plugins/python-build/README.md"@,
        python_dependencies(),
        "python-build"@,
        "plugins/python-build/bin/python-build"@,
        "https://github.com/pyenv/pyenv.git"@,
        version,
    )
}

/// Plans a from-source build of Python `version` with python-build. Windows
/// has no build path and fails with `UnsupportedWindowsBuild` before
/// anything is planned.
pub fn build_instructions(env: &HostEnvironment, version: &VersionSpec) -> (r: Result<BuildInstructionsOutput, PluginError>)
    ensures
        match r {
            Ok(out) => env.os != HostOS::Windows && out@ == python_build_plan(spec_text(version@)),
            Err(e) => env.os == HostOS::Windows && e@ == ErrorView::UnsupportedWindowsBuild,
        },
{
    if env.os.is_windows() {
        return Err(PluginError::UnsupportedWindowsBuild);
    }
    let deps = vec![
        packages_for(HostPackageManager::Apt, APT_PACKAGES),
        packages_for(HostPackageManager::Brew, BREW_PACKAGES),
        packages_for(HostPackageManager::Dnf, DNF_PACKAGES),
        packages_for(HostPackageManager::Pacman, PACMAN_PACKAGES),
        packages_for(HostPackageManager::Yum, YUM_PACKAGES),
    ];
    assert(deps@.map_values(|d: crate::plan::SystemDependency| d@) =~= python_dependencies());
    let v = version.to_text();
    Ok(
        builder_build(
            "https://github.com/pyenv/pyenv/blob/master/plugins/python-build/README.md",
            deps,
            "python-build",
            "plugins/python-build/bin/python-build",
            "https://github.com/pyenv/pyenv.git",
            v.as_str(),
        ),
    )
}

/// One artifact of a release: its download URL and, if published, its
/// checksum URL.
#[derive(Debug)]
pub struct ReleaseEntry {
    pub download: String,
    pub checksum: Option<String>,
}

/// The release manifest: per version, the artifacts by target triple. The
/// first entry for a version, and for a triple, counts.
#[derive(Debug)]
pub struct ReleaseTable {
    pub releases: Vec<(Version, Vec<(String, ReleaseEntry)>)>,
}

/// The artifacts listed for `v`, if any.
pub open spec fn artifacts_for(releases: Seq<(Version, Vec<(String, ReleaseEntry)>)>, v: SemVer) -> Option<Seq<(String, ReleaseEntry)>>
    decreases releases.len(),
{
    if releases.len() == 0 {
        None
    } else if releases[0].0@ == v {
        Some(releases[0].1@)
    } else {
        artifacts_for(releases.skip(1), v)
    }
}

/// The artifact listed for `triple`, if any.
pub open spec fn artifact_for(artifacts: Seq<(String, ReleaseEntry)>, triple: Seq<char>) -> Option<ReleaseEntry>
    decreases artifacts.len(),
{
    if artifacts.len() == 0 {
        None
    } else if artifacts[0].0@ == triple {
        Some(artifacts[0].1)
    } else {
        artifact_for(artifacts.skip(1), triple)
    }
}

fn find_release<'a>(releases: &'a Vec<(Version, Vec<(String, ReleaseEntry)>)>, v: &Version) -> (r: Option<&'a Vec<(String, ReleaseEntry)>>)
    ensures
        match r {
            Some(a) => artifacts_for(releases@, v@) == Some(a@),
            None => artifacts_for(releases@, v@).is_none(),
        },
{
    let mut i: usize = 0;
    assert(releases@.skip(0) =~= releases@);
    while i < releases.len()
        invariant
            i <= releases@.len(),
            artifacts_for(releases@, v@) == artifacts_for(releases@.skip(i as int), v@),
        decreases releases@.len() - i,
    {
        assert(releases@.skip(i as int).skip(1) =~= releases@.skip(i + 1));
        if releases[i].0.same_as(v) {
            return Some(&releases[i].1);
        }
        i = i + 1;
    }
    None
}

fn find_artifact<'a>(artifacts: &'a Vec<(String, ReleaseEntry)>, triple: &String) -> (r: Option<&'a ReleaseEntry>)
    ensures
        match r {
            Some(a) => artifact_for(artifacts@, triple@) == Some(*a),
            None => artifact_for(artifacts@, triple@).is_none(),
        },
{
    let mut i: usize = 0;
    assert(artifacts@.skip(0) =~= artifacts@);
    while i < artifacts.len()
        invariant
            i <= artifacts@.len(),
            artifact_for(artifacts@, triple@) == artifact_for(artifacts@.skip(i as int), triple@),
        decreases artifacts@.len() - i,
    {
        assert(artifacts@.skip(i as int).skip(1) =~= artifacts@.skip(i + 1));
        if artifacts[i].0 == *triple {
            return Some(&artifacts[i].1);
        }
        i = i + 1;
    }
    None
}

/// The artifacts of a requested version: only concrete versions are listed.
pub open spec fn release_of(table: ReleaseTable, version: SpecView) -> Option<Seq<(String, ReleaseEntry)>> {
    match version {
        SpecView::Semantic(v) => artifacts_for(table.releases@, v),
        _ => None,
    }
}

/// The outcome of looking up a prebuilt Python: canary is refused; a version
/// missing from the manifest, a host without a triple, and a triple missing
/// from the version's artifacts each fail; else the artifact's URLs, unpacked
/// from `python/install`.
pub open spec fn python_download(env: HostEnvironment, version: SpecView, table: ReleaseTable) -> Result<DownloadPlan, ErrorView> {
    if is_canary(version) {
        Err(ErrorView::UnsupportedCanary { tool: python_name() })
    } else if release_of(table, version).is_none() {
        Err(ErrorView::NoPrebuiltForVersion { version: spec_text(version) })
    } else if triple_of(env).is_none() {
        Err(unsupported(python_name(), env))
    } else {
        match artifact_for(release_of(table, version)->Some_0, triple_of(env)->Some_0) {
            None => Err(ErrorView::NoPrebuiltForArchitecture { triple: triple_of(env)->Some_0 }),
            Some(entry) => Ok(
                DownloadPlan {
                    archive_prefix: Some("python/install"@),
                    checksum_name: None,
                    checksum_url: opt_text(entry.checksum),
                    download_name: None,
                    download_url: entry.download@,
                },
            ),
        }
    }
}

pub open spec fn download_view(r: Result<DownloadPrebuiltOutput, PluginError>) -> Result<DownloadPlan, ErrorView> {
    match r {
        Ok(out) => Ok(out@),
        Err(e) => Err(e@),
    }
}

fn clone_opt(s: &Option<String>) -> (r: Option<String>)
    ensures
        opt_text(r) == opt_text(*s),
{
    match s {
        Some(t) => Some(t.clone()),
        None => None,
    }
}

/// Where to download Python `version` for the host, per the release
/// manifest `releases`.
pub fn download_prebuilt(env: &HostEnvironment, version: &VersionSpec, releases: &ReleaseTable) -> (r: Result<DownloadPrebuiltOutput, PluginError>)
    ensures
        download_view(r) == python_download(*env, version@, *releases),
{
    if version.is_canary() {
        return Err(PluginError::UnsupportedCanary { tool: String::from_str("Python") });
    }
    let artifacts = match version.as_version() {
        Some(v) => find_release(&releases.releases, v),
        None => None,
    };
    let artifacts = match artifacts {
        Some(a) => a,
        None => return Err(PluginError::NoPrebuiltForVersion { version: version.to_text() }),
    };
    let triple = match get_target_triple(env, "Python") {
        Ok(t) => t,
        Err(e) => return Err(e),
    };
    match find_artifact(artifacts, &triple) {
        None => Err(PluginError::NoPrebuiltForArchitecture { triple }),
        Some(entry) => Ok(
            DownloadPrebuiltOutput {
                archive_prefix: Some(String::from_str("python/install")),
                checksum_name: None,
                checksum_url: clone_opt(&entry.checksum),
                download_name: None,
                download_url: entry.download.clone(),
            },
        ),
    }
}

/// The main executable's path before the version fallback; the legacy
/// layout nests everything under `install/`.
pub open spec fn python_exe_base(os: HostOS, legacy: bool) -> Seq<char> {
    if legacy {
        if os == HostOS::Windows { "install/python.exe"@ } else { "install/bin/python"@ }
    } else {
        if os == HostOS::Windows { "python.exe"@ } else { "bin/python"@ }
    }
}

pub open spec fn python_exes_dir(os: HostOS, legacy: bool) -> Seq<char> {
    if legacy {
        if os == HostOS::Windows { "install/Scripts"@ } else { "install/bin"@ }
    } else {
        if os == HostOS::Windows { "Scripts"@ } else { "bin"@ }
    }
}

/// The main executable's path: on Unix, when the unversioned binary is
/// missing, the name suffixed with the major version of a concrete version.
pub open spec fn python_exe_path(os: HostOS, legacy: bool, version: SpecView, has_unversioned: bool) -> Seq<char> {
    match version {
        SpecView::Semantic(v) if os != HostOS::Windows && !has_unversioned =>
            python_exe_base(os, legacy) + decimal(v.major),
        _ => python_exe_base(os, legacy),
    }
}

/// pip runs through the interpreter as `python -m pip` and gets no shim of its own.
pub open spec fn pip_exe() -> ExeView {
    ExeView { exe_path: None, primary: false, no_bin: true, shim_before_args: Some(seq!["-m"@, "pip"@]) }
}

pub open spec fn python_layout(os: HostOS, legacy: bool, version: SpecView, has_unversioned: bool) -> LayoutView {
    LayoutView {
        exes: seq![
            ("python"@, primary_exe(python_exe_path(os, legacy, version, has_unversioned))),
            ("pip"@, pip_exe()),
        ],
        exes_dir: Some(python_exes_dir(os, legacy)),
        globals_lookup_dirs: seq!["$TOOL_DIR/"@ + python_exes_dir(os, legacy), "$HOME/.local/bin"@],
    }
}

/// The main executable's path, relative to the tool root, before the version
/// fallback; `has_legacy_layout` tells whether the root holds the
/// `PYTHON.json` marker of the older layout.
pub fn primary_exe_path(os: HostOS, has_legacy_layout: bool) -> (r: String)
    ensures
        r@ == python_exe_base(os, has_legacy_layout),
{
    if has_legacy_layout {
        String::from_str(os.for_native("install/bin/python", "install/python.exe"))
    } else {
        String::from_str(os.for_native("bin/python", "python.exe"))
    }
}

/// The executables of an installed Python. `has_legacy_layout` tells whether
/// the root holds the `PYTHON.json` marker of the older layout, and
/// `has_unversioned_exe` whether the file that [`primary_exe_path`] names exists.
pub fn locate_executables(os: HostOS, version: &VersionSpec, has_legacy_layout: bool, has_unversioned_exe: bool) -> (r: LocateExecutablesOutput)
    ensures
        r@ == python_layout(os, has_legacy_layout, version@, has_unversioned_exe),
        crate::locate::well_formed(r@),
{
    let mut exe_path = primary_exe_path(os, has_legacy_layout);
    let exes_dir = if has_legacy_layout {
        String::from_str(os.for_native("install/bin", "install/Scripts"))
    } else {
        String::from_str(os.for_native("bin", "Scripts"))
    };
    if !os.is_windows() && !has_unversioned_exe {
        match version.as_version() {
            Some(v) => {
                exe_path = exe_path.concat(decimal_string(v.major).as_str());
            },
            None => {},
        }
    }
    let pip_args = vec![String::from_str("-m"), String::from_str("pip")];
    assert(texts(pip_args@) =~= seq!["-m"@, "pip"@]);
    let pip = ExecutableConfig { exe_path: None, primary: false, no_bin: true, shim_before_args: Some(pip_args) };
    let globals = vec![String::from_str("$TOOL_DIR/").concat(exes_dir.as_str()), String::from_str("$HOME/.local/bin")];
    let r = LocateExecutablesOutput {
        exes: vec![
            (String::from_str("python"), ExecutableConfig::new_primary(exe_path)),
            (String::from_str("pip"), pip),
        ],
        exes_dir: Some(exes_dir),
        globals_lookup_dirs: globals,
    };
    assert(r@.exes =~= python_layout(os, has_legacy_layout, version@, has_unversioned_exe).exes);
    assert(r@.globals_lookup_dirs =~= python_layout(os, has_legacy_layout, version@, has_unversioned_exe).globals_lookup_dirs);
    proof {
        reveal_strlit("python");
        reveal_strlit("pip");
        assert(r@.exes[0].0.len() != r@.exes[1].0.len());
        assert(r@.exes[0].1.primary);
    }
    r
}

/// The repository whose tags list the releases.
pub const GIT_REPOSITORY: &'static str = "https://github.com/python/cpython";

/// The version candidates among the tags fetched from [`GIT_REPOSITORY`], or
/// `SourceUnavailable` when the fetch failed. CPython tags are read through their version pattern; `legacy-trunk` is skipped.
pub fn load_versions(fetched: Option<Vec<String>>) -> (r: Result<Vec<String>, PluginError>)
    ensures
        loaded_view(r) == loaded(TagRule::Python, GIT_REPOSITORY@, fetched_texts(fetched)),
        r is Ok ==> texts(r->Ok_0@).no_duplicates(),
{
    load_candidates(TagRule::Python, GIT_REPOSITORY, fetched)
}

/// How Python describes itself to the host.
pub fn register_tool() -> (r: ToolMetadata)
    ensures
        r@ == metadata_of("Python"@, PluginType::Language, Seq::empty()),
{
    let commands: Vec<String> = Vec::new();
    assert(texts(commands@) =~= Seq::empty());
    metadata("Python", PluginType::Language, commands)
}

/// Python versions are pinned in `.python-version` files.
pub fn detect_version_files() -> (r: DetectVersionOutput)
    ensures
        detect_view(r) == (seq![".python-version"@], Seq::<Seq<char>>::empty()),
{
    version_file(".python-version", None)
}

} // verus!
