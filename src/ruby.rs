//! Ruby: built from source with ruby-build, which is also the default
//! acquisition; Windows has no build path.

use vstd::prelude::*;
use crate::text::texts;
use crate::error::{ErrorView, PluginError};
use crate::host::{HostEnvironment, HostOS, exe_name};
use crate::locate::{
    ExecutableConfig, LayoutView, LocateExecutablesOutput, primary_exe, secondary_exe, well_formed,
};
use crate::plan::{BuildInstructionsOutput, BuildPlan, DependencyView, HostPackageManager, SystemDependency, builder_build, builder_plan, packages_for};
use crate::python::pm_packages;
use crate::version::{VersionSpec, spec_text};
use crate::tags::{TagRule, load_candidates, loaded, loaded_view, fetched_texts};
use crate::metadata::{DetectVersionOutput, MetadataView, PluginType, ToolMetadata, detect_view, metadata, version_file, minimum_host};

verus! {

pub const APT_PACKAGES: &'static str = "autoconf patch build-essential rustc libssl-dev libyaml-dev libreadline6-dev zlib1g-dev libgmp-dev libncurses5-dev libffi-dev libgdbm6 libgdbm-dev libdb-dev uuid-dev";

pub const BREW_PACKAGES: &'static str = "openssl@3 readline libyaml gmp autoconf";

pub const DNF_PACKAGES: &'static str = "autoconf gcc patch bzip2 openssl-devel libffi-devel readline zlib-devel gdbm ncurses-devel tar perl-FindBin";

pub const PACMAN_PACKAGES: &'static str = "base-devel libffi libyaml openssl zlib";

pub const PKG_PACKAGES: &'static str = "devel/autoconf devel/bison devel/patch lang/gcc databases/gdbm devel/gmake devel/libffi textproc/libyaml devel/ncurses security/openssl devel/readline";

pub const YUM_PACKAGES: &'static str = "autoconf gcc patch bzip2 openssl-devel libffi-devel readline-devel zlib-devel gdbm-devel ncurses-devel tar";

/// The native packages a Ruby build needs, per package manager.
pub open spec fn ruby_dependencies() -> Seq<DependencyView> {
    seq![
        pm_packages(HostPackageManager::Apt, APT_PACKAGES@),
        pm_packages(HostPackageManager::Brew, BREW_PACKAGES@),
        pm_packages(HostPackageManager::Dnf, DNF_PACKAGES@),
        pm_packages(HostPackageManager::Pacman, PACMAN_PACKAGES@),
        pm_packages(HostPackageManager::Pkg, PKG_PACKAGES@),
        pm_packages(HostPackageManager::Yum, YUM_PACKAGES@),
    ]
}

pub open spec fn ruby_build_plan(version: Seq<char>) -> BuildPlan {
    builder_plan(
        "https://github.com/rbenv/ruby-build/wiki"@,
        ruby_dependencies(),
        "ruby-build"@,
        "bin/ruby-build"@,
        "https://github.com/rbenv/ruby-build.git"@,
        version,
    )
}

/// Plans a from-source build of Ruby `version` with ruby-build. Windows has
/// no build path and fails with `UnsupportedWindowsBuild` before anything is
/// planned.
pub fn build_instructions(env: &HostEnvironment, version: &VersionSpec) -> (r: Result<BuildInstructionsOutput, PluginError>)
    ensures
        match r {
            Ok(out) => env.os != HostOS::Windows && out@ == ruby_build_plan(spec_text(version@)),
            Err(e) => env.os == HostOS::Windows && e@ == ErrorView::UnsupportedWindowsBuild,
        },
{
    if env.os.is_windows() {
        return Err(PluginError::UnsupportedWindowsBuild);
    }
    let deps = vec![
        packages_for(HostPackageManager::Apt, APT_PACKAGES),
        packages_for(HostPackageManager::Brew, BREW_PACKAGES),
        packages_for(HostPackageManager::Dnf, DNF_PACKAGES),
        packages_for(HostPackageManager::Pacman, PACMAN_PACKAGES),
        packages_for(HostPackageManager::Pkg, PKG_PACKAGES),
        packages_for(HostPackageManager::Yum, YUM_PACKAGES),
    ];
    assert(deps@.map_values(|d: SystemDependency| d@) =~= ruby_dependencies());
    let v = version.to_text();
    Ok(
        builder_build(
            "https://github.com/rbenv/ruby-build/wiki",
            deps,
            "ruby-build",
            "bin/ruby-build",
            "https://github.com/rbenv/ruby-build.git",
            v.as_str(),
        ),
    )
}

pub open spec fn ruby_layout(os: HostOS) -> LayoutView {
    LayoutView {
        exes: seq![
            ("ruby"@, primary_exe(exe_name(os, "bin/ruby"@))),
            ("rake"@, secondary_exe(exe_name(os, "bin/rake"@))),
            ("gem"@, secondary_exe(exe_name(os, "bin/gem"@))),
            ("bundle"@, secondary_exe(exe_name(os, "bin/bundle"@))),
        ],
        exes_dir: Some("bin"@),
        globals_lookup_dirs: Seq::empty(),
    }
}

/// The executables of an installed Ruby, all under `bin`.
pub fn locate_executables(os: HostOS) -> (r: LocateExecutablesOutput)
    ensures
        r@ == ruby_layout(os),
        well_formed(r@),
{
    let r = LocateExecutablesOutput {
        exes: vec![
            (String::from_str("ruby"), ExecutableConfig::new_primary(os.get_exe_name("bin/ruby"))),
            (String::from_str("rake"), ExecutableConfig::new(os.get_exe_name("bin/rake"))),
            (String::from_str("gem"), ExecutableConfig::new(os.get_exe_name("bin/gem"))),
            (String::from_str("bundle"), ExecutableConfig::new(os.get_exe_name("bin/bundle"))),
        ],
        exes_dir: Some(String::from_str("bin")),
        globals_lookup_dirs: Vec::new(),
    };
    assert(r@.exes =~= ruby_layout(os).exes);
    assert(r@.globals_lookup_dirs =~= Seq::<Seq<char>>::empty());
    proof {
        reveal_strlit("ruby");
        reveal_strlit("rake");
        reveal_strlit("gem");
        reveal_strlit("bundle");
        let e = r@.exes;
        assert(e[0].0[1] != e[1].0[1]);
        assert(e[0].0.len() != e[2].0.len() && e[0].0.len() != e[3].0.len());
        assert(e[1].0.len() != e[2].0.len() && e[1].0.len() != e[3].0.len());
        assert(e[2].0.len() != e[3].0.len());
        assert(e[0].1.primary);
    }
    r
}

/// The repository whose tags list the releases.
pub const GIT_REPOSITORY: &'static str = "https://github.com/ruby/ruby";

/// The version candidates among the tags fetched from [`GIT_REPOSITORY`], or
/// `SourceUnavailable` when the fetch failed. Ruby tags read `v3_2_0` or `v3_3_0_preview1`; 0.x and 1.x are not supported.
pub fn load_versions(fetched: Option<Vec<String>>) -> (r: Result<Vec<String>, PluginError>)
    ensures
        loaded_view(r) == loaded(TagRule::Underscored, GIT_REPOSITORY@, fetched_texts(fetched)),
        r is Ok ==> texts(r->Ok_0@).no_duplicates(),
{
    load_candidates(TagRule::Underscored, GIT_REPOSITORY, fetched)
}

/// How Ruby describes itself: a language built from source by default,
/// not yet stable, as Windows is not supported.
pub open spec fn ruby_metadata() -> MetadataView {
    MetadataView {
        name: "Ruby"@,
        type_of: PluginType::Language,
        self_upgrade_commands: Seq::empty(),
        builds_by_default: true,
        unstable_message: Some("Windows is currently not supported."@),
        minimum_host_version: minimum_host(),
    }
}

pub fn register_tool() -> (r: ToolMetadata)
    ensures
        r@ == ruby_metadata(),
{
    let commands: Vec<String> = Vec::new();
    assert(texts(commands@) =~= Seq::<Seq<char>>::empty());
    let mut r = metadata("Ruby", PluginType::Language, commands);
    r.builds_by_default = true;
    r.unstable_message = Some(String::from_str("Windows is currently not supported."));
    r
}

/// Ruby versions are pinned in `.ruby-version` files, skipping `vendor` directories.
pub fn detect_version_files() -> (r: DetectVersionOutput)
    ensures
        detect_view(r) == (seq![".ruby-version"@], seq!["vendor"@]),
{
    version_file(".ruby-version", Some("vendor"))
}

} // verus!
