//! moon: bare executables (not archives) from its GitHub releases, including
//! a `canary` release tag.

use vstd::prelude::*;
use crate::text::texts;
use crate::error::PluginError;
use crate::host::{HostEnvironment, HostOS, check_supported_os_and_arch, desktop_matrix, desktop_supports, exe_name, get_target_triple, triple_of, unsupported};
use crate::plan::{DownloadPlan, DownloadPrebuiltOutput};
use crate::version::{SpecView, VersionSpec, is_canary, spec_text};
use crate::locate::{ExecutableConfig, LayoutView, LocateExecutablesOutput, primary_exe};
use crate::tags::{TagRule, load_candidates, loaded, loaded_view, fetched_texts};
use crate::metadata::{PluginType, ToolMetadata, metadata, metadata_of, upgrade_with};

verus! {

pub open spec fn moon_name() -> Seq<char> {
    "moon"@
}

/// The release tag: `canary`, or the version behind a `v`.
pub open spec fn moon_tag(version: SpecView) -> Seq<char> {
    if is_canary(version) {
        "canary"@
    } else {
        "v"@ + spec_text(version)
    }
}

/// The executable's name in the release: `moon-<triple>`, with `.exe` on Windows.
pub open spec fn moon_file(env: HostEnvironment) -> Seq<char> {
    let name = "moon-"@ + triple_of(env)->Some_0;
    if env.os == HostOS::Windows { name + ".exe"@ } else { name }
}

pub open spec fn moon_plan(env: HostEnvironment, version: SpecView) -> DownloadPlan {
    DownloadPlan {
        archive_prefix: None,
        checksum_name: None,
        checksum_url: None,
        download_name: Some(moon_file(env)),
        download_url: "https://github.com/moonrepo/moon/releases/download/"@ + moon_tag(version)
            + "/"@ + moon_file(env),
    }
}

/// Where to download moon `version` for the host. Hosts outside the common
/// matrix fail with `UnsupportedPlatform`.
pub fn download_prebuilt(env: &HostEnvironment, version: &VersionSpec) -> (r: Result<DownloadPrebuiltOutput, PluginError>)
    ensures
        match r {
            Ok(out) => desktop_supports(*env) && out@ == moon_plan(*env, version@),
            Err(e) => !desktop_supports(*env) && e@ == unsupported(moon_name(), *env),
        },
{
    let checked = check_supported_os_and_arch("moon", env, &desktop_matrix());
    if checked.is_err() {
        return Err(PluginError::UnsupportedPlatform { tool: String::from_str("moon"), os: env.os, arch: env.arch });
    }
    let tag = if version.is_canary() {
        String::from_str("canary")
    } else {
        String::from_str("v").concat(version.to_text().as_str())
    };
    let triple = match get_target_triple(env, "moon") {
        Ok(t) => t,
        Err(e) => return Err(e),
    };
    let target_name = String::from_str("moon-").concat(triple.as_str());
    let download_file = if env.os.is_windows() {
        target_name.concat(".exe")
    } else {
        target_name
    };
    let download_url = String::from_str("https://github.com/moonrepo/moon/releases/download/").concat(
        tag.as_str(),
    ).concat("/").concat(download_file.as_str());
    Ok(
        DownloadPrebuiltOutput {
            archive_prefix: None,
            checksum_name: None,
            checksum_url: None,
            download_name: Some(download_file),
            download_url,
        },
    )
}

pub open spec fn moon_layout(os: HostOS, plugin_id: Seq<char>) -> LayoutView {
    LayoutView {
        exes: seq![("moon"@, primary_exe(exe_name(os, plugin_id)))],
        exes_dir: None,
        globals_lookup_dirs: Seq::empty(),
    }
}

/// The executable of an installed moon. Releases are bare binaries, so the
/// downloaded file is stored under the plugin's id rather than `moon`.
pub fn locate_executables(os: HostOS, plugin_id: &str) -> (r: LocateExecutablesOutput)
    ensures
        r@ == moon_layout(os, plugin_id@),
        crate::locate::well_formed(r@),
{
    let r = LocateExecutablesOutput {
        exes: vec![(String::from_str("moon"), ExecutableConfig::new_primary(os.get_exe_name(plugin_id)))],
        exes_dir: None,
        globals_lookup_dirs: Vec::new(),
    };
    assert(r@.exes =~= moon_layout(os, plugin_id@).exes);
    assert(r@.globals_lookup_dirs =~= Seq::<Seq<char>>::empty());
    proof {
        assert(r@.exes[0].1.primary);
    }
    r
}

/// The repository whose tags list the releases.
pub const GIT_REPOSITORY: &'static str = "https://github.com/moonrepo/moon";

/// The version candidates among the tags fetched from [`GIT_REPOSITORY`], or
/// `SourceUnavailable` when the fetch failed. moon tags its releases `v<version>`; other tags are no releases.
pub fn load_versions(fetched: Option<Vec<String>>) -> (r: Result<Vec<String>, PluginError>)
    ensures
        loaded_view(r) == loaded(TagRule::StripV, GIT_REPOSITORY@, fetched_texts(fetched)),
        r is Ok ==> texts(r->Ok_0@).no_duplicates(),
{
    load_candidates(TagRule::StripV, GIT_REPOSITORY, fetched)
}

/// How moon describes itself to the host. It upgrades itself with `upgrade`.
pub fn register_tool() -> (r: ToolMetadata)
    ensures
        r@ == metadata_of("moon"@, PluginType::CommandLine, seq!["upgrade"@]),
{
    let commands: Vec<String> = upgrade_with("upgrade");
    assert(texts(commands@) =~= seq!["upgrade"@]);
    metadata("moon", PluginType::CommandLine, commands)
}

} // verus!
