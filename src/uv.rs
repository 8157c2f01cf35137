//! uv: prebuilt archives from its GitHub releases, each with a `.sha256`
//! checksum beside it; no canary channel.

use vstd::prelude::*;
use crate::text::texts;
use crate::error::{ErrorView, PluginError};
use crate::host::{HostEnvironment, HostOS, check_supported_os_and_arch, desktop_matrix, desktop_supports, get_target_triple, triple_of, unsupported};
use crate::plan::{DownloadPlan, DownloadPrebuiltOutput};
use crate::version::{SpecView, VersionSpec, is_canary, spec_text};
use crate::host::exe_name;
use crate::locate::{ExecutableConfig, LayoutView, LocateExecutablesOutput, primary_exe, secondary_exe};
use crate::tags::{TagRule, load_candidates, loaded, loaded_view, fetched_texts};
use crate::metadata::{PluginType, ToolMetadata, metadata, metadata_of, upgrade_with};

verus! {

pub open spec fn uv_name() -> Seq<char> {
    "uv"@
}

/// The artifact's base name, which is also the archive's top directory.
pub open spec fn uv_target_name(env: HostEnvironment) -> Seq<char> {
    "uv-"@ + triple_of(env)->Some_0
}

pub open spec fn uv_file(env: HostEnvironment) -> Seq<char> {
    uv_target_name(env) + if env.os == HostOS::Windows { ".zip"@ } else { ".tar.gz"@ }
}

pub open spec fn uv_plan(env: HostEnvironment, version: SpecView) -> DownloadPlan {
    let base = "https://github.com/astral-sh/uv/releases/download/"@ + spec_text(version) + "/"@;
    DownloadPlan {
        archive_prefix: Some(uv_target_name(env)),
        checksum_name: Some(uv_file(env) + ".sha256"@),
        checksum_url: Some(base + (uv_file(env) + ".sha256"@)),
        download_name: Some(uv_file(env)),
        download_url: base + uv_file(env),
    }
}

/// Where to download uv `version` for the host. Hosts outside the common
/// matrix fail with `UnsupportedPlatform`; on the others, canary fails with
/// `UnsupportedCanary`.
pub fn download_prebuilt(env: &HostEnvironment, version: &VersionSpec) -> (r: Result<DownloadPrebuiltOutput, PluginError>)
    ensures
        !desktop_supports(*env) ==> r is Err && r->Err_0@ == unsupported(uv_name(), *env),
        desktop_supports(*env) && is_canary(version@) ==> r is Err && r->Err_0@
            == (ErrorView::UnsupportedCanary { tool: uv_name() }),
        desktop_supports(*env) && !is_canary(version@) ==> r is Ok && r->Ok_0@ == uv_plan(*env, version@),
{
    let checked = check_supported_os_and_arch("uv", env, &desktop_matrix());
    if checked.is_err() {
        return Err(PluginError::UnsupportedPlatform { tool: String::from_str("uv"), os: env.os, arch: env.arch });
    }
    if version.is_canary() {
        return Err(PluginError::UnsupportedCanary { tool: String::from_str("uv") });
    }
    let triple = match get_target_triple(env, "uv") {
        Ok(t) => t,
        Err(e) => return Err(e),
    };
    let target_name = String::from_str("uv-").concat(triple.as_str());
    let download_file = if env.os.is_windows() {
        String::from_str(target_name.as_str()).concat(".zip")
    } else {
        String::from_str(target_name.as_str()).concat(".tar.gz")
    };
    let checksum_file = String::from_str(download_file.as_str()).concat(".sha256");
    let base_url = String::from_str("https://github.com/astral-sh/uv/releases/download/").concat(
        version.to_text().as_str(),
    ).concat("/");
    Ok(
        DownloadPrebuiltOutput {
            archive_prefix: Some(target_name),
            checksum_url: Some(String::from_str(base_url.as_str()).concat(checksum_file.as_str())),
            checksum_name: Some(checksum_file),
            download_url: base_url.concat(download_file.as_str()),
            download_name: Some(download_file),
        },
    )
}

pub open spec fn uv_layout(os: HostOS) -> LayoutView {
    LayoutView {
        exes: seq![
            ("uv"@, primary_exe(exe_name(os, "uv"@))),
            ("uvx"@, secondary_exe(exe_name(os, "uvx"@))),
        ],
        exes_dir: None,
        globals_lookup_dirs: seq![
            "$UV_TOOL_BIN_DIR"@,
            "$XDG_BIN_HOME"@,
            "$XDG_DATA_HOME/../bin"@,
            "$HOME/.local/bin"@,
        ],
    }
}

/// The executables of an installed uv, and where `uv tool` puts the
/// executables of global packages.
pub fn locate_executables(os: HostOS) -> (r: LocateExecutablesOutput)
    ensures
        r@ == uv_layout(os),
        crate::locate::well_formed(r@),
{
    let r = LocateExecutablesOutput {
        exes: vec![
            (String::from_str("uv"), ExecutableConfig::new_primary(os.get_exe_name("uv"))),
            (String::from_str("uvx"), ExecutableConfig::new(os.get_exe_name("uvx"))),
        ],
        exes_dir: None,
        globals_lookup_dirs: vec![
            String::from_str("$UV_TOOL_BIN_DIR"),
            String::from_str("$XDG_BIN_HOME"),
            String::from_str("$XDG_DATA_HOME/../bin"),
            String::from_str("$HOME/.local/bin"),
        ],
    };
    assert(r@.exes =~= uv_layout(os).exes);
    assert(r@.globals_lookup_dirs =~= uv_layout(os).globals_lookup_dirs);
    proof {
        reveal_strlit("uv");
        reveal_strlit("uvx");
        assert(r@.exes[0].0.len() != r@.exes[1].0.len());
        assert(r@.exes[0].1.primary);
    }
    r
}

/// The repository whose tags list the releases.
pub const GIT_REPOSITORY: &'static str = "https://github.com/astral-sh/uv";

/// The version candidates among the tags fetched from [`GIT_REPOSITORY`], or
/// `SourceUnavailable` when the fetch failed. uv tags its releases with the bare version.
pub fn load_versions(fetched: Option<Vec<String>>) -> (r: Result<Vec<String>, PluginError>)
    ensures
        loaded_view(r) == loaded(TagRule::Keep, GIT_REPOSITORY@, fetched_texts(fetched)),
        r is Ok ==> texts(r->Ok_0@).no_duplicates(),
{
    load_candidates(TagRule::Keep, GIT_REPOSITORY, fetched)
}

/// How uv describes itself to the host. It upgrades itself with `self`.
pub fn register_tool() -> (r: ToolMetadata)
    ensures
        r@ == metadata_of("uv"@, PluginType::CommandLine, seq!["self"@]),
{
    let commands: Vec<String> = upgrade_with("self");
    assert(texts(commands@) =~= seq!["self"@]);
    metadata("uv", PluginType::CommandLine, commands)
}

} // verus!
