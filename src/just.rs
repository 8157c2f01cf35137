//! Just: prebuilt archives from its GitHub releases, with a checksum file
//! whose naming changed at version 1.37.0.

use vstd::prelude::*;
use crate::text::texts;
use crate::error::{ErrorView, PluginError};
use crate::host::{HostArch, HostEnvironment, HostOS, SupportMatrix, check_supported_os_and_arch, supports, unsupported};
use crate::plan::{DownloadPlan, DownloadPrebuiltOutput};
use crate::template::{brace_free, compose_url, composed, lemma_composed_shape, template_of};
use crate::version::{SpecView, VersionSpec, at_or_above, is_canary, spec_text};
use crate::locate::{ExecutableConfig, LayoutView, LocateExecutablesOutput, primary_exe};
use crate::tags::{TagRule, load_candidates, loaded, loaded_view, fetched_texts};
use crate::metadata::{PluginType, ToolMetadata, metadata, metadata_of};

verus! {

/// Plugin settings for Just.
#[derive(Debug)]
pub struct JustPluginConfig {
    /// Template of the release download URL, with `{version}` and `{file}`.
    pub dist_url: String,
}

impl Default for JustPluginConfig {
    fn default() -> (r: JustPluginConfig)
        ensures
            r.dist_url@ == "https://github.com/casey/just/releases/download/{version}/{file}"@,
    {
        JustPluginConfig {
            dist_url: String::from_str("https://github.com/casey/just/releases/download/{version}/{file}"),
        }
    }
}

pub open spec fn just_name() -> Seq<char> {
    "Just"@
}

/// Just ships for x64, arm64 and arm on Linux, x64 and arm64 on macOS, and
/// x64, x86 and arm64 on Windows.
pub open spec fn just_supports(env: HostEnvironment) -> bool {
    match env.os {
        HostOS::Linux => env.arch == HostArch::X64 || env.arch == HostArch::Arm64 || env.arch
            == HostArch::Arm,
        HostOS::MacOS => env.arch == HostArch::X64 || env.arch == HostArch::Arm64,
        HostOS::Windows => env.arch == HostArch::X64 || env.arch == HostArch::X86 || env.arch
            == HostArch::Arm64,
        _ => false,
    }
}

/// Just's support matrix.
pub fn just_matrix() -> (r: SupportMatrix)
    ensures
        forall|env: HostEnvironment| #[trigger] supports(r, env) == just_supports(env),
{
    let linux = vec![HostArch::X64, HostArch::Arm64, HostArch::Arm];
    let macos = vec![HostArch::X64, HostArch::Arm64];
    let windows = vec![HostArch::X64, HostArch::X86, HostArch::Arm64];
    let ghost (l, m, w) = (linux@, macos@, windows@);
    let r = SupportMatrix::unix_and_windows(linux, macos, windows);
    assert forall|env: HostEnvironment| #[trigger] supports(r, env) == just_supports(env) by {
        assert(l[0] == HostArch::X64 && l[1] == HostArch::Arm64 && l[2] == HostArch::Arm);
        assert(m[0] == HostArch::X64 && m[1] == HostArch::Arm64);
        assert(w[0] == HostArch::X64 && w[1] == HostArch::X86 && w[2] == HostArch::Arm64);
        assert(l.contains(env.arch) <==> (env.arch == HostArch::X64 || env.arch == HostArch::Arm64
            || env.arch == HostArch::Arm));
        assert(m.contains(env.arch) <==> (env.arch == HostArch::X64 || env.arch == HostArch::Arm64));
        assert(w.contains(env.arch) <==> (env.arch == HostArch::X64 || env.arch == HostArch::X86
            || env.arch == HostArch::Arm64));
    }
    r
}

/// The architecture as Just's artifacts name it; 32-bit Windows runs the
/// x86_64 build.
pub open spec fn just_arch(arch: HostArch) -> Seq<char> {
    match arch {
        HostArch::Arm => "arm"@,
        HostArch::Arm64 => "aarch64"@,
        _ => "x86_64"@,
    }
}

/// The artifact's base name, which is also the archive's top directory.
pub open spec fn just_prefix(env: HostEnvironment, version: Seq<char>) -> Seq<char> {
    "just-"@ + version + "-"@ + just_arch(env.arch) + match env.os {
        HostOS::Linux => "-unknown-linux-musl"@,
        HostOS::MacOS => "-apple-darwin"@,
        _ => "-pc-windows-msvc"@,
    }
}

pub open spec fn just_file(env: HostEnvironment, version: Seq<char>) -> Seq<char> {
    just_prefix(env, version) + if env.os == HostOS::Windows { ".zip"@ } else { ".tar.gz"@ }
}

/// Whether `version` uses the consolidated checksum file: releases from
/// 1.37.0 on do, and so do aliases, which name the newest releases.
pub open spec fn uses_checksum_list(version: SpecView) -> bool {
    match version {
        SpecView::Semantic(v) => at_or_above(v, (1, 37, 0)),
        _ => true,
    }
}

/// The name of the checksum artifact for `file` at `version`: the
/// consolidated `SHA256SUMS` at or above the threshold, `<file>.sha256sum` below it.
pub open spec fn checksum_file_of(version: SpecView, file: Seq<char>) -> Seq<char> {
    if uses_checksum_list(version) {
        "SHA256SUMS"@
    } else {
        file + ".sha256sum"@
    }
}

/// The name of the checksum artifact for `file` at `version`.
pub fn checksum_file(version: &VersionSpec, file: &str) -> (r: String)
    ensures
        r@ == checksum_file_of(version@, file@),
{
    let consolidated = match version {
        VersionSpec::Semantic(v) => v.at_or_above(1, 37, 0),
        _ => true,
    };
    if consolidated {
        String::from_str("SHA256SUMS")
    } else {
        String::from_str(file).concat(".sha256sum")
    }
}

fn artifact_arch(arch: HostArch) -> (r: &'static str)
    ensures
        r@ == just_arch(arch),
{
    match arch {
        HostArch::Arm => "arm",
        HostArch::Arm64 => "aarch64",
        _ => "x86_64",
    }
}

/// The download plan Just gives for a supported host and a version that is
/// not canary.
pub open spec fn just_plan(env: HostEnvironment, version: SpecView, dist_url: Seq<char>) -> DownloadPlan {
    let text = spec_text(version);
    let file = just_file(env, text);
    DownloadPlan {
        archive_prefix: Some(just_prefix(env, text)),
        checksum_name: None,
        checksum_url: Some(composed(dist_url, text, checksum_file_of(version, file))),
        download_name: Some(file),
        download_url: composed(dist_url, text, file),
    }
}

/// With a template of the form `P{version}M{file}S`, Just's download URL is
/// `P + version + M + file + S` and its checksum URL the same with the
/// checksum file; the template's texts and the version hold no `{`.
pub proof fn lemma_just_urls(env: HostEnvironment, version: SpecView, p: Seq<char>, m: Seq<char>, s: Seq<char>)
    requires
        brace_free(p),
        brace_free(m),
        brace_free(s),
        brace_free(spec_text(version)),
    ensures
        just_plan(env, version, template_of(p, m, s)).download_url == p + spec_text(version) + m
            + just_file(env, spec_text(version)) + s,
        just_plan(env, version, template_of(p, m, s)).checksum_url == Some(
            p + spec_text(version) + m + checksum_file_of(version, just_file(env, spec_text(version)))
                + s,
        ),
{
    let text = spec_text(version);
    let file = just_file(env, text);
    lemma_composed_shape(p, m, s, text, file);
    lemma_composed_shape(p, m, s, text, checksum_file_of(version, file));
}

/// Where to download Just `version` for the host. Hosts outside Just's
/// matrix fail with `UnsupportedPlatform`; on the others, canary fails with
/// `UnsupportedCanary`.
pub fn download_prebuilt(env: &HostEnvironment, version: &VersionSpec, config: &JustPluginConfig) -> (r: Result<DownloadPrebuiltOutput, PluginError>)
    ensures
        !just_supports(*env) ==> r is Err && r->Err_0@ == unsupported(just_name(), *env),
        just_supports(*env) && is_canary(version@) ==> r is Err && r->Err_0@
            == (ErrorView::UnsupportedCanary { tool: just_name() }),
        just_supports(*env) && !is_canary(version@) ==> r is Ok && r->Ok_0@ == just_plan(
            *env,
            version@,
            config.dist_url@,
        ),
{
    let checked = check_supported_os_and_arch("Just", env, &just_matrix());
    if checked.is_err() {
        return Err(PluginError::UnsupportedPlatform { tool: String::from_str("Just"), os: env.os, arch: env.arch });
    }
    let arch = artifact_arch(env.arch);
    if version.is_canary() {
        return Err(PluginError::UnsupportedCanary { tool: String::from_str("Just") });
    }
    let v = version.to_text();
    let base = String::from_str("just-").concat(v.as_str()).concat("-").concat(arch);
    let prefix = match env.os {
        HostOS::Linux => base.concat("-unknown-linux-musl"),
        HostOS::MacOS => base.concat("-apple-darwin"),
        _ => base.concat("-pc-windows-msvc"),
    };
    let filename = if env.os.is_windows() {
        String::from_str(prefix.as_str()).concat(".zip")
    } else {
        String::from_str(prefix.as_str()).concat(".tar.gz")
    };
    let checksum = checksum_file(version, filename.as_str());
    let download_url = compose_url(config.dist_url.as_str(), v.as_str(), filename.as_str());
    let checksum_url = compose_url(config.dist_url.as_str(), v.as_str(), checksum.as_str());
    Ok(
        DownloadPrebuiltOutput {
            archive_prefix: Some(prefix),
            checksum_name: None,
            checksum_url: Some(checksum_url),
            download_name: Some(filename),
            download_url,
        },
    )
}

pub open spec fn just_layout(os: HostOS) -> LayoutView {
    LayoutView {
        exes: seq![("just"@, primary_exe(if os == HostOS::Windows { "just.exe"@ } else { "just"@ }))],
        exes_dir: Some("."@),
        globals_lookup_dirs: Seq::empty(),
    }
}

/// The executable of an installed Just, at the root of the archive.
pub fn locate_executables(os: HostOS) -> (r: LocateExecutablesOutput)
    ensures
        r@ == just_layout(os),
        crate::locate::well_formed(r@),
{
    let exe = if os.is_windows() {
        String::from_str("just.exe")
    } else {
        String::from_str("just")
    };
    let r = LocateExecutablesOutput {
        exes: vec![(String::from_str("just"), ExecutableConfig::new_primary(exe))],
        exes_dir: Some(String::from_str(".")),
        globals_lookup_dirs: Vec::new(),
    };
    assert(r@.exes =~= just_layout(os).exes);
    assert(r@.globals_lookup_dirs =~= Seq::<Seq<char>>::empty());
    proof {
        assert(r@.exes[0].1.primary);
    }
    r
}

/// The repository whose tags list the releases.
pub const GIT_REPOSITORY: &'static str = "https://github.com/casey/just";

/// The version candidates among the tags fetched from [`GIT_REPOSITORY`], or
/// `SourceUnavailable` when the fetch failed. Just tags its releases with the bare version; `v` tags are older, unsupported releases.
pub fn load_versions(fetched: Option<Vec<String>>) -> (r: Result<Vec<String>, PluginError>)
    ensures
        loaded_view(r) == loaded(TagRule::DropV, GIT_REPOSITORY@, fetched_texts(fetched)),
        r is Ok ==> texts(r->Ok_0@).no_duplicates(),
{
    load_candidates(TagRule::DropV, GIT_REPOSITORY, fetched)
}

/// How Just describes itself to the host.
pub fn register_tool() -> (r: ToolMetadata)
    ensures
        r@ == metadata_of("Just"@, PluginType::CommandLine, Seq::empty()),
{
    let commands: Vec<String> = Vec::new();
    assert(texts(commands@) =~= Seq::empty());
    metadata("Just", PluginType::CommandLine, commands)
}

} // verus!
