//! Deno: prebuilt archives from its download server, with `latest` and
//! `canary` resolved through pointer files, or a cargo build from source.

use vstd::prelude::*;
use crate::error::PluginError;
use crate::host::{
    HostArch, HostEnvironment, HostOS, check_supported_os_and_arch, desktop_matrix,
    desktop_supports, exe_name, unsupported,
};
use crate::plan::{
    ArchiveSource, BuildInstruction, BuildInstructionsOutput, BuildPlan, BuildRequirement,
    DependencyView, DownloadPrebuiltOutput, RequirementView, StepView, SystemDependency,
};
use crate::template::{compose_url, composed};
use crate::text::{texts, trim, trimmed};
use crate::version::{VersionSpec, is_canary, is_latest, spec_text};
use crate::locate::{ExecutableConfig, LayoutView, LocateExecutablesOutput, primary_exe};
use crate::tags::{TagRule, load_candidates, loaded, loaded_view, fetched_texts};
use crate::metadata::{
    DetectVersionOutput, PluginType, ToolMetadata, detect_view, metadata, metadata_of,
    upgrade_with, version_file,
};

verus! {

pub open spec fn deno_name() -> Seq<char> {
    "Deno"@
}

/// The native packages a Deno build needs.
pub open spec fn deno_dependencies() -> Seq<DependencyView> {
    seq![
        DependencyView { os: Some(HostOS::Linux), arch: None, manager: None, packages: seq!["cmake"@] },
        DependencyView { os: Some(HostOS::Linux), arch: None, manager: None, packages: seq!["libglib2.0-dev"@] },
        DependencyView { os: Some(HostOS::Linux), arch: None, manager: None, packages: seq!["protobuf-compiler"@] },
        DependencyView { os: Some(HostOS::MacOS), arch: None, manager: None, packages: seq!["cmake"@] },
        DependencyView { os: Some(HostOS::MacOS), arch: Some(HostArch::Arm64), manager: None, packages: seq!["llvm"@] },
        DependencyView { os: Some(HostOS::MacOS), arch: Some(HostArch::Arm64), manager: None, packages: seq!["lld"@] },
        DependencyView { os: Some(HostOS::MacOS), arch: None, manager: None, packages: seq!["protobuf"@] },
    ]
}

/// The preconditions of a Deno build: the common ones, then on Windows
/// symlink support in git and the manual setup guide.
pub open spec fn deno_requirements(os: HostOS) -> Seq<RequirementView> {
    let common = seq![
        RequirementView::XcodeCommandLineTools,
        RequirementView::GitVersion(">=2.19.2"@),
        RequirementView::CommandExistsOnPath("cargo"@),
        RequirementView::CommandVersion("python"@, ">=3"@),
    ];
    if os == HostOS::Windows {
        common + seq![
            RequirementView::GitConfigSetting("core.symlinks"@, "true"@),
            RequirementView::ManualIntercept(
                "https://docs.deno.com/runtime/contributing/building_from_source/#windows"@,
            ),
        ]
    } else {
        common
    }
}

/// The steps of a Deno build: on hosts other than macOS and Windows the LLVM
/// toolchain is installed first; then cargo builds, the binary is moved into
/// place and the target directory is removed.
pub open spec fn deno_steps(os: HostOS) -> Seq<StepView> {
    let toolchain = seq![
        StepView::RequestScript("https://apt.llvm.org/llvm.sh"@),
        StepView::MakeExecutable("llvm.sh"@),
        StepView::RunCommand { exe: "./llvm.sh"@, args: seq!["16"@], builder: false },
        StepView::RemoveFile("./llvm.sh"@),
    ];
    let tail = seq![
        StepView::RunCommand {
            exe: "cargo"@,
            args: seq!["build"@, "-p"@, "deno"@, "--release"@],
            builder: false,
        },
        StepView::MoveFile(exe_name(os, "target/release/deno"@), exe_name(os, "deno"@)),
        StepView::RemoveDir("target"@),
    ];
    if os == HostOS::MacOS || os == HostOS::Windows {
        tail
    } else {
        toolchain + tail
    }
}

/// The whole from-source plan for `version` on `os`.
pub open spec fn deno_build_plan(os: HostOS, version: Seq<char>) -> BuildPlan {
    BuildPlan {
        help_url: Some(
            "https://docs.deno.com/runtime/manual/references/contributing/building_from_source"@,
        ),
        source: Some(
            (
                "https://github.com/denoland/deno/archive/refs/tags/v"@ + version + ".tar.gz"@,
                Some("deno-"@ + version),
            ),
        ),
        system_dependencies: deno_dependencies(),
        requirements: deno_requirements(os),
        instructions: deno_steps(os),
    }
}

/// Plans a from-source build of Deno `version` for the host. Hosts outside
/// Deno's matrix fail with `UnsupportedPlatform` before anything is planned.
pub fn build_instructions(env: &HostEnvironment, version: &VersionSpec) -> (r: Result<BuildInstructionsOutput, PluginError>)
    ensures
        match r {
            Ok(out) => desktop_supports(*env) && out@ == deno_build_plan(env.os, spec_text(version@)),
            Err(e) => !desktop_supports(*env) && e@ == unsupported(deno_name(), *env),
        },
{
    let checked = check_supported_os_and_arch("Deno", env, &desktop_matrix());
    if checked.is_err() {
        return Err(PluginError::UnsupportedPlatform { tool: String::from_str("Deno"), os: env.os, arch: env.arch });
    }
    let os = env.os;
    let v = version.to_text();
    let source = ArchiveSource {
        url: String::from_str("https://github.com/denoland/deno/archive/refs/tags/v").concat(
            v.as_str(),
        ).concat(".tar.gz"),
        prefix: Some(String::from_str("deno-").concat(v.as_str())),
    };
    let system_dependencies = vec![
        SystemDependency::for_os(HostOS::Linux, "cmake"),
        SystemDependency::for_os(HostOS::Linux, "libglib2.0-dev"),
        SystemDependency::for_os(HostOS::Linux, "protobuf-compiler"),
        SystemDependency::for_os(HostOS::MacOS, "cmake"),
        SystemDependency::for_os_arch(HostOS::MacOS, HostArch::Arm64, "llvm"),
        SystemDependency::for_os_arch(HostOS::MacOS, HostArch::Arm64, "lld"),
        SystemDependency::for_os(HostOS::MacOS, "protobuf"),
    ];
    let mut requirements = vec![
        BuildRequirement::XcodeCommandLineTools,
        BuildRequirement::GitVersion(String::from_str(">=2.19.2")),
        BuildRequirement::CommandExistsOnPath(String::from_str("cargo")),
        BuildRequirement::CommandVersion(String::from_str("python"), String::from_str(">=3")),
    ];
    let mut instructions: Vec<BuildInstruction> = Vec::new();
    match os {
        HostOS::MacOS => {},
        HostOS::Windows => {
            requirements.push(
                BuildRequirement::GitConfigSetting(String::from_str("core.symlinks"), String::from_str("true")),
            );
            requirements.push(
                BuildRequirement::ManualIntercept(
                    String::from_str(
                        "https://docs.deno.com/runtime/contributing/building_from_source/#windows",
                    ),
                ),
            );
        },
        _ => {
            instructions.push(BuildInstruction::RequestScript(String::from_str("https://apt.llvm.org/llvm.sh")));
            instructions.push(BuildInstruction::MakeExecutable(String::from_str("llvm.sh")));
            let args = vec![String::from_str("16")];
            assert(texts(args@) =~= seq!["16"@]);
            instructions.push(BuildInstruction::run("./llvm.sh", args));
            instructions.push(BuildInstruction::RemoveFile(String::from_str("./llvm.sh")));
        },
    }
    let cargo_args = vec![
        String::from_str("build"),
        String::from_str("-p"),
        String::from_str("deno"),
        String::from_str("--release"),
    ];
    assert(texts(cargo_args@) =~= seq!["build"@, "-p"@, "deno"@, "--release"@]);
    instructions.push(BuildInstruction::run("cargo", cargo_args));
    instructions.push(BuildInstruction::MoveFile(os.get_exe_name("target/release/deno"), os.get_exe_name("deno")));
    instructions.push(BuildInstruction::RemoveDir(String::from_str("target")));
    let out = BuildInstructionsOutput {
        help_url: Some(
            String::from_str(
                "https://docs.deno.com/runtime/manual/references/contributing/building_from_source",
            ),
        ),
        source: Some(source),
        system_dependencies,
        requirements,
        instructions,
    };
    assert(out@.system_dependencies =~= deno_dependencies());
    assert(out@.requirements =~= deno_requirements(os));
    assert(out@.instructions =~= deno_steps(os));
    Ok(out)
}

/// Plugin settings for Deno.
pub struct DenoPluginConfig {
    /// Template of the release download URL, with `{version}` and `{file}`.
    pub dist_url: String,
}

impl Default for DenoPluginConfig {
    fn default() -> (r: DenoPluginConfig)
        ensures
            r.dist_url@ == "https://dl.deno.land/release/v{version}/{file}"@,
    {
        DenoPluginConfig { dist_url: String::from_str("https://dl.deno.land/release/v{version}/{file}") }
    }
}

/// The platform part of Deno's artifact names.
pub open spec fn deno_target(env: HostEnvironment) -> Seq<char> {
    crate::host::rust_arch(env.arch) + match env.os {
        HostOS::Linux => "-unknown-linux-gnu"@,
        HostOS::MacOS => "-apple-darwin"@,
        _ => "-pc-windows-msvc"@,
    }
}

pub open spec fn deno_file(env: HostEnvironment) -> Seq<char> {
    "deno-"@ + deno_target(env) + ".zip"@
}

/// The pointer file to read before downloading: the newest canary hash for
/// the host's platform, or the newest release tag; none for a concrete version.
pub open spec fn deno_pointer(env: HostEnvironment, version: crate::version::SpecView) -> Option<Seq<char>> {
    if is_canary(version) {
        Some("https://dl.deno.land/canary-"@ + deno_target(env) + "-latest.txt"@)
    } else if is_latest(version) {
        Some("https://dl.deno.land/release-latest.txt"@)
    } else {
        None
    }
}

/// An artifact URL on Deno's download server.
pub open spec fn channel_url(channel: Seq<char>, id: Seq<char>, file: Seq<char>) -> Seq<char> {
    "https://dl.deno.land/"@ + channel + "/"@ + id + "/"@ + file
}

fn target(env: &HostEnvironment) -> (r: String)
    requires
        desktop_supports(*env),
    ensures
        r@ == deno_target(*env),
{
    let arch = env.arch.to_rust_arch();
    match env.os {
        HostOS::Linux => arch.concat("-unknown-linux-gnu"),
        HostOS::MacOS => arch.concat("-apple-darwin"),
        _ => arch.concat("-pc-windows-msvc"),
    }
}

/// Which pointer file, if any, must be fetched before
/// [`download_prebuilt`] can name the artifact. Hosts outside Deno's matrix
/// fail with `UnsupportedPlatform`.
pub fn pointer_url(env: &HostEnvironment, version: &VersionSpec) -> (r: Result<Option<String>, PluginError>)
    ensures
        match r {
            Ok(p) => desktop_supports(*env) && crate::plan::opt_text(p) == deno_pointer(*env, version@),
            Err(e) => !desktop_supports(*env) && e@ == unsupported(deno_name(), *env),
        },
{
    let checked = check_supported_os_and_arch("Deno", env, &desktop_matrix());
    if checked.is_err() {
        return Err(PluginError::UnsupportedPlatform { tool: String::from_str("Deno"), os: env.os, arch: env.arch });
    }
    if version.is_canary() {
        let t = target(env);
        Ok(Some(String::from_str("https://dl.deno.land/canary-").concat(t.as_str()).concat("-latest.txt")))
    } else if version.is_latest() {
        Ok(Some(String::from_str("https://dl.deno.land/release-latest.txt")))
    } else {
        Ok(None)
    }
}

/// The URL of `file` in `channel` (`release` or `canary`) under the tag or
/// hash `id`.
pub fn channel_download_url(channel: &str, id: &str, file: &str) -> (r: String)
    ensures
        r@ == channel_url(channel@, id@, file@),
{
    String::from_str("https://dl.deno.land/").concat(channel).concat("/").concat(id).concat("/").concat(file)
}

/// The download URL of Deno `version`: through the pointer's trimmed text
/// for `canary` and `latest`, else by filling the configured template.
pub open spec fn deno_url(env: HostEnvironment, version: crate::version::SpecView, dist_url: Seq<char>, pointer: Seq<char>) -> Seq<char> {
    if is_canary(version) {
        channel_url("canary"@, trimmed(pointer), deno_file(env))
    } else if is_latest(version) {
        channel_url("release"@, trimmed(pointer), deno_file(env))
    } else {
        composed(dist_url, spec_text(version), deno_file(env))
    }
}

/// Where to download Deno `version` for the host. `pointer` is the text of
/// the file that [`pointer_url`] names; it is not read for a concrete
/// version. Hosts outside Deno's matrix fail with `UnsupportedPlatform`; a
/// needed pointer that is missing fails with `SourceUnavailable`.
pub fn download_prebuilt(env: &HostEnvironment, version: &VersionSpec, config: &DenoPluginConfig, pointer: Option<&str>) -> (r: Result<DownloadPrebuiltOutput, PluginError>)
    ensures
        !desktop_supports(*env) ==> r is Err && r->Err_0@ == unsupported(deno_name(), *env),
        desktop_supports(*env) && deno_pointer(*env, version@) is Some && pointer is None ==> r is Err
            && r->Err_0@ == (crate::error::ErrorView::SourceUnavailable {
                resource: deno_pointer(*env, version@)->Some_0,
            }),
        desktop_supports(*env) && (deno_pointer(*env, version@) is None || pointer is Some) ==> r is Ok
            && r->Ok_0@ == (crate::plan::DownloadPlan {
                archive_prefix: None,
                checksum_name: None,
                checksum_url: None,
                download_name: Some(deno_file(*env)),
                download_url: deno_url(
                    *env,
                    version@,
                    config.dist_url@,
                    match pointer {
                        Some(p) => p@,
                        None => Seq::empty(),
                    },
                ),
            }),
{
    let pointer_file = pointer_url(env, version);
    let pointer_file = match pointer_file {
        Err(e) => return Err(e),
        Ok(p) => p,
    };
    let t = target(env);
    let filename = String::from_str("deno-").concat(t.as_str()).concat(".zip");
    let download_url = match pointer_file {
        Some(resource) => {
            match pointer {
                None => return Err(PluginError::SourceUnavailable { resource }),
                Some(text) => {
                    let id = trim(text);
                    if version.is_canary() {
                        channel_download_url("canary", id.as_str(), filename.as_str())
                    } else {
                        channel_download_url("release", id.as_str(), filename.as_str())
                    }
                },
            }
        },
        None => {
            let v = version.to_text();
            compose_url(config.dist_url.as_str(), v.as_str(), filename.as_str())
        },
    };
    Ok(
        DownloadPrebuiltOutput {
            archive_prefix: None,
            checksum_name: None,
            checksum_url: None,
            download_name: Some(filename),
            download_url,
        },
    )
}

pub open spec fn deno_layout(os: HostOS) -> LayoutView {
    LayoutView {
        exes: seq![("deno"@, primary_exe(exe_name(os, "deno"@)))],
        exes_dir: None,
        globals_lookup_dirs: seq!["$DENO_INSTALL_ROOT/bin"@, "$DENO_HOME/bin"@, "$HOME/.deno/bin"@],
    }
}

/// The executables of an installed Deno, and where `deno install` puts
/// global packages.
pub fn locate_executables(os: HostOS) -> (r: LocateExecutablesOutput)
    ensures
        r@ == deno_layout(os),
        crate::locate::well_formed(r@),
{
    let r = LocateExecutablesOutput {
        exes: vec![(String::from_str("deno"), ExecutableConfig::new_primary(os.get_exe_name("deno")))],
        exes_dir: None,
        globals_lookup_dirs: vec![
            String::from_str("$DENO_INSTALL_ROOT/bin"),
            String::from_str("$DENO_HOME/bin"),
            String::from_str("$HOME/.deno/bin"),
        ],
    };
    assert(r@.exes =~= deno_layout(os).exes);
    assert(r@.globals_lookup_dirs =~= deno_layout(os).globals_lookup_dirs);
    proof {
        assert(r@.exes[0].1.primary);
    }
    r
}

/// The repository whose tags list the releases.
pub const GIT_REPOSITORY: &'static str = "https://github.com/denoland/deno";

/// The version candidates among the tags fetched from [`GIT_REPOSITORY`], or
/// `SourceUnavailable` when the fetch failed. Deno tags its releases `v<version>`; other tags are no releases.
pub fn load_versions(fetched: Option<Vec<String>>) -> (r: Result<Vec<String>, PluginError>)
    ensures
        loaded_view(r) == loaded(TagRule::StripV, GIT_REPOSITORY@, fetched_texts(fetched)),
        r is Ok ==> texts(r->Ok_0@).no_duplicates(),
{
    load_candidates(TagRule::StripV, GIT_REPOSITORY, fetched)
}

/// How Deno describes itself to the host. It upgrades itself with `upgrade`.
pub fn register_tool() -> (r: ToolMetadata)
    ensures
        r@ == metadata_of("Deno"@, PluginType::Language, seq!["upgrade"@]),
{
    let commands: Vec<String> = upgrade_with("upgrade");
    assert(texts(commands@) =~= seq!["upgrade"@]);
    metadata("Deno", PluginType::Language, commands)
}

/// Deno versions are pinned in `.dvmrc` files.
pub fn detect_version_files() -> (r: DetectVersionOutput)
    ensures
        detect_view(r) == (seq![".dvmrc"@], Seq::<Seq<char>>::empty()),
{
    version_file(".dvmrc", None)
}

} // verus!
