//! Acquisition plans: where a prebuilt artifact is downloaded from, or the
//! ordered steps that build the tool from source.

use vstd::prelude::*;
use crate::host::{HostArch, HostOS};
use crate::text::texts;

verus! {

pub open spec fn opt_text(o: Option<String>) -> Option<Seq<char>> {
    match o {
        Some(s) => Some(s@),
        None => None,
    }
}

/// Where the prebuilt artifact of a tool is found.
#[derive(Debug)]
pub struct DownloadPrebuiltOutput {
    /// Top-level directory inside the archive, if any.
    pub archive_prefix: Option<String>,
    pub checksum_name: Option<String>,
    pub checksum_url: Option<String>,
    pub download_name: Option<String>,
    pub download_url: String,
}

/// The mathematical value of a [`DownloadPrebuiltOutput`].
pub struct DownloadPlan {
    pub archive_prefix: Option<Seq<char>>,
    pub checksum_name: Option<Seq<char>>,
    pub checksum_url: Option<Seq<char>>,
    pub download_name: Option<Seq<char>>,
    pub download_url: Seq<char>,
}

impl View for DownloadPrebuiltOutput {
    type V = DownloadPlan;

    open spec fn view(&self) -> DownloadPlan {
        DownloadPlan {
            archive_prefix: opt_text(self.archive_prefix),
            checksum_name: opt_text(self.checksum_name),
            checksum_url: opt_text(self.checksum_url),
            download_name: opt_text(self.download_name),
            download_url: self.download_url@,
        }
    }
}

/// A package manager a host may install native dependencies with.
#[derive(Clone, Copy, Debug, PartialEq, Eq, Structural)]
pub enum HostPackageManager {
    Apt,
    Brew,
    Dnf,
    Pacman,
    Pkg,
    Yum,
}

/// Native packages needed to compile a tool, for one OS, architecture or
/// package manager.
#[derive(Debug)]
pub struct SystemDependency {
    pub os: Option<HostOS>,
    pub arch: Option<HostArch>,
    pub manager: Option<HostPackageManager>,
    pub packages: Vec<String>,
}

pub struct DependencyView {
    pub os: Option<HostOS>,
    pub arch: Option<HostArch>,
    pub manager: Option<HostPackageManager>,
    pub packages: Seq<Seq<char>>,
}

impl View for SystemDependency {
    type V = DependencyView;

    open spec fn view(&self) -> DependencyView {
        DependencyView {
            os: self.os,
            arch: self.arch,
            manager: self.manager,
            packages: texts(self.packages@),
        }
    }
}

impl SystemDependency {
    /// One package, needed on `os`.
    pub fn for_os(os: HostOS, name: &str) -> (r: SystemDependency)
        ensures
            r@ == (DependencyView { os: Some(os), arch: None, manager: None, packages: seq![name@] }),
    {
        let packages = vec![String::from_str(name)];
        assert(texts(packages@) =~= seq![name@]);
        SystemDependency { os: Some(os), arch: None, manager: None, packages }
    }

    /// One package, needed on `os` with `arch`.
    pub fn for_os_arch(os: HostOS, arch: HostArch, name: &str) -> (r: SystemDependency)
        ensures
            r@ == (DependencyView { os: Some(os), arch: Some(arch), manager: None, packages: seq![name@] }),
    {
        let packages = vec![String::from_str(name)];
        assert(texts(packages@) =~= seq![name@]);
        SystemDependency { os: Some(os), arch: Some(arch), manager: None, packages }
    }

    /// Several packages, installed with `manager`.
    pub fn for_pm(manager: HostPackageManager, packages: Vec<String>) -> (r: SystemDependency)
        ensures
            r@ == (DependencyView { os: None, arch: None, manager: Some(manager), packages: texts(packages@) }),
    {
        SystemDependency { os: None, arch: None, manager: Some(manager), packages }
    }
}

/// A precondition the host must already satisfy before building.
#[derive(Debug)]
pub enum BuildRequirement {
    XcodeCommandLineTools,
    /// Git at a version matching the requirement text.
    GitVersion(String),
    CommandExistsOnPath(String),
    /// A command at a version matching the requirement text.
    CommandVersion(String, String),
    GitConfigSetting(String, String),
    /// Manual steps, documented at the URL.
    ManualIntercept(String),
}

pub enum RequirementView {
    XcodeCommandLineTools,
    GitVersion(Seq<char>),
    CommandExistsOnPath(Seq<char>),
    CommandVersion(Seq<char>, Seq<char>),
    GitConfigSetting(Seq<char>, Seq<char>),
    ManualIntercept(Seq<char>),
}

impl View for BuildRequirement {
    type V = RequirementView;

    open spec fn view(&self) -> RequirementView {
        match self {
            BuildRequirement::XcodeCommandLineTools => RequirementView::XcodeCommandLineTools,
            BuildRequirement::GitVersion(v) => RequirementView::GitVersion(v@),
            BuildRequirement::CommandExistsOnPath(c) => RequirementView::CommandExistsOnPath(c@),
            BuildRequirement::CommandVersion(c, v) => RequirementView::CommandVersion(c@, v@),
            BuildRequirement::GitConfigSetting(k, v) => RequirementView::GitConfigSetting(k@, v@),
            BuildRequirement::ManualIntercept(u) => RequirementView::ManualIntercept(u@),
        }
    }
}

/// A command to run during a build; `builder` marks an executable that an
/// earlier `InstallBuilder` step provided.
#[derive(Debug)]
pub struct CommandInstruction {
    pub exe: String,
    pub args: Vec<String>,
    pub builder: bool,
}

/// One step of a build from source. Steps run in order; the first failure
/// stops the rest.
#[derive(Debug)]
pub enum BuildInstruction {
    /// Fetch the git repository at `git_url` and use its `exe` as builder `id`.
    InstallBuilder { id: String, exe: String, git_url: String },
    MakeExecutable(String),
    MoveFile(String, String),
    RemoveDir(String),
    RemoveFile(String),
    /// Download a script into the build directory.
    RequestScript(String),
    RunCommand(CommandInstruction),
}

pub enum StepView {
    InstallBuilder { id: Seq<char>, exe: Seq<char>, git_url: Seq<char> },
    MakeExecutable(Seq<char>),
    MoveFile(Seq<char>, Seq<char>),
    RemoveDir(Seq<char>),
    RemoveFile(Seq<char>),
    RequestScript(Seq<char>),
    RunCommand { exe: Seq<char>, args: Seq<Seq<char>>, builder: bool },
}

impl View for BuildInstruction {
    type V = StepView;

    open spec fn view(&self) -> StepView {
        match self {
            BuildInstruction::InstallBuilder { id, exe, git_url } => StepView::InstallBuilder {
                id: id@,
                exe: exe@,
                git_url: git_url@,
            },
            BuildInstruction::MakeExecutable(p) => StepView::MakeExecutable(p@),
            BuildInstruction::MoveFile(a, b) => StepView::MoveFile(a@, b@),
            BuildInstruction::RemoveDir(p) => StepView::RemoveDir(p@),
            BuildInstruction::RemoveFile(p) => StepView::RemoveFile(p@),
            BuildInstruction::RequestScript(u) => StepView::RequestScript(u@),
            BuildInstruction::RunCommand(c) => StepView::RunCommand {
                exe: c.exe@,
                args: texts(c.args@),
                builder: c.builder,
            },
        }
    }
}

impl BuildInstruction {
    /// Run `exe` with `args`.
    pub fn run(exe: &str, args: Vec<String>) -> (r: BuildInstruction)
        ensures
            r@ == (StepView::RunCommand { exe: exe@, args: texts(args@), builder: false }),
    {
        BuildInstruction::RunCommand(CommandInstruction { exe: String::from_str(exe), args, builder: false })
    }

    /// Run the installed builder `id` with `args`.
    pub fn run_builder(id: &str, args: Vec<String>) -> (r: BuildInstruction)
        ensures
            r@ == (StepView::RunCommand { exe: id@, args: texts(args@), builder: true }),
    {
        BuildInstruction::RunCommand(CommandInstruction { exe: String::from_str(id), args, builder: true })
    }
}

/// Where the sources of a from-source build come from.
#[derive(Debug)]
pub struct ArchiveSource {
    pub url: String,
    /// Top-level directory inside the archive, if any.
    pub prefix: Option<String>,
}

/// A from-source build plan.
#[derive(Debug)]
pub struct BuildInstructionsOutput {
    pub help_url: Option<String>,
    pub source: Option<ArchiveSource>,
    pub system_dependencies: Vec<SystemDependency>,
    pub requirements: Vec<BuildRequirement>,
    pub instructions: Vec<BuildInstruction>,
}

pub struct BuildPlan {
    pub help_url: Option<Seq<char>>,
    /// The archive URL and prefix, if the plan names a source archive.
    pub source: Option<(Seq<char>, Option<Seq<char>>)>,
    pub system_dependencies: Seq<DependencyView>,
    pub requirements: Seq<RequirementView>,
    pub instructions: Seq<StepView>,
}

impl View for BuildInstructionsOutput {
    type V = BuildPlan;

    open spec fn view(&self) -> BuildPlan {
        BuildPlan {
            help_url: opt_text(self.help_url),
            source: match self.source {
                Some(s) => Some((s.url@, opt_text(s.prefix))),
                None => None,
            },
            system_dependencies: self.system_dependencies@.map_values(|d: SystemDependency| d@),
            requirements: self.requirements@.map_values(|q: BuildRequirement| q@),
            instructions: self.instructions@.map_values(|i: BuildInstruction| i@),
        }
    }
}

/// A plan that installs a builder from git and runs it on the version:
/// `<builder> --verbose <version> .` in the build directory.
pub open spec fn builder_plan(
    help_url: Seq<char>,
    deps: Seq<DependencyView>,
    id: Seq<char>,
    exe: Seq<char>,
    git_url: Seq<char>,
    version: Seq<char>,
) -> BuildPlan {
    BuildPlan {
        help_url: Some(help_url),
        source: None,
        system_dependencies: deps,
        requirements: seq![RequirementView::XcodeCommandLineTools],
        instructions: seq![
            StepView::InstallBuilder { id, exe, git_url },
            StepView::RunCommand { exe: id, args: seq!["--verbose"@, version, "."@], builder: true },
        ],
    }
}

/// Builds the plan that [`builder_plan`] describes.
pub fn builder_build(
    help_url: &str,
    system_dependencies: Vec<SystemDependency>,
    id: &str,
    exe: &str,
    git_url: &str,
    version: &str,
) -> (r: BuildInstructionsOutput)
    ensures
        r@ == builder_plan(
            help_url@,
            system_dependencies@.map_values(|d: SystemDependency| d@),
            id@,
            exe@,
            git_url@,
            version@,
        ),
{
    let args = vec![String::from_str("--verbose"), String::from_str(version), String::from_str(".")];
    assert(texts(args@) =~= seq!["--verbose"@, version@, "."@]);
    let instructions = vec![
        BuildInstruction::InstallBuilder {
            id: String::from_str(id),
            exe: String::from_str(exe),
            git_url: String::from_str(git_url),
        },
        BuildInstruction::run_builder(id, args),
    ];
    let requirements = vec![BuildRequirement::XcodeCommandLineTools];
    let r = BuildInstructionsOutput {
        help_url: Some(String::from_str(help_url)),
        source: None,
        system_dependencies,
        requirements,
        instructions,
    };
    assert(r@.requirements =~= seq![RequirementView::XcodeCommandLineTools]);
    assert(r@.instructions =~= builder_plan(help_url@, Seq::empty(), id@, exe@, git_url@, version@).instructions);
    r
}

/// The packages of a space-separated list, for `manager`.
pub fn packages_for(manager: HostPackageManager, list: &str) -> (r: SystemDependency)
    ensures
        r@ == (DependencyView {
            os: None,
            arch: None,
            manager: Some(manager),
            packages: crate::text::split_at_char(list@, ' '),
        }),
{
    SystemDependency::for_pm(manager, crate::text::split_char(list, ' '))
}

} // verus!
