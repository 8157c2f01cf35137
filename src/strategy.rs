//! Choosing between a prebuilt download and a build from source.

use vstd::prelude::*;
use crate::error::{ErrorView, PluginError};
use crate::host::{HostEnvironment, HostOS};
use crate::version::{VersionSpec, is_canary};

verus! {

/// The tools this library resolves.
#[derive(Clone, Copy, Debug, PartialEq, Eq, Structural)]
pub enum Tool {
    Deno,
    Just,
    Moon,
    Uv,
    Python,
    Ruby,
}

/// What a tool offers for its acquisition.
#[derive(Clone, Copy, Debug, PartialEq, Eq, Structural)]
pub struct ToolProfile {
    /// Installing builds from source unless a prebuilt is asked for.
    pub builds_by_default: bool,
    /// Prebuilt canary builds are published.
    pub has_canary_channel: bool,
    pub prebuilt: bool,
    pub prebuilt_on_windows: bool,
    pub buildable: bool,
    pub buildable_on_windows: bool,
}

/// What the caller asked for.
#[derive(Clone, Copy, Debug, PartialEq, Eq, Structural)]
pub enum InstallRequest {
    /// The tool's default.
    Default,
    Prebuilt,
    /// A build from source.
    Build,
}

#[derive(Debug)]
pub enum Strategy {
    Prebuilt,
    FromSource,
    Rejected(PluginError),
}

pub enum StrategyView {
    Prebuilt,
    FromSource,
    Rejected(ErrorView),
}

impl View for Strategy {
    type V = StrategyView;

    open spec fn view(&self) -> StrategyView {
        match self {
            Strategy::Prebuilt => StrategyView::Prebuilt,
            Strategy::FromSource => StrategyView::FromSource,
            Strategy::Rejected(e) => StrategyView::Rejected(e@),
        }
    }
}

pub open spec fn tool_name(tool: Tool) -> Seq<char> {
    match tool {
        Tool::Deno => "Deno"@,
        Tool::Just => "Just"@,
        Tool::Moon => "moon"@,
        Tool::Uv => "uv"@,
        Tool::Python => "Python"@,
        Tool::Ruby => "Ruby"@,
    }
}

pub open spec fn profile_of(tool: Tool) -> ToolProfile {
    match tool {
        Tool::Deno => ToolProfile {
            builds_by_default: false,
            has_canary_channel: true,
            prebuilt: true,
            prebuilt_on_windows: true,
            buildable: true,
            buildable_on_windows: true,
        },
        Tool::Just | Tool::Uv => ToolProfile {
            builds_by_default: false,
            has_canary_channel: false,
            prebuilt: true,
            prebuilt_on_windows: true,
            buildable: false,
            buildable_on_windows: false,
        },
        Tool::Moon => ToolProfile {
            builds_by_default: false,
            has_canary_channel: true,
            prebuilt: true,
            prebuilt_on_windows: true,
            buildable: false,
            buildable_on_windows: false,
        },
        Tool::Python => ToolProfile {
            builds_by_default: false,
            has_canary_channel: false,
            prebuilt: true,
            prebuilt_on_windows: true,
            buildable: true,
            buildable_on_windows: false,
        },
        Tool::Ruby => ToolProfile {
            builds_by_default: true,
            has_canary_channel: false,
            prebuilt: false,
            prebuilt_on_windows: false,
            buildable: true,
            buildable_on_windows: false,
        },
    }
}

impl Tool {
    pub fn name(&self) -> (r: String)
        ensures
            r@ == tool_name(*self),
    {
        match self {
            Tool::Deno => String::from_str("Deno"),
            Tool::Just => String::from_str("Just"),
            Tool::Moon => String::from_str("moon"),
            Tool::Uv => String::from_str("uv"),
            Tool::Python => String::from_str("Python"),
            Tool::Ruby => String::from_str("Ruby"),
        }
    }

    /// What the tool offers for its acquisition.
    pub fn profile(&self) -> (r: ToolProfile)
        ensures
            r == profile_of(*self),
    {
        match self {
            Tool::Deno => ToolProfile {
                builds_by_default: false,
                has_canary_channel: true,
                prebuilt: true,
                prebuilt_on_windows: true,
                buildable: true,
                buildable_on_windows: true,
            },
            Tool::Just | Tool::Uv => ToolProfile {
                builds_by_default: false,
                has_canary_channel: false,
                prebuilt: true,
                prebuilt_on_windows: true,
                buildable: false,
                buildable_on_windows: false,
            },
            Tool::Moon => ToolProfile {
                builds_by_default: false,
                has_canary_channel: true,
                prebuilt: true,
                prebuilt_on_windows: true,
                buildable: false,
                buildable_on_windows: false,
            },
            Tool::Python => ToolProfile {
                builds_by_default: false,
                has_canary_channel: false,
                prebuilt: true,
                prebuilt_on_windows: true,
                buildable: true,
                buildable_on_windows: false,
            },
            Tool::Ruby => ToolProfile {
                builds_by_default: true,
                has_canary_channel: false,
                prebuilt: false,
                prebuilt_on_windows: false,
                buildable: true,
                buildable_on_windows: false,
            },
        }
    }
}

pub open spec fn can_build(p: ToolProfile, os: HostOS) -> bool {
    p.buildable && (os != HostOS::Windows || p.buildable_on_windows)
}

pub open spec fn can_download(p: ToolProfile, os: HostOS) -> bool {
    p.prebuilt && (os != HostOS::Windows || p.prebuilt_on_windows)
}

/// The strategy for acquiring a tool: canary without a canary channel is
/// rejected outright; a build, asked for or the tool's default, is chosen
/// when the host can build, else a prebuilt; a prebuilt is chosen when
/// available, else a build; with neither, Windows hosts of a buildable tool
/// get `UnsupportedWindowsBuild` and others `UnsupportedPlatform`.
pub open spec fn strategy_of(tool: Tool, version: crate::version::SpecView, env: HostEnvironment, request: InstallRequest) -> StrategyView {
    let p = profile_of(tool);
    let wants_build = request == InstallRequest::Build || (request == InstallRequest::Default
        && p.builds_by_default);
    if is_canary(version) && !p.has_canary_channel {
        StrategyView::Rejected(ErrorView::UnsupportedCanary { tool: tool_name(tool) })
    } else if wants_build && can_build(p, env.os) {
        StrategyView::FromSource
    } else if can_download(p, env.os) {
        StrategyView::Prebuilt
    } else if can_build(p, env.os) {
        StrategyView::FromSource
    } else if env.os == HostOS::Windows && p.buildable {
        StrategyView::Rejected(ErrorView::UnsupportedWindowsBuild)
    } else {
        StrategyView::Rejected(
            ErrorView::UnsupportedPlatform { tool: tool_name(tool), os: env.os, arch: env.arch },
        )
    }
}

/// Chooses how to acquire `tool` at `version` on the host, per [`strategy_of`].
pub fn select(tool: Tool, version: &VersionSpec, env: &HostEnvironment, request: InstallRequest) -> (r: Strategy)
    ensures
        r@ == strategy_of(tool, version@, *env, request),
{
    let p = tool.profile();
    let windows = env.os.is_windows();
    let can_build = p.buildable && (!windows || p.buildable_on_windows);
    let can_download = p.prebuilt && (!windows || p.prebuilt_on_windows);
    let wants_build = match request {
        InstallRequest::Build => true,
        InstallRequest::Default => p.builds_by_default,
        InstallRequest::Prebuilt => false,
    };
    if version.is_canary() && !p.has_canary_channel {
        Strategy::Rejected(PluginError::UnsupportedCanary { tool: tool.name() })
    } else if wants_build && can_build {
        Strategy::FromSource
    } else if can_download {
        Strategy::Prebuilt
    } else if can_build {
        Strategy::FromSource
    } else if windows && p.buildable {
        Strategy::Rejected(PluginError::UnsupportedWindowsBuild)
    } else {
        Strategy::Rejected(PluginError::UnsupportedPlatform { tool: tool.name(), os: env.os, arch: env.arch })
    }
}

/// Canary requests for a tool without a canary channel are rejected with
/// `UnsupportedCanary`, whatever the host and whatever was asked for.
pub proof fn lemma_canary_rejected(tool: Tool, env: HostEnvironment, request: InstallRequest)
    requires
        !profile_of(tool).has_canary_channel,
    ensures
        strategy_of(tool, crate::version::SpecView::Canary, env, request) == StrategyView::Rejected(
            ErrorView::UnsupportedCanary { tool: tool_name(tool) },
        ),
{
}

} // verus!
