//! The errors that end a resolution call.

use vstd::prelude::*;
use crate::host::{HostArch, HostOS, arch_name, os_name};

verus! {

/// Why a resolution call failed. Every error is terminal for its call.
#[derive(Debug)]
pub enum PluginError {
    /// An upstream resource (tag list, manifest, pointer file) could not be had.
    SourceUnavailable { resource: String },
    /// The host's OS and architecture are outside the tool's support matrix.
    UnsupportedPlatform { tool: String, os: HostOS, arch: HostArch },
    /// A canary build was requested from a tool that offers none.
    UnsupportedCanary { tool: String },
    /// A build from source was requested on Windows, where the tool has no build path.
    UnsupportedWindowsBuild,
    /// The release manifest has no entry for the version.
    NoPrebuiltForVersion { version: String },
    /// The release manifest has no artifact for the target triple.
    NoPrebuiltForArchitecture { triple: String },
    /// A version candidate that cannot be read as a version.
    InvalidVersion { version: String },
}

/// The mathematical value of a [`PluginError`].
pub enum ErrorView {
    SourceUnavailable { resource: Seq<char> },
    UnsupportedPlatform { tool: Seq<char>, os: HostOS, arch: HostArch },
    UnsupportedCanary { tool: Seq<char> },
    UnsupportedWindowsBuild,
    NoPrebuiltForVersion { version: Seq<char> },
    NoPrebuiltForArchitecture { triple: Seq<char> },
    InvalidVersion { version: Seq<char> },
}

impl View for PluginError {
    type V = ErrorView;

    open spec fn view(&self) -> ErrorView {
        match self {
            PluginError::SourceUnavailable { resource } => ErrorView::SourceUnavailable {
                resource: resource@,
            },
            PluginError::UnsupportedPlatform { tool, os, arch } => ErrorView::UnsupportedPlatform {
                tool: tool@,
                os: *os,
                arch: *arch,
            },
            PluginError::UnsupportedCanary { tool } => ErrorView::UnsupportedCanary { tool: tool@ },
            PluginError::UnsupportedWindowsBuild => ErrorView::UnsupportedWindowsBuild,
            PluginError::NoPrebuiltForVersion { version } => ErrorView::NoPrebuiltForVersion {
                version: version@,
            },
            PluginError::NoPrebuiltForArchitecture { triple } =>
                ErrorView::NoPrebuiltForArchitecture { triple: triple@ },
            PluginError::InvalidVersion { version } => ErrorView::InvalidVersion { version: version@ },
        }
    }
}

/// The text that a user sees for an error.
pub open spec fn error_message(e: ErrorView) -> Seq<char> {
    match e {
        ErrorView::SourceUnavailable { resource } => "Unable to load "@ + resource + "."@,
        ErrorView::UnsupportedPlatform { tool, os, arch } => "Unable to install "@ + tool
            + ", unsupported architecture "@ + arch_name(arch) + " for "@ + os_name(os) + "."@,
        ErrorView::UnsupportedCanary { tool } => tool + " does not support canary/nightly versions."@,
        ErrorView::UnsupportedWindowsBuild =>
            "Build from source is currently not supported on Windows."@,
        ErrorView::NoPrebuiltForVersion { version } => "No pre-built available for version "@
            + version + "! Try building from source with --build."@,
        ErrorView::NoPrebuiltForArchitecture { triple } =>
            "No pre-built available for architecture "@ + triple
                + "! Try building from source with --build."@,
        ErrorView::InvalidVersion { version } => "Invalid version "@ + version + "."@,
    }
}

impl PluginError {
    /// The text that a user sees for this error.
    pub fn message(&self) -> (r: String)
        ensures
            r@ == error_message(self@),
    {
        match self {
            PluginError::SourceUnavailable { resource } => {
                String::from_str("Unable to load ").concat(resource.as_str()).concat(".")
            },
            PluginError::UnsupportedPlatform { tool, os, arch } => {
                let a = arch.name();
                let o = os.name();
                String::from_str("Unable to install ").concat(tool.as_str()).concat(
                    ", unsupported architecture ",
                ).concat(a.as_str()).concat(" for ").concat(o.as_str()).concat(".")
            },
            PluginError::UnsupportedCanary { tool } => {
                String::from_str(tool.as_str()).concat(" does not support canary/nightly versions.")
            },
            PluginError::UnsupportedWindowsBuild => {
                String::from_str("Build from source is currently not supported on Windows.")
            },
            PluginError::NoPrebuiltForVersion { version } => {
                String::from_str("No pre-built available for version ").concat(
                    version.as_str(),
                ).concat("! Try building from source with --build.")
            },
            PluginError::NoPrebuiltForArchitecture { triple } => {
                String::from_str("No pre-built available for architecture ").concat(
                    triple.as_str(),
                ).concat("! Try building from source with --build.")
            },
            PluginError::InvalidVersion { version } => {
                String::from_str("Invalid version ").concat(version.as_str()).concat(".")
            },
        }
    }
}

} // verus!
