//! Resolution logic shared by tool plugins of a developer-tool version manager:
//! version tag normalization, host platform checks, target triples, download
//! and build plans, and executable layouts.

pub mod deno;
pub mod error;
pub mod host;
pub mod just;
pub mod listing;
pub mod locate;
pub mod metadata;
pub mod moon;
pub mod plan;
pub mod python;
pub mod ruby;
pub mod strategy;
pub mod tags;
pub mod template;
pub mod text;
pub mod uv;
pub mod version;
pub mod wrappers;
