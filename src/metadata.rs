//! What a plugin tells the host about its tool: its name and kind, how it
//! upgrades itself, and which files pin its version.

use vstd::prelude::*;
use crate::plan::opt_text;
use crate::text::texts;
use crate::version::{SemVer, Version};

verus! {

#[derive(Clone, Copy, Debug, PartialEq, Eq, Structural)]
pub enum PluginType {
    Language,
    CommandLine,
}

/// How a tool describes itself to the host.
#[derive(Debug)]
pub struct ToolMetadata {
    pub name: String,
    pub type_of: PluginType,
    /// The tool's own sub-commands that upgrade it in place.
    pub self_upgrade_commands: Vec<String>,
    /// Installing builds from source by default.
    pub builds_by_default: bool,
    /// Why the plugin is not stable yet, if it is not.
    pub unstable_message: Option<String>,
    pub minimum_host_version: Version,
}

pub struct MetadataView {
    pub name: Seq<char>,
    pub type_of: PluginType,
    pub self_upgrade_commands: Seq<Seq<char>>,
    pub builds_by_default: bool,
    pub unstable_message: Option<Seq<char>>,
    pub minimum_host_version: SemVer,
}

impl View for ToolMetadata {
    type V = MetadataView;

    open spec fn view(&self) -> MetadataView {
        MetadataView {
            name: self.name@,
            type_of: self.type_of,
            self_upgrade_commands: texts(self.self_upgrade_commands@),
            builds_by_default: self.builds_by_default,
            unstable_message: opt_text(self.unstable_message),
            minimum_host_version: self.minimum_host_version@,
        }
    }
}

/// The lowest host version the plugins work with.
pub open spec fn minimum_host() -> SemVer {
    SemVer { major: 0, minor: 42, patch: 0, pre: Seq::empty(), build: Seq::empty() }
}

/// Stable metadata of a tool that installs prebuilt by default.
pub open spec fn metadata_of(name: Seq<char>, type_of: PluginType, upgrade: Seq<Seq<char>>) -> MetadataView {
    MetadataView {
        name,
        type_of,
        self_upgrade_commands: upgrade,
        builds_by_default: false,
        unstable_message: None,
        minimum_host_version: minimum_host(),
    }
}

/// Stable metadata of a tool that installs prebuilt by default.
pub fn metadata(name: &str, type_of: PluginType, self_upgrade_commands: Vec<String>) -> (r: ToolMetadata)
    ensures
        r@ == metadata_of(name@, type_of, texts(self_upgrade_commands@)),
{
    ToolMetadata {
        name: String::from_str(name),
        type_of,
        self_upgrade_commands,
        builds_by_default: false,
        unstable_message: None,
        minimum_host_version: Version::new(0, 42, 0),
    }
}

/// The sub-command list of a tool that upgrades itself with `command`.
pub fn upgrade_with(command: &str) -> (r: Vec<String>)
    ensures
        texts(r@) == seq![command@],
{
    let r = vec![String::from_str(command)];
    assert(texts(r@) =~= seq![command@]);
    r
}

/// Files that pin a tool's version, and directories not to search for them.
#[derive(Debug)]
pub struct DetectVersionOutput {
    pub files: Vec<String>,
    pub ignore: Vec<String>,
}

pub open spec fn detect_view(d: DetectVersionOutput) -> (Seq<Seq<char>>, Seq<Seq<char>>) {
    (texts(d.files@), texts(d.ignore@))
}

/// The version file `file`, and `ignore` if given.
pub fn version_file(file: &str, ignore: Option<&str>) -> (r: DetectVersionOutput)
    ensures
        detect_view(r) == (seq![file@], match ignore {
            Some(i) => seq![i@],
            None => Seq::<Seq<char>>::empty(),
        }),
{
    let files = vec![String::from_str(file)];
    let ignored = match ignore {
        Some(i) => vec![String::from_str(i)],
        None => Vec::new(),
    };
    let r = DetectVersionOutput { files, ignore: ignored };
    assert(texts(r.files@) =~= seq![file@]);
    assert(texts(r.ignore@) =~= match ignore {
        Some(i) => seq![i@],
        None => Seq::<Seq<char>>::empty(),
    });
    r
}

} // verus!
