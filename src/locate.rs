//! Executable layouts: which files of an installed tool are run, and where
//! globally installed packages are looked up.

use vstd::prelude::*;
use crate::plan::opt_text;
use crate::text::texts;

verus! {

/// How one executable of an installed tool is run.
#[derive(Debug)]
pub struct ExecutableConfig {
    /// Path relative to the tool's root directory.
    pub exe_path: Option<String>,
    /// The tool's main executable; exactly one entry of a layout has it.
    pub primary: bool,
    /// Hidden from automatic shim generation, though still invocable.
    pub no_bin: bool,
    /// Arguments put before the user's arguments when run through a shim.
    pub shim_before_args: Option<Vec<String>>,
}

pub struct ExeView {
    pub exe_path: Option<Seq<char>>,
    pub primary: bool,
    pub no_bin: bool,
    pub shim_before_args: Option<Seq<Seq<char>>>,
}

impl View for ExecutableConfig {
    type V = ExeView;

    open spec fn view(&self) -> ExeView {
        ExeView {
            exe_path: opt_text(self.exe_path),
            primary: self.primary,
            no_bin: self.no_bin,
            shim_before_args: match self.shim_before_args {
                Some(a) => Some(texts(a@)),
                None => None,
            },
        }
    }
}

/// An executable at `path`.
pub open spec fn secondary_exe(path: Seq<char>) -> ExeView {
    ExeView { exe_path: Some(path), primary: false, no_bin: false, shim_before_args: None }
}

/// The main executable, at `path`.
pub open spec fn primary_exe(path: Seq<char>) -> ExeView {
    ExeView { exe_path: Some(path), primary: true, no_bin: false, shim_before_args: None }
}

impl ExecutableConfig {
    pub fn new(path: String) -> (r: ExecutableConfig)
        ensures
            r@ == secondary_exe(path@),
    {
        ExecutableConfig { exe_path: Some(path), primary: false, no_bin: false, shim_before_args: None }
    }

    pub fn new_primary(path: String) -> (r: ExecutableConfig)
        ensures
            r@ == primary_exe(path@),
    {
        ExecutableConfig { exe_path: Some(path), primary: true, no_bin: false, shim_before_args: None }
    }
}

/// The executables of an installed tool, by logical name, each name once.
#[derive(Debug)]
pub struct LocateExecutablesOutput {
    pub exes: Vec<(String, ExecutableConfig)>,
    /// Directory, relative to the root, that holds the executables.
    pub exes_dir: Option<String>,
    /// Directories, templated with environment variables, where packages
    /// installed globally put their executables.
    pub globals_lookup_dirs: Vec<String>,
}

pub struct LayoutView {
    pub exes: Seq<(Seq<char>, ExeView)>,
    pub exes_dir: Option<Seq<char>>,
    pub globals_lookup_dirs: Seq<Seq<char>>,
}

impl View for LocateExecutablesOutput {
    type V = LayoutView;

    open spec fn view(&self) -> LayoutView {
        LayoutView {
            exes: self.exes@.map_values(|e: (String, ExecutableConfig)| (e.0@, e.1@)),
            exes_dir: opt_text(self.exes_dir),
            globals_lookup_dirs: texts(self.globals_lookup_dirs@),
        }
    }
}

/// A layout names each executable once and marks exactly one as primary.
pub open spec fn well_formed(layout: LayoutView) -> bool {
    &&& forall|i: int, j: int|
        0 <= i < j < layout.exes.len() ==> layout.exes[i].0 != layout.exes[j].0
    &&& exists|i: int| 0 <= i < layout.exes.len() && layout.exes[i].1.primary
    &&& forall|i: int, j: int|
        0 <= i < layout.exes.len() && 0 <= j < layout.exes.len() && layout.exes[i].1.primary
            && layout.exes[j].1.primary ==> i == j
}

/// The configuration of the executable named `name`, if the layout has one.
pub open spec fn exe_named(layout: LayoutView, name: Seq<char>) -> Option<ExeView> {
    if exists|i: int| 0 <= i < layout.exes.len() && layout.exes[i].0 == name {
        let i = choose|i: int| 0 <= i < layout.exes.len() && layout.exes[i].0 == name;
        Some(layout.exes[i].1)
    } else {
        None
    }
}

impl LocateExecutablesOutput {
    /// The configuration of the executable named `name`, if there is one.
    pub fn get(&self, name: &str) -> (r: Option<&ExecutableConfig>)
        ensures
            match r {
                Some(e) => exists|i: int| 0 <= i < self.exes@.len() && self.exes@[i].0@ == name@
                    && self.exes@[i].1 == *e,
                None => exe_named(self@, name@).is_none(),
            },
    {
        let target = String::from_str(name);
        let mut i: usize = 0;
        while i < self.exes.len()
            invariant
                i <= self.exes@.len(),
                target@ == name@,
                forall|k: int| 0 <= k < i ==> self.exes@[k].0@ != name@,
            decreases self.exes@.len() - i,
        {
            if self.exes[i].0 == target {
                return Some(&self.exes[i].1);
            }
            i = i + 1;
        }
        assert(exe_named(self@, name@).is_none()) by {
            if exists|k: int| 0 <= k < self@.exes.len() && self@.exes[k].0 == name@ {
                let k = choose|k: int| 0 <= k < self@.exes.len() && self@.exes[k].0 == name@;
                assert(self.exes@[k].0@ == name@);
            }
        }
        None
    }
}

} // verus!
