//! The host machine a tool is resolved for, the per-tool support matrix that
//! gates it, and the target triple derived from it.

use vstd::prelude::*;
use crate::error::{ErrorView, PluginError};

verus! {

/// Operating system of a host.
#[derive(Clone, Copy, Debug, PartialEq, Eq, Structural)]
pub enum HostOS {
    Android,
    Dragonfly,
    FreeBSD,
    IOS,
    Linux,
    MacOS,
    NetBSD,
    OpenBSD,
    Solaris,
    Windows,
}

/// CPU architecture of a host.
#[derive(Clone, Copy, Debug, PartialEq, Eq, Structural)]
pub enum HostArch {
    X86,
    X64,
    Arm,
    Arm64,
    LongArm64,
    M68k,
    Mips,
    Mips64,
    Powerpc,
    Powerpc64,
    Riscv64,
    S390x,
    Sparc64,
}

/// C library flavor of a host; only meaningful on Linux.
#[derive(Clone, Copy, Debug, PartialEq, Eq, Structural)]
pub enum HostLibc {
    Gnu,
    Musl,
    Unknown,
}

/// The machine a tool is resolved for.
#[derive(Clone, Copy, Debug, PartialEq, Eq, Structural)]
pub struct HostEnvironment {
    pub os: HostOS,
    pub arch: HostArch,
    pub libc: HostLibc,
}

pub open spec fn os_name(os: HostOS) -> Seq<char> {
    match os {
        HostOS::Android => "android"@,
        HostOS::Dragonfly => "dragonfly"@,
        HostOS::FreeBSD => "freebsd"@,
        HostOS::IOS => "ios"@,
        HostOS::Linux => "linux"@,
        HostOS::MacOS => "macos"@,
        HostOS::NetBSD => "netbsd"@,
        HostOS::OpenBSD => "openbsd"@,
        HostOS::Solaris => "solaris"@,
        HostOS::Windows => "windows"@,
    }
}

pub open spec fn arch_name(arch: HostArch) -> Seq<char> {
    match arch {
        HostArch::X86 => "x86"@,
        HostArch::X64 => "x64"@,
        HostArch::Arm => "arm"@,
        HostArch::Arm64 => "arm64"@,
        HostArch::LongArm64 => "longarm64"@,
        HostArch::M68k => "m68k"@,
        HostArch::Mips => "mips"@,
        HostArch::Mips64 => "mips64"@,
        HostArch::Powerpc => "powerpc"@,
        HostArch::Powerpc64 => "powerpc64"@,
        HostArch::Riscv64 => "riscv64"@,
        HostArch::S390x => "s390x"@,
        HostArch::Sparc64 => "sparc64"@,
    }
}

/// The architecture as it is written in a Rust target triple.
pub open spec fn rust_arch(arch: HostArch) -> Seq<char> {
    match arch {
        HostArch::X64 => "x86_64"@,
        HostArch::Arm64 => "aarch64"@,
        HostArch::LongArm64 => "loongarch64"@,
        _ => arch_name(arch),
    }
}

/// `name` as an executable file name on `os`: Windows appends `.exe` unless
/// the name already ends with `exe`.
pub open spec fn exe_name(os: HostOS, name: Seq<char>) -> Seq<char> {
    if os == HostOS::Windows && !(3 <= name.len() && name.subrange(name.len() - 3, name.len() as int)
        == "exe"@) {
        name + ".exe"@
    } else {
        name
    }
}

impl HostOS {
    /// The lower-case name of the OS.
    pub fn name(&self) -> (r: String)
        ensures
            r@ == os_name(*self),
    {
        match self {
            HostOS::Android => String::from_str("android"),
            HostOS::Dragonfly => String::from_str("dragonfly"),
            HostOS::FreeBSD => String::from_str("freebsd"),
            HostOS::IOS => String::from_str("ios"),
            HostOS::Linux => String::from_str("linux"),
            HostOS::MacOS => String::from_str("macos"),
            HostOS::NetBSD => String::from_str("netbsd"),
            HostOS::OpenBSD => String::from_str("openbsd"),
            HostOS::Solaris => String::from_str("solaris"),
            HostOS::Windows => String::from_str("windows"),
        }
    }

    pub fn is_windows(&self) -> (r: bool)
        ensures
            r == (*self == HostOS::Windows),
    {
        match self {
            HostOS::Windows => true,
            _ => false,
        }
    }

    /// Picks the Unix or the Windows value for this OS.
    pub fn for_native<'a>(&self, unix: &'a str, windows: &'a str) -> (r: &'a str)
        ensures
            r@ == (if *self == HostOS::Windows { windows@ } else { unix@ }),
    {
        if self.is_windows() {
            windows
        } else {
            unix
        }
    }

    /// `name` as an executable file name on this OS.
    pub fn get_exe_name(&self, name: &str) -> (r: String)
        ensures
            r@ == exe_name(*self, name@),
    {
        if self.is_windows() && !crate::text::ends_with(name, "exe") {
            proof {
                reveal_strlit("exe");
            }
            String::from_str(name).concat(".exe")
        } else {
            proof {
                reveal_strlit("exe");
            }
            String::from_str(name)
        }
    }
}

impl HostArch {
    /// The lower-case name of the architecture.
    pub fn name(&self) -> (r: String)
        ensures
            r@ == arch_name(*self),
    {
        match self {
            HostArch::X86 => String::from_str("x86"),
            HostArch::X64 => String::from_str("x64"),
            HostArch::Arm => String::from_str("arm"),
            HostArch::Arm64 => String::from_str("arm64"),
            HostArch::LongArm64 => String::from_str("longarm64"),
            HostArch::M68k => String::from_str("m68k"),
            HostArch::Mips => String::from_str("mips"),
            HostArch::Mips64 => String::from_str("mips64"),
            HostArch::Powerpc => String::from_str("powerpc"),
            HostArch::Powerpc64 => String::from_str("powerpc64"),
            HostArch::Riscv64 => String::from_str("riscv64"),
            HostArch::S390x => String::from_str("s390x"),
            HostArch::Sparc64 => String::from_str("sparc64"),
        }
    }

    /// The architecture as it is written in a Rust target triple.
    pub fn to_rust_arch(&self) -> (r: String)
        ensures
            r@ == rust_arch(*self),
    {
        match self {
            HostArch::X64 => String::from_str("x86_64"),
            HostArch::Arm64 => String::from_str("aarch64"),
            HostArch::LongArm64 => String::from_str("loongarch64"),
            _ => self.name(),
        }
    }
}

/// Which architectures a tool ships for, per OS. An OS missing from the
/// entries is not supported at all; the first entry for an OS counts.
pub struct SupportMatrix {
    pub entries: Vec<(HostOS, Vec<HostArch>)>,
}

/// The architectures that `entries` permits on `os`, if the OS is listed.
pub open spec fn archs_for(entries: Seq<(HostOS, Vec<HostArch>)>, os: HostOS) -> Option<Seq<HostArch>>
    decreases entries.len(),
{
    if entries.len() == 0 {
        None
    } else if entries[0].0 == os {
        Some(entries[0].1@)
    } else {
        archs_for(entries.skip(1), os)
    }
}

/// Whether the matrix permits the host's OS and architecture.
pub open spec fn supports(m: SupportMatrix, env: HostEnvironment) -> bool {
    match archs_for(m.entries@, env.os) {
        Some(archs) => archs.contains(env.arch),
        None => false,
    }
}

/// The error that a host outside the matrix gets.
pub open spec fn unsupported(tool: Seq<char>, env: HostEnvironment) -> ErrorView {
    ErrorView::UnsupportedPlatform { tool, os: env.os, arch: env.arch }
}

/// The result of gating `env` against a tool's matrix.
pub open spec fn platform_check(tool: Seq<char>, env: HostEnvironment, m: SupportMatrix) -> Result<(), ErrorView> {
    if supports(m, env) {
        Ok(())
    } else {
        Err(unsupported(tool, env))
    }
}

/// The view of a result whose success value carries no data of interest.
pub open spec fn unit_result_view(r: Result<(), PluginError>) -> Result<(), ErrorView> {
    match r {
        Ok(()) => Ok(()),
        Err(e) => Err(e@),
    }
}

impl SupportMatrix {
    /// The matrix with the given entries.
    pub fn new(entries: Vec<(HostOS, Vec<HostArch>)>) -> (r: SupportMatrix)
        ensures
            r.entries@ == entries@,
    {
        SupportMatrix { entries }
    }

    /// The matrix that lists Linux, macOS and Windows, each with its architectures.
    pub fn unix_and_windows(linux: Vec<HostArch>, macos: Vec<HostArch>, windows: Vec<HostArch>) -> (r: SupportMatrix)
        ensures
            forall|env: HostEnvironment| #[trigger] supports(r, env) == match env.os {
                HostOS::Linux => linux@.contains(env.arch),
                HostOS::MacOS => macos@.contains(env.arch),
                HostOS::Windows => windows@.contains(env.arch),
                _ => false,
            },
    {
        let ghost (l, m, w) = (linux@, macos@, windows@);
        let r = SupportMatrix {
            entries: vec![(HostOS::Linux, linux), (HostOS::MacOS, macos), (HostOS::Windows, windows)],
        };
        assert forall|env: HostEnvironment| #[trigger] supports(r, env) == match env.os {
            HostOS::Linux => l.contains(env.arch),
            HostOS::MacOS => m.contains(env.arch),
            HostOS::Windows => w.contains(env.arch),
            _ => false,
        } by {
            reveal_with_fuel(archs_for, 4);
            let e = r.entries@;
            assert(e.skip(1)[0] == e[1]);
            assert(e.skip(1).skip(1)[0] == e[2]);
            assert(e.skip(1).skip(1).skip(1).len() == 0);
        }
        r
    }

    /// The architectures permitted on `os`, if the OS is listed.
    fn lookup(&self, os: HostOS) -> (r: Option<&Vec<HostArch>>)
        ensures
            match r {
                Some(v) => archs_for(self.entries@, os) == Some(v@),
                None => archs_for(self.entries@, os).is_none(),
            },
    {
        let mut i: usize = 0;
        assert(self.entries@.skip(0) =~= self.entries@);
        while i < self.entries.len()
            invariant
                i <= self.entries@.len(),
                archs_for(self.entries@, os) == archs_for(self.entries@.skip(i as int), os),
            decreases self.entries@.len() - i,
        {
            let ghost rest = self.entries@.skip(i as int);
            assert(rest.skip(1) =~= self.entries@.skip(i + 1));
            if self.entries[i].0 == os {
                return Some(&self.entries[i].1);
            }
            i = i + 1;
        }
        None
    }
}

fn contains_arch(archs: &Vec<HostArch>, arch: HostArch) -> (r: bool)
    ensures
        r == archs@.contains(arch),
{
    let mut i: usize = 0;
    while i < archs.len()
        invariant
            i <= archs@.len(),
            forall|k: int| 0 <= k < i ==> archs@[k] != arch,
        decreases archs@.len() - i,
    {
        if archs[i] == arch {
            return true;
        }
        i = i + 1;
    }
    false
}

/// Gates a host against a tool's support matrix: fails with
/// `UnsupportedPlatform` naming the host's OS and architecture when the
/// matrix does not list the OS, or lists it without the architecture.
pub fn check_supported_os_and_arch(tool: &str, env: &HostEnvironment, matrix: &SupportMatrix) -> (r: Result<(), PluginError>)
    ensures
        unit_result_view(r) == platform_check(tool@, *env, *matrix),
{
    let ok = match matrix.lookup(env.os) {
        Some(archs) => contains_arch(archs, env.arch),
        None => false,
    };
    if ok {
        Ok(())
    } else {
        Err(PluginError::UnsupportedPlatform { tool: String::from_str(tool), os: env.os, arch: env.arch })
    }
}

/// The common matrix: x64 and arm64 on Linux and macOS, x64 on Windows.
pub open spec fn desktop_supports(env: HostEnvironment) -> bool {
    match env.os {
        HostOS::Linux | HostOS::MacOS => env.arch == HostArch::X64 || env.arch == HostArch::Arm64,
        HostOS::Windows => env.arch == HostArch::X64,
        _ => false,
    }
}

/// The common support matrix.
pub fn desktop_matrix() -> (r: SupportMatrix)
    ensures
        forall|env: HostEnvironment| #[trigger] supports(r, env) == desktop_supports(env),
{
    let linux = vec![HostArch::X64, HostArch::Arm64];
    let macos = vec![HostArch::X64, HostArch::Arm64];
    let windows = vec![HostArch::X64];
    let ghost (l, m, w) = (linux@, macos@, windows@);
    let r = SupportMatrix::unix_and_windows(linux, macos, windows);
    assert forall|env: HostEnvironment| #[trigger] supports(r, env) == desktop_supports(env) by {
        assert(l[0] == HostArch::X64 && l[1] == HostArch::Arm64);
        assert(m[0] == HostArch::X64 && m[1] == HostArch::Arm64);
        assert(w[0] == HostArch::X64);
        assert(l.contains(env.arch) <==> (env.arch == HostArch::X64 || env.arch == HostArch::Arm64));
        assert(m.contains(env.arch) <==> (env.arch == HostArch::X64 || env.arch == HostArch::Arm64));
        assert(w.contains(env.arch) <==> env.arch == HostArch::X64);
    }
    r
}

/// The suffix that follows the architecture in a target triple, for the
/// operating systems that have one.
pub open spec fn triple_suffix(env: HostEnvironment) -> Option<Seq<char>> {
    match env.os {
        HostOS::Linux => Some(
            if env.libc == HostLibc::Musl { "-unknown-linux-musl"@ } else { "-unknown-linux-gnu"@ },
        ),
        HostOS::MacOS => Some("-apple-darwin"@),
        HostOS::Windows => Some("-pc-windows-msvc"@),
        _ => None,
    }
}

/// The Rust target triple of a host: the triple's architecture name, then the
/// OS's vendor and system; on Linux the libc is `gnu` unless the host reports `musl`.
pub open spec fn triple_of(env: HostEnvironment) -> Option<Seq<char>> {
    match triple_suffix(env) {
        Some(suffix) => Some(rust_arch(env.arch) + suffix),
        None => None,
    }
}

/// The Rust target triple of the host. Hosts with another OS than Linux,
/// macOS or Windows fail with `UnsupportedPlatform`.
pub fn get_target_triple(env: &HostEnvironment, tool: &str) -> (r: Result<String, PluginError>)
    ensures
        match r {
            Ok(t) => triple_of(*env) == Some(t@),
            Err(e) => triple_of(*env).is_none() && e@ == unsupported(tool@, *env),
        },
{
    let arch = env.arch.to_rust_arch();
    match env.os {
        HostOS::Linux => {
            match env.libc {
                HostLibc::Musl => Ok(arch.concat("-unknown-linux-musl")),
                _ => Ok(arch.concat("-unknown-linux-gnu")),
            }
        },
        HostOS::MacOS => Ok(arch.concat("-apple-darwin")),
        HostOS::Windows => Ok(arch.concat("-pc-windows-msvc")),
        _ => Err(PluginError::UnsupportedPlatform { tool: String::from_str(tool), os: env.os, arch: env.arch }),
    }
}

/// Target triple construction depends on the host alone: equal hosts give
/// equal triples, whatever was computed before.
pub proof fn lemma_triple_is_function_of_host(a: HostEnvironment, b: HostEnvironment)
    requires
        a == b,
    ensures
        triple_of(a) == triple_of(b),
{
}

} // verus!
