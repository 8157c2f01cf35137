use tool_plugins::error::PluginError;
use tool_plugins::host::{HostArch, HostEnvironment, HostLibc, HostOS, SupportMatrix, check_supported_os_and_arch, get_target_triple};
use tool_plugins::metadata::PluginType;
use tool_plugins::plan::{BuildInstruction, BuildRequirement, HostPackageManager};
use tool_plugins::strategy::{InstallRequest, Strategy, Tool, select};
use tool_plugins::template::{compose_url, split_download_url};
use tool_plugins::text::{decimal_string, split_char, trim};
use tool_plugins::version::{Version, VersionSpec};
use tool_plugins::{deno, just, moon, python, ruby, uv};

fn host(os: HostOS, arch: HostArch) -> HostEnvironment {
    HostEnvironment { os, arch, libc: HostLibc::Gnu }
}

#[test]
fn triple_for_linux_arm64_gnu() {
    let t = get_target_triple(&host(HostOS::Linux, HostArch::Arm64), "x").unwrap();
    assert_eq!(t, "aarch64-unknown-linux-gnu");
}

#[test]
fn triple_is_repeatable_and_libc_aware() {
    let env = host(HostOS::Windows, HostArch::X64);
    let a = get_target_triple(&env, "x").unwrap();
    let _ = get_target_triple(&host(HostOS::Linux, HostArch::Arm), "x");
    assert_eq!(get_target_triple(&env, "x").unwrap(), a);
    assert_eq!(a, "x86_64-pc-windows-msvc");
    let musl = HostEnvironment { os: HostOS::Linux, arch: HostArch::X64, libc: HostLibc::Musl };
    assert_eq!(get_target_triple(&musl, "x").unwrap(), "x86_64-unknown-linux-musl");
    let unknown = HostEnvironment { os: HostOS::Linux, arch: HostArch::X64, libc: HostLibc::Unknown };
    assert_eq!(get_target_triple(&unknown, "x").unwrap(), "x86_64-unknown-linux-gnu");
    assert_eq!(get_target_triple(&host(HostOS::MacOS, HostArch::LongArm64), "x").unwrap(), "loongarch64-apple-darwin");
    assert!(matches!(
        get_target_triple(&host(HostOS::FreeBSD, HostArch::X64), "x"),
        Err(PluginError::UnsupportedPlatform { .. })
    ));
}

#[test]
fn unsupported_platform_names_os_and_arch() {
    let matrix = SupportMatrix::new(vec![(HostOS::Linux, vec![HostArch::X64])]);
    assert!(check_supported_os_and_arch("t", &host(HostOS::Linux, HostArch::X64), &matrix).is_ok());
    let err = check_supported_os_and_arch("t", &host(HostOS::MacOS, HostArch::X64), &matrix).unwrap_err();
    assert_eq!(err.message(), "Unable to install t, unsupported architecture x64 for macos.");
    let err = check_supported_os_and_arch("t", &host(HostOS::Linux, HostArch::S390x), &matrix).unwrap_err();
    assert_eq!(err.message(), "Unable to install t, unsupported architecture s390x for linux.");
    let r = just::download_prebuilt(&host(HostOS::FreeBSD, HostArch::X64), &VersionSpec::Canary, &just::JustPluginConfig::default());
    match r {
        Err(PluginError::UnsupportedPlatform { tool, os, arch }) => {
            assert_eq!(tool, "Just");
            assert_eq!(os, HostOS::FreeBSD);
            assert_eq!(arch, HostArch::X64);
        },
        other => panic!("unexpected {:?}", other),
    }
}

#[test]
fn url_round_trip() {
    let template = "https://github.com/casey/just/releases/download/{version}/{file}";
    let url = compose_url(template, "1.36.0", "just-1.36.0-x86_64-apple-darwin.tar.gz");
    assert_eq!(url, "https://github.com/casey/just/releases/download/1.36.0/just-1.36.0-x86_64-apple-darwin.tar.gz");
    assert_eq!(
        split_download_url(template, &url),
        Some(("1.36.0".to_string(), "just-1.36.0-x86_64-apple-darwin.tar.gz".to_string()))
    );
    assert_eq!(split_download_url(template, "https://elsewhere/1/2"), None);
    assert_eq!(split_download_url("no placeholders", "no placeholders"), None);
}

#[test]
fn string_helpers() {
    assert_eq!(compose_url("a{file}b{version}{file}", "1", "f"), "afb1f");
    assert_eq!(compose_url("{version}", "{file}", "x"), "x");
    assert_eq!(trim(" \t v2.2.0\n\u{3000}"), "v2.2.0");
    assert_eq!(trim("\u{85}\u{a0}"), "");
    assert_eq!(trim("a b"), "a b");
    assert_eq!(split_char("a b  c", ' '), vec!["a", "b", "", "c"]);
    assert_eq!(decimal_string(0), "0");
    assert_eq!(decimal_string(1203), "1203");
    assert_eq!(decimal_string(u64::MAX), u64::MAX.to_string());
}

#[test]
fn version_text() {
    let mut v = Version::new(1, 2, 3);
    assert_eq!(v.to_text(), "1.2.3");
    v.pre = "rc.1".to_string();
    v.build = "b7".to_string();
    assert_eq!(v.to_text(), "1.2.3-rc.1+b7");
    assert_eq!(VersionSpec::Canary.to_text(), "canary");
}

#[test]
fn deno_build_on_linux_installs_llvm_first() {
    let v = VersionSpec::Semantic(Version::new(2, 0, 0));
    let out = deno::build_instructions(&host(HostOS::Linux, HostArch::X64), &v).unwrap();
    let src = out.source.as_ref().unwrap();
    assert_eq!(src.url, "https://github.com/denoland/deno/archive/refs/tags/v2.0.0.tar.gz");
    assert_eq!(src.prefix.as_deref(), Some("deno-2.0.0"));
    assert_eq!(out.instructions.len(), 7);
    assert!(matches!(&out.instructions[0], BuildInstruction::RequestScript(u) if u == "https://apt.llvm.org/llvm.sh"));
    assert!(matches!(&out.instructions[5], BuildInstruction::MoveFile(a, b) if a == "target/release/deno" && b == "deno"));
    assert_eq!(out.requirements.len(), 4);
    assert_eq!(out.system_dependencies.len(), 7);
}

#[test]
fn deno_build_on_windows_adds_requirements() {
    let v = VersionSpec::Semantic(Version::new(2, 0, 0));
    let out = deno::build_instructions(&host(HostOS::Windows, HostArch::X64), &v).unwrap();
    assert_eq!(out.instructions.len(), 3);
    assert!(matches!(&out.instructions[1], BuildInstruction::MoveFile(a, b) if a == "target/release/deno.exe" && b == "deno.exe"));
    assert!(matches!(&out.requirements[4], BuildRequirement::GitConfigSetting(k, v) if k == "core.symlinks" && v == "true"));
    let mac = deno::build_instructions(&host(HostOS::MacOS, HostArch::Arm64), &v).unwrap();
    assert_eq!(mac.instructions.len(), 3);
    assert!(deno::build_instructions(&host(HostOS::Windows, HostArch::Arm64), &v).is_err());
}

#[test]
fn python_and_ruby_builds() {
    let v = VersionSpec::Semantic(Version::new(3, 12, 1));
    let out = python::build_instructions(&host(HostOS::Linux, HostArch::X64), &v).unwrap();
    assert_eq!(out.system_dependencies.len(), 5);
    assert_eq!(out.system_dependencies[1].manager, Some(HostPackageManager::Brew));
    assert_eq!(out.system_dependencies[1].packages, vec!["openssl", "readline", "sqlite3", "xz", "zlib", "tcl-tk@8"]);
    match &out.instructions[1] {
        BuildInstruction::RunCommand(c) => {
            assert_eq!(c.exe, "python-build");
            assert!(c.builder);
            assert_eq!(c.args, vec!["--verbose", "3.12.1", "."]);
        },
        other => panic!("unexpected {:?}", other),
    }
    let r = ruby::build_instructions(&host(HostOS::MacOS, HostArch::Arm64), &v).unwrap();
    assert_eq!(r.system_dependencies.len(), 6);
    assert!(matches!(&r.instructions[0], BuildInstruction::InstallBuilder { id, .. } if id == "ruby-build"));
    for err in [
        python::build_instructions(&host(HostOS::Windows, HostArch::X64), &v).unwrap_err(),
        ruby::build_instructions(&host(HostOS::Windows, HostArch::X64), &v).unwrap_err(),
    ] {
        assert_eq!(err.message(), "Build from source is currently not supported on Windows.");
    }
}

#[test]
fn strategy_selection() {
    let canary = VersionSpec::Canary;
    let v = VersionSpec::Semantic(Version::new(1, 0, 0));
    let linux = host(HostOS::Linux, HostArch::X64);
    let windows = host(HostOS::Windows, HostArch::X64);
    for env in [linux, windows] {
        assert!(matches!(select(Tool::Uv, &canary, &env, InstallRequest::Build), Strategy::Rejected(PluginError::UnsupportedCanary { .. })));
    }
    assert!(matches!(select(Tool::Deno, &canary, &linux, InstallRequest::Default), Strategy::Prebuilt));
    assert!(matches!(select(Tool::Ruby, &v, &linux, InstallRequest::Default), Strategy::FromSource));
    assert!(matches!(select(Tool::Ruby, &v, &windows, InstallRequest::Default), Strategy::Rejected(PluginError::UnsupportedWindowsBuild)));
    assert!(matches!(select(Tool::Python, &v, &linux, InstallRequest::Build), Strategy::FromSource));
    assert!(matches!(select(Tool::Python, &v, &windows, InstallRequest::Build), Strategy::Prebuilt));
    assert!(matches!(select(Tool::Just, &v, &linux, InstallRequest::Build), Strategy::Prebuilt));
}

#[test]
fn metadata_per_tool() {
    let m = just::register_tool();
    assert_eq!(m.name, "Just");
    assert!(m.self_upgrade_commands.is_empty());
    let u = uv::register_tool();
    assert_eq!(u.self_upgrade_commands, vec!["self"]);
    assert_eq!(u.type_of, PluginType::CommandLine);
    assert_eq!(moon::register_tool().self_upgrade_commands, vec!["upgrade"]);
    assert_eq!(deno::register_tool().type_of, PluginType::Language);
    let r = ruby::register_tool();
    assert!(r.builds_by_default);
    assert_eq!(r.unstable_message.as_deref(), Some("Windows is currently not supported."));
    assert_eq!(python::register_tool().minimum_host_version.to_text(), "0.42.0");
    assert_eq!(ruby::detect_version_files().ignore, vec!["vendor"]);
    assert_eq!(python::detect_version_files().files, vec![".python-version"]);
    assert_eq!(deno::detect_version_files().files, vec![".dvmrc"]);
}
