use tool_plugins::error::PluginError;
use tool_plugins::host::{HostArch, HostEnvironment, HostLibc, HostOS};
use tool_plugins::plan::DownloadPrebuiltOutput;
use tool_plugins::version::{Version, VersionSpec};
use tool_plugins::{deno, just, moon, python, uv};

fn host(os: HostOS, arch: HostArch) -> HostEnvironment {
    HostEnvironment { os, arch, libc: HostLibc::Gnu }
}

fn semver(major: u64, minor: u64, patch: u64) -> VersionSpec {
    VersionSpec::Semantic(Version::new(major, minor, patch))
}

fn unwrap_plan(r: Result<DownloadPrebuiltOutput, PluginError>) -> DownloadPrebuiltOutput {
    match r {
        Ok(out) => out,
        Err(e) => panic!("{}", e.message()),
    }
}

fn check_moon(out: DownloadPrebuiltOutput, name: &str, url: &str) {
    assert_eq!(out.download_name.as_deref(), Some(name));
    assert_eq!(out.download_url, url);
    assert_eq!(out.archive_prefix, None);
    assert_eq!(out.checksum_url, None);
    assert_eq!(out.checksum_name, None);
}

#[test]
fn supports_linux_arm64() {
    let out = unwrap_plan(moon::download_prebuilt(&host(HostOS::Linux, HostArch::Arm64), &semver(1, 41, 0)));
    check_moon(
        out,
        "moon-aarch64-unknown-linux-gnu",
        "https://github.com/moonrepo/moon/releases/download/v1.41.0/moon-aarch64-unknown-linux-gnu",
    );
}

#[test]
fn supports_linux_x64() {
    let out = unwrap_plan(moon::download_prebuilt(&host(HostOS::Linux, HostArch::X64), &semver(1, 2, 0)));
    check_moon(
        out,
        "moon-x86_64-unknown-linux-gnu",
        "https://github.com/moonrepo/moon/releases/download/v1.2.0/moon-x86_64-unknown-linux-gnu",
    );
}

#[test]
fn supports_macos_arm64() {
    let out = unwrap_plan(moon::download_prebuilt(&host(HostOS::MacOS, HostArch::Arm64), &semver(1, 2, 0)));
    check_moon(
        out,
        "moon-aarch64-apple-darwin",
        "https://github.com/moonrepo/moon/releases/download/v1.2.0/moon-aarch64-apple-darwin",
    );
}

#[test]
fn supports_macos_x64() {
    let out = unwrap_plan(moon::download_prebuilt(&host(HostOS::MacOS, HostArch::X64), &semver(1, 2, 0)));
    check_moon(
        out,
        "moon-x86_64-apple-darwin",
        "https://github.com/moonrepo/moon/releases/download/v1.2.0/moon-x86_64-apple-darwin",
    );
}

#[test]
#[should_panic(expected = "unsupported architecture arm64 for windows.")]
fn doesnt_support_windows_arm64() {
    let out = unwrap_plan(moon::download_prebuilt(&host(HostOS::Windows, HostArch::Arm64), &semver(1, 2, 0)));
    check_moon(
        out,
        "moon-aarch64-pc-windows-msvc.exe",
        "https://github.com/moonrepo/moon/releases/download/v1.2.0/moon-aarch64-pc-windows-msvc.exe",
    );
}

#[test]
fn supports_windows_x64() {
    let out = unwrap_plan(moon::download_prebuilt(&host(HostOS::Windows, HostArch::X64), &semver(1, 2, 0)));
    check_moon(
        out,
        "moon-x86_64-pc-windows-msvc.exe",
        "https://github.com/moonrepo/moon/releases/download/v1.2.0/moon-x86_64-pc-windows-msvc.exe",
    );
}

#[test]
fn moon_canary_uses_canary_tag() {
    let out = unwrap_plan(moon::download_prebuilt(&host(HostOS::Linux, HostArch::X64), &VersionSpec::Canary));
    check_moon(
        out,
        "moon-x86_64-unknown-linux-gnu",
        "https://github.com/moonrepo/moon/releases/download/canary/moon-x86_64-unknown-linux-gnu",
    );
}

fn check_uv(out: DownloadPrebuiltOutput, prefix: &str, checksum: &str, file: &str, version: &str) {
    let base = format!("https://github.com/astral-sh/uv/releases/download/{version}");
    assert_eq!(out.archive_prefix.as_deref(), Some(prefix));
    assert_eq!(out.checksum_name.as_deref(), Some(checksum));
    assert_eq!(out.checksum_url, Some(format!("{base}/{checksum}")));
    assert_eq!(out.download_name.as_deref(), Some(file));
    assert_eq!(out.download_url, format!("{base}/{file}"));
}

#[test]
fn download_test_supports_linux_arm64() {
    let out = unwrap_plan(uv::download_prebuilt(&host(HostOS::Linux, HostArch::Arm64), &semver(1, 41, 0)));
    check_uv(
        out,
        "uv-aarch64-unknown-linux-gnu",
        "uv-aarch64-unknown-linux-gnu.tar.gz.sha256",
        "uv-aarch64-unknown-linux-gnu.tar.gz",
        "1.41.0",
    );
}

#[test]
fn download_test_supports_linux_x64() {
    let out = unwrap_plan(uv::download_prebuilt(&host(HostOS::Linux, HostArch::X64), &semver(1, 2, 0)));
    check_uv(
        out,
        "uv-x86_64-unknown-linux-gnu",
        "uv-x86_64-unknown-linux-gnu.tar.gz.sha256",
        "uv-x86_64-unknown-linux-gnu.tar.gz",
        "1.2.0",
    );
}

#[test]
fn download_test_supports_macos_arm64() {
    let out = unwrap_plan(uv::download_prebuilt(&host(HostOS::MacOS, HostArch::Arm64), &semver(1, 2, 0)));
    check_uv(
        out,
        "uv-aarch64-apple-darwin",
        "uv-aarch64-apple-darwin.tar.gz.sha256",
        "uv-aarch64-apple-darwin.tar.gz",
        "1.2.0",
    );
}

#[test]
fn download_test_supports_macos_x64() {
    let out = unwrap_plan(uv::download_prebuilt(&host(HostOS::MacOS, HostArch::X64), &semver(1, 2, 0)));
    check_uv(
        out,
        "uv-x86_64-apple-darwin",
        "uv-x86_64-apple-darwin.tar.gz.sha256",
        "uv-x86_64-apple-darwin.tar.gz",
        "1.2.0",
    );
}

#[test]
#[should_panic]
fn download_test_doesnt_support_windows_arm64() {
    unwrap_plan(uv::download_prebuilt(&host(HostOS::Windows, HostArch::Arm64), &semver(1, 2, 0)));
}

#[test]
fn download_test_supports_windows_x64() {
    let out = unwrap_plan(uv::download_prebuilt(&host(HostOS::Windows, HostArch::X64), &semver(1, 2, 0)));
    check_uv(
        out,
        "uv-x86_64-pc-windows-msvc",
        "uv-x86_64-pc-windows-msvc.zip.sha256",
        "uv-x86_64-pc-windows-msvc.zip",
        "1.2.0",
    );
}

#[test]
fn uv_musl_host_gets_musl_artifact() {
    let env = HostEnvironment { os: HostOS::Linux, arch: HostArch::X64, libc: HostLibc::Musl };
    let out = unwrap_plan(uv::download_prebuilt(&env, &semver(0, 5, 21)));
    assert_eq!(out.download_name.as_deref(), Some("uv-x86_64-unknown-linux-musl.tar.gz"));
}

#[test]
fn uv_canary_is_unsupported() {
    match uv::download_prebuilt(&host(HostOS::Linux, HostArch::X64), &VersionSpec::Canary) {
        Err(PluginError::UnsupportedCanary { tool }) => assert_eq!(tool, "uv"),
        other => panic!("unexpected {:?}", other),
    }
}

fn just_config() -> just::JustPluginConfig {
    just::JustPluginConfig::default()
}

#[test]
fn just_linux_arm64_below_threshold_uses_suffixed_checksum() {
    let out = unwrap_plan(just::download_prebuilt(&host(HostOS::Linux, HostArch::Arm64), &semver(1, 36, 0), &just_config()));
    let base = "https://github.com/casey/just/releases/download/1.36.0";
    assert_eq!(out.archive_prefix.as_deref(), Some("just-1.36.0-aarch64-unknown-linux-musl"));
    assert_eq!(out.download_name.as_deref(), Some("just-1.36.0-aarch64-unknown-linux-musl.tar.gz"));
    assert_eq!(out.download_url, format!("{base}/just-1.36.0-aarch64-unknown-linux-musl.tar.gz"));
    assert_eq!(
        out.checksum_url,
        Some(format!("{base}/just-1.36.0-aarch64-unknown-linux-musl.tar.gz.sha256sum"))
    );
    assert_eq!(out.checksum_name, None);
}

#[test]
fn just_at_threshold_uses_consolidated_checksum() {
    let out = unwrap_plan(just::download_prebuilt(&host(HostOS::MacOS, HostArch::X64), &semver(1, 37, 0), &just_config()));
    assert_eq!(
        out.checksum_url.as_deref(),
        Some("https://github.com/casey/just/releases/download/1.37.0/SHA256SUMS")
    );
    assert_eq!(out.download_name.as_deref(), Some("just-1.37.0-x86_64-apple-darwin.tar.gz"));
}

#[test]
fn just_windows_uses_zip() {
    let out = unwrap_plan(just::download_prebuilt(&host(HostOS::Windows, HostArch::Arm64), &semver(1, 36, 0), &just_config()));
    assert_eq!(out.download_name.as_deref(), Some("just-1.36.0-aarch64-pc-windows-msvc.zip"));
    let out = unwrap_plan(just::download_prebuilt(&host(HostOS::Windows, HostArch::X86), &semver(1, 36, 0), &just_config()));
    assert_eq!(out.download_name.as_deref(), Some("just-1.36.0-x86_64-pc-windows-msvc.zip"));
}

#[test]
fn just_custom_dist_url_is_filled() {
    let config = just::JustPluginConfig { dist_url: "https://mirror.example/{version}/x/{file}".to_string() };
    let out = unwrap_plan(just::download_prebuilt(&host(HostOS::Linux, HostArch::Arm), &semver(1, 40, 1), &config));
    assert_eq!(out.download_url, "https://mirror.example/1.40.1/x/just-1.40.1-arm-unknown-linux-musl.tar.gz");
    assert_eq!(out.checksum_url.as_deref(), Some("https://mirror.example/1.40.1/x/SHA256SUMS"));
}

#[test]
fn just_checksum_for_pre_release_of_threshold_is_suffixed() {
    let mut v = Version::new(1, 37, 0);
    v.pre = "rc.1".to_string();
    let name = just::checksum_file(&VersionSpec::Semantic(v), "a.tar.gz");
    assert_eq!(name, "a.tar.gz.sha256sum");
    let latest = just::checksum_file(&VersionSpec::Alias("latest".to_string()), "a.tar.gz");
    assert_eq!(latest, "SHA256SUMS");
}

#[test]
fn just_canary_is_unsupported() {
    let r = just::download_prebuilt(&host(HostOS::Linux, HostArch::X64), &VersionSpec::Canary, &just_config());
    match r {
        Err(e) => assert_eq!(e.message(), "Just does not support canary/nightly versions."),
        Ok(_) => panic!("canary accepted"),
    }
}

#[test]
fn deno_release_uses_template() {
    let config = deno::DenoPluginConfig::default();
    let env = host(HostOS::Linux, HostArch::Arm64);
    let v = semver(2, 1, 4);
    assert_eq!(deno::pointer_url(&env, &v).ok().flatten(), None);
    let out = unwrap_plan(deno::download_prebuilt(&env, &v, &config, None));
    assert_eq!(out.download_name.as_deref(), Some("deno-aarch64-unknown-linux-gnu.zip"));
    assert_eq!(out.download_url, "https://dl.deno.land/release/v2.1.4/deno-aarch64-unknown-linux-gnu.zip");
}

#[test]
fn deno_canary_goes_through_trimmed_pointer() {
    let config = deno::DenoPluginConfig::default();
    let env = host(HostOS::Windows, HostArch::X64);
    let pointer = deno::pointer_url(&env, &VersionSpec::Canary).ok().flatten();
    assert_eq!(pointer.as_deref(), Some("https://dl.deno.land/canary-x86_64-pc-windows-msvc-latest.txt"));
    let out = unwrap_plan(deno::download_prebuilt(&env, &VersionSpec::Canary, &config, Some("  abc123\n")));
    assert_eq!(out.download_url, "https://dl.deno.land/canary/abc123/deno-x86_64-pc-windows-msvc.zip");
}

#[test]
fn deno_latest_goes_through_release_pointer() {
    let config = deno::DenoPluginConfig::default();
    let env = host(HostOS::MacOS, HostArch::X64);
    let latest = VersionSpec::Alias("latest".to_string());
    let pointer = deno::pointer_url(&env, &latest).ok().flatten();
    assert_eq!(pointer.as_deref(), Some("https://dl.deno.land/release-latest.txt"));
    let out = unwrap_plan(deno::download_prebuilt(&env, &latest, &config, Some("v2.2.0\n")));
    assert_eq!(out.download_url, "https://dl.deno.land/release/v2.2.0/deno-x86_64-apple-darwin.zip");
}

#[test]
fn deno_missing_pointer_is_source_unavailable() {
    let config = deno::DenoPluginConfig::default();
    let r = deno::download_prebuilt(&host(HostOS::Linux, HostArch::X64), &VersionSpec::Canary, &config, None);
    match r {
        Err(e) => assert_eq!(
            e.message(),
            "Unable to load https://dl.deno.land/canary-x86_64-unknown-linux-gnu-latest.txt."
        ),
        Ok(_) => panic!("planned without pointer"),
    }
}

fn python_table() -> python::ReleaseTable {
    python::ReleaseTable {
        releases: vec![(
            Version::new(3, 12, 1),
            vec![
                (
                    "x86_64-unknown-linux-gnu".to_string(),
                    python::ReleaseEntry {
                        download: "https://example.test/cpython-3.12.1-x86_64-linux.tar.gz".to_string(),
                        checksum: Some("https://example.test/cpython-3.12.1-x86_64-linux.tar.gz.sha256".to_string()),
                    },
                ),
            ],
        )],
    }
}

#[test]
fn python_prebuilt_from_manifest() {
    let out = unwrap_plan(python::download_prebuilt(&host(HostOS::Linux, HostArch::X64), &semver(3, 12, 1), &python_table()));
    assert_eq!(out.archive_prefix.as_deref(), Some("python/install"));
    assert_eq!(out.download_url, "https://example.test/cpython-3.12.1-x86_64-linux.tar.gz");
    assert_eq!(
        out.checksum_url.as_deref(),
        Some("https://example.test/cpython-3.12.1-x86_64-linux.tar.gz.sha256")
    );
}

#[test]
fn python_missing_version_suggests_build() {
    match python::download_prebuilt(&host(HostOS::Linux, HostArch::X64), &semver(3, 11, 0), &python_table()) {
        Err(e) => {
            assert!(matches!(e, PluginError::NoPrebuiltForVersion { .. }));
            assert_eq!(e.message(), "No pre-built available for version 3.11.0! Try building from source with --build.");
        },
        Ok(_) => panic!("found a missing version"),
    }
}

#[test]
fn python_missing_triple_names_it() {
    match python::download_prebuilt(&host(HostOS::MacOS, HostArch::Arm64), &semver(3, 12, 1), &python_table()) {
        Err(PluginError::NoPrebuiltForArchitecture { triple }) => assert_eq!(triple, "aarch64-apple-darwin"),
        other => panic!("unexpected {:?}", other),
    }
}

#[test]
fn python_canary_is_unsupported() {
    match python::download_prebuilt(&host(HostOS::FreeBSD, HostArch::X64), &VersionSpec::Canary, &python_table()) {
        Err(PluginError::UnsupportedCanary { tool }) => assert_eq!(tool, "Python"),
        other => panic!("unexpected {:?}", other),
    }
}
