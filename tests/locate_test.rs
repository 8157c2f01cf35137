use tool_plugins::host::HostOS;
use tool_plugins::version::{Version, VersionSpec};
use tool_plugins::{deno, just, moon, python, ruby, uv};

fn path_of(out: &tool_plugins::locate::LocateExecutablesOutput, name: &str) -> Option<String> {
    out.get(name).and_then(|e| e.exe_path.clone())
}

#[test]
fn locates_unix_bin() {
    let out = moon::locate_executables(HostOS::Linux, "moon-test");
    assert_eq!(path_of(&out, "moon"), Some("moon-test".to_string()));
}

#[test]
fn locates_windows_bin() {
    let out = moon::locate_executables(HostOS::Windows, "moon-test");
    assert_eq!(path_of(&out, "moon"), Some("moon-test.exe".to_string()));
}

#[test]
fn download_test_locates_unix_bin() {
    let out = uv::locate_executables(HostOS::Linux);
    assert_eq!(path_of(&out, "uv"), Some("uv".to_string()));
    assert_eq!(path_of(&out, "uvx"), Some("uvx".to_string()));
    assert!(out.get("uv").unwrap().primary);
    assert!(!out.get("uvx").unwrap().primary);
}

#[test]
fn download_test_locates_windows_bin() {
    let out = uv::locate_executables(HostOS::Windows);
    assert_eq!(path_of(&out, "uv"), Some("uv.exe".to_string()));
}

#[test]
fn just_locates_bin() {
    assert_eq!(path_of(&just::locate_executables(HostOS::MacOS), "just"), Some("just".to_string()));
    let win = just::locate_executables(HostOS::Windows);
    assert_eq!(path_of(&win, "just"), Some("just.exe".to_string()));
    assert_eq!(win.exes_dir.as_deref(), Some("."));
}

#[test]
fn deno_locates_bin_and_globals() {
    let out = deno::locate_executables(HostOS::Windows);
    assert_eq!(path_of(&out, "deno"), Some("deno.exe".to_string()));
    assert_eq!(out.globals_lookup_dirs, vec!["$DENO_INSTALL_ROOT/bin", "$DENO_HOME/bin", "$HOME/.deno/bin"]);
}

#[test]
fn ruby_locates_bins() {
    let out = ruby::locate_executables(HostOS::Linux);
    assert_eq!(path_of(&out, "ruby"), Some("bin/ruby".to_string()));
    assert_eq!(path_of(&out, "bundle"), Some("bin/bundle".to_string()));
    let win = ruby::locate_executables(HostOS::Windows);
    assert_eq!(path_of(&win, "gem"), Some("bin/gem.exe".to_string()));
    assert_eq!(out.exes.iter().filter(|e| e.1.primary).count(), 1);
}

#[test]
fn python_legacy_marker_nests_paths() {
    let v = VersionSpec::Semantic(Version::new(3, 12, 1));
    let out = python::locate_executables(HostOS::Linux, &v, true, true);
    assert_eq!(path_of(&out, "python"), Some("install/bin/python".to_string()));
    assert_eq!(out.exes_dir.as_deref(), Some("install/bin"));
    assert_eq!(out.globals_lookup_dirs[0], "$TOOL_DIR/install/bin");
    let win = python::locate_executables(HostOS::Windows, &v, true, true);
    assert_eq!(path_of(&win, "python"), Some("install/python.exe".to_string()));
    assert_eq!(win.exes_dir.as_deref(), Some("install/Scripts"));
}

#[test]
fn python_current_layout() {
    let v = VersionSpec::Semantic(Version::new(3, 12, 1));
    assert_eq!(python::primary_exe_path(HostOS::MacOS, false), "bin/python");
    let out = python::locate_executables(HostOS::MacOS, &v, false, true);
    assert_eq!(path_of(&out, "python"), Some("bin/python".to_string()));
    assert_eq!(out.globals_lookup_dirs, vec!["$TOOL_DIR/bin", "$HOME/.local/bin"]);
    let pip = out.get("pip").unwrap();
    assert!(pip.no_bin);
    assert_eq!(pip.shim_before_args, Some(vec!["-m".to_string(), "pip".to_string()]));
}

#[test]
fn python_falls_back_to_major_suffix() {
    let v = VersionSpec::Semantic(Version::new(3, 12, 1));
    let out = python::locate_executables(HostOS::Linux, &v, false, false);
    assert_eq!(path_of(&out, "python"), Some("bin/python3".to_string()));
    let win = python::locate_executables(HostOS::Windows, &v, false, false);
    assert_eq!(path_of(&win, "python"), Some("python.exe".to_string()));
    let alias = python::locate_executables(HostOS::Linux, &VersionSpec::Alias("latest".to_string()), false, false);
    assert_eq!(path_of(&alias, "python"), Some("bin/python".to_string()));
}
