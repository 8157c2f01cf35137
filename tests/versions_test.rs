use tool_plugins::listing::versions_output;
use tool_plugins::error::PluginError;
use tool_plugins::tags::{TagRule, from_python_version, normalize_tag, rewrite_separators};
use tool_plugins::{deno, just, moon, python, ruby, uv};

fn strings(v: &[&str]) -> Vec<String> {
    v.iter().map(|s| s.to_string()).collect()
}

#[test]
fn strip_v_tools_drop_prefix_and_other_tags() {
    let tags = strings(&["v1.0.0", "v2.1.3", "nightly", "1.2.0"]);
    assert_eq!(deno::load_versions(Some(tags.clone())).unwrap(), vec!["1.0.0", "2.1.3"]);
    assert_eq!(moon::load_versions(Some(tags)).unwrap(), vec!["1.0.0", "2.1.3"]);
}

#[test]
fn repeated_tags_give_one_candidate() {
    let tags = strings(&["v1.0.0", "v1.0.0", "v2.0.0", "v1.0.0"]);
    assert_eq!(deno::load_versions(Some(tags)).unwrap(), vec!["1.0.0", "2.0.0"]);
    let tags = strings(&["v3.12.0", "3.12", "v3.12"]);
    assert_eq!(python::load_versions(Some(tags)).unwrap(), vec!["3.12.0"]);
}

#[test]
fn just_skips_v_tags() {
    let tags = strings(&["v0.9.0", "1.36.0", "1.37.0"]);
    assert_eq!(just::load_versions(Some(tags)).unwrap(), vec!["1.36.0", "1.37.0"]);
}

#[test]
fn uv_keeps_every_tag() {
    let tags = strings(&["0.5.21", "0.6.0"]);
    assert_eq!(uv::load_versions(Some(tags)).unwrap(), vec!["0.5.21", "0.6.0"]);
}

#[test]
fn ruby_rewrites_separators() {
    let tags = strings(&["v3_2_0", "v3_3_0_preview1", "v1_8_7", "v0_49", "toplevel", "v2_7_8_rc_2"]);
    assert_eq!(
        ruby::load_versions(Some(tags)).unwrap(),
        vec!["3.2.0", "3.3.0-preview1", "2.7.8-rc-2"]
    );
    assert_eq!(rewrite_separators("3_3_0_preview_1"), "3.3.0-preview-1");
}

#[test]
fn python_tags_through_pattern() {
    let tags = strings(&["legacy-trunk", "v3.12.0", "v3.13.0a1", "v3.11.0rc2", "v2.7", "v3.4.0b3", "v3.0c1", "nope"]);
    assert_eq!(
        python::load_versions(Some(tags)).unwrap(),
        vec!["3.12.0", "3.13.0-alpha.1", "3.11.0-rc.2", "2.7.0", "3.4.0-beta.3", "3.0.0-rc.1"]
    );
}

#[test]
fn python_version_from_groups() {
    let groups = vec![
        Some("v3.9.1".to_string()),
        Some("3".to_string()),
        Some("9".to_string()),
        Some("1".to_string()),
        None,
        None,
    ];
    assert_eq!(from_python_version(&groups), Some("3.9.1".to_string()));
    assert_eq!(from_python_version(&vec![None, Some("3".to_string())]), None);
}

#[test]
fn failed_fetch_is_source_unavailable() {
    match ruby::load_versions(None) {
        Err(PluginError::SourceUnavailable { resource }) => assert_eq!(resource, "https://github.com/ruby/ruby"),
        other => panic!("unexpected {:?}", other),
    }
    assert_eq!(uv::load_versions(Some(vec![])).unwrap(), Vec::<String>::new());
}

#[test]
fn single_tag_rules() {
    assert_eq!(normalize_tag(TagRule::StripV, "v"), Some(String::new()));
    assert_eq!(normalize_tag(TagRule::DropV, ""), Some(String::new()));
    assert_eq!(normalize_tag(TagRule::Underscored, "v"), Some(String::new()));
}

#[test]
fn latest_is_highest_stable_release() {
    let tags = strings(&["1.2.0", "1.10.0", "2.0.0-rc.1", "1.9.9", "1.10.0+b1"]);
    let out = versions_output(&tags).unwrap();
    assert_eq!(out.versions.len(), 5);
    assert_eq!(out.latest.to_text(), "1.10.0");
    assert_eq!(out.versions[2].prerelease.as_deref(), Some("rc.1"));
    let none = versions_output(&strings(&["2.0.0-alpha.1"])).unwrap();
    assert_eq!(none.latest.to_text(), "0.0.0");
}

#[test]
fn invalid_candidate_fails() {
    match versions_output(&strings(&["1.0.0", "not a version", "also bad"])) {
        Err(e) => {
            assert!(matches!(e, PluginError::InvalidVersion { .. }));
            assert_eq!(e.message(), "Invalid version not a version.");
        },
        Ok(_) => panic!("accepted a bad candidate"),
    }
}
