use fylex::catalog::{
    build_catalog, create_record, default_config_at, final_segment, name_le_exec, prepare_create, vcs_state_of,
    CreateError, ProbeOutput, ScanEntry,
};
use fylex::project::{vcs_suffix, VcsState};

fn entry(name: &str, is_dir: bool) -> ScanEntry {
    ScanEntry {
        path: format!("/root/dev/{name}"),
        name: name.to_string(),
        is_dir,
        config: None,
        vcs_state: None,
    }
}

#[test]
fn empty_root_gives_empty_catalog() {
    assert!(build_catalog(Vec::new()).is_empty());
}

#[test]
fn catalog_keeps_directories_sorted_by_name() {
    let entries = vec![
        entry("beta", true),
        entry("notes.txt", false),
        entry("Zed", true),
        entry("alpha", true),
        entry("alp", true),
    ];
    let names: Vec<String> = build_catalog(entries).into_iter().map(|p| p.dir_name).collect();
    assert_eq!(names, vec!["Zed", "alp", "alpha", "beta"]);
}

#[test]
fn catalog_of_files_only_is_empty() {
    assert!(build_catalog(vec![entry("a", false), entry("b", false)]).is_empty());
}

#[test]
fn name_order_is_code_point_order() {
    assert!(name_le_exec("B", "a"));
    assert!(!name_le_exec("b", "B"));
    assert!(name_le_exec("ab", "abc"));
    assert!(!name_le_exec("abc", "ab"));
    assert!(name_le_exec("same", "same"));
}

#[test]
fn clean_probe_gives_clean_and_v_marker() {
    let probe = Some(ProbeOutput { exit_ok: true, stdout: Vec::new() });
    let state = vcs_state_of(true, &probe);
    assert_eq!(state, Some(VcsState::Clean));
    assert_eq!(vcs_suffix(state), " | V");
}

#[test]
fn probe_classification() {
    let changed = Some(ProbeOutput { exit_ok: true, stdout: b" M src/main.rs\n".to_vec() });
    assert_eq!(vcs_state_of(true, &changed), Some(VcsState::Modified));
    assert_eq!(vcs_suffix(Some(VcsState::Modified)), " | M");
    assert_eq!(vcs_state_of(false, &changed), None);
    assert_eq!(vcs_state_of(true, &None), None);
    let failed = Some(ProbeOutput { exit_ok: false, stdout: Vec::new() });
    assert_eq!(vcs_state_of(true, &failed), None);
    assert_eq!(vcs_suffix(None), "");
}

#[test]
fn create_on_existing_path_fails() {
    assert_eq!(prepare_create("foo", true), Err(CreateError::AlreadyExists));
}

#[test]
fn create_on_free_path_gives_default_record() {
    let c = prepare_create("foo", false).unwrap();
    assert_eq!(c.name, "foo");
    assert_eq!(c.description, "");
    assert!(c.tags.is_empty());
    assert!(c.created_at.contains('T'));
    assert!(c.created_at.ends_with("+00:00"));
}

#[test]
fn default_record_takes_last_segment() {
    let c = default_config_at("group/tool", "2024-05-06T07:08:09+00:00".to_string());
    assert_eq!(c.name, "tool");
    assert_eq!(c.created_at, "2024-05-06T07:08:09+00:00");
    assert!(c.tags.is_empty());
}

#[test]
fn final_segment_cases() {
    assert_eq!(final_segment("foo"), "foo");
    assert_eq!(final_segment("a/b/c"), "c");
    assert_eq!(final_segment("a/b/"), "b");
    assert_eq!(final_segment("/"), "");
    assert_eq!(final_segment(""), "");
}

#[test]
fn record_from_given_instant() {
    let now = "2024-05-06T07:08:09+00:00".to_string();
    assert_eq!(create_record("foo", true, Some(now.clone())), Err(CreateError::AlreadyExists));
    assert_eq!(create_record("foo", false, None), Err(CreateError::WriteError));
    assert_eq!(create_record("foo", true, None), Err(CreateError::AlreadyExists));
    let c = create_record("dir/bar", false, Some(now.clone())).unwrap();
    assert_eq!(c.name, "bar");
    assert_eq!(c.description, "");
    assert!(c.tags.is_empty());
    assert_eq!(c.created_at, now);
}
