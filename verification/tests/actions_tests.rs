use exbar::actions::{
    append_folder_to_config, commit_reorder_in_config, config_after_save, folder_to_append,
    folder_index_of_button, remove_folder_from_config,
};
use exbar::config::{Config, FolderEntry};

fn cfg(folders: &[(&str, &str)]) -> Config {
    let mut c = Config::empty();
    for (name, path) in folders {
        c.add_folder(name.to_string(), path.to_string());
    }
    c
}

fn names(c: &Config) -> Vec<&str> {
    c.folders.iter().map(|f| f.name.as_str()).collect()
}

#[test]
fn append_folder_loads_mutates_saves_and_assigns() {
    let saved = append_folder_to_config(
        Some(cfg(&[("Existing", "C:\\old")])),
        "folder".into(),
        "C:\\new\\folder".into(),
    );
    assert_eq!(names(&saved), vec!["Existing", "folder"]);
    assert_eq!(saved.folders[1].path, "C:\\new\\folder");
    let state = config_after_save(None, saved, true).unwrap();
    assert_eq!(names(&state), vec!["Existing", "folder"]);
}

#[test]
fn append_folder_save_error_does_not_assign_state_config() {
    let saved = append_folder_to_config(
        Some(cfg(&[("Existing", "C:\\old")])),
        "folder".into(),
        "C:\\new\\folder".into(),
    );
    assert!(config_after_save(None, saved, false).is_none());
}

#[test]
fn append_folder_with_load_none_uses_empty_default() {
    let saved = append_folder_to_config(None, "folder".into(), "C:\\new\\folder".into());
    assert_eq!(names(&saved), vec!["folder"]);
    assert_eq!(saved.new_tab_timeout_ms_zero_disables, 500);
}

#[test]
fn remove_folder_in_range_removes_and_saves() {
    let saved = remove_folder_from_config(Some(cfg(&[("A", "C:\\a"), ("B", "C:\\b"), ("C", "C:\\c")])), 1)
        .unwrap();
    assert_eq!(names(&saved), vec!["A", "C"]);
}

#[test]
fn remove_folder_out_of_range_returns_false_and_does_not_save() {
    assert!(remove_folder_from_config(Some(cfg(&[("A", "C:\\a")])), 5).is_none());
}

#[test]
fn remove_folder_when_load_fails_returns_false() {
    assert!(remove_folder_from_config(None, 0).is_none());
}

#[test]
fn reorder_forward_moves_entry() {
    let saved =
        commit_reorder_in_config(Some(cfg(&[("A", "C:\\a"), ("B", "C:\\b"), ("C", "C:\\c")])), 0, 2)
            .unwrap();
    assert_eq!(names(&saved), vec!["B", "A", "C"]);
}

#[test]
fn reorder_backward_moves_entry() {
    let saved =
        commit_reorder_in_config(Some(cfg(&[("A", "C:\\a"), ("B", "C:\\b"), ("C", "C:\\c")])), 2, 0)
            .unwrap();
    assert_eq!(names(&saved), vec!["C", "A", "B"]);
}

#[test]
fn reorder_save_error_does_not_assign_state_config() {
    let saved =
        commit_reorder_in_config(Some(cfg(&[("A", "C:\\a"), ("B", "C:\\b")])), 0, 2).unwrap();
    assert!(config_after_save(None, saved, false).is_none());
}

#[test]
fn reorder_without_config_saves_nothing() {
    assert!(commit_reorder_in_config(None, 0, 1).is_none());
}

#[test]
fn button_index_to_folder_index() {
    assert_eq!(folder_index_of_button(0), None);
    assert_eq!(folder_index_of_button(3), Some(2));
}

#[test]
fn append_folder_with_no_filename_returns_false() {
    assert!(folder_to_append(None, Some(String::new())).is_none());
    assert!(folder_to_append(Some(String::new()), Some("C:\\".into())).is_none());
    assert!(folder_to_append(Some("folder".into()), None).is_none());
}

#[test]
fn folder_to_append_labels_by_final_component() {
    let entry = folder_to_append(Some("folder".into()), Some("C:\\new\\folder".into())).unwrap();
    assert_eq!(entry, FolderEntry { name: "folder".into(), path: "C:\\new\\folder".into(), icon: None });
}
