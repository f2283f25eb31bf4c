use exbar::config::{
    clamp_new_tab_timeout, default_new_tab_timeout, is_shell_alias, Config, FolderEntry, Layout,
};
use exbar::paths::default_config_path;

fn cfg(folders: &[(&str, &str)]) -> Config {
    let mut c = Config::empty();
    for (name, path) in folders {
        c.add_folder(name.to_string(), path.to_string());
    }
    c
}

fn names(c: &Config) -> Vec<&str> {
    c.folders.iter().map(|f| f.name.as_str()).collect()
}

#[test]
fn config_shell_alias_detected() {
    assert!(is_shell_alias("shell:downloads"));
    assert!(!is_shell_alias("C:\\Users\\test"));
}

#[test]
fn config_tests_shell_alias_detected() {
    assert!(is_shell_alias("shell:downloads"));
    assert!(!is_shell_alias("C:\\Users\\test"));
}

#[test]
fn config_new_tab_timeout_defaults_to_500_when_missing() {
    let c = Config::empty();
    assert_eq!(c.new_tab_timeout_ms_zero_disables, 500);
    assert_eq!(default_new_tab_timeout(), 500);
}

#[test]
fn config_tests_new_tab_timeout_defaults_to_500_when_missing() {
    assert_eq!(Config::empty().new_tab_timeout_ms_zero_disables, 500);
}

#[test]
fn config_new_tab_timeout_clamps_to_range() {
    assert_eq!(clamp_new_tab_timeout(99999), 5000);
}

#[test]
fn config_tests_new_tab_timeout_clamps_to_range() {
    assert_eq!(clamp_new_tab_timeout(99999), 5000);
    assert_eq!(clamp_new_tab_timeout(750), 750);
}

#[test]
fn config_config_path_resolves_home() {
    let path = default_config_path(None, None);
    assert!(path.ends_with(".exbar.json"));
    assert!(path.starts_with("C:\\Users\\") || path.starts_with("/"));
}

#[test]
fn config_tests_config_path_resolves_home() {
    let path = default_config_path(None, None);
    assert!(path.ends_with(".exbar.json"));
    assert!(path.starts_with("C:\\Users\\") || path.starts_with("/"));
}

#[test]
fn empty_config_has_defaults() {
    let c = Config::empty();
    assert!(c.folders.is_empty());
    assert_eq!(c.layout, Layout::Horizontal);
    assert_eq!(f32::from_bits(c.background_opacity_bits), 0.8f32);
    assert!(c.enable_file_dialogs);
    assert_eq!(c.reposition_delay_ms, 250);
    assert_eq!(c.log_level, exbar::log::LogLevel::Info);
}

#[test]
fn add_folder_appends_to_end() {
    let mut c = cfg(&[("A", "C:\\a")]);
    c.add_folder("B".into(), "C:\\b".into());
    assert_eq!(c.folders.len(), 2);
    assert_eq!(c.folders[1].name, "B");
    assert_eq!(c.folders[1].path, "C:\\b");
    assert!(c.folders[1].icon.is_none());
}

#[test]
fn remove_folder_deletes_by_index() {
    let mut c = cfg(&[("A", "C:\\a"), ("B", "C:\\b")]);
    c.remove_folder(0);
    assert_eq!(c.folders.len(), 1);
    assert_eq!(c.folders[0].name, "B");
}

#[test]
fn remove_folder_out_of_bounds_is_noop() {
    let mut c = cfg(&[("A", "C:\\a")]);
    c.remove_folder(42);
    assert_eq!(c.folders.len(), 1);
}

#[test]
fn rename_folder_updates_name() {
    let mut c = cfg(&[("A", "C:\\a")]);
    c.rename_folder(0, "Renamed".into());
    assert_eq!(c.folders[0].name, "Renamed");
    assert_eq!(c.folders[0].path, "C:\\a");
}

#[test]
fn rename_folder_empty_is_noop() {
    let mut c = cfg(&[("A", "C:\\a")]);
    c.rename_folder(0, "   ".into());
    assert_eq!(c.folders[0].name, "A");
}

#[test]
fn rename_folder_out_of_bounds_is_noop() {
    let mut c = cfg(&[("A", "C:\\a")]);
    c.rename_folder(7, "X".into());
    assert_eq!(c.folders[0].name, "A");
}

#[test]
fn rename_folder_trims_white_space() {
    let mut c = cfg(&[("A", "C:\\a")]);
    c.rename_folder(0, "  New name\t\n".into());
    assert_eq!(c.folders[0].name, "New name");
}

#[test]
fn move_folder_forward() {
    let mut c = cfg(&[("A", "C:\\a"), ("B", "C:\\b"), ("C", "C:\\c")]);
    c.move_folder(0, 3);
    assert_eq!(names(&c), vec!["B", "C", "A"]);
}

#[test]
fn move_folder_backward() {
    let mut c = cfg(&[("A", "C:\\a"), ("B", "C:\\b"), ("C", "C:\\c")]);
    c.move_folder(2, 0);
    assert_eq!(names(&c), vec!["C", "A", "B"]);
}

#[test]
fn move_folder_same_position_is_noop() {
    let mut c = cfg(&[("A", "C:\\a"), ("B", "C:\\b")]);
    c.move_folder(0, 0);
    c.move_folder(1, 1);
    c.move_folder(1, 2);
    assert_eq!(names(&c), vec!["A", "B"]);
}

#[test]
fn move_folder_out_of_bounds_is_noop() {
    let mut c = cfg(&[("A", "C:\\a")]);
    c.move_folder(5, 0);
    c.move_folder(0, 99);
    assert_eq!(c.folders[0].name, "A");
}

#[test]
fn add_then_remove_last_restores_list() {
    let mut c = cfg(&[("A", "C:\\a"), ("B", "C:\\b")]);
    c.add_folder("N".into(), "C:\\n".into());
    c.remove_folder(2);
    assert_eq!(names(&c), vec!["A", "B"]);
}

#[test]
fn move_then_move_back_restores_order() {
    let mut c = cfg(&[("A", "C:\\a"), ("B", "C:\\b"), ("C", "C:\\c"), ("D", "C:\\d")]);
    c.move_folder(0, 3);
    assert_eq!(names(&c), vec!["B", "C", "A", "D"]);
    c.move_folder(2, 0);
    assert_eq!(names(&c), vec!["A", "B", "C", "D"]);
    c.move_folder(3, 1);
    assert_eq!(names(&c), vec!["A", "D", "B", "C"]);
    c.move_folder(1, 4);
    assert_eq!(names(&c), vec!["A", "B", "C", "D"]);
}

#[test]
fn duplicate_copies_every_field() {
    let e = FolderEntry { name: "N".into(), path: "P".into(), icon: Some("I".into()) };
    assert_eq!(e.duplicate(), e);
}

#[test]
fn layout_defaults_to_horizontal() {
    assert_eq!(Layout::default(), Layout::Horizontal);
}
