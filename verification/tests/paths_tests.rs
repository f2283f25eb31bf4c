use exbar::paths::{
    config_path, exbar_dir, home_dir, install_dir, join_path, legacy_position_path,
    local_appdata, position_path, run_key_value, should_migrate, system_drive_root,
};
use std::path::Path;

#[test]
fn exbar_dir_ends_with_dot_exbar() {
    let p = exbar_dir(None, None);
    assert!(Path::new(&p).ends_with(".exbar"), "expected .exbar suffix: {p:?}");
}

#[test]
fn config_path_under_exbar_dir() {
    let p = config_path(None, None);
    let p = Path::new(&p);
    assert_eq!(p.file_name().unwrap().to_str(), Some("config.json"));
    assert!(p.parent().unwrap().ends_with(".exbar"));
}

#[test]
fn position_path_under_exbar_dir() {
    let p = position_path(None, None);
    let p = Path::new(&p);
    assert_eq!(p.file_name().unwrap().to_str(), Some("position.json"));
    assert!(p.parent().unwrap().ends_with(".exbar"));
}

#[test]
fn home_precedence() {
    assert_eq!(home_dir(Some("U"), Some("H")), "U");
    assert_eq!(home_dir(None, Some("H")), "H");
    assert_eq!(home_dir(None, None), "C:\\Users\\Default");
}

#[test]
fn join_adds_one_separator() {
    let sep = std::path::MAIN_SEPARATOR;
    assert_eq!(join_path("a", "b"), format!("a{sep}b"));
    assert_eq!(join_path("a/", "b"), "a/b");
    assert_eq!(join_path("", "b"), "b");
    let sep_s = sep.to_string();
    assert_eq!(join_path(&format!("a{sep_s}"), "b"), format!("a{sep}b"));
}

#[test]
fn paths_under_given_home() {
    let sep = std::path::MAIN_SEPARATOR;
    assert_eq!(config_path(Some("/home/u"), None), format!("/home/u{sep}.exbar{sep}config.json"));
    assert_eq!(legacy_position_path(None, Some("/h/")), "/h/.exbar-pos.json");
}

#[test]
fn install_location() {
    let sep = std::path::MAIN_SEPARATOR;
    assert_eq!(local_appdata(Some("L"), Some("bob")), "L");
    assert_eq!(local_appdata(None, Some("bob")), "C:\\Users\\bob\\AppData\\Local");
    assert_eq!(local_appdata(None, None), "C:\\Users\\\\AppData\\Local");
    assert_eq!(install_dir(Some("L"), None), format!("L{sep}Exbar"));
}

#[test]
fn run_entry_quotes_executable() {
    assert_eq!(
        run_key_value("C:\\Program Files\\Exbar\\exbar.exe"),
        "\"C:\\Program Files\\Exbar\\exbar.exe\" hook"
    );
}

#[test]
fn migration_only_when_new_file_missing() {
    assert!(should_migrate(true, false));
    assert!(!should_migrate(true, true));
    assert!(!should_migrate(false, false));
}

#[test]
fn picker_start_folder() {
    assert_eq!(system_drive_root(Some("D:")), "D:\\");
    assert_eq!(system_drive_root(None), "C:\\");
}

#[test]
fn paths_follow_pathbuf_push_for_bare_drive_home() {
    let expect = |name: &str| {
        Path::new("C:").join(".exbar").join(name).to_str().unwrap().to_owned()
    };
    assert_eq!(config_path(Some("C:"), None), expect("config.json"));
    assert_eq!(position_path(Some("C:"), None), expect("position.json"));
    assert_eq!(join_path("C:", "x"), Path::new("C:").join("x").to_str().unwrap());
    assert_eq!(join_path("1:", "x"), Path::new("1:").join("x").to_str().unwrap());
    assert_eq!(
        config_path(Some("D:\\Users\\me"), None),
        Path::new("D:\\Users\\me").join(".exbar").join("config.json").to_str().unwrap()
    );
}
