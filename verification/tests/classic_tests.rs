use exbar::classic::compute_layout;
use exbar::config::{Config, Layout};
use exbar::layout::Rect;

fn cfg(names: &[&str]) -> Config {
    let mut c = Config::empty();
    for n in names {
        c.add_folder(n.to_string(), format!("C:\\{n}"));
    }
    c
}

#[test]
fn horizontal_strip() {
    let c = cfg(&["AB", "Docs"]);
    let (buttons, w, h) = compute_layout(Some(&c), Layout::Horizontal, 96);
    assert_eq!(buttons.len(), 3);
    assert!(buttons[0].is_refresh);
    assert_eq!(buttons[0].folder.name, "\u{21BB}");
    assert_eq!(buttons[0].folder.path, "");
    assert_eq!(buttons[0].rect, Rect { left: 12, top: 0, right: 40, bottom: 28 });
    assert_eq!(buttons[1].rect, Rect { left: 42, top: 0, right: 78, bottom: 28 });
    assert_eq!(buttons[1].folder.name, "AB");
    assert_eq!(buttons[2].rect, Rect { left: 80, top: 0, right: 132, bottom: 28 });
    assert_eq!((w, h), (132, 28));
}

#[test]
fn vertical_strip() {
    let c = cfg(&["AB", "Docs"]);
    let (buttons, w, h) = compute_layout(Some(&c), Layout::Vertical, 96);
    assert_eq!(buttons.len(), 3);
    assert_eq!(buttons[0].rect, Rect { left: 0, top: 12, right: 70, bottom: 40 });
    assert_eq!(buttons[1].rect, Rect { left: 0, top: 42, right: 70, bottom: 70 });
    assert_eq!(buttons[2].rect, Rect { left: 0, top: 72, right: 70, bottom: 100 });
    assert_eq!((w, h), (70, 100));
}

#[test]
fn no_config_places_refresh_only() {
    let (buttons, w, h) = compute_layout(None, Layout::Horizontal, 144);
    assert_eq!(buttons.len(), 1);
    assert_eq!(buttons[0].rect, Rect { left: 18, top: 0, right: 60, bottom: 42 });
    assert_eq!((w, h), (60, 42));
    let (_, w, h) = compute_layout(None, Layout::Vertical, 96);
    assert_eq!((w, h), (28, 40));
}
