use std::collections::HashSet;
use exbar::shell::{
    choose_browser, ctrl_t_messages, falls_back_to_window, first_new_browser, new_tab_start,
    quoted_path, timed_out, BrowserCandidate, NewTabStart, Win32Shell, VK_CONTROL_KEY, VK_T_KEY,
    WM_KEYDOWN, WM_KEYUP,
};

fn cand(hwnd: isize, under: bool) -> BrowserCandidate {
    BrowserCandidate { hwnd, under_active_tab: under }
}

#[test]
fn active_tab_browser_preferred() {
    let c = [cand(1, true), cand(5, false), cand(5, true), cand(5, false)];
    assert_eq!(choose_browser(&c, 5), Some(2));
    let c = [cand(1, true), cand(5, false), cand(5, false)];
    assert_eq!(choose_browser(&c, 5), Some(1));
    assert_eq!(choose_browser(&c, 9), None);
}

#[test]
fn zero_timeout_opens_window() {
    assert_eq!(new_tab_start(0), NewTabStart::NewWindow);
    assert_eq!(new_tab_start(500), NewTabStart::TryTab);
}

#[test]
fn ctrl_t_key_messages() {
    assert_eq!(
        ctrl_t_messages(),
        vec![
            (WM_KEYDOWN, VK_CONTROL_KEY),
            (WM_KEYDOWN, VK_T_KEY),
            (WM_KEYUP, VK_T_KEY),
            (WM_KEYUP, VK_CONTROL_KEY),
        ]
    );
}

#[test]
fn wait_for_new_tab() {
    assert!(!timed_out(499, 500));
    assert!(timed_out(500, 500));
    assert_eq!(first_new_browser(&HashSet::from([1, 2]), &[1, 2]), None);
    assert_eq!(first_new_browser(&HashSet::from([1, 2]), &[2, 7, 8]), Some(1));
    assert_eq!(first_new_browser(&HashSet::new(), &[3]), Some(0));
}

#[test]
fn fallback_and_quoting() {
    assert!(!falls_back_to_window(true, true));
    assert!(falls_back_to_window(false, true));
    assert!(falls_back_to_window(true, false));
    assert_eq!(quoted_path("C:\\Program Files"), "\"C:\\Program Files\"");
    let _ = Win32Shell::new();
}

#[test]
fn ancestor_walk_steps() {
    assert_eq!(exbar::shell::ancestor_step(0, 5, 5, 9), exbar::shell::AncestorStep::Found);
    assert_eq!(exbar::shell::ancestor_step(3, 5, 7, 9), exbar::shell::AncestorStep::Up { next: 9 });
    assert_eq!(exbar::shell::ancestor_step(3, 5, 7, 0), exbar::shell::AncestorStep::NotUnder);
    assert_eq!(exbar::shell::ancestor_step(3, 5, 7, 5), exbar::shell::AncestorStep::NotUnder);
    assert_eq!(exbar::shell::ancestor_step(16, 7, 7, 9), exbar::shell::AncestorStep::NotUnder);
}
