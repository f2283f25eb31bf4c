use exbar::target::ActiveTarget;
use exbar::visibility::{
    needs_defview_probe, popup_should_show, EVENT_SYSTEM_MINIMIZEEND,
    class_name_from_units, classify_foreground, classify_hwnd, decide_foreground, is_cabinet_class,
    is_defview_class, needs_reposition, should_hide_for_foreground, Foreground, ForegroundAction,
    ForegroundEvent, HwndRole, ToolbarFacts, EVENT_OBJECT_LOCATIONCHANGE, EVENT_SYSTEM_FOREGROUND,
    EVENT_SYSTEM_MINIMIZESTART, EVENT_SYSTEM_MOVESIZESTART,
};

#[test]
fn same_pid_is_ours() {
    assert_eq!(classify_foreground(42, Some("C:\\Windows\\explorer.exe"), 42), Foreground::Ours);
}

#[test]
fn explorer_basename_is_explorer() {
    assert_eq!(classify_foreground(7, Some("C:\\Windows\\explorer.exe"), 1), Foreground::Explorer);
}

#[test]
fn explorer_basename_case_insensitive() {
    assert_eq!(classify_foreground(7, Some("C:\\Windows\\Explorer.EXE"), 1), Foreground::Explorer);
}

#[test]
fn other_executable_is_other() {
    assert_eq!(
        classify_foreground(7, Some("C:\\Program Files\\Code\\code.exe"), 1),
        Foreground::Other
    );
}

#[test]
fn missing_exe_is_other() {
    assert_eq!(classify_foreground(7, None, 1), Foreground::Other);
}

#[test]
fn forward_slash_path_works() {
    assert_eq!(classify_foreground(7, Some("C:/Windows/explorer.exe"), 1), Foreground::Explorer);
}

#[test]
fn classify_hwnd_dialog_class_with_defview_is_file_dialog() {
    assert_eq!(classify_hwnd("#32770", true, true), HwndRole::FileDialog);
}

#[test]
fn classify_hwnd_dialog_class_without_defview_is_unknown() {
    assert_eq!(classify_hwnd("#32770", true, false), HwndRole::Unknown);
}

#[test]
fn classify_hwnd_non_dialog_class_is_unknown_even_if_defview_exists() {
    assert_eq!(classify_hwnd("CabinetWClass", true, true), HwndRole::Unknown);
}

#[test]
fn classify_hwnd_dialog_disabled_suppresses_file_dialog() {
    assert_eq!(classify_hwnd("#32770", false, true), HwndRole::Unknown);
}

#[test]
fn notexplorer_exe_is_other() {
    assert_eq!(classify_foreground(7, Some("C:\\Tools\\notexplorer.exe"), 1), Foreground::Other);
    assert_eq!(classify_foreground(7, Some("explorer.exe"), 1), Foreground::Explorer);
}

#[test]
fn class_names() {
    assert!(is_cabinet_class("CabinetWClass"));
    assert!(!is_cabinet_class("cabinetwclass"));
    assert!(is_defview_class("SHELLDLL_DefView"));
    assert!(!is_defview_class("SHELLDLL_DefView2"));
}

#[test]
fn class_name_decodes_reported_length() {
    let buf: Vec<u16> = "CabinetWClassXYZ".encode_utf16().collect();
    assert_eq!(class_name_from_units(&buf, 13), "CabinetWClass");
    assert_eq!(class_name_from_units(&buf, 0), "");
    assert_eq!(class_name_from_units(&[0xD800, 0x41], 2), "\u{FFFD}A");
}

fn event(event: u32, hwnd: isize) -> ForegroundEvent {
    ForegroundEvent {
        event,
        hwnd,
        id_object: 0,
        id_child: 0,
        is_cabinet: false,
        in_our_process: false,
        in_explorer_process: false,
        toolbar_exists: true,
        state: Some(ToolbarFacts {
            active: Some(ActiveTarget::explorer(5)),
            explorer_moving: false,
            reposition_delay_ms: None,
        }),
    }
}

#[test]
fn foreign_foreground_hides_toolbar() {
    assert_eq!(decide_foreground(event(EVENT_SYSTEM_FOREGROUND, 9)), ForegroundAction::Hide);
    let mut ours = event(EVENT_SYSTEM_FOREGROUND, 9);
    ours.in_our_process = true;
    assert_eq!(decide_foreground(ours), ForegroundAction::Ignore);
}

#[test]
fn explorer_foreground_attaches_toolbar() {
    let mut e = event(EVENT_SYSTEM_FOREGROUND, 9);
    e.is_cabinet = true;
    assert_eq!(
        decide_foreground(e),
        ForegroundAction::ExplorerForeground { hwnd: 9, create_toolbar: false }
    );
    e.toolbar_exists = false;
    assert_eq!(
        decide_foreground(e),
        ForegroundAction::ExplorerForeground { hwnd: 9, create_toolbar: true }
    );
}

#[test]
fn location_change_of_active_explorer_is_debounced() {
    let e = event(EVENT_OBJECT_LOCATIONCHANGE, 5);
    assert_eq!(
        decide_foreground(e),
        ForegroundAction::HideAndScheduleReposition { delay_ms: 250 }
    );
    let other = event(EVENT_OBJECT_LOCATIONCHANGE, 6);
    assert_eq!(decide_foreground(other), ForegroundAction::Ignore);
}

#[test]
fn move_start_and_minimize() {
    assert_eq!(
        decide_foreground(event(EVENT_SYSTEM_MOVESIZESTART, 5)),
        ForegroundAction::BeginExplorerMove
    );
    assert_eq!(
        decide_foreground(event(EVENT_SYSTEM_MINIMIZESTART, 5)),
        ForegroundAction::UpdateVisibility
    );
}

#[test]
fn hide_rule_and_reposition_need() {
    assert!(should_hide_for_foreground(false));
    assert!(!should_hide_for_foreground(true));
    assert!(needs_reposition(None, (1, 2)));
    assert!(needs_reposition(Some((1, 1)), (1, 2)));
    assert!(!needs_reposition(Some((1, 2)), (1, 2)));
}

#[test]
fn restore_repositions_and_task_switcher_is_ignored() {
    let mut e = event(EVENT_SYSTEM_MINIMIZEEND, 5);
    e.is_cabinet = true;
    assert_eq!(decide_foreground(e), ForegroundAction::RepositionAndShow { hwnd: 5 });
    let mut popup = event(EVENT_SYSTEM_FOREGROUND, 77);
    popup.in_explorer_process = true;
    assert_eq!(decide_foreground(popup), ForegroundAction::CheckExplorerPopup { active: 5 });
    // The task switcher's window is rooted elsewhere than the active Explorer.
    assert!(!popup_should_show(900, 5, 77, 77, false, true));
    assert!(popup_should_show(5, 5, 77, 77, false, true));
    assert!(!popup_should_show(5, 5, 77, 12, false, false));
}

#[test]
fn defview_probe_only_for_enabled_dialog_windows() {
    assert!(needs_defview_probe("#32770", true));
    assert!(!needs_defview_probe("#32770", false));
    assert!(!needs_defview_probe("CabinetWClass", true));
}
