use exbar::rename::{classify_edit_message, transition, EditMessage, RenameAction, RenameEvent, RenameState};

fn rs(folder_index: usize, edit_hwnd: isize) -> RenameState {
    RenameState { folder_index, edit_hwnd }
}

#[test]
fn started_from_idle_sets_state_no_actions() {
    let (next, actions) =
        transition(None, RenameEvent::Started { folder_index: 3, edit_hwnd: 0xABC });
    assert_eq!(next, Some(rs(3, 0xABC)));
    assert!(actions.is_empty());
}

#[test]
fn started_from_active_destroys_old_edit_and_replaces_state() {
    let (next, actions) =
        transition(Some(rs(1, 0x111)), RenameEvent::Started { folder_index: 2, edit_hwnd: 0x222 });
    assert_eq!(next, Some(rs(2, 0x222)));
    assert_eq!(actions, vec![RenameAction::DestroyEdit { edit_hwnd: 0x111 }]);
}

#[test]
fn commit_with_text_emits_apply_destroy_reload() {
    let (next, actions) =
        transition(Some(rs(7, 0xDEAD)), RenameEvent::CommitRequested { text: "Renamed".into() });
    assert_eq!(next, None);
    assert_eq!(
        actions,
        vec![
            RenameAction::ApplyRename { folder_index: 7, new_name: "Renamed".into() },
            RenameAction::DestroyEdit { edit_hwnd: 0xDEAD },
            RenameAction::ReloadToolbar,
        ]
    );
}

#[test]
fn commit_with_empty_text_still_emits_apply() {
    let (next, actions) =
        transition(Some(rs(0, 0xBEEF)), RenameEvent::CommitRequested { text: String::new() });
    assert_eq!(next, None);
    assert_eq!(
        actions,
        vec![
            RenameAction::ApplyRename { folder_index: 0, new_name: String::new() },
            RenameAction::DestroyEdit { edit_hwnd: 0xBEEF },
            RenameAction::ReloadToolbar,
        ]
    );
}

#[test]
fn cancel_emits_destroy_only() {
    let (next, actions) = transition(Some(rs(4, 0xCAFE)), RenameEvent::Cancelled);
    assert_eq!(next, None);
    assert_eq!(actions, vec![RenameAction::DestroyEdit { edit_hwnd: 0xCAFE }]);
}

#[test]
fn commit_when_idle_is_noop() {
    let (next, actions) =
        transition(None, RenameEvent::CommitRequested { text: "ignored".into() });
    assert_eq!(next, None);
    assert!(actions.is_empty());
}

#[test]
fn cancel_when_idle_is_noop() {
    let (next, actions) = transition(None, RenameEvent::Cancelled);
    assert_eq!(next, None);
    assert!(actions.is_empty());
}

#[test]
fn edit_control_keys() {
    assert_eq!(classify_edit_message(0x0087, 0), EditMessage::WantAllKeys);
    assert_eq!(classify_edit_message(0x0100, 0x0D), EditMessage::Commit);
    assert_eq!(classify_edit_message(0x0100, 0x1B), EditMessage::Cancel);
    assert_eq!(classify_edit_message(0x0008, 0), EditMessage::Commit);
    assert_eq!(classify_edit_message(0x0100, 0x41), EditMessage::PassOn);
    assert_eq!(classify_edit_message(0x0102, 0x0D), EditMessage::PassOn);
}
