use exbar::pointer::{transition, HitResult, PointerCommand, PointerEvent, PointerState};

fn hit(button: usize, is_folder: bool) -> HitResult {
    HitResult { button, is_folder }
}

#[test]
fn idle_move_onto_button_transitions_to_hovering() {
    let (state, cmds) = transition(
        PointerState::Idle,
        PointerEvent::Move {
            x: 50,
            y: 14,
            hit: Some(hit(1, true)),
            reorder_threshold_px: 5,
            insertion_if_reordering: 0,
        },
    );
    assert_eq!(state, PointerState::Hovering { button: 1 });
    assert_eq!(cmds, vec![PointerCommand::Redraw, PointerCommand::StartMouseTracking]);
}

#[test]
fn idle_move_off_buttons_stays_idle() {
    let (state, cmds) = transition(
        PointerState::Idle,
        PointerEvent::Move {
            x: 0,
            y: 0,
            hit: None,
            reorder_threshold_px: 5,
            insertion_if_reordering: 0,
        },
    );
    assert_eq!(state, PointerState::Idle);
    assert!(cmds.is_empty());
}

#[test]
fn idle_leave_is_noop() {
    let (state, cmds) = transition(PointerState::Idle, PointerEvent::Leave);
    assert_eq!(state, PointerState::Idle);
    assert!(cmds.is_empty());
}

#[test]
fn idle_press_on_folder_transitions_to_pressed_folder() {
    let (state, cmds) = transition(
        PointerState::Idle,
        PointerEvent::Press { x: 60, y: 14, hit: Some(hit(2, true)) },
    );
    assert_eq!(state, PointerState::PressedFolder { button: 2, press_x: 60, press_y: 14 });
    assert_eq!(
        cmds,
        vec![PointerCommand::CaptureMouse, PointerCommand::CancelInlineRename, PointerCommand::Redraw]
    );
}

#[test]
fn idle_press_on_add_button_transitions_to_pressed_non_folder() {
    let (state, cmds) = transition(
        PointerState::Idle,
        PointerEvent::Press { x: 10, y: 14, hit: Some(hit(0, false)) },
    );
    assert_eq!(state, PointerState::PressedNonFolder { button: 0 });
    assert_eq!(cmds, vec![PointerCommand::Redraw]);
}

#[test]
fn idle_press_off_buttons_is_noop() {
    let (state, cmds) =
        transition(PointerState::Idle, PointerEvent::Press { x: 0, y: 0, hit: None });
    assert_eq!(state, PointerState::Idle);
    assert!(cmds.is_empty());
}

#[test]
fn hovering_move_onto_same_button_is_noop() {
    let (state, cmds) = transition(
        PointerState::Hovering { button: 1 },
        PointerEvent::Move {
            x: 50,
            y: 14,
            hit: Some(hit(1, true)),
            reorder_threshold_px: 5,
            insertion_if_reordering: 0,
        },
    );
    assert_eq!(state, PointerState::Hovering { button: 1 });
    assert!(cmds.is_empty());
}

#[test]
fn hovering_move_onto_different_button_updates_and_redraws() {
    let (state, cmds) = transition(
        PointerState::Hovering { button: 1 },
        PointerEvent::Move {
            x: 80,
            y: 14,
            hit: Some(hit(2, true)),
            reorder_threshold_px: 5,
            insertion_if_reordering: 0,
        },
    );
    assert_eq!(state, PointerState::Hovering { button: 2 });
    assert_eq!(cmds, vec![PointerCommand::Redraw]);
}

#[test]
fn hovering_move_off_all_buttons_returns_to_idle() {
    let (state, cmds) = transition(
        PointerState::Hovering { button: 1 },
        PointerEvent::Move {
            x: 0,
            y: 0,
            hit: None,
            reorder_threshold_px: 5,
            insertion_if_reordering: 0,
        },
    );
    assert_eq!(state, PointerState::Idle);
    assert_eq!(cmds, vec![PointerCommand::Redraw]);
}

#[test]
fn hovering_leave_returns_to_idle_and_redraws() {
    let (state, cmds) = transition(PointerState::Hovering { button: 3 }, PointerEvent::Leave);
    assert_eq!(state, PointerState::Idle);
    assert_eq!(cmds, vec![PointerCommand::Redraw]);
}

#[test]
fn hovering_press_on_folder_begins_folder_gesture() {
    let (state, cmds) = transition(
        PointerState::Hovering { button: 1 },
        PointerEvent::Press { x: 50, y: 14, hit: Some(hit(1, true)) },
    );
    assert_eq!(state, PointerState::PressedFolder { button: 1, press_x: 50, press_y: 14 });
    assert_eq!(
        cmds,
        vec![PointerCommand::CaptureMouse, PointerCommand::CancelInlineRename, PointerCommand::Redraw]
    );
}

#[test]
fn idle_capture_lost_is_noop() {
    let (state, cmds) = transition(PointerState::Idle, PointerEvent::CaptureLost);
    assert_eq!(state, PointerState::Idle);
    assert!(cmds.is_empty());
}

#[test]
fn hovering_capture_lost_is_noop() {
    let (state, cmds) = transition(PointerState::Hovering { button: 2 }, PointerEvent::CaptureLost);
    assert_eq!(state, PointerState::Hovering { button: 2 });
    assert!(cmds.is_empty());
}

#[test]
fn captured_states_ignore_leave_and_press() {
    let pressed = PointerState::PressedFolder { button: 1, press_x: 5, press_y: 5 };
    let (state, cmds) = transition(pressed, PointerEvent::Leave);
    assert_eq!(state, pressed);
    assert!(cmds.is_empty());
    let dragging = PointerState::DraggingReorder { source_button: 1, insertion: 2 };
    let (state, cmds) = transition(dragging, PointerEvent::Leave);
    assert_eq!(state, dragging);
    assert!(cmds.is_empty());
    let (state, cmds) =
        transition(dragging, PointerEvent::Press { x: 1, y: 1, hit: Some(hit(2, true)) });
    assert_eq!(state, dragging);
    assert!(cmds.is_empty());
}

#[test]
fn accessors_report_hover_press_and_drag() {
    assert_eq!(PointerState::Hovering { button: 4 }.hover_button(), Some(4));
    assert_eq!(PointerState::Idle.hover_button(), None);
    assert_eq!(PointerState::PressedNonFolder { button: 0 }.pressed_button(), Some(0));
    assert_eq!(
        PointerState::PressedFolder { button: 3, press_x: 0, press_y: 0 }.pressed_button(),
        Some(3)
    );
    assert_eq!(
        PointerState::DraggingReorder { source_button: 2, insertion: 5 }.dragging_reorder(),
        Some((2, 5))
    );
    assert_eq!(PointerState::Idle.dragging_reorder(), None);
    assert_eq!(PointerState::default(), PointerState::Idle);
}

fn release(hit_: Option<HitResult>, ctrl: bool) -> PointerEvent {
    PointerEvent::Release { x: 50, y: 14, hit: hit_, ctrl }
}

fn move_to(x: i32, y: i32, insertion: usize) -> PointerEvent {
    PointerEvent::Move {
        x,
        y,
        hit: Some(hit(1, true)),
        reorder_threshold_px: 5,
        insertion_if_reordering: insertion,
    }
}

#[test]
fn release_over_pressed_folder_clicks_it() {
    let pressed = PointerState::PressedFolder { button: 2, press_x: 60, press_y: 14 };
    let (state, cmds) = transition(pressed, release(Some(hit(2, true)), false));
    assert_eq!(state, PointerState::Hovering { button: 2 });
    assert_eq!(
        cmds,
        vec![
            PointerCommand::ReleaseMouse,
            PointerCommand::FireFolderClick { folder_button: 1, ctrl: false },
            PointerCommand::Redraw,
            PointerCommand::StartMouseTracking,
        ]
    );
}

#[test]
fn ctrl_release_over_pressed_folder_clicks_with_ctrl() {
    let pressed = PointerState::PressedFolder { button: 1, press_x: 50, press_y: 14 };
    let (_, cmds) = transition(pressed, release(Some(hit(1, true)), true));
    assert_eq!(cmds[1], PointerCommand::FireFolderClick { folder_button: 0, ctrl: true });
}

#[test]
fn release_elsewhere_releases_capture_without_click() {
    let pressed = PointerState::PressedFolder { button: 1, press_x: 50, press_y: 14 };
    let (state, cmds) = transition(pressed, release(Some(hit(3, true)), false));
    assert_eq!(state, PointerState::Hovering { button: 3 });
    assert_eq!(
        cmds,
        vec![PointerCommand::ReleaseMouse, PointerCommand::Redraw, PointerCommand::StartMouseTracking]
    );
    let (state, cmds) = transition(pressed, release(None, false));
    assert_eq!(state, PointerState::Idle);
    assert_eq!(cmds, vec![PointerCommand::ReleaseMouse, PointerCommand::Redraw]);
}

#[test]
fn release_over_pressed_add_button_fires_add_click() {
    let pressed = PointerState::PressedNonFolder { button: 0 };
    let (state, cmds) = transition(pressed, release(Some(hit(0, false)), false));
    assert_eq!(state, PointerState::Hovering { button: 0 });
    assert_eq!(
        cmds,
        vec![PointerCommand::FireAddClick, PointerCommand::Redraw, PointerCommand::StartMouseTracking]
    );
    let (state, cmds) = transition(pressed, release(None, false));
    assert_eq!(state, PointerState::Idle);
    assert_eq!(cmds, vec![PointerCommand::Redraw]);
}

#[test]
fn pressed_add_button_leave_returns_to_idle() {
    let (state, cmds) = transition(PointerState::PressedNonFolder { button: 0 }, PointerEvent::Leave);
    assert_eq!(state, PointerState::Idle);
    assert_eq!(cmds, vec![PointerCommand::Redraw]);
}

#[test]
fn move_within_threshold_keeps_press() {
    let pressed = PointerState::PressedFolder { button: 1, press_x: 50, press_y: 14 };
    let (state, cmds) = transition(pressed, move_to(55, 9, 2));
    assert_eq!(state, pressed);
    assert!(cmds.is_empty());
}

#[test]
fn move_past_threshold_starts_reorder_drag() {
    let pressed = PointerState::PressedFolder { button: 1, press_x: 50, press_y: 14 };
    let (state, cmds) = transition(pressed, move_to(56, 14, 2));
    assert_eq!(state, PointerState::DraggingReorder { source_button: 1, insertion: 2 });
    assert_eq!(cmds, vec![PointerCommand::Redraw]);
    let (state, _) = transition(pressed, move_to(50, 8, 0));
    assert_eq!(state, PointerState::DraggingReorder { source_button: 1, insertion: 0 });
}

#[test]
fn drag_follows_insertion_point() {
    let dragging = PointerState::DraggingReorder { source_button: 1, insertion: 2 };
    let (state, cmds) = transition(dragging, move_to(120, 14, 2));
    assert_eq!(state, dragging);
    assert!(cmds.is_empty());
    let (state, cmds) = transition(dragging, move_to(180, 14, 3));
    assert_eq!(state, PointerState::DraggingReorder { source_button: 1, insertion: 3 });
    assert_eq!(cmds, vec![PointerCommand::Redraw]);
}

#[test]
fn releasing_drag_commits_reorder() {
    let dragging = PointerState::DraggingReorder { source_button: 1, insertion: 3 };
    let (state, cmds) = transition(dragging, release(None, false));
    assert_eq!(state, PointerState::Idle);
    assert_eq!(
        cmds,
        vec![
            PointerCommand::ReleaseMouse,
            PointerCommand::CommitReorder { from_folder: 0, to_folder: 3 },
            PointerCommand::Redraw,
        ]
    );
}

#[test]
fn capture_loss_cancels_press_and_drag() {
    let pressed = PointerState::PressedFolder { button: 1, press_x: 50, press_y: 14 };
    let (state, cmds) = transition(pressed, PointerEvent::CaptureLost);
    assert_eq!(state, PointerState::Idle);
    assert_eq!(cmds, vec![PointerCommand::Redraw]);
    let dragging = PointerState::DraggingReorder { source_button: 1, insertion: 3 };
    let (state, cmds) = transition(dragging, PointerEvent::CaptureLost);
    assert_eq!(state, PointerState::Idle);
    assert_eq!(cmds, vec![PointerCommand::Redraw]);
}

#[test]
fn full_click_gesture_holds_capture_only_while_pressed() {
    let (s1, c1) = transition(PointerState::Idle, PointerEvent::Press { x: 50, y: 14, hit: Some(hit(1, true)) });
    assert!(c1.contains(&PointerCommand::CaptureMouse));
    let (s2, c2) = transition(s1, release(Some(hit(1, true)), false));
    assert!(c2.contains(&PointerCommand::ReleaseMouse));
    assert!(c2.contains(&PointerCommand::FireFolderClick { folder_button: 0, ctrl: false }));
    assert_eq!(s2, PointerState::Hovering { button: 1 });
}
