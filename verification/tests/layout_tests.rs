use exbar::config::{FolderEntry, Layout};
use exbar::drop_effect::DropAction;
use exbar::layout::{
    compute_insertion_index, compute_layout, hit_test, in_grip, layout_input_fits, resolve_drop_action,
    ButtonLayout, InsertionInput, LayoutInput, Rect,
};

fn mk_button(rect: Rect) -> ButtonLayout {
    ButtonLayout {
        rect,
        folder: FolderEntry { name: "x".into(), path: "p".into(), icon: None },
        is_add: false,
    }
}

#[test]
fn rect_width_and_height() {
    let r = Rect { left: 10, top: 20, right: 50, bottom: 60 };
    assert_eq!(r.width(), 40);
    assert_eq!(r.height(), 40);
}

#[test]
fn rect_contains_point() {
    let r = Rect { left: 10, top: 20, right: 50, bottom: 60 };
    assert!(r.contains(10, 20));
    assert!(r.contains(30, 40));
    assert!(!r.contains(50, 40));
    assert!(!r.contains(30, 60));
    assert!(!r.contains(9, 30));
    assert!(!r.contains(30, 19));
}

#[test]
fn rect_zero_size_contains_nothing() {
    let r = Rect { left: 10, top: 10, right: 10, bottom: 10 };
    assert!(!r.contains(10, 10));
    assert!(!r.contains(0, 0));
}

#[test]
fn empty_buttons_returns_none() {
    assert_eq!(hit_test(&[], 0, 0), None);
}

#[test]
fn point_inside_button_returns_index() {
    let buttons = [
        mk_button(Rect { left: 0, top: 0, right: 50, bottom: 28 }),
        mk_button(Rect { left: 60, top: 0, right: 110, bottom: 28 }),
    ];
    assert_eq!(hit_test(&buttons, 25, 14), Some(0));
    assert_eq!(hit_test(&buttons, 80, 14), Some(1));
}

#[test]
fn point_outside_all_buttons_returns_none() {
    let buttons = [mk_button(Rect { left: 0, top: 0, right: 50, bottom: 28 })];
    assert_eq!(hit_test(&buttons, 100, 100), None);
}

#[test]
fn top_left_corner_inclusive() {
    let buttons = [mk_button(Rect { left: 10, top: 20, right: 50, bottom: 60 })];
    assert_eq!(hit_test(&buttons, 10, 20), Some(0));
}

#[test]
fn right_edge_exclusive() {
    let buttons = [mk_button(Rect { left: 10, top: 20, right: 50, bottom: 60 })];
    assert_eq!(hit_test(&buttons, 50, 30), None);
}

#[test]
fn bottom_edge_exclusive() {
    let buttons = [mk_button(Rect { left: 10, top: 20, right: 50, bottom: 60 })];
    assert_eq!(hit_test(&buttons, 30, 60), None);
}

#[test]
fn point_in_gap_between_buttons_returns_none() {
    let buttons = [
        mk_button(Rect { left: 0, top: 0, right: 50, bottom: 28 }),
        mk_button(Rect { left: 60, top: 0, right: 110, bottom: 28 }),
    ];
    assert_eq!(hit_test(&buttons, 55, 14), None);
}

#[test]
fn returns_first_overlapping_button_if_overlapping() {
    let buttons = [
        mk_button(Rect { left: 0, top: 0, right: 50, bottom: 28 }),
        mk_button(Rect { left: 20, top: 0, right: 80, bottom: 28 }),
    ];
    assert_eq!(hit_test(&buttons, 30, 14), Some(0));
}

#[test]
fn grip_is_leading_column_or_row() {
    assert!(in_grip(Layout::Horizontal, 12, 11, 100));
    assert!(!in_grip(Layout::Horizontal, 12, 12, 0));
    assert!(in_grip(Layout::Vertical, 12, 100, 11));
    assert!(!in_grip(Layout::Vertical, 12, 0, 12));
}

#[test]
fn drop_action_under_point() {
    let add = ButtonLayout {
        rect: Rect { left: 12, top: 0, right: 40, bottom: 28 },
        folder: FolderEntry { name: String::new(), path: String::new(), icon: None },
        is_add: true,
    };
    let folder = ButtonLayout {
        rect: Rect { left: 42, top: 0, right: 100, bottom: 28 },
        folder: FolderEntry { name: "D".into(), path: "C:\\D".into(), icon: None },
        is_add: false,
    };
    let buttons = [add, folder];
    assert_eq!(resolve_drop_action(&buttons, 20, 10), Some(DropAction::AddFolder));
    assert_eq!(
        resolve_drop_action(&buttons, 50, 10),
        Some(DropAction::MoveCopyTo { target: "C:\\D".to_string() })
    );
    assert_eq!(resolve_drop_action(&buttons, 41, 10), None);
}

fn mk_at(left: i32, top: i32, is_add: bool) -> ButtonLayout {
    ButtonLayout {
        rect: Rect { left, top, right: left + 60, bottom: top + 28 },
        folder: FolderEntry { name: "x".into(), path: "p".into(), icon: None },
        is_add,
    }
}

#[test]
fn insertion_index_counts_folder_centres_before_cursor() {
    // `+` at 12..72, folders at 80..140, 150..210, 220..280.
    let buttons = vec![mk_at(12, 0, true), mk_at(80, 0, false), mk_at(150, 0, false), mk_at(220, 0, false)];
    let at = |x: i32| {
        compute_insertion_index(&InsertionInput {
            buttons: &buttons,
            orientation: Layout::Horizontal,
            cursor_x: x,
            cursor_y: 10,
        })
    };
    assert_eq!(at(0), 0);
    assert_eq!(at(110), 0);
    assert_eq!(at(111), 1);
    assert_eq!(at(181), 2);
    assert_eq!(at(500), 3);
}

#[test]
fn insertion_index_vertical_uses_y() {
    let buttons = vec![mk_at(0, 0, true), mk_at(0, 30, false), mk_at(0, 60, false)];
    let ins = compute_insertion_index(&InsertionInput {
        buttons: &buttons,
        orientation: Layout::Vertical,
        cursor_x: 1000,
        cursor_y: 50,
    });
    assert_eq!(ins, 1);
}

fn folders_de() -> Vec<FolderEntry> {
    vec![
        FolderEntry { name: "D".into(), path: "C:\\D".into(), icon: None },
        FolderEntry { name: "E".into(), path: "C:\\E".into(), icon: None },
    ]
}

#[test]
fn horizontal_layout_places_grip_add_and_folders() {
    let folders = folders_de();
    let widths = [30, 50];
    let input = LayoutInput {
        dpi: 96,
        orientation: Layout::Horizontal,
        folders: &folders,
        folder_text_widths_physical_px: &widths,
        grip_size_logical_px: 12,
    };
    assert!(layout_input_fits(&input));
    let l = compute_layout(&input);
    assert_eq!(l.buttons.len(), 3);
    assert!(l.buttons[0].is_add);
    assert_eq!(l.buttons[0].folder.name, "+");
    assert_eq!(l.buttons[0].rect, Rect { left: 12, top: 0, right: 40, bottom: 28 });
    assert_eq!(l.buttons[1].rect, Rect { left: 42, top: 0, right: 92, bottom: 28 });
    assert_eq!(l.buttons[1].folder.path, "C:\\D");
    assert_eq!(l.buttons[2].rect, Rect { left: 94, top: 0, right: 164, bottom: 28 });
    assert_eq!((l.total_width, l.total_height), (164, 28));
}

#[test]
fn vertical_layout_stacks_equal_width_rows() {
    let folders = folders_de();
    let widths = [30, 50];
    let input = LayoutInput {
        dpi: 192,
        orientation: Layout::Vertical,
        folders: &folders,
        folder_text_widths_physical_px: &widths,
        grip_size_logical_px: 12,
    };
    let l = compute_layout(&input);
    // At 200 %: grip 24, rows 56 high with a 4 px gap, width 50 + 2 * 20.
    assert_eq!(l.buttons[0].rect, Rect { left: 0, top: 24, right: 90, bottom: 80 });
    assert_eq!(l.buttons[1].rect, Rect { left: 0, top: 84, right: 90, bottom: 140 });
    assert_eq!(l.buttons[2].rect, Rect { left: 0, top: 144, right: 90, bottom: 200 });
    assert_eq!((l.total_width, l.total_height), (90, 200));
}

#[test]
fn empty_layout_has_only_the_add_button() {
    let input = LayoutInput {
        dpi: 96,
        orientation: Layout::Horizontal,
        folders: &[],
        folder_text_widths_physical_px: &[],
        grip_size_logical_px: 12,
    };
    let l = compute_layout(&input);
    assert_eq!(l.buttons.len(), 1);
    assert_eq!((l.total_width, l.total_height), (40, 28));
}

#[test]
fn layout_input_fits_refuses_mismatch_and_overflow() {
    let folders = folders_de();
    let short = [30];
    let mismatch = LayoutInput {
        dpi: 96,
        orientation: Layout::Horizontal,
        folders: &folders,
        folder_text_widths_physical_px: &short,
        grip_size_logical_px: 12,
    };
    assert!(!layout_input_fits(&mismatch));
    let huge = [i32::MAX, 5];
    let overflow = LayoutInput {
        dpi: 96,
        orientation: Layout::Horizontal,
        folders: &folders,
        folder_text_widths_physical_px: &huge,
        grip_size_logical_px: 12,
    };
    assert!(!layout_input_fits(&overflow));
}
