use exbar::layout::Rect;
use exbar::position::{
    apply_offset, clamp_to_work_area, compute_offset, explorer_default_pos,
    initial_toolbar_position, offset_to_save, reposition_target, PositionStore, SavedPos,
};
use exbar::target::{ActiveTarget, TargetKind};

fn rect(l: i32, t: i32, r: i32, b: i32) -> Rect {
    Rect { left: l, top: t, right: r, bottom: b }
}

#[test]
fn in_bounds_passthrough() {
    let work = rect(0, 0, 1920, 1080);
    assert_eq!(clamp_to_work_area(100, 100, 400, 40, work), (100, 100));
}

#[test]
fn off_right_clamps_to_right_edge() {
    let work = rect(0, 0, 1920, 1080);
    assert_eq!(clamp_to_work_area(2000, 100, 400, 40, work), (1520, 100));
}

#[test]
fn off_bottom_clamps_to_bottom_edge() {
    let work = rect(0, 0, 1920, 1080);
    assert_eq!(clamp_to_work_area(100, 1100, 400, 40, work), (100, 1040));
}

#[test]
fn negative_clamps_to_top_left() {
    let work = rect(0, 0, 1920, 1080);
    assert_eq!(clamp_to_work_area(-50, -50, 400, 40, work), (0, 0));
}

#[test]
fn oversized_pins_to_top_left() {
    let work = rect(0, 0, 1920, 1080);
    assert_eq!(clamp_to_work_area(500, 500, 4000, 40, work), (0, 500));
    assert_eq!(clamp_to_work_area(500, 500, 400, 4000, work), (500, 0));
}

#[test]
fn nonzero_origin_work_area() {
    let work = rect(1920, 0, 3840, 1080);
    assert_eq!(clamp_to_work_area(2000, 100, 400, 40, work), (2000, 100));
    assert_eq!(clamp_to_work_area(1800, 100, 400, 40, work), (1920, 100));
    assert_eq!(clamp_to_work_area(4000, 100, 400, 40, work), (3440, 100));
}

#[test]
fn compute_offset_basic() {
    assert_eq!(compute_offset(500, 200, 100, 100), (400, 100));
}

#[test]
fn apply_offset_basic() {
    assert_eq!(apply_offset(400, 100, 100, 100), (500, 200));
}

#[test]
fn offset_round_trip() {
    let (ox, oy) = compute_offset(500, 200, 100, 100);
    assert_eq!(apply_offset(ox, oy, 100, 100), (500, 200));
}

#[test]
fn offset_negative_origin_multi_monitor() {
    let (ox, oy) = compute_offset(-1500, 200, -1920, 0);
    assert_eq!((ox, oy), (420, 200));
    assert_eq!(apply_offset(ox, oy, -1920, 0), (-1500, 200));
}

#[test]
fn store_per_kind_returns_each_kind() {
    let store = PositionStore::from_per_kind(
        Some(SavedPos { offset_x: 10, offset_y: 20 }),
        Some(SavedPos { offset_x: 30, offset_y: 40 }),
    );
    assert_eq!(store.offset(TargetKind::Explorer), SavedPos { offset_x: 10, offset_y: 20 });
    assert_eq!(store.offset(TargetKind::FileDialog), SavedPos { offset_x: 30, offset_y: 40 });
}

#[test]
fn store_flat_schema_serves_both_kinds() {
    let store = PositionStore::from_flat(SavedPos { offset_x: 5, offset_y: 7 });
    assert_eq!(store.offset(TargetKind::Explorer), SavedPos { offset_x: 5, offset_y: 7 });
    assert_eq!(store.offset(TargetKind::FileDialog), SavedPos { offset_x: 5, offset_y: 7 });
}

#[test]
fn store_missing_dialog_takes_explorer_value() {
    let store = PositionStore::from_per_kind(Some(SavedPos { offset_x: 1, offset_y: 2 }), None);
    assert_eq!(store.offset(TargetKind::FileDialog), SavedPos { offset_x: 1, offset_y: 2 });
    let empty = PositionStore::from_per_kind(None, None);
    assert_eq!(empty.offset(TargetKind::Explorer), SavedPos { offset_x: 0, offset_y: 0 });
}

#[test]
fn store_set_offset_keeps_other_kind() {
    let mut store = PositionStore::new();
    store.set_offset(TargetKind::Explorer, SavedPos { offset_x: 11, offset_y: 22 });
    store.set_offset(TargetKind::FileDialog, SavedPos { offset_x: 33, offset_y: 44 });
    assert_eq!(store.offset(TargetKind::Explorer), SavedPos { offset_x: 11, offset_y: 22 });
    assert_eq!(store.offset(TargetKind::FileDialog), SavedPos { offset_x: 33, offset_y: 44 });
}

#[test]
fn default_position_below_command_bar() {
    let r = explorer_default_pos(rect(100, 50, 1100, 850));
    assert_eq!(r, rect(140, 170, 540, 210));
}

#[test]
fn initial_position_uses_saved_offset_or_default() {
    let work = rect(0, 0, 1920, 1080);
    assert_eq!(
        initial_toolbar_position(Some((400, 100)), 100, 100, rect(140, 170, 540, 210), work),
        (500, 200)
    );
    assert_eq!(
        initial_toolbar_position(None, 100, 100, rect(140, 170, 540, 210), work),
        (140, 170)
    );
    assert_eq!(
        initial_toolbar_position(Some((5000, 0)), 0, 0, rect(0, 0, 0, 0), work),
        (1520, 0)
    );
}

#[test]
fn reposition_only_with_saved_offset() {
    let work = rect(0, 0, 1920, 1080);
    assert_eq!(reposition_target(Some((10, 20)), 100, 100, 300, 30, work), Some((110, 120)));
    assert_eq!(reposition_target(None, 100, 100, 300, 30, work), None);
}

#[test]
fn moved_toolbar_saves_offset_under_target_kind() {
    assert_eq!(
        offset_to_save(Some(ActiveTarget::file_dialog(7)), 500, 200, 100, 100),
        Some((TargetKind::FileDialog, 400, 100))
    );
    assert_eq!(offset_to_save(None, 500, 200, 100, 100), None);
}
