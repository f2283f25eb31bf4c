use exbar::target::{ActiveTarget, TargetKind};

#[test]
fn explorer_constructor_sets_kind() {
    let t = ActiveTarget::explorer(42);
    assert_eq!(t.kind, TargetKind::Explorer);
    assert_eq!(t.hwnd, 42);
}

#[test]
fn file_dialog_constructor_sets_kind() {
    let t = ActiveTarget::file_dialog(99);
    assert_eq!(t.kind, TargetKind::FileDialog);
    assert_eq!(t.hwnd, 99);
}
