//! The window the toolbar currently serves: an Explorer window or a
//! Shell-hosted file dialog. Window handles are carried as their integer
//! values.

use vstd::prelude::*;

verus! {

/// What kind of window the toolbar is tracking as its navigation target.
#[derive(Debug, Clone, Copy, PartialEq, Eq, Structural)]
pub enum TargetKind {
    /// A File Explorer window (`CabinetWClass`).
    Explorer,
    /// A Shell-hosted file dialog (Save As / Open).
    FileDialog,
}

/// A foreground window handle paired with its kind.
#[derive(Debug, Clone, Copy, PartialEq, Eq, Structural)]
pub struct ActiveTarget {
    pub hwnd: isize,
    pub kind: TargetKind,
}

impl ActiveTarget {
    pub fn explorer(hwnd: isize) -> (r: ActiveTarget)
        ensures
            r == (ActiveTarget { hwnd, kind: TargetKind::Explorer }),
    {
        ActiveTarget { hwnd, kind: TargetKind::Explorer }
    }

    pub fn file_dialog(hwnd: isize) -> (r: ActiveTarget)
        ensures
            r == (ActiveTarget { hwnd, kind: TargetKind::FileDialog }),
    {
        ActiveTarget { hwnd, kind: TargetKind::FileDialog }
    }
}

} // verus!
