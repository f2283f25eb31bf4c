//! Toolbar position: per-kind offsets relative to the target window's
//! origin, their persistence schema, and clamping into a monitor's work
//! area.
//!
//! The position file holds `{"explorer": {...}, "file_dialog": {...}}`;
//! an older flat `{"offset_x": .., "offset_y": ..}` is promoted to both
//! kinds. The application parses the JSON and hands the parsed parts to
//! `PositionStore::from_per_kind` or `PositionStore::from_flat`.

use vstd::prelude::*;
use crate::layout::Rect;
use crate::target::{ActiveTarget, TargetKind};

verus! {

/// One `(offset_x, offset_y)` pair.
#[derive(Debug, Clone, Copy, PartialEq, Eq, Structural)]
pub struct SavedPos {
    pub offset_x: i32,
    pub offset_y: i32,
}

/// Saved offsets, one per target kind.
#[derive(Debug, Clone, Copy, PartialEq, Eq, Structural)]
pub struct PositionStore {
    explorer: SavedPos,
    file_dialog: SavedPos,
}

pub open spec fn zero_pos() -> SavedPos {
    SavedPos { offset_x: 0, offset_y: 0 }
}

impl PositionStore {
    pub closed spec fn explorer_pos(self) -> SavedPos {
        self.explorer
    }

    pub closed spec fn file_dialog_pos(self) -> SavedPos {
        self.file_dialog
    }

    pub open spec fn offset_spec(self, kind: TargetKind) -> SavedPos {
        match kind {
            TargetKind::Explorer => self.explorer_pos(),
            TargetKind::FileDialog => self.file_dialog_pos(),
        }
    }

    /// Both offsets zero (nothing saved yet).
    pub fn new() -> (r: PositionStore)
        ensures
            r.explorer_pos() == zero_pos(),
            r.file_dialog_pos() == zero_pos(),
    {
        let z = SavedPos { offset_x: 0, offset_y: 0 };
        PositionStore { explorer: z, file_dialog: z }
    }

    /// From the per-kind schema: a missing `explorer` is zero, a missing
    /// `file_dialog` takes the explorer value.
    pub fn from_per_kind(explorer: Option<SavedPos>, file_dialog: Option<SavedPos>) -> (r:
        PositionStore)
        ensures
            r.explorer_pos() == match explorer {
                Some(p) => p,
                None => zero_pos(),
            },
            r.file_dialog_pos() == match file_dialog {
                Some(p) => p,
                None => r.explorer_pos(),
            },
    {
        let ex = match explorer {
            Some(p) => p,
            None => SavedPos { offset_x: 0, offset_y: 0 },
        };
        let fd = match file_dialog {
            Some(p) => p,
            None => ex,
        };
        PositionStore { explorer: ex, file_dialog: fd }
    }

    /// From the legacy flat schema: the one offset serves both kinds.
    pub fn from_flat(p: SavedPos) -> (r: PositionStore)
        ensures
            r.explorer_pos() == p,
            r.file_dialog_pos() == p,
    {
        PositionStore { explorer: p, file_dialog: p }
    }

    /// The saved offset for `kind`.
    pub fn offset(&self, kind: TargetKind) -> (r: SavedPos)
        ensures
            r == self.offset_spec(kind),
    {
        match kind {
            TargetKind::Explorer => self.explorer,
            TargetKind::FileDialog => self.file_dialog,
        }
    }

    /// Overwrites the offset for `kind`, keeping the other kind's.
    pub fn set_offset(&mut self, kind: TargetKind, pos: SavedPos)
        ensures
            final(self).offset_spec(kind) == pos,
            forall|k: TargetKind| k != kind ==> final(self).offset_spec(k) == old(self).offset_spec(k),
    {
        match kind {
            TargetKind::Explorer => self.explorer = pos,
            TargetKind::FileDialog => self.file_dialog = pos,
        }
    }
}

pub open spec fn clamp_spec(v: int, lo: int, hi: int) -> int {
    if v < lo { lo } else if v > hi { hi } else { v }
}

/// The coordinate that `clamp_to_work_area` gives along one axis.
pub open spec fn clamp_axis(v: int, size: int, lo: int, hi: int) -> int {
    if size > hi - lo { lo } else { clamp_spec(v, lo, hi - size) }
}

pub open spec fn work_area_ok(w: i32, h: i32, work: Rect) -> bool {
    &&& i32::MIN <= work.right - work.left <= i32::MAX
    &&& i32::MIN <= work.bottom - work.top <= i32::MAX
    &&& i32::MIN <= work.right - w <= i32::MAX
    &&& i32::MIN <= work.bottom - h <= i32::MAX
}

/// Whether `clamp_to_work_area` can clamp a `w` by `h` rectangle into
/// `work` without leaving the `i32` range.
pub fn work_area_ok_for_size(w: i32, h: i32, work: Rect) -> (r: bool)
    ensures
        r == work_area_ok(w, h, work),
{
    let in_range = |v: i64| -> (b: bool)
        ensures
            b == (i32::MIN <= v <= i32::MAX),
        { i32::MIN as i64 <= v && v <= i32::MAX as i64 };
    in_range(work.right as i64 - work.left as i64) && in_range(work.bottom as i64 - work.top as i64)
        && in_range(work.right as i64 - w as i64) && in_range(work.bottom as i64 - h as i64)
}

/// Clamps the rectangle `(x, y, w, h)` into `work`; along an axis where it
/// is larger than the work area it is pinned to the work area's start.
pub fn clamp_to_work_area(x: i32, y: i32, w: i32, h: i32, work: Rect) -> (r: (i32, i32))
    requires
        work_area_ok(w, h, work),
    ensures
        r.0 == clamp_axis(x as int, w as int, work.left as int, work.right as int),
        r.1 == clamp_axis(y as int, h as int, work.top as int, work.bottom as int),
{
    let work_w = work.right - work.left;
    let work_h = work.bottom - work.top;
    let cx = if w > work_w {
        work.left
    } else {
        let hi = work.right - w;
        if x < work.left {
            work.left
        } else if x > hi {
            hi
        } else {
            x
        }
    };
    let cy = if h > work_h {
        work.top
    } else {
        let hi = work.bottom - h;
        if y < work.top {
            work.top
        } else if y > hi {
            hi
        } else {
            y
        }
    };
    (cx, cy)
}

/// The toolbar's offset from a target window's origin.
pub fn compute_offset(toolbar_x: i32, toolbar_y: i32, origin_x: i32, origin_y: i32) -> (r: (
    i32,
    i32,
))
    requires
        i32::MIN <= toolbar_x - origin_x <= i32::MAX,
        i32::MIN <= toolbar_y - origin_y <= i32::MAX,
    ensures
        r.0 == toolbar_x - origin_x,
        r.1 == toolbar_y - origin_y,
{
    (toolbar_x - origin_x, toolbar_y - origin_y)
}

/// Screen coordinates of a saved offset applied to a target window's origin.
pub fn apply_offset(offset_x: i32, offset_y: i32, origin_x: i32, origin_y: i32) -> (r: (i32, i32))
    requires
        i32::MIN <= origin_x + offset_x <= i32::MAX,
        i32::MIN <= origin_y + offset_y <= i32::MAX,
    ensures
        r.0 == origin_x + offset_x,
        r.1 == origin_y + offset_y,
{
    (origin_x + offset_x, origin_y + offset_y)
}

/// Saving an offset and applying it to the same origin gives back the
/// toolbar position; applying a saved offset and recomputing it from the
/// same origin gives back the offset.
pub proof fn lemma_offset_round_trip(tx: int, ty: int, ox: int, oy: int)
    ensures
        ox + (tx - ox) == tx,
        oy + (ty - oy) == ty,
        (ox + tx) - ox == tx,
        (oy + ty) - oy == ty,
{
}

/// A clamped toolbar that fits the work area lies entirely inside it.
pub proof fn lemma_clamped_inside(v: int, size: int, lo: int, hi: int)
    requires
        0 <= size <= hi - lo,
    ensures
        lo <= clamp_axis(v, size, lo, hi),
        clamp_axis(v, size, lo, hi) + size <= hi,
{
}

/// Clamping leaves a position that already fits unchanged.
pub proof fn lemma_clamp_keeps_fitting(v: int, size: int, lo: int, hi: int)
    requires
        size <= hi - lo,
        lo <= v,
        v + size <= hi,
    ensures
        clamp_axis(v, size, lo, hi) == v,
{
}

/// The clamp written as the in-Explorer toolbar writes it,
/// `min(max(v, lo), max(hi - size, lo))`, gives the same coordinate.
pub proof fn lemma_clamp_min_max_form(v: int, size: int, lo: int, hi: int)
    ensures
        clamp_axis(v, size, lo, hi) == ({
            let a = if v > lo { v } else { lo };
            let b = if hi - size > lo { hi - size } else { lo };
            if a < b { a } else { b }
        }),
{
}

/// The toolbar's default place on a ready Explorer window: 40 px right of
/// its left edge and 120 px below its top (under the title bar, tabs and
/// command bar), 400 by 40 px.
pub fn explorer_default_pos(cabinet: Rect) -> (r: Rect)
    requires
        cabinet.left + 440 <= i32::MAX,
        cabinet.top + 160 <= i32::MAX,
    ensures
        r == (Rect {
            left: (cabinet.left + 40) as i32,
            top: (cabinet.top + 120) as i32,
            right: (cabinet.left + 440) as i32,
            bottom: (cabinet.top + 160) as i32,
        }),
{
    Rect {
        left: cabinet.left + 40,
        top: cabinet.top + 120,
        right: cabinet.left + 440,
        bottom: cabinet.top + 160,
    }
}

/// Width and height used to clamp a toolbar whose real size is not known yet.
pub const PLACEHOLDER_WIDTH: i32 = 400;
pub const PLACEHOLDER_HEIGHT: i32 = 30;

/// Where a new toolbar goes: the saved Explorer offset applied to the
/// target's origin, or else the default position, clamped into the work
/// area at the placeholder size.
pub fn initial_toolbar_position(
    saved_offset: Option<(i32, i32)>,
    origin_x: i32,
    origin_y: i32,
    default_pos: Rect,
    work: Rect,
) -> (r: (i32, i32))
    requires
        match saved_offset {
            Some((ox, oy)) => i32::MIN <= origin_x + ox <= i32::MAX && i32::MIN <= origin_y + oy
                <= i32::MAX,
            None => true,
        },
        work_area_ok(PLACEHOLDER_WIDTH, PLACEHOLDER_HEIGHT, work),
    ensures
        ({
            let (x, y) = match saved_offset {
                Some((ox, oy)) => (origin_x + ox, origin_y + oy),
                None => (default_pos.left as int, default_pos.top as int),
            };
            &&& r.0 == clamp_axis(
                x,
                PLACEHOLDER_WIDTH as int,
                work.left as int,
                work.right as int,
            )
            &&& r.1 == clamp_axis(
                y,
                PLACEHOLDER_HEIGHT as int,
                work.top as int,
                work.bottom as int,
            )
        }),
{
    let (x, y) = match saved_offset {
        Some((ox, oy)) => apply_offset(ox, oy, origin_x, origin_y),
        None => (default_pos.left, default_pos.top),
    };
    clamp_to_work_area(x, y, PLACEHOLDER_WIDTH, PLACEHOLDER_HEIGHT, work)
}

/// Where to move the toolbar when re-attaching to a target: with a saved
/// offset, that offset applied to the target's origin and clamped for the
/// toolbar's size; without one, `None` (show it where it is).
pub fn reposition_target(
    saved_offset: Option<(i32, i32)>,
    origin_x: i32,
    origin_y: i32,
    toolbar_w: i32,
    toolbar_h: i32,
    work: Rect,
) -> (r: Option<(i32, i32)>)
    requires
        match saved_offset {
            Some((ox, oy)) => i32::MIN <= origin_x + ox <= i32::MAX && i32::MIN <= origin_y + oy
                <= i32::MAX,
            None => true,
        },
        work_area_ok(toolbar_w, toolbar_h, work),
    ensures
        match saved_offset {
            Some((ox, oy)) => r == Some(
                (
                    clamp_axis(
                        origin_x + ox,
                        toolbar_w as int,
                        work.left as int,
                        work.right as int,
                    ) as i32,
                    clamp_axis(
                        origin_y + oy,
                        toolbar_h as int,
                        work.top as int,
                        work.bottom as int,
                    ) as i32,
                ),
            ),
            None => r is None,
        },
{
    match saved_offset {
        Some((ox, oy)) => {
            let (tx, ty) = apply_offset(ox, oy, origin_x, origin_y);
            Some(clamp_to_work_area(tx, ty, toolbar_w, toolbar_h, work))
        },
        None => None,
    }
}

/// When the toolbar window moves to `(x, y)`, the offset to save and the
/// kind it is saved under (the active target's kind). `None` when no
/// target is active.
pub fn offset_to_save(active: Option<ActiveTarget>, x: i32, y: i32, origin_x: i32, origin_y: i32) -> (r:
    Option<(TargetKind, i32, i32)>)
    requires
        i32::MIN <= x - origin_x <= i32::MAX,
        i32::MIN <= y - origin_y <= i32::MAX,
    ensures
        match active {
            Some(t) => r == Some((t.kind, (x - origin_x) as i32, (y - origin_y) as i32)),
            None => r is None,
        },
{
    match active {
        Some(t) => {
            let (ox, oy) = compute_offset(x, y, origin_x, origin_y);
            Some((t.kind, ox, oy))
        },
        None => None,
    }
}

} // verus!
