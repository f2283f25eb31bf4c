//! Layout of the in-Explorer toolbar variant: a grip, a refresh button
//! (`↻`) and one button per folder, sized from a fixed per-character width
//! instead of measured text.

use vstd::prelude::*;
use crate::config::{Config, FolderEntry, Layout};
use crate::layout::Rect;
use crate::theme::scale;

verus! {

pub const CLASSIC_BUTTON_SIZE: i32 = 28;
pub const CLASSIC_PAD_H: i32 = 10;
pub const CLASSIC_GAP: i32 = 2;
pub const CLASSIC_GRIP: i32 = 12;
pub const CLASSIC_CHAR_W: i32 = 8;
pub const CLASSIC_ICON_W: i32 = 14;
pub const CLASSIC_ICON_GAP: i32 = 4;

/// A placed button; the first one is the refresh button.
#[derive(Debug)]
pub struct ClassicButton {
    pub rect: Rect,
    pub folder: FolderEntry,
    pub is_refresh: bool,
}

/// `theme::scale` of a small non-negative logical size.
pub open spec fn sc(px: int, dpi: u32) -> int {
    (px * dpi) / 96
}

/// Width of a folder button in the horizontal layout.
pub open spec fn folder_w_h(n: int, dpi: u32) -> int {
    2 * sc(10, dpi) + n * sc(8, dpi)
}

/// Width a folder needs in the vertical layout (glyph space included).
pub open spec fn folder_w_v(n: int, dpi: u32) -> int {
    2 * sc(10, dpi) + sc(14, dpi) + sc(4, dpi) + n * sc(8, dpi)
}

/// The common width of all buttons: at least the refresh button's size,
/// at least every folder's vertical width.
pub open spec fn max_width(folders: Seq<FolderEntry>, dpi: u32) -> int
    decreases folders.len(),
{
    if folders.len() == 0 {
        sc(28, dpi)
    } else {
        let m = max_width(folders.drop_last(), dpi);
        let w = folder_w_v(folders.last().name@.len() as int, dpi);
        if w > m { w } else { m }
    }
}

/// In the horizontal layout, the left edge of the button that follows the
/// folders `folders`.
pub open spec fn next_x(folders: Seq<FolderEntry>, dpi: u32) -> int
    decreases folders.len(),
{
    if folders.len() == 0 {
        sc(12, dpi) + sc(28, dpi) + sc(2, dpi)
    } else {
        next_x(folders.drop_last(), dpi) + folder_w_h(folders.last().name@.len() as int, dpi) + sc(
            2,
            dpi,
        )
    }
}

/// In the vertical layout, the top edge of button `k` (0 is refresh).
pub open spec fn row_top(k: int, dpi: u32) -> int {
    sc(12, dpi) + k * (sc(28, dpi) + sc(2, dpi))
}

/// Every size the layout computes fits in an `i32`.
pub open spec fn classic_fits(folders: Seq<FolderEntry>, dpi: u32) -> bool {
    &&& 28 * dpi <= u32::MAX
    &&& forall|i: int| 0 <= i < folders.len() ==> #[trigger] folders[i].name@.len() <= i32::MAX
    &&& max_width(folders, dpi) <= i32::MAX
    &&& next_x(folders, dpi) <= i32::MAX
    &&& row_top(folders.len() as int + 1, dpi) <= i32::MAX
}

/// The refresh button's folder entry: named `↻`, with an empty path.
pub open spec fn refresh_entry_ok(f: FolderEntry) -> bool {
    f.name@ == seq!['\u{21BB}'] && f.path@.len() == 0 && f.icon is None
}

pub open spec fn classic_layout_ok(
    folders: Seq<FolderEntry>,
    layout: Layout,
    dpi: u32,
    buttons: Seq<ClassicButton>,
    w: i32,
    h: i32,
) -> bool {
    let n = folders.len();
    let bh = sc(28, dpi);
    &&& buttons.len() == n + 1
    &&& buttons[0].is_refresh
    &&& refresh_entry_ok(buttons[0].folder)
    &&& forall|i: int| 0 <= i < n ==> !(#[trigger] buttons[i + 1]).is_refresh && buttons[i
        + 1].folder == folders[i]
    &&& match layout {
        Layout::Vertical => {
            let mw = max_width(folders, dpi);
            &&& forall|k: int| 0 <= k <= n ==> (#[trigger] buttons[k]).rect == (Rect {
                left: 0,
                top: row_top(k, dpi) as i32,
                right: mw as i32,
                bottom: (row_top(k, dpi) + bh) as i32,
            })
            &&& w == mw
            &&& h == row_top(n as int + 1, dpi) - sc(2, dpi)
        },
        Layout::Horizontal => {
            &&& buttons[0].rect == (Rect {
                left: sc(12, dpi) as i32,
                top: 0,
                right: (sc(12, dpi) + sc(28, dpi)) as i32,
                bottom: bh as i32,
            })
            &&& forall|i: int| 0 <= i < n ==> (#[trigger] buttons[i + 1]).rect == (Rect {
                left: next_x(folders.take(i), dpi) as i32,
                top: 0,
                right: (next_x(folders.take(i), dpi) + folder_w_h(
                    folders[i].name@.len() as int,
                    dpi,
                )) as i32,
                bottom: bh as i32,
            })
            &&& w == next_x(folders, dpi) - sc(2, dpi)
            &&& h == bh
        },
    }
}

proof fn lemma_max_width_bounds(folders: Seq<FolderEntry>, dpi: u32, i: int)
    requires
        0 <= i <= folders.len(),
    ensures
        max_width(folders.take(i), dpi) <= max_width(folders, dpi),
        sc(28, dpi) <= max_width(folders, dpi),
    decreases folders.len(),
{
    if folders.len() > 0 {
        lemma_max_width_bounds(folders.drop_last(), dpi, 0);
        if i == folders.len() {
            assert(folders.take(i) =~= folders);
        } else {
            lemma_max_width_bounds(folders.drop_last(), dpi, i);
            assert(folders.drop_last().take(i) =~= folders.take(i));
        }
    }
}

proof fn lemma_next_x_mono(folders: Seq<FolderEntry>, dpi: u32, i: int)
    requires
        0 <= i <= folders.len(),
    ensures
        next_x(folders.take(i), dpi) <= next_x(folders, dpi),
        sc(12, dpi) + sc(28, dpi) + sc(2, dpi) <= next_x(folders, dpi),
    decreases folders.len(),
{
    if folders.len() > 0 {
        if i == folders.len() {
            assert(folders.take(i) =~= folders);
        } else {
            lemma_next_x_mono(folders.drop_last(), dpi, i);
            assert(folders.drop_last().take(i) =~= folders.take(i));
        }
        lemma_next_x_mono(folders.drop_last(), dpi, 0);
        assert(0 <= folders.last().name@.len() * sc(8, dpi)) by (nonlinear_arith)
            requires
                0 <= sc(8, dpi),
        ;
    }
}

fn refresh_entry() -> (r: FolderEntry)
    ensures
        refresh_entry_ok(r),
{
    proof {
        reveal_strlit("\u{21BB}");
    }
    let name = String::from_str("\u{21BB}");
    assert(name@ =~= seq!['\u{21BB}']);
    proof {
        reveal_strlit("");
    }
    let path = String::from_str("");
    assert(path@.len() == 0);
    FolderEntry { name, path, icon: None }
}

/// The common button width over `folders` (the refresh size at least).
fn compute_max_width(folders: &[FolderEntry], dpi: u32) -> (r: i64)
    requires
        classic_fits(folders@, dpi),
    ensures
        r == max_width(folders@, dpi),
{
    let pad = scale(CLASSIC_PAD_H, dpi) as i64;
    let cw = scale(CLASSIC_CHAR_W, dpi) as i64;
    let icon = scale(CLASSIC_ICON_W, dpi) as i64;
    let icon_gap = scale(CLASSIC_ICON_GAP, dpi) as i64;
    let mut m: i64 = scale(CLASSIC_BUTTON_SIZE, dpi) as i64;
    let mut i: usize = 0;
    proof {
        assert(folders@.take(0) =~= Seq::<FolderEntry>::empty());
    }
    while i < folders.len()
        invariant
            i <= folders@.len(),
            classic_fits(folders@, dpi),
            pad == sc(10, dpi),
            cw == sc(8, dpi),
            icon == sc(14, dpi),
            icon_gap == sc(4, dpi),
            m == max_width(folders@.take(i as int), dpi),
        decreases folders@.len() - i,
    {
        proof {
            lemma_max_width_bounds(folders@, dpi, i as int + 1);
            assert(folders@.take(i as int + 1).drop_last() =~= folders@.take(i as int));
        }
        let n: i64 = folders[i].name.unicode_len() as i64;
        assert(folders@[i as int].name@.len() <= i32::MAX);
        assert(0 <= n * cw <= i32::MAX) by (nonlinear_arith)
            requires
                0 <= n,
                0 <= cw,
                2 * pad + icon + icon_gap + n * cw <= i32::MAX,
                0 <= pad,
                0 <= icon,
                0 <= icon_gap,
        ;
        let w: i64 = pad + icon + icon_gap + n * cw + pad;
        if w > m {
            m = w;
        }
        i = i + 1;
    }
    assert(folders@.take(folders@.len() as int) =~= folders@);
    m
}

/// The buttons of the in-Explorer toolbar and its `(width, height)`.
/// Without a configuration only the refresh button is placed.
pub fn compute_layout(config: Option<&Config>, layout: Layout, dpi: u32) -> (r: (
    Vec<ClassicButton>,
    i32,
    i32,
))
    requires
        classic_fits(
            match config {
                Some(c) => c.folders@,
                None => Seq::empty(),
            },
            dpi,
        ),
    ensures
        classic_layout_ok(
            match config {
                Some(c) => c.folders@,
                None => Seq::empty(),
            },
            layout,
            dpi,
            r.0@,
            r.1,
            r.2,
        ),
{
    let empty: Vec<FolderEntry> = Vec::new();
    let folders: &[FolderEntry] = match config {
        Some(c) => c.folders.as_slice(),
        None => empty.as_slice(),
    };
    let ghost fs = folders@;
    let btn_h = scale(CLASSIC_BUTTON_SIZE, dpi);
    let pad = scale(CLASSIC_PAD_H, dpi) as i64;
    let gap = scale(CLASSIC_GAP, dpi);
    let grip = scale(CLASSIC_GRIP, dpi);
    let cw = scale(CLASSIC_CHAR_W, dpi) as i64;
    let max_w = compute_max_width(folders, dpi);
    proof {
        lemma_max_width_bounds(fs, dpi, 0);
        lemma_next_x_mono(fs, dpi, 0);
    }
    let mut buttons: Vec<ClassicButton> = Vec::new();
    match layout {
        Layout::Vertical => {
            let step: i64 = btn_h as i64 + gap as i64;
            buttons.push(
                ClassicButton {
                    rect: Rect { left: 0, top: grip, right: max_w as i32, bottom: grip + btn_h },
                    folder: refresh_entry(),
                    is_refresh: true,
                },
            );
            let mut y: i64 = grip as i64 + step;
            assert(row_top(0, dpi) == sc(12, dpi)) by (nonlinear_arith);
            assert(row_top(1, dpi) == sc(12, dpi) + step) by (nonlinear_arith)
                requires
                    step == sc(28, dpi) + sc(2, dpi),
            ;
            let mut i: usize = 0;
            while i < folders.len()
                invariant
                    i <= fs.len(),
                    fs == folders@,
                    classic_fits(fs, dpi),
                    btn_h == sc(28, dpi),
                    gap == sc(2, dpi),
                    grip == sc(12, dpi),
                    step == sc(28, dpi) + sc(2, dpi),
                    max_w == max_width(fs, dpi),
                    y == row_top(i as int + 1, dpi),
                    buttons@.len() == i + 1,
                    buttons@[0].is_refresh,
                    refresh_entry_ok(buttons@[0].folder),
                    forall|j: int| 0 <= j < i ==> !(#[trigger] buttons@[j + 1]).is_refresh
                        && buttons@[j + 1].folder == fs[j],
                    forall|k: int| 0 <= k <= i ==> (#[trigger] buttons@[k]).rect == (Rect {
                        left: 0,
                        top: row_top(k, dpi) as i32,
                        right: max_w as i32,
                        bottom: (row_top(k, dpi) + btn_h) as i32,
                    }),
                decreases fs.len() - i,
            {
                assert(row_top(i as int + 1, dpi) + btn_h <= row_top(fs.len() as int + 1, dpi)) by (
                nonlinear_arith)
                    requires
                        i + 1 <= fs.len(),
                        0 <= sc(28, dpi) + sc(2, dpi),
                        btn_h <= sc(28, dpi) + sc(2, dpi),
                ;
                assert(row_top(i as int + 2, dpi) == row_top(i as int + 1, dpi) + step) by (
                nonlinear_arith)
                    requires
                        step == sc(28, dpi) + sc(2, dpi),
                ;
                let f = folders[i].duplicate();
                buttons.push(
                    ClassicButton {
                        rect: Rect {
                            left: 0,
                            top: y as i32,
                            right: max_w as i32,
                            bottom: (y + btn_h as i64) as i32,
                        },
                        folder: f,
                        is_refresh: false,
                    },
                );
                y = y + step;
                i = i + 1;
            }
            assert(row_top(fs.len() as int + 1, dpi) >= sc(12, dpi)) by (nonlinear_arith)
                requires
                    0 <= sc(28, dpi) + sc(2, dpi),
                    fs.len() >= 0,
            ;
            (buttons, max_w as i32, (y - gap as i64) as i32)
        },
        Layout::Horizontal => {
            buttons.push(
                ClassicButton {
                    rect: Rect { left: grip, top: 0, right: grip + btn_h, bottom: btn_h },
                    folder: refresh_entry(),
                    is_refresh: true,
                },
            );
            let mut x: i64 = grip as i64 + btn_h as i64 + gap as i64;
            let mut i: usize = 0;
            proof {
                assert(fs.take(0) =~= Seq::<FolderEntry>::empty());
            }
            while i < folders.len()
                invariant
                    i <= fs.len(),
                    fs == folders@,
                    classic_fits(fs, dpi),
                    btn_h == sc(28, dpi),
                    gap == sc(2, dpi),
                    grip == sc(12, dpi),
                    pad == sc(10, dpi),
                    cw == sc(8, dpi),
                    x == next_x(fs.take(i as int), dpi),
                    buttons@.len() == i + 1,
                    buttons@[0].is_refresh,
                    refresh_entry_ok(buttons@[0].folder),
                    buttons@[0].rect == (Rect {
                        left: sc(12, dpi) as i32,
                        top: 0,
                        right: (sc(12, dpi) + sc(28, dpi)) as i32,
                        bottom: btn_h,
                    }),
                    forall|j: int| 0 <= j < i ==> !(#[trigger] buttons@[j + 1]).is_refresh
                        && buttons@[j + 1].folder == fs[j],
                    forall|j: int| 0 <= j < i ==> (#[trigger] buttons@[j + 1]).rect == (Rect {
                        left: next_x(fs.take(j), dpi) as i32,
                        top: 0,
                        right: (next_x(fs.take(j), dpi) + folder_w_h(
                            fs[j].name@.len() as int,
                            dpi,
                        )) as i32,
                        bottom: btn_h,
                    }),
                decreases fs.len() - i,
            {
                proof {
                    lemma_next_x_mono(fs, dpi, i as int + 1);
                    lemma_next_x_mono(fs.take(i as int), dpi, 0);
                    assert(fs.take(i as int + 1).drop_last() =~= fs.take(i as int));
                    assert(next_x(fs.take(i as int + 1), dpi) == next_x(fs.take(i as int), dpi)
                        + folder_w_h(fs[i as int].name@.len() as int, dpi) + sc(2, dpi));
                }
                let n: i64 = folders[i].name.unicode_len() as i64;
                assert(fs[i as int].name@.len() <= i32::MAX);
                assert(0 <= n * cw) by (nonlinear_arith)
                    requires
                        0 <= n,
                        0 <= cw,
                ;
                let w: i64 = pad + n * cw + pad;
                let f = folders[i].duplicate();
                buttons.push(
                    ClassicButton {
                        rect: Rect { left: x as i32, top: 0, right: (x + w) as i32, bottom: btn_h },
                        folder: f,
                        is_refresh: false,
                    },
                );
                x = x + w + gap as i64;
                i = i + 1;
            }
            assert(fs.take(fs.len() as int) =~= fs);
            (buttons, (x - gap as i64) as i32, btn_h)
        },
    }
}

/// In the vertical classic layout every button is as wide as the widest
/// label needs: the common width is at least the refresh button's size
/// (`28 * dpi / 96`) and at least every folder's vertical width (padding
/// on both sides, the glyph and its gap, 8 scaled pixels per character),
/// and it is one of these values, so no wider than needed.
pub proof fn lemma_classic_width_fits_every_label(folders: Seq<FolderEntry>, dpi: u32)
    ensures
        (28 * dpi) / 96 <= max_width(folders, dpi),
        forall|i: int|
            0 <= i < folders.len() ==> 2 * ((10 * dpi) / 96) + (14 * dpi) / 96 + (4 * dpi) / 96
                + (#[trigger] folders[i]).name@.len() * ((8 * dpi) / 96) <= max_width(folders, dpi),
        max_width(folders, dpi) == (28 * dpi) / 96 || exists|i: int|
            0 <= i < folders.len() && max_width(folders, dpi) == 2 * ((10 * dpi) / 96) + (14 * dpi)
                / 96 + (4 * dpi) / 96 + (#[trigger] folders[i]).name@.len() * ((8 * dpi) / 96),
    decreases folders.len(),
{
    if folders.len() > 0 {
        let p = folders.drop_last();
        lemma_classic_width_fits_every_label(p, dpi);
        assert forall|i: int| 0 <= i < folders.len() implies 2 * ((10 * dpi) / 96) + (14 * dpi) / 96
            + (4 * dpi) / 96 + (#[trigger] folders[i]).name@.len() * ((8 * dpi) / 96) <= max_width(
            folders,
            dpi,
        ) by {
            if i < p.len() {
                assert(p[i] == folders[i]);
            }
        }
        if max_width(folders, dpi) != (28 * dpi) / 96 {
            if max_width(folders, dpi) == max_width(p, dpi) {
                let i = choose|i: int|
                    0 <= i < p.len() && max_width(p, dpi) == 2 * ((10 * dpi) / 96) + (14 * dpi) / 96
                        + (4 * dpi) / 96 + (#[trigger] p[i]).name@.len() * ((8 * dpi) / 96);
                assert(p[i] == folders[i]);
            } else {
                assert(folders[folders.len() - 1] == folders.last());
            }
        }
    }
}

/// In the vertical classic layout every placed button, refresh and
/// folders alike, spans from 0 to a width that fits every folder's label.
pub proof fn lemma_classic_vertical_buttons_fit_labels(
    folders: Seq<FolderEntry>,
    dpi: u32,
    buttons: Seq<ClassicButton>,
    w: i32,
    h: i32,
)
    requires
        classic_fits(folders, dpi),
        classic_layout_ok(folders, Layout::Vertical, dpi, buttons, w, h),
    ensures
        forall|k: int, i: int|
            0 <= k < buttons.len() && 0 <= i < folders.len() ==> (#[trigger] buttons[k]).rect.left
                == 0 && 2 * ((10 * dpi) / 96) + (14 * dpi) / 96 + (4 * dpi) / 96 + (
            #[trigger] folders[i]).name@.len() * ((8 * dpi) / 96) <= buttons[k].rect.right,
        w == max_width(folders, dpi),
{
    lemma_classic_width_fits_every_label(folders, dpi);
    assert forall|k: int, i: int|
        0 <= k < buttons.len() && 0 <= i < folders.len() implies (#[trigger] buttons[k]).rect.left
        == 0 && 2 * ((10 * dpi) / 96) + (14 * dpi) / 96 + (4 * dpi) / 96 + (
    #[trigger] folders[i]).name@.len() * ((8 * dpi) / 96) <= buttons[k].rect.right by {
        assert(buttons[k].rect.right == max_width(folders, dpi) as i32);
    }
}

} // verus!
