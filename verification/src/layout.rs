//! Toolbar geometry in toolbar-client physical pixels: rectangles, the
//! placed buttons, point-in-button hit testing, the grip area and the drop
//! action under a point.

use vstd::prelude::*;
use crate::config::{FolderEntry, Layout as Orientation};
use crate::classic::sc;
use crate::drop_effect::DropAction;
use crate::theme::scale;
use crate::toolbar::BTN_PAD_H;

verus! {

/// Plain rectangle, origin top-left; `right` and `bottom` are exclusive.
#[derive(Debug, Clone, Copy, PartialEq, Eq, Structural)]
pub struct Rect {
    pub left: i32,
    pub top: i32,
    pub right: i32,
    pub bottom: i32,
}

impl Rect {
    pub open spec fn contains_spec(&self, x: int, y: int) -> bool {
        self.left <= x && x < self.right && self.top <= y && y < self.bottom
    }

    pub fn width(&self) -> (r: i32)
        requires
            i32::MIN <= self.right - self.left <= i32::MAX,
        ensures
            r == self.right - self.left,
    {
        self.right - self.left
    }

    pub fn height(&self) -> (r: i32)
        requires
            i32::MIN <= self.bottom - self.top <= i32::MAX,
        ensures
            r == self.bottom - self.top,
    {
        self.bottom - self.top
    }

    /// Whether `(x, y)` lies inside: left and top edges inclusive, right and
    /// bottom edges exclusive.
    pub fn contains(&self, x: i32, y: i32) -> (r: bool)
        ensures
            r == self.contains_spec(x as int, y as int),
    {
        x >= self.left && x < self.right && y >= self.top && y < self.bottom
    }
}

/// The measured input of a toolbar layout: the DPI, the orientation, the
/// folders, each folder label's measured width in physical pixels (one per
/// folder) and the grip size in logical pixels. The `+` button is not in
/// `folders`; a layout places it first.
pub struct LayoutInput<'a> {
    pub dpi: u32,
    pub orientation: Orientation,
    pub folders: &'a [FolderEntry],
    pub folder_text_widths_physical_px: &'a [i32],
    pub grip_size_logical_px: i32,
}

/// Placement of one button. The `+` button (`is_add`) is never a folder.
#[derive(Debug)]
pub struct ButtonLayout {
    pub rect: Rect,
    pub folder: FolderEntry,
    pub is_add: bool,
}

/// The first index at or after `i` whose button contains `(x, y)`.
pub open spec fn first_hit_from(buttons: Seq<ButtonLayout>, x: int, y: int, i: int) -> Option<usize>
    decreases buttons.len() - i,
{
    if i < 0 || i >= buttons.len() {
        None
    } else if buttons[i].rect.contains_spec(x, y) {
        Some(i as usize)
    } else {
        first_hit_from(buttons, x, y, i + 1)
    }
}

/// The index a hit test gives: the first button containing the point.
pub open spec fn first_hit(buttons: Seq<ButtonLayout>, x: int, y: int) -> Option<usize> {
    first_hit_from(buttons, x, y, 0)
}

pub open spec fn is_first_hit(buttons: Seq<ButtonLayout>, x: int, y: int, r: Option<usize>) -> bool {
    match r {
        Some(i) => {
            &&& i < buttons.len()
            &&& buttons[i as int].rect.contains_spec(x, y)
            &&& forall|j: int| 0 <= j < i ==> !(#[trigger] buttons[j]).rect.contains_spec(x, y)
        },
        None => forall|j: int|
            0 <= j < buttons.len() ==> !(#[trigger] buttons[j]).rect.contains_spec(x, y),
    }
}

/// Index of the first button whose rectangle contains `(x, y)`, or `None`.
pub fn hit_test(buttons: &[ButtonLayout], x: i32, y: i32) -> (r: Option<usize>)
    ensures
        r == first_hit(buttons@, x as int, y as int),
        is_first_hit(buttons@, x as int, y as int, r),
{
    let mut i: usize = 0;
    while i < buttons.len()
        invariant
            i <= buttons@.len(),
            first_hit(buttons@, x as int, y as int) == first_hit_from(
                buttons@,
                x as int,
                y as int,
                i as int,
            ),
            forall|j: int| 0 <= j < i ==> !(#[trigger] buttons@[j]).rect.contains_spec(
                x as int,
                y as int,
            ),
        decreases buttons@.len() - i,
    {
        if buttons[i].rect.contains(x, y) {
            return Some(i);
        }
        i = i + 1;
    }
    None
}

/// Whether `(x, y)` is in the grip: the leading column of a horizontal
/// toolbar, the leading row of a vertical one.
pub fn in_grip(layout: Orientation, grip_size: i32, x: i32, y: i32) -> (r: bool)
    ensures
        r == match layout {
            Orientation::Horizontal => x < grip_size,
            Orientation::Vertical => y < grip_size,
        },
{
    match layout {
        Orientation::Horizontal => x < grip_size,
        Orientation::Vertical => y < grip_size,
    }
}

/// The drop action for the button under `(x, y)`: a folder button targets
/// its path, the `+` button adds a folder, anywhere else gives `None`.
pub fn resolve_drop_action(buttons: &[ButtonLayout], x: i32, y: i32) -> (r: Option<DropAction>)
    ensures
        match first_hit(buttons@, x as int, y as int) {
            None => r is None,
            Some(i) => if buttons@[i as int].is_add {
                r matches Some(DropAction::AddFolder)
            } else {
                r matches Some(DropAction::MoveCopyTo { target }) && target
                    == buttons@[i as int].folder.path
            },
        },
{
    match hit_test(buttons, x, y) {
        None => None,
        Some(i) => {
            if buttons[i].is_add {
                Some(DropAction::AddFolder)
            } else {
                Some(DropAction::MoveCopyTo { target: buttons[i].folder.path.clone() })
            }
        },
    }
}

/// Height of every button and width of the `+` button, in logical pixels.
pub const BUTTON_SIZE: i32 = 28;
/// Space between neighbouring buttons, in logical pixels.
pub const BUTTON_GAP: i32 = 2;

/// The placed buttons (the `+` button first, then one per folder) and the
/// toolbar's total size, in physical pixels.
#[derive(Debug)]
pub struct Layout {
    pub buttons: Vec<ButtonLayout>,
    pub total_width: i32,
    pub total_height: i32,
}

/// The grip size in physical pixels, as `theme::scale` computes it.
pub open spec fn grip_px(grip_logical: i32, dpi: u32) -> int {
    ((((grip_logical as u32) * dpi / 96) as u32) as i32) as int
}

/// Width of a folder button whose label measures `text` pixels: the label
/// with the horizontal padding on both sides.
pub open spec fn folder_w(text: i32, dpi: u32) -> int {
    2 * sc(10, dpi) + text
}

/// In the horizontal layout, the left edge of the button that follows the
/// folders whose labels measure `widths` (grip, then `+`, then folders,
/// each followed by the gap).
pub open spec fn lay_x(widths: Seq<i32>, dpi: u32, grip: int) -> int
    decreases widths.len(),
{
    if widths.len() == 0 {
        grip + sc(28, dpi) + sc(2, dpi)
    } else {
        lay_x(widths.drop_last(), dpi, grip) + folder_w(widths.last(), dpi) + sc(2, dpi)
    }
}

/// The common button width of the vertical layout: at least the `+`
/// button's, at least every folder button's.
pub open spec fn lay_max_w(widths: Seq<i32>, dpi: u32) -> int
    decreases widths.len(),
{
    if widths.len() == 0 {
        sc(28, dpi)
    } else {
        let m = lay_max_w(widths.drop_last(), dpi);
        let w = folder_w(widths.last(), dpi);
        if w > m {
            w
        } else {
            m
        }
    }
}

/// In the vertical layout, the top edge of button `k` (0 is `+`).
pub open spec fn lay_row(k: int, dpi: u32, grip: int) -> int {
    grip + k * (sc(28, dpi) + sc(2, dpi))
}

/// Along the horizontal layout, every left edge, every right edge and
/// every folder button width fits in an `i32`.
pub open spec fn prefixes_fit(widths: Seq<i32>, dpi: u32, grip: int) -> bool {
    &&& forall|i: int|
        0 <= i <= widths.len() ==> i32::MIN <= #[trigger] lay_x(widths.take(i), dpi, grip)
            <= i32::MAX
    &&& forall|i: int|
        0 <= i < widths.len() ==> i32::MIN <= lay_x(widths.take(i), dpi, grip) + folder_w(
            #[trigger] widths[i],
            dpi,
        ) <= i32::MAX
    &&& forall|i: int| 0 <= i < widths.len() ==> folder_w(#[trigger] widths[i], dpi) <= i32::MAX
}

/// Every position and size the layout computes fits in an `i32`.
pub open spec fn layout_fits(widths: Seq<i32>, dpi: u32, grip: int) -> bool {
    &&& 28 * dpi <= u32::MAX
    &&& prefixes_fit(widths, dpi, grip)
    &&& lay_row(widths.len() as int + 1, dpi, grip) <= i32::MAX
}

/// What a layout's input asks of `theme::scale` and of `i32` arithmetic:
/// the grip scales without overflow, one measured width per folder, and
/// every computed position fits.
pub open spec fn layout_input_ok(input: LayoutInput) -> bool {
    &&& (input.grip_size_logical_px as u32) * input.dpi <= u32::MAX
    &&& input.folder_text_widths_physical_px@.len() == input.folders@.len()
    &&& layout_fits(
        input.folder_text_widths_physical_px@,
        input.dpi,
        grip_px(input.grip_size_logical_px, input.dpi),
    )
}

/// The `+` button's entry: named `+`, with an empty path and no icon.
pub open spec fn add_entry_ok(f: FolderEntry) -> bool {
    f.name@ == seq!['+'] && f.path@.len() == 0 && f.icon is None
}

/// The placement of the `+` button and of one button per folder (in
/// order), with the toolbar's total size.
pub open spec fn layout_ok(
    folders: Seq<FolderEntry>,
    widths: Seq<i32>,
    o: Orientation,
    dpi: u32,
    grip: int,
    buttons: Seq<ButtonLayout>,
    w: i32,
    h: i32,
) -> bool {
    let n = folders.len();
    let bh = sc(28, dpi);
    &&& buttons.len() == n + 1
    &&& buttons[0].is_add
    &&& add_entry_ok(buttons[0].folder)
    &&& forall|i: int|
        0 <= i < n ==> !(#[trigger] buttons[i + 1]).is_add && buttons[i + 1].folder == folders[i]
    &&& match o {
        Orientation::Vertical => {
            let mw = lay_max_w(widths, dpi);
            &&& forall|k: int|
                0 <= k <= n ==> (#[trigger] buttons[k]).rect == (Rect {
                    left: 0,
                    top: lay_row(k, dpi, grip) as i32,
                    right: mw as i32,
                    bottom: (lay_row(k, dpi, grip) + bh) as i32,
                })
            &&& w == mw
            &&& h == lay_row(n as int + 1, dpi, grip) - sc(2, dpi)
        },
        Orientation::Horizontal => {
            &&& buttons[0].rect == (Rect {
                left: grip as i32,
                top: 0,
                right: (grip + bh) as i32,
                bottom: bh as i32,
            })
            &&& forall|i: int|
                0 <= i < n ==> (#[trigger] buttons[i + 1]).rect == (Rect {
                    left: lay_x(widths.take(i), dpi, grip) as i32,
                    top: 0,
                    right: (lay_x(widths.take(i), dpi, grip) + folder_w(widths[i], dpi)) as i32,
                    bottom: bh as i32,
                })
            &&& w == lay_x(widths, dpi, grip) - sc(2, dpi)
            &&& h == bh
        },
    }
}

proof fn lemma_lay_max_w_bounds(widths: Seq<i32>, dpi: u32, i: int)
    requires
        0 <= i <= widths.len(),
    ensures
        lay_max_w(widths.take(i), dpi) <= lay_max_w(widths, dpi),
        sc(28, dpi) <= lay_max_w(widths, dpi),
        forall|j: int| 0 <= j < widths.len() ==> folder_w(#[trigger] widths[j], dpi) <= lay_max_w(widths, dpi),
    decreases widths.len(),
{
    if widths.len() > 0 {
        lemma_lay_max_w_bounds(widths.drop_last(), dpi, 0);
        if i == widths.len() {
            assert(widths.take(i) =~= widths);
        } else {
            lemma_lay_max_w_bounds(widths.drop_last(), dpi, i);
            assert(widths.drop_last().take(i) =~= widths.take(i));
        }
        assert forall|j: int| 0 <= j < widths.len() implies folder_w(#[trigger] widths[j], dpi)
            <= lay_max_w(widths, dpi) by {
            if j < widths.len() - 1 {
                assert(widths.drop_last()[j] == widths[j]);
            }
        }
    }
}

proof fn lemma_lay_max_w_at_most(widths: Seq<i32>, dpi: u32, b: int)
    requires
        sc(28, dpi) <= b,
        forall|j: int| 0 <= j < widths.len() ==> folder_w(#[trigger] widths[j], dpi) <= b,
    ensures
        lay_max_w(widths, dpi) <= b,
    decreases widths.len(),
{
    if widths.len() > 0 {
        assert forall|j: int| 0 <= j < widths.drop_last().len() implies folder_w(
            #[trigger] widths.drop_last()[j],
            dpi,
        ) <= b by {
            assert(widths.drop_last()[j] == widths[j]);
        }
        lemma_lay_max_w_at_most(widths.drop_last(), dpi, b);
        assert(folder_w(widths[widths.len() - 1], dpi) <= b);
    }
}

/// The `+` button's entry.
fn add_entry() -> (r: FolderEntry)
    ensures
        add_entry_ok(r),
{
    proof {
        reveal_strlit("+");
        reveal_strlit("");
    }
    let name = String::from_str("+");
    assert(name@ =~= seq!['+']);
    let path = String::from_str("");
    FolderEntry { name, path, icon: None }
}

/// The common button width of the vertical layout.
fn compute_max_width(widths: &[i32], dpi: u32) -> (r: i64)
    requires
        28 * dpi <= u32::MAX,
        forall|i: int| 0 <= i < widths@.len() ==> folder_w(#[trigger] widths@[i], dpi) <= i32::MAX,
    ensures
        r == lay_max_w(widths@, dpi),
{
    let pad = scale(BTN_PAD_H, dpi) as i64;
    let mut m: i64 = scale(BUTTON_SIZE, dpi) as i64;
    let mut i: usize = 0;
    proof {
        assert(widths@.take(0) =~= Seq::<i32>::empty());
    }
    while i < widths.len()
        invariant
            i <= widths@.len(),
            28 * dpi <= u32::MAX,
            forall|k: int| 0 <= k < widths@.len() ==> folder_w(#[trigger] widths@[k], dpi) <= i32::MAX,
            pad == sc(10, dpi),
            m == lay_max_w(widths@.take(i as int), dpi),
            i32::MIN <= m <= i32::MAX,
        decreases widths@.len() - i,
    {
        proof {
            assert(widths@.take(i as int + 1).drop_last() =~= widths@.take(i as int));
            assert(folder_w(widths@[i as int], dpi) <= i32::MAX);
        }
        let w: i64 = pad + pad + widths[i] as i64;
        if w > m {
            m = w;
        }
        i = i + 1;
    }
    assert(widths@.take(widths@.len() as int) =~= widths@);
    m
}

/// The test of `prefixes_fit`, the horizontal edges walked from the left.
#[verifier::rlimit(40)]
fn prefixes_fit_exec(widths: &[i32], dpi: u32, grip: i32) -> (r: bool)
    requires
        28 * dpi <= u32::MAX,
    ensures
        r == prefixes_fit(widths@, dpi, grip as int),
{
    let ghost ws = widths@;
    let ghost g = grip as int;
    let bh = scale(BUTTON_SIZE, dpi) as i128;
    let gap = scale(BUTTON_GAP, dpi) as i128;
    let pad = scale(BTN_PAD_H, dpi) as i128;
    let lo: i128 = i32::MIN as i128;
    let hi: i128 = i32::MAX as i128;
    let mut x: i128 = grip as i128 + bh + gap;
    proof {
        assert(ws.take(0) =~= Seq::<i32>::empty());
    }
    let mut i: usize = 0;
    while i < widths.len()
        invariant
            i <= ws.len(),
            ws == widths@,
            28 * dpi <= u32::MAX,
            g == grip,
            bh == sc(28, dpi),
            gap == sc(2, dpi),
            pad == sc(10, dpi),
            lo == i32::MIN,
            hi == i32::MAX,
            x == lay_x(ws.take(i as int), dpi, g),
            lo - 0x1_0000_0000 <= x <= hi + 0x1_0000_0000,
            forall|j: int| 0 <= j < i ==> i32::MIN <= #[trigger] lay_x(ws.take(j), dpi, g) <= i32::MAX,
            forall|j: int|
                0 <= j < i ==> i32::MIN <= lay_x(ws.take(j), dpi, g) + folder_w(#[trigger] ws[j], dpi)
                    <= i32::MAX,
            forall|j: int| 0 <= j < i ==> folder_w(#[trigger] ws[j], dpi) <= i32::MAX,
        decreases ws.len() - i,
    {
        if x < lo || x > hi {
            assert(!prefixes_fit(ws, dpi, g)) by {
                assert(!(i32::MIN <= lay_x(ws.take(i as int), dpi, g) <= i32::MAX));
            }
            return false;
        }
        let fw: i128 = pad + pad + widths[i] as i128;
        if fw > hi {
            assert(!prefixes_fit(ws, dpi, g)) by {
                assert(folder_w(ws[i as int], dpi) > i32::MAX);
            }
            return false;
        }
        let e = x + fw;
        if e < lo || e > hi {
            assert(!prefixes_fit(ws, dpi, g)) by {
                assert(!(i32::MIN <= lay_x(ws.take(i as int), dpi, g) + folder_w(ws[i as int], dpi)
                    <= i32::MAX));
            }
            return false;
        }
        proof {
            assert(ws.take(i as int + 1).drop_last() =~= ws.take(i as int));
        }
        x = e + gap;
        i = i + 1;
    }
    if x < lo || x > hi {
        assert(!prefixes_fit(ws, dpi, g)) by {
            assert(!(i32::MIN <= lay_x(ws.take(ws.len() as int), dpi, g) <= i32::MAX));
        }
        return false;
    }
    true
}

/// Whether `compute_layout` can take `input`: the test of
/// `layout_input_ok`, for callers that cannot know it in advance.
pub fn layout_input_fits(input: &LayoutInput) -> (r: bool)
    ensures
        r == layout_input_ok(*input),
{
    let dpi = input.dpi;
    let widths = input.folder_text_widths_physical_px;
    let grip_logical: u128 = (input.grip_size_logical_px as u32) as u128;
    assert(grip_logical * (dpi as u128) <= 0xFFFF_FFFF * 0xFFFF_FFFF) by (nonlinear_arith)
        requires
            grip_logical <= 0xFFFF_FFFF,
            dpi <= 0xFFFF_FFFF,
    ;
    if grip_logical * (dpi as u128) > u32::MAX as u128 {
        return false;
    }
    if widths.len() != input.folders.len() {
        return false;
    }
    if 28 * (dpi as u64) > u32::MAX as u64 {
        return false;
    }
    let grip = scale(input.grip_size_logical_px, dpi);
    if !prefixes_fit_exec(widths, dpi, grip) {
        return false;
    }
    let bh = scale(BUTTON_SIZE, dpi) as i128;
    let gap = scale(BUTTON_GAP, dpi) as i128;
    let rows: i128 = widths.len() as i128 + 1;
    assert(0 <= rows * (bh + gap) <= 0x1_0000_0000_0000_0000 * 0x1_0000_0000) by (nonlinear_arith)
        requires
            0 < rows <= 0x1_0000_0000_0000_0000,
            0 <= bh + gap <= 0x1_0000_0000,
    ;
    let last_row: i128 = grip as i128 + rows * (bh + gap);
    assert(last_row == lay_row(widths@.len() as int + 1, dpi, grip as int)) by (nonlinear_arith)
        requires
            last_row == grip + rows * (bh + gap),
            rows == widths@.len() + 1,
            bh + gap == sc(28, dpi) + sc(2, dpi),
    ;
    last_row <= i32::MAX as i128
}

#[verifier::rlimit(30)]
fn layout_vertical(folders: &[FolderEntry], widths: &[i32], dpi: u32, grip: i32) -> (r: (
    Vec<ButtonLayout>,
    i32,
    i32,
))
    requires
        widths@.len() == folders@.len(),
        layout_fits(widths@, dpi, grip as int),
    ensures
        layout_ok(folders@, widths@, Orientation::Vertical, dpi, grip as int, r.0@, r.1, r.2),
{
    let ghost fs = folders@;
    let ghost ws = widths@;
    let ghost g = grip as int;
    let btn_h = scale(BUTTON_SIZE, dpi);
    let pad = scale(BTN_PAD_H, dpi) as i64;
    let gap = scale(BUTTON_GAP, dpi);
    let mut buttons: Vec<ButtonLayout> = Vec::new();
    let max_w = compute_max_width(widths, dpi);
    proof {
        lemma_lay_max_w_bounds(ws, dpi, 0);
        assert(sc(28, dpi) <= i32::MAX) by (nonlinear_arith)
            requires
                28 * dpi <= u32::MAX,
        ;
        lemma_lay_max_w_at_most(ws, dpi, i32::MAX as int);
    }
    let step: i64 = btn_h as i64 + gap as i64;
    assert(lay_row(0, dpi, g) == g) by (nonlinear_arith);
    assert(lay_row(1, dpi, g) == g + step) by (nonlinear_arith)
        requires
            step == sc(28, dpi) + sc(2, dpi),
    ;
    assert(lay_row(1, dpi, g) <= lay_row(fs.len() as int + 1, dpi, g)) by (nonlinear_arith)
        requires
            fs.len() >= 0,
            0 <= sc(28, dpi) + sc(2, dpi),
    ;
    buttons.push(
        ButtonLayout {
            rect: Rect { left: 0, top: grip, right: max_w as i32, bottom: grip + btn_h },
            folder: add_entry(),
            is_add: true,
        },
    );
    let mut y: i64 = grip as i64 + step;
    let mut i: usize = 0;
    while i < folders.len()
        invariant
            i <= fs.len(),
            fs == folders@,
            ws == widths@,
            ws.len() == fs.len(),
            layout_fits(ws, dpi, g),
            grip == g,
            btn_h == sc(28, dpi),
            gap == sc(2, dpi),
            step == sc(28, dpi) + sc(2, dpi),
            max_w == lay_max_w(ws, dpi),
            sc(28, dpi) <= max_w <= i32::MAX,
            y == lay_row(i as int + 1, dpi, g),
            buttons@.len() == i + 1,
            buttons@[0].is_add,
            add_entry_ok(buttons@[0].folder),
            forall|j: int|
                0 <= j < i ==> !(#[trigger] buttons@[j + 1]).is_add && buttons@[j + 1].folder
                    == fs[j],
            forall|k: int|
                0 <= k <= i ==> (#[trigger] buttons@[k]).rect == (Rect {
                    left: 0,
                    top: lay_row(k, dpi, g) as i32,
                    right: max_w as i32,
                    bottom: (lay_row(k, dpi, g) + btn_h) as i32,
                }),
        decreases fs.len() - i,
    {
        assert(lay_row(i as int + 1, dpi, g) + btn_h <= lay_row(fs.len() as int + 1, dpi, g)) by (
        nonlinear_arith)
            requires
                i + 1 <= fs.len(),
                0 <= sc(28, dpi) + sc(2, dpi),
                btn_h <= sc(28, dpi) + sc(2, dpi),
        ;
        assert(lay_row(i as int + 1, dpi, g) >= g) by (nonlinear_arith)
            requires
                i >= 0,
                0 <= sc(28, dpi) + sc(2, dpi),
        ;
        assert(lay_row(i as int + 2, dpi, g) == lay_row(i as int + 1, dpi, g) + step) by (
        nonlinear_arith)
            requires
                step == sc(28, dpi) + sc(2, dpi),
        ;
        let f = folders[i].duplicate();
        buttons.push(
            ButtonLayout {
                rect: Rect {
                    left: 0,
                    top: y as i32,
                    right: max_w as i32,
                    bottom: (y + btn_h as i64) as i32,
                },
                folder: f,
                is_add: false,
            },
        );
        y = y + step;
        i = i + 1;
    }
    assert(lay_row(fs.len() as int + 1, dpi, g) >= g + sc(28, dpi) + sc(2, dpi)) by (
    nonlinear_arith)
        requires
            0 <= sc(28, dpi),
            0 <= sc(2, dpi),
            fs.len() >= 0,
    ;
    (buttons, max_w as i32, (y - gap as i64) as i32)
}

#[verifier::rlimit(80)]
#[verifier::spinoff_prover]
fn layout_horizontal(folders: &[FolderEntry], widths: &[i32], dpi: u32, grip: i32) -> (r: (
    Vec<ButtonLayout>,
    i32,
    i32,
))
    requires
        widths@.len() == folders@.len(),
        layout_fits(widths@, dpi, grip as int),
    ensures
        layout_ok(folders@, widths@, Orientation::Horizontal, dpi, grip as int, r.0@, r.1, r.2),
{
    let ghost fs = folders@;
    let ghost ws = widths@;
    let ghost g = grip as int;
    let btn_h = scale(BUTTON_SIZE, dpi);
    let pad = scale(BTN_PAD_H, dpi) as i64;
    let gap = scale(BUTTON_GAP, dpi);
    let mut buttons: Vec<ButtonLayout> = Vec::new();
    proof {
        assert(ws.take(0) =~= Seq::<i32>::empty());
        assert(i32::MIN <= lay_x(ws.take(0), dpi, g) <= i32::MAX);
    }
    buttons.push(
        ButtonLayout {
            rect: Rect { left: grip, top: 0, right: grip + btn_h, bottom: btn_h },
            folder: add_entry(),
            is_add: true,
        },
    );
    let mut x: i64 = grip as i64 + btn_h as i64 + gap as i64;
    let mut i: usize = 0;
    while i < folders.len()
        invariant
            i <= fs.len(),
            fs == folders@,
            ws == widths@,
            ws.len() == fs.len(),
            layout_fits(ws, dpi, g),
            grip == g,
            btn_h == sc(28, dpi),
            gap == sc(2, dpi),
            pad == sc(10, dpi),
            x == lay_x(ws.take(i as int), dpi, g),
            buttons@.len() == i + 1,
            buttons@[0].is_add,
            add_entry_ok(buttons@[0].folder),
            buttons@[0].rect == (Rect {
                left: g as i32,
                top: 0,
                right: (g + sc(28, dpi)) as i32,
                bottom: btn_h,
            }),
            forall|j: int|
                0 <= j < i ==> !(#[trigger] buttons@[j + 1]).is_add && buttons@[j + 1].folder
                    == fs[j],
            forall|j: int|
                0 <= j < i ==> (#[trigger] buttons@[j + 1]).rect == (Rect {
                    left: lay_x(ws.take(j), dpi, g) as i32,
                    top: 0,
                    right: (lay_x(ws.take(j), dpi, g) + folder_w(ws[j], dpi)) as i32,
                    bottom: btn_h,
                }),
        decreases fs.len() - i,
    {
        proof {
            assert(ws.take(i as int + 1).drop_last() =~= ws.take(i as int));
            assert(i32::MIN <= lay_x(ws.take(i as int), dpi, g) <= i32::MAX);
            assert(lay_x(ws.take(i as int), dpi, g) + folder_w(ws[i as int], dpi) <= i32::MAX);
            assert(i32::MIN <= lay_x(ws.take(i as int + 1), dpi, g) <= i32::MAX);
        }
        let w: i64 = pad + pad + widths[i] as i64;
        let f = folders[i].duplicate();
        buttons.push(
            ButtonLayout {
                rect: Rect { left: x as i32, top: 0, right: (x + w) as i32, bottom: btn_h },
                folder: f,
                is_add: false,
            },
        );
        x = x + w + gap as i64;
        i = i + 1;
    }
    proof {
        assert(ws.take(ws.len() as int) =~= ws);
        if ws.len() > 0 {
            let n = ws.len() - 1;
            assert(ws.take(n + 1).drop_last() =~= ws.take(n));
            assert(i32::MIN <= lay_x(ws.take(n), dpi, g) + folder_w(ws[n], dpi) <= i32::MAX);
            assert(i32::MIN <= lay_x(ws.take(n), dpi, g));
        }
    }
    (buttons, (x - gap as i64) as i32, btn_h)
}

/// The buttons of the toolbar and its total size, from the measured label
/// widths: the grip leads (left column or top row), then the square `+`
/// button, then one button per folder, all `BUTTON_SIZE` high and
/// `BUTTON_GAP` apart. Horizontally each folder button is as wide as its
/// label plus `BTN_PAD_H` on both sides; vertically every button takes
/// the widest of these and of the `+` button.
pub fn compute_layout(input: &LayoutInput) -> (r: Layout)
    requires
        layout_input_ok(*input),
    ensures
        layout_ok(
            input.folders@,
            input.folder_text_widths_physical_px@,
            input.orientation,
            input.dpi,
            grip_px(input.grip_size_logical_px, input.dpi),
            r.buttons@,
            r.total_width,
            r.total_height,
        ),
{
    let dpi = input.dpi;
    let grip = scale(input.grip_size_logical_px, dpi);
    let (buttons, total_width, total_height) = match input.orientation {
        Orientation::Vertical => layout_vertical(input.folders, input.folder_text_widths_physical_px, dpi, grip),
        Orientation::Horizontal => layout_horizontal(input.folders, input.folder_text_widths_physical_px, dpi, grip),
    };
    Layout { buttons, total_width, total_height }
}

/// The cursor and buttons from which a reorder drag's insertion point is
/// computed.
pub struct InsertionInput<'a> {
    pub buttons: &'a [ButtonLayout],
    pub orientation: Orientation,
    pub cursor_x: i32,
    pub cursor_y: i32,
}

/// Whether button `b`'s centre lies before the cursor at `(x, y)` along
/// the layout axis (compared doubled, so without rounding).
pub open spec fn centre_before(o: Orientation, b: ButtonLayout, x: int, y: int) -> bool {
    match o {
        Orientation::Horizontal => b.rect.left + b.rect.right < 2 * x,
        Orientation::Vertical => b.rect.top + b.rect.bottom < 2 * y,
    }
}

/// Among the first `n` buttons, the number of folder buttons whose centre
/// lies before the cursor.
pub open spec fn folders_before(buttons: Seq<ButtonLayout>, o: Orientation, x: int, y: int, n: int) -> nat
    decreases n,
{
    if n <= 0 {
        0
    } else {
        folders_before(buttons, o, x, y, n - 1) + if !buttons[n - 1].is_add && centre_before(
            o,
            buttons[n - 1],
            x,
            y,
        ) {
            1nat
        } else {
            0nat
        }
    }
}

/// Among the first `n` buttons, the number of folder buttons.
pub open spec fn folder_buttons(buttons: Seq<ButtonLayout>, n: int) -> nat
    decreases n,
{
    if n <= 0 {
        0
    } else {
        folder_buttons(buttons, n - 1) + if !buttons[n - 1].is_add {
            1nat
        } else {
            0nat
        }
    }
}

/// The insertion point is never past the last folder: at most the number
/// of folder buttons.
pub proof fn lemma_insertion_within_folders(
    buttons: Seq<ButtonLayout>,
    o: Orientation,
    x: int,
    y: int,
    n: int,
)
    ensures
        folders_before(buttons, o, x, y, n) <= folder_buttons(buttons, n),
    decreases n,
{
    if n > 0 {
        lemma_insertion_within_folders(buttons, o, x, y, n - 1);
    }
}

/// The folder-index insertion point of a reorder drag with the cursor at
/// `(cursor_x, cursor_y)`: the number of folder buttons whose centre lies
/// before the cursor along the layout axis. With the buttons in order this
/// is 0 before the first folder and the folder count after the last, the
/// position `Config::move_folder` takes as its target.
pub fn compute_insertion_index(input: &InsertionInput) -> (r: usize)
    ensures
        r == folders_before(
            input.buttons@,
            input.orientation,
            input.cursor_x as int,
            input.cursor_y as int,
            input.buttons@.len() as int,
        ),
        r <= folder_buttons(input.buttons@, input.buttons@.len() as int),
{
    let buttons = input.buttons;
    let o = input.orientation;
    let x = input.cursor_x;
    let y = input.cursor_y;
    let mut count: usize = 0;
    let mut i: usize = 0;
    while i < buttons.len()
        invariant
            i <= buttons@.len(),
            count <= i,
            count == folders_before(buttons@, o, x as int, y as int, i as int),
        decreases buttons@.len() - i,
    {
        let b = &buttons[i];
        let before = match o {
            Orientation::Horizontal => (b.rect.left as i64) + (b.rect.right as i64) < 2 * (x as i64),
            Orientation::Vertical => (b.rect.top as i64) + (b.rect.bottom as i64) < 2 * (y as i64),
        };
        if !b.is_add && before {
            count = count + 1;
        }
        i = i + 1;
    }
    proof {
        lemma_insertion_within_folders(buttons@, o, x as int, y as int, buttons@.len() as int);
    }
    count
}

/// The first hit is unique: two results that both satisfy the hit-test
/// contract are equal.
pub proof fn lemma_first_hit_unique(
    buttons: Seq<ButtonLayout>,
    x: int,
    y: int,
    a: Option<usize>,
    b: Option<usize>,
)
    requires
        is_first_hit(buttons, x, y, a),
        is_first_hit(buttons, x, y, b),
    ensures
        a == b,
{
    match (a, b) {
        (Some(i), Some(j)) => {
            if i < j {
                assert(!buttons[i as int].rect.contains_spec(x, y));
            } else if j < i {
                assert(!buttons[j as int].rect.contains_spec(x, y));
            }
        },
        (Some(i), None) => {
            assert(!buttons[i as int].rect.contains_spec(x, y));
        },
        (None, Some(j)) => {
            assert(!buttons[j as int].rect.contains_spec(x, y));
        },
        (None, None) => {},
    }
}

} // verus!
