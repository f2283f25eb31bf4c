//! What the toolbar paints: the palette for the light and dark themes, the
//! grip dots, the one-pixel border, each button's highlight and label, and
//! the insertion caret of a reorder drag. The application fills and draws
//! these with GDI.

use vstd::prelude::*;
use crate::config::Layout;
use crate::layout::{ButtonLayout, Rect};
use crate::theme::scale;
use crate::toolbar::{BTN_PAD_H, GRIP_SIZE};

verus! {

/// Colours as `COLORREF` values (`0x00BBGGRR`).
#[derive(Debug, Clone, Copy, PartialEq, Eq, Structural)]
pub struct Palette {
    pub background: u32,
    pub grip: u32,
    pub border: u32,
    pub text: u32,
    pub pressed: u32,
    pub hover: u32,
    pub dragged_text: u32,
    pub caret: u32,
}

pub open spec fn palette_spec(is_dark: bool) -> Palette {
    if is_dark {
        Palette {
            background: 0x002D2D2D,
            grip: 0x00888888,
            border: 0x00555555,
            text: 0x00FFFFFF,
            pressed: 0x00505050,
            hover: 0x003D3D3D,
            dragged_text: 0x00808080,
            caret: 0x00A0A0FF,
        }
    } else {
        Palette {
            background: 0x00F0F0F0,
            grip: 0x00999999,
            border: 0x00CCCCCC,
            text: 0x00202020,
            pressed: 0x00D0D0D0,
            hover: 0x00E0E0E0,
            dragged_text: 0x00A0A0A0,
            caret: 0x004040C0,
        }
    }
}

/// The colours of the dark or the light theme.
pub fn palette(is_dark: bool) -> (r: Palette)
    ensures
        r == palette_spec(is_dark),
{
    if is_dark {
        Palette {
            background: 0x002D2D2D,
            grip: 0x00888888,
            border: 0x00555555,
            text: 0x00FFFFFF,
            pressed: 0x00505050,
            hover: 0x003D3D3D,
            dragged_text: 0x00808080,
            caret: 0x00A0A0FF,
        }
    } else {
        Palette {
            background: 0x00F0F0F0,
            grip: 0x00999999,
            border: 0x00CCCCCC,
            text: 0x00202020,
            pressed: 0x00D0D0D0,
            hover: 0x00E0E0E0,
            dragged_text: 0x00A0A0A0,
            caret: 0x004040C0,
        }
    }
}

pub open spec fn in_i32(v: int) -> bool {
    i32::MIN <= v <= i32::MAX
}

/// `theme::scale` of a non-negative logical size small enough not to wrap.
pub open spec fn scaled(px: int, dpi: u32) -> int {
    (px * dpi) / 96
}

/// Rust's `/ 2` on a signed value: rounds toward zero.
pub open spec fn half_toward_zero(v: int) -> int {
    if v >= 0 { v / 2 } else { -((-v) / 2) }
}

fn half_i64(v: i64) -> (r: i64)
    requires
        v > i64::MIN,
    ensures
        r == half_toward_zero(v as int),
{
    if v >= 0 {
        v / 2
    } else {
        let n: i64 = -v;
        -(n / 2)
    }
}

/// The i-th (0, 1, 2) grip dot.
pub open spec fn grip_dot_spec(layout: Layout, client: Rect, dpi: u32, i: int) -> Rect {
    let grip = scaled(GRIP_SIZE as int, dpi);
    let dot = scaled(2, dpi);
    let gap = scaled(4, dpi);
    match layout {
        Layout::Horizontal => {
            let cx = grip / 2;
            let total = dot * 3 + gap * 2;
            let start = half_toward_zero(client.bottom - client.top - total);
            let d = start + i * (dot + gap);
            Rect {
                left: (cx - dot / 2) as i32,
                top: d as i32,
                right: (cx + dot / 2 + 1) as i32,
                bottom: (d + dot) as i32,
            }
        },
        Layout::Vertical => {
            let cy = grip / 2;
            let total = dot * 3 + gap * 2;
            let start = half_toward_zero(client.right - client.left - total);
            let d = start + i * (dot + gap);
            Rect {
                left: d as i32,
                top: (cy - dot / 2) as i32,
                right: (d + dot) as i32,
                bottom: (cy + dot / 2 + 1) as i32,
            }
        },
    }
}

/// Every coordinate of the three dots fits in an `i32`.
pub open spec fn grip_dots_fit(layout: Layout, client: Rect, dpi: u32) -> bool {
    let dot = scaled(2, dpi);
    let gap = scaled(4, dpi);
    let total = dot * 3 + gap * 2;
    let span = match layout {
        Layout::Horizontal => client.bottom - client.top - total,
        Layout::Vertical => client.right - client.left - total,
    };
    &&& in_i32(half_toward_zero(span))
    &&& in_i32(half_toward_zero(span) + 2 * (dot + gap) + dot)
}

/// The three dots of the grip, centred across the grip column
/// (horizontal layout) or row (vertical layout).
pub fn grip_dots(layout: Layout, client: Rect, dpi: u32) -> (r: Vec<Rect>)
    requires
        12 * dpi <= u32::MAX,
        grip_dots_fit(layout, client, dpi),
    ensures
        r@.len() == 3,
        forall|i: int| 0 <= i < 3 ==> r@[i] == grip_dot_spec(layout, client, dpi, i),
{
    let grip = scale(GRIP_SIZE, dpi) as i64;
    let dot = scale(2, dpi) as i64;
    let gap = scale(4, dpi) as i64;
    let total: i64 = dot * 3 + gap * 2;
    let span: i64 = match layout {
        Layout::Horizontal => client.bottom as i64 - client.top as i64 - total,
        Layout::Vertical => client.right as i64 - client.left as i64 - total,
    };
    let start = half_i64(span);
    let c: i64 = grip / 2;
    let mut out: Vec<Rect> = Vec::new();
    let mut i: i64 = 0;
    while i < 3
        invariant
            0 <= i <= 3,
            out@.len() == i,
            grip == scaled(GRIP_SIZE as int, dpi),
            dot == scaled(2, dpi),
            gap == scaled(4, dpi),
            0 <= dot <= 0x0100_0000,
            0 <= gap <= 0x0200_0000,
            0 <= grip <= 0x0800_0000,
            start == half_toward_zero(span as int),
            c == grip / 2,
            total == dot * 3 + gap * 2,
            span == match layout {
                Layout::Horizontal => client.bottom - client.top - total,
                Layout::Vertical => client.right - client.left - total,
            },
            grip_dots_fit(layout, client, dpi),
            forall|k: int| 0 <= k < i ==> out@[k] == grip_dot_spec(layout, client, dpi, k),
        decreases 3 - i,
    {
        assert(0 <= i * (dot + gap) <= 2 * (dot + gap)) by (nonlinear_arith)
            requires
                0 <= i <= 2,
                0 <= dot + gap,
        ;
        let d: i64 = start + i * (dot + gap);
        let rect = match layout {
            Layout::Horizontal => Rect {
                left: (c - dot / 2) as i32,
                top: d as i32,
                right: (c + dot / 2 + 1) as i32,
                bottom: (d + dot) as i32,
            },
            Layout::Vertical => Rect {
                left: d as i32,
                top: (c - dot / 2) as i32,
                right: (d + dot) as i32,
                bottom: (c + dot / 2 + 1) as i32,
            },
        };
        out.push(rect);
        i = i + 1;
    }
    out
}

/// The one-pixel border: top, bottom, left and right edges of `client`.
pub fn border_rects(client: Rect) -> (r: Vec<Rect>)
    requires
        in_i32(client.top + 1),
        in_i32(client.bottom - 1),
        in_i32(client.left + 1),
        in_i32(client.right - 1),
    ensures
        r@ == seq![
            Rect { left: client.left, top: client.top, right: client.right, bottom: (client.top + 1) as i32 },
            Rect { left: client.left, top: (client.bottom - 1) as i32, right: client.right, bottom: client.bottom },
            Rect { left: client.left, top: client.top, right: (client.left + 1) as i32, bottom: client.bottom },
            Rect { left: (client.right - 1) as i32, top: client.top, right: client.right, bottom: client.bottom },
        ],
{
    let v = vec![
        Rect { left: client.left, top: client.top, right: client.right, bottom: client.top + 1 },
        Rect { left: client.left, top: client.bottom - 1, right: client.right, bottom: client.bottom },
        Rect { left: client.left, top: client.top, right: client.left + 1, bottom: client.bottom },
        Rect { left: client.right - 1, top: client.top, right: client.right, bottom: client.bottom },
    ];
    assert(v@ =~= seq![
        Rect { left: client.left, top: client.top, right: client.right, bottom: (client.top + 1) as i32 },
        Rect { left: client.left, top: (client.bottom - 1) as i32, right: client.right, bottom: client.bottom },
        Rect { left: client.left, top: client.top, right: (client.left + 1) as i32, bottom: client.bottom },
        Rect { left: (client.right - 1) as i32, top: client.top, right: client.right, bottom: client.bottom },
    ]);
    v
}

/// The folder-glyph prefix of a folder button's label.
pub open spec fn folder_glyph() -> Seq<char> {
    seq!['\u{1F4C1}', ' ']
}

/// A button's label: `+` for the add button, the folder glyph, a space and
/// the name for a folder.
pub open spec fn label_spec(b: ButtonLayout) -> Seq<char> {
    if b.is_add {
        seq!['+']
    } else {
        folder_glyph() + b.folder.name@
    }
}

pub fn button_label(b: &ButtonLayout) -> (r: String)
    ensures
        r@ == label_spec(*b),
{
    if b.is_add {
        proof {
            reveal_strlit("+");
        }
        String::from_str("+")
    } else {
        proof {
            reveal_strlit("\u{1F4C1} ");
        }
        let mut s = String::from_str("\u{1F4C1} ");
        s.append(b.folder.name.as_str());
        s
    }
}

/// How one button is drawn.
#[derive(Debug)]
pub struct ButtonPaint {
    /// Background fill under the button, if highlighted.
    pub highlight: Option<u32>,
    pub label: String,
    pub text_color: u32,
    /// Where the label is drawn: the button, indented by the padding for a
    /// folder.
    pub text_rect: Rect,
    /// The `+` label is centred; folder labels are left-aligned.
    pub centered: bool,
}

/// Highlight of button `i`: none for the dragged button, the pressed
/// colour when pressed, the hover colour when hovered.
pub open spec fn highlight_spec(
    i: usize,
    hover: Option<usize>,
    pressed: Option<usize>,
    drag_source: Option<usize>,
    pal: Palette,
) -> Option<u32> {
    if drag_source == Some(i) {
        None
    } else if pressed == Some(i) {
        Some(pal.pressed)
    } else if hover == Some(i) {
        Some(pal.hover)
    } else {
        None
    }
}

/// How button `i` is drawn, given the pointer machine's hovered, pressed
/// and dragged buttons.
pub fn button_paint(
    i: usize,
    b: &ButtonLayout,
    hover: Option<usize>,
    pressed: Option<usize>,
    drag_source: Option<usize>,
    pal: Palette,
    dpi: u32,
) -> (r: ButtonPaint)
    requires
        10 * dpi <= u32::MAX,
        !b.is_add ==> in_i32(b.rect.left + scaled(BTN_PAD_H as int, dpi)),
    ensures
        r.highlight == highlight_spec(i, hover, pressed, drag_source, pal),
        r.label@ == label_spec(*b),
        r.text_color == (if drag_source == Some(i) { pal.dragged_text } else { pal.text }),
        r.text_rect == (if b.is_add {
            b.rect
        } else {
            Rect { left: (b.rect.left + scaled(BTN_PAD_H as int, dpi)) as i32, ..b.rect }
        }),
        r.centered == b.is_add,
{
    let dragging = match drag_source {
        Some(s) => s == i,
        None => false,
    };
    let is_pressed = match pressed {
        Some(p) => p == i,
        None => false,
    };
    let is_hover = match hover {
        Some(h) => h == i,
        None => false,
    };
    let highlight = if dragging {
        None
    } else if is_pressed {
        Some(pal.pressed)
    } else if is_hover {
        Some(pal.hover)
    } else {
        None
    };
    let text_color = if dragging { pal.dragged_text } else { pal.text };
    let text_rect = if b.is_add {
        b.rect
    } else {
        let pad = scale(BTN_PAD_H, dpi);
        Rect { left: b.rect.left + pad, top: b.rect.top, right: b.rect.right, bottom: b.rect.bottom }
    };
    ButtonPaint { highlight, label: button_label(b), text_color, text_rect, centered: b.is_add }
}

/// The rectangles of the folder buttons (every button but `+`), in order.
pub open spec fn folder_rects(s: Seq<ButtonLayout>) -> Seq<Rect>
    decreases s.len(),
{
    if s.len() == 0 {
        Seq::empty()
    } else if s.last().is_add {
        folder_rects(s.drop_last())
    } else {
        folder_rects(s.drop_last()).push(s.last().rect)
    }
}

fn collect_folder_rects(buttons: &[ButtonLayout]) -> (r: Vec<Rect>)
    ensures
        r@ == folder_rects(buttons@),
{
    let mut out: Vec<Rect> = Vec::new();
    let mut i: usize = 0;
    while i < buttons.len()
        invariant
            i <= buttons@.len(),
            out@ == folder_rects(buttons@.take(i as int)),
        decreases buttons@.len() - i,
    {
        assert(buttons@.take(i as int + 1).drop_last() =~= buttons@.take(i as int));
        if !buttons[i].is_add {
            out.push(buttons[i].rect);
        }
        i = i + 1;
    }
    assert(buttons@.take(buttons@.len() as int) =~= buttons@);
    out
}

/// The x coordinate of the insertion caret: just right of the last folder
/// button when inserting at the end, else just left of the folder at
/// `insertion`.
pub open spec fn caret_x_spec(folders: Seq<Rect>, insertion: usize) -> int {
    if insertion >= folders.len() {
        folders.last().right + 1
    } else {
        folders[insertion as int].left - 1
    }
}

pub open spec fn caret_spec(
    layout: Layout,
    buttons: Seq<ButtonLayout>,
    dragging: Option<(usize, usize)>,
    client: Rect,
    dpi: u32,
) -> Option<Rect> {
    let folders = folder_rects(buttons);
    match dragging {
        Some((_src, insertion)) => if layout == Layout::Horizontal && folders.len() > 0 {
            let x = caret_x_spec(folders, insertion);
            Some(
                Rect {
                    left: x as i32,
                    top: (client.top + 2) as i32,
                    right: (x + scaled(2, dpi)) as i32,
                    bottom: (client.bottom - 2) as i32,
                },
            )
        } else {
            None
        },
        None => None,
    }
}

/// The caret of a reorder drag (horizontal layout only, and only when
/// there is a folder button): two pixels wide, from two pixels below the
/// top to two pixels above the bottom.
pub fn reorder_caret(
    layout: Layout,
    buttons: &[ButtonLayout],
    dragging: Option<(usize, usize)>,
    client: Rect,
    dpi: u32,
) -> (r: Option<Rect>)
    requires
        2 * dpi <= u32::MAX,
        in_i32(client.top + 2),
        in_i32(client.bottom - 2),
        forall|i: int| 0 <= i < buttons@.len() ==> {
            &&& in_i32(buttons@[i].rect.right + 1 + scaled(2, dpi))
            &&& in_i32(buttons@[i].rect.left - 1 + scaled(2, dpi))
            &&& in_i32(buttons@[i].rect.left - 1)
        },
    ensures
        r == caret_spec(layout, buttons@, dragging, client, dpi),
{
    match dragging {
        None => None,
        Some((_src, insertion)) => {
            if layout != Layout::Horizontal {
                return None;
            }
            let folders = collect_folder_rects(buttons);
            if folders.len() == 0 {
                return None;
            }
            proof {
                lemma_folder_rects_from(buttons@);
            }
            let n = folders.len();
            let x: i32 = if insertion >= n {
                folders[n - 1].right + 1
            } else {
                folders[insertion].left - 1
            };
            let w = scale(2, dpi);
            let ghost k: int = if insertion >= n { n - 1 } else { insertion as int };
            assert(folder_rects(buttons@)[k] == folders@[k]);
            Some(Rect { left: x, top: client.top + 2, right: x + w, bottom: client.bottom - 2 })
        },
    }
}

/// Every folder rectangle is the rectangle of some button.
proof fn lemma_folder_rects_from(s: Seq<ButtonLayout>)
    ensures
        forall|k: int| 0 <= k < folder_rects(s).len() ==> exists|j: int| 0 <= j < s.len() && #[trigger] folder_rects(s)[k] == s[j].rect,
    decreases s.len(),
{
    if s.len() > 0 {
        lemma_folder_rects_from(s.drop_last());
        let p = s.drop_last();
        assert forall|k: int| 0 <= k < folder_rects(s).len() implies exists|j: int| 0 <= j < s.len() && #[trigger] folder_rects(s)[k] == s[j].rect by {
            if k < folder_rects(p).len() {
                let j = choose|j: int| 0 <= j < p.len() && folder_rects(p)[k] == p[j].rect;
                assert(s[j] == p[j]);
            } else {
                assert(folder_rects(s)[k] == s[s.len() - 1].rect);
            }
        }
    }
}

/// Highlights follow the pointer: the dragged button is never
/// highlighted; otherwise a pressed button takes the pressed colour
/// whether or not it is also hovered, a hovered button that is not pressed
/// takes the hover colour, and any other button none.
pub proof fn lemma_highlight_follows_pointer(
    i: usize,
    hover: Option<usize>,
    pressed: Option<usize>,
    drag_source: Option<usize>,
    pal: Palette,
)
    ensures
        drag_source == Some(i) ==> highlight_spec(i, hover, pressed, drag_source, pal) is None,
        (pressed == Some(i) && drag_source != Some(i)) ==> highlight_spec(
            i,
            hover,
            pressed,
            drag_source,
            pal,
        ) == Some(pal.pressed),
        (hover == Some(i) && pressed != Some(i) && drag_source != Some(i)) ==> highlight_spec(
            i,
            hover,
            pressed,
            drag_source,
            pal,
        ) == Some(pal.hover),
        (hover != Some(i) && pressed != Some(i)) ==> highlight_spec(
            i,
            hover,
            pressed,
            drag_source,
            pal,
        ) is None,
{
}

/// The folder rectangles of a toolbar laid out as `+` first and folders
/// after it are the rectangles of buttons 1, 2, ... in order.
proof fn lemma_folder_rects_after_add(s: Seq<ButtonLayout>)
    requires
        s.len() >= 1,
        s[0].is_add,
        forall|j: int| 1 <= j < s.len() ==> !(#[trigger] s[j]).is_add,
    ensures
        folder_rects(s).len() == s.len() - 1,
        forall|k: int| 0 <= k < s.len() - 1 ==> #[trigger] folder_rects(s)[k] == s[k + 1].rect,
    decreases s.len(),
{
    if s.len() == 1 {
        assert(s.last() == s[0]);
        assert(s.drop_last().len() == 0);
        assert(folder_rects(s.drop_last()).len() == 0);
        assert(folder_rects(s) == folder_rects(s.drop_last()));
    } else {
        let p = s.drop_last();
        assert forall|j: int| 1 <= j < p.len() implies !(#[trigger] p[j]).is_add by {
            assert(p[j] == s[j]);
        }
        lemma_folder_rects_after_add(p);
        assert(!s[s.len() - 1].is_add);
        assert forall|k: int| 0 <= k < s.len() - 1 implies #[trigger] folder_rects(s)[k] == s[k
            + 1].rect by {
            if k < p.len() - 1 {
                assert(p[k + 1] == s[k + 1]);
            }
        }
    }
}

/// The reorder caret of a horizontal toolbar laid out as `+` first and
/// folders after it marks where the dragged folder will go: for an
/// insertion point `k` before the last folder (`k` = 0 included) it stands
/// one pixel left of folder `k` (button `k + 1`); only an insertion point
/// at or past the folder count puts it one pixel right of the last folder.
/// It runs from two pixels below the client's top to two above its bottom.
pub proof fn lemma_caret_marks_insertion_point(
    buttons: Seq<ButtonLayout>,
    src: usize,
    k: usize,
    client: Rect,
    dpi: u32,
)
    requires
        buttons.len() >= 2,
        buttons[0].is_add,
        forall|j: int| 1 <= j < buttons.len() ==> !(#[trigger] buttons[j]).is_add,
        in_i32(client.top + 2),
        in_i32(client.bottom - 2),
        k + 1 < buttons.len() ==> in_i32(buttons[k + 1].rect.left - 1),
        in_i32(buttons.last().rect.right + 1),
    ensures
        ({
            let c = caret_spec(Layout::Horizontal, buttons, Some((src, k)), client, dpi);
            &&& c is Some
            &&& c->0.top == client.top + 2
            &&& c->0.bottom == client.bottom - 2
            &&& k + 1 < buttons.len() ==> c->0.left == buttons[k + 1].rect.left - 1
            &&& k + 1 >= buttons.len() ==> c->0.left == buttons.last().rect.right + 1
        }),
{
    lemma_folder_rects_after_add(buttons);
    let f = folder_rects(buttons);
    if k + 1 < buttons.len() {
        assert(f[k as int] == buttons[k + 1].rect);
    } else {
        assert(f.last() == f[f.len() - 1]);
        assert(f[buttons.len() - 2] == buttons[buttons.len() - 1].rect);
    }
}

} // verus!
