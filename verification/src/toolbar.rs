//! The toolbar window's decisions: how window messages become pointer
//! events, what each pointer command and context-menu choice does, and
//! where a folder activation goes (same window, new tab, new window or a
//! file dialog). The window procedure performs what these functions return.

use vstd::prelude::*;
use crate::config::Layout;
use crate::layout::{
    ButtonLayout, InsertionInput, Rect, compute_insertion_index, first_hit, folders_before, hit_test,
    in_grip,
};
use crate::pointer::{
    HitResult, PointerCommand, PointerEvent, PointerState, past_threshold_spec, transition_spec,
};
use crate::target::{ActiveTarget, TargetKind};
use crate::theme::scale;

verus! {

/// Message posted to the toolbar to rebuild it from the saved config.
pub const WM_USER_RELOAD: u32 = 0x0401;
/// Timer that repositions the toolbar after Explorer's maximize animation.
pub const TIMER_REPOSITION: usize = 1;
/// Horizontal text padding inside a folder button, in logical pixels.
pub const BTN_PAD_H: i32 = 10;
/// Width (horizontal layout) or height (vertical) of the drag grip, in
/// logical pixels.
pub const GRIP_SIZE: i32 = 12;
/// Distance a pressed folder must travel before a reorder drag begins, in
/// logical pixels.
pub const REORDER_THRESHOLD: i32 = 5;
/// New-tab timeout used when no configuration is loaded.
pub const FALLBACK_NEW_TAB_TIMEOUT_MS: u32 = 500;

/// `WM_NCHITTEST` answer for the draggable caption area.
pub const HTCAPTION: isize = 2;
/// `WM_NCHITTEST` answer for the client area.
pub const HTCLIENT: isize = 1;
/// `MK_CONTROL` bit of a mouse message's `wParam`.
pub const MK_CONTROL_BIT: usize = 0x0008;

pub const MENU_ID_EDIT_CONFIG: u32 = 101;
pub const MENU_ID_RELOAD_CONFIG: u32 = 102;
pub const MENU_ID_OPEN: u32 = 201;
pub const MENU_ID_OPEN_NEW_TAB: u32 = 202;
pub const MENU_ID_COPY_PATH: u32 = 203;
pub const MENU_ID_RENAME: u32 = 204;
pub const MENU_ID_REMOVE: u32 = 205;

/// A signed 16-bit value read from its two's-complement bit pattern.
pub open spec fn sext16(v: int) -> int {
    if v < 0x8000 { v } else { v - 0x10000 }
}

/// The low 16 bits of `v`, sign-extended.
fn low_word_signed(v: isize) -> (r: i32)
    ensures
        r == sext16((v & 0xFFFF) as int),
{
    let lo: isize = v & 0xFFFF;
    assert(0 <= (v & 0xFFFF) <= 0xFFFF) by (bit_vector);
    if lo < 0x8000 {
        lo as i32
    } else {
        (lo - 0x10000) as i32
    }
}

/// The point packed in a mouse message's `lParam`: `x` in the low word,
/// `y` in the high word, each a signed 16-bit value.
pub fn lparam_point(lparam: isize) -> (r: (i32, i32))
    ensures
        r.0 == sext16((lparam & 0xFFFF) as int),
        r.1 == sext16(((lparam >> 16) & 0xFFFF) as int),
{
    let x = low_word_signed(lparam);
    let hi: isize = lparam >> 16;
    let y = low_word_signed(hi);
    (x, y)
}

/// The new DPI that `WM_DPICHANGED` carries in the low word of `wParam`.
pub fn dpi_from_wparam(wparam: usize) -> (r: u32)
    ensures
        r == (wparam & 0xFFFF) as int,
{
    assert((wparam & 0xFFFF) <= 0xFFFF) by (bit_vector);
    (wparam & 0xFFFF) as u32
}

/// The hit result under `(x, y)`: the first button containing the point,
/// a folder unless it is the `+` button.
pub open spec fn hit_result_spec(buttons: Seq<ButtonLayout>, x: int, y: int) -> Option<HitResult> {
    match first_hit(buttons, x, y) {
        Some(i) => Some(HitResult { button: i, is_folder: !buttons[i as int].is_add }),
        None => None,
    }
}

pub fn hit_result_at(buttons: &[ButtonLayout], x: i32, y: i32) -> (r: Option<HitResult>)
    ensures
        r == hit_result_spec(buttons@, x as int, y as int),
{
    match hit_test(buttons, x, y) {
        Some(i) => Some(HitResult { button: i, is_folder: !buttons[i].is_add }),
        None => None,
    }
}

/// `WM_NCHITTEST`: the grip and empty space drag the window, buttons are
/// client area.
pub fn nchittest_code(layout: Layout, grip_size: i32, buttons: &[ButtonLayout], x: i32, y: i32) -> (r: isize)
    ensures
        r == (if (match layout {
            Layout::Horizontal => x < grip_size,
            Layout::Vertical => y < grip_size,
        }) {
            HTCAPTION
        } else if first_hit(buttons@, x as int, y as int) is Some {
            HTCLIENT
        } else {
            HTCAPTION
        }),
{
    if in_grip(layout, grip_size, x, y) {
        return HTCAPTION;
    }
    if hit_test(buttons, x, y).is_some() {
        return HTCLIENT;
    }
    HTCAPTION
}

/// `WM_LBUTTONDOWN` as a pointer event.
pub fn press_event(buttons: &[ButtonLayout], lparam: isize) -> (r: PointerEvent)
    ensures
        ({
            let x = sext16((lparam & 0xFFFF) as int);
            let y = sext16(((lparam >> 16) & 0xFFFF) as int);
            r matches PointerEvent::Press { x: rx, y: ry, hit } && rx == x && ry == y && hit
                == hit_result_spec(buttons@, x, y)
        }),
{
    let (x, y) = lparam_point(lparam);
    let hit = hit_result_at(buttons, x, y);
    PointerEvent::Press { x, y, hit }
}

/// `WM_LBUTTONUP` as a pointer event; `ctrl` is the `MK_CONTROL` bit.
pub fn release_event(buttons: &[ButtonLayout], wparam: usize, lparam: isize) -> (r: PointerEvent)
    ensures
        ({
            let x = sext16((lparam & 0xFFFF) as int);
            let y = sext16(((lparam >> 16) & 0xFFFF) as int);
            r matches PointerEvent::Release { x: rx, y: ry, hit, ctrl } && rx == x && ry == y
                && hit == hit_result_spec(buttons@, x, y) && ctrl == ((wparam & MK_CONTROL_BIT)
                != 0)
        }),
{
    let (x, y) = lparam_point(lparam);
    let hit = hit_result_at(buttons, x, y);
    let ctrl = (wparam & MK_CONTROL_BIT) != 0;
    PointerEvent::Release { x, y, hit, ctrl }
}

/// `WM_MOUSEMOVE` as a pointer event: the point, the hit under it, the
/// reorder threshold at `dpi`, and the insertion point that a reorder drag
/// shows with the cursor there.
pub fn move_event(buttons: &[ButtonLayout], orientation: Layout, dpi: u32, lparam: isize) -> (r: PointerEvent)
    requires
        5 * dpi <= u32::MAX,
    ensures
        ({
            let x = sext16((lparam & 0xFFFF) as int);
            let y = sext16(((lparam >> 16) & 0xFFFF) as int);
            r matches PointerEvent::Move {
                x: rx,
                y: ry,
                hit,
                reorder_threshold_px: t,
                insertion_if_reordering: ins,
            } && rx == x && ry == y && hit == hit_result_spec(buttons@, x, y) && t == (((5 * dpi)
                / 96) as u32) as i32 && ins == folders_before(
                buttons@,
                orientation,
                x,
                y,
                buttons@.len() as int,
            )
        }),
{
    let (x, y) = lparam_point(lparam);
    let hit = hit_result_at(buttons, x, y);
    let reorder_threshold_px = reorder_threshold_px(dpi);
    let insertion_if_reordering = compute_insertion_index(
        &InsertionInput { buttons, orientation, cursor_x: x, cursor_y: y },
    );
    PointerEvent::Move { x, y, hit, reorder_threshold_px, insertion_if_reordering }
}

/// The reorder-drag threshold at `dpi`, in physical pixels.
pub fn reorder_threshold_px(dpi: u32) -> (r: i32)
    requires
        5 * dpi <= u32::MAX,
    ensures
        r == (((5 * dpi) / 96) as u32) as i32,
{
    scale(REORDER_THRESHOLD, dpi)
}

/// `WM_CAPTURECHANGED`: a release the toolbar asked for itself only clears
/// the pending flag; any other capture loss is fed to the pointer machine.
/// Returns the new pending flag and the event to feed, if any.
pub fn capture_changed(self_release_pending: bool) -> (r: (bool, Option<PointerEvent>))
    ensures
        self_release_pending ==> r == (false, None::<PointerEvent>),
        !self_release_pending ==> r == (false, Some(PointerEvent::CaptureLost)),
{
    if self_release_pending {
        (false, None)
    } else {
        (false, Some(PointerEvent::CaptureLost))
    }
}

/// Where a folder activation sends its path.
#[derive(Debug, PartialEq, Eq)]
pub enum FolderOpen {
    /// Browse the Explorer window `explorer` to `path`.
    Navigate { explorer: isize, path: String },
    /// Open `path` in a new tab of `explorer`, waiting at most `timeout_ms`.
    OpenNewTab { explorer: isize, path: String, timeout_ms: u32 },
    /// Open `path` in a new Explorer window.
    OpenNewWindow { path: String },
    /// Type `path` into the address bar of the file dialog `dialog`.
    DialogNavigate { dialog: isize, path: String },
    /// No target: nothing happens.
    Nothing,
}

/// The new-tab timeout in force: the configured one, or 500 ms without a
/// configuration.
pub open spec fn timeout_in_force(configured: Option<u32>) -> u32 {
    match configured {
        Some(t) => t,
        None => FALLBACK_NEW_TAB_TIMEOUT_MS,
    }
}

/// Whether `o` opens `path` by the plain rule (`ctrl == false`: navigate an
/// Explorer target in place, type the path into a file dialog) or by the
/// new-tab rule (`ctrl`: a new tab of an Explorer target, a new window
/// when the target is a file dialog). Without a target nothing happens.
pub open spec fn opens(o: FolderOpen, ctrl: bool, active: Option<ActiveTarget>, configured_timeout: Option<u32>, path: Seq<char>) -> bool {
    match active {
        None => o is Nothing,
        Some(t) => {
            if ctrl {
                match t.kind {
                    TargetKind::FileDialog => o matches FolderOpen::OpenNewWindow { path: p } && p@
                        == path,
                    TargetKind::Explorer => o matches FolderOpen::OpenNewTab {
                        explorer: e,
                        path: p,
                        timeout_ms: ms,
                    } && e == t.hwnd && p@ == path && ms == timeout_in_force(configured_timeout),
                }
            } else {
                match t.kind {
                    TargetKind::FileDialog => o matches FolderOpen::DialogNavigate {
                        dialog: d,
                        path: p,
                    } && d == t.hwnd && p@ == path,
                    TargetKind::Explorer => o matches FolderOpen::Navigate {
                        explorer: e,
                        path: p,
                    } && e == t.hwnd && p@ == path,
                }
            }
        },
    }
}

/// Opens `path` by the plain or the new-tab rule.
fn open_path(ctrl: bool, active: Option<ActiveTarget>, configured_timeout: Option<u32>, path: &String) -> (r: FolderOpen)
    ensures
        opens(r, ctrl, active, configured_timeout, path@),
{
    match active {
        None => FolderOpen::Nothing,
        Some(t) => {
            if ctrl {
                match t.kind {
                    TargetKind::FileDialog => FolderOpen::OpenNewWindow { path: path.clone() },
                    TargetKind::Explorer => {
                        let timeout_ms = match configured_timeout {
                            Some(ms) => ms,
                            None => FALLBACK_NEW_TAB_TIMEOUT_MS,
                        };
                        FolderOpen::OpenNewTab { explorer: t.hwnd, path: path.clone(), timeout_ms }
                    },
                }
            } else {
                match t.kind {
                    TargetKind::FileDialog => FolderOpen::DialogNavigate {
                        dialog: t.hwnd,
                        path: path.clone(),
                    },
                    TargetKind::Explorer => FolderOpen::Navigate {
                        explorer: t.hwnd,
                        path: path.clone(),
                    },
                }
            }
        },
    }
}

/// `FireFolderClick`: `folder_button` counts folders only, so its button
/// is `buttons[folder_button + 1]` (the `+` button comes first). Out of
/// range, nothing happens.
pub fn folder_click_action(
    buttons: &[ButtonLayout],
    active: Option<ActiveTarget>,
    configured_timeout: Option<u32>,
    folder_button: usize,
    ctrl: bool,
) -> (r: FolderOpen)
    ensures
        folder_button + 1 < buttons@.len() ==> opens(
            r,
            ctrl,
            active,
            configured_timeout,
            buttons@[folder_button + 1].folder.path@,
        ),
        folder_button + 1 >= buttons@.len() ==> r is Nothing,
{
    if buttons.len() == 0 || folder_button >= buttons.len() - 1 {
        return FolderOpen::Nothing;
    }
    open_path(ctrl, active, configured_timeout, &buttons[folder_button + 1].folder.path)
}

/// The toolbar's own bookkeeping around pointer commands.
#[derive(Debug, Clone, Copy, PartialEq, Eq, Structural)]
pub struct AdapterFlags {
    /// `TrackMouseEvent(TME_LEAVE)` is armed for the current hover.
    pub mouse_tracking_started: bool,
    /// The next `WM_CAPTURECHANGED` comes from our own `ReleaseCapture`.
    pub self_release_pending: bool,
}

/// What one pointer command does to the window.
#[derive(Debug, PartialEq, Eq)]
pub enum CommandEffect {
    /// `InvalidateRect` the whole toolbar.
    Invalidate,
    /// Arm `TrackMouseEvent(TME_LEAVE)`.
    TrackMouseLeave,
    /// `SetCapture` on the toolbar.
    SetCapture,
    /// `ReleaseCapture`.
    ReleaseCapture,
    /// Feed `Cancelled` to the rename machine.
    CancelInlineRename,
    /// Show the folder picker and append what it returns.
    PickFolder,
    /// Activate a folder.
    Open { open: FolderOpen },
    /// Move folder `from_folder` to `to_folder` in the saved config.
    CommitReorder { from_folder: usize, to_folder: usize },
    /// Nothing to do.
    Skip,
}

/// `ToolbarState::execute_pointer_command` as a decision: the new flags and
/// the effect. `we_have_capture` tells whether the toolbar holds the mouse
/// capture when the command runs.
pub fn plan_pointer_command(
    flags: AdapterFlags,
    we_have_capture: bool,
    cmd: PointerCommand,
    buttons: &[ButtonLayout],
    active: Option<ActiveTarget>,
    configured_timeout: Option<u32>,
) -> (r: (AdapterFlags, CommandEffect))
    ensures
        match cmd {
            PointerCommand::Redraw => r.0 == flags && r.1 is Invalidate,
            PointerCommand::StartMouseTracking => if flags.mouse_tracking_started {
                r.0 == flags && r.1 is Skip
            } else {
                r.0 == (AdapterFlags { mouse_tracking_started: true, ..flags })
                    && r.1 is TrackMouseLeave
            },
            PointerCommand::CaptureMouse => r.0 == flags && r.1 is SetCapture,
            PointerCommand::ReleaseMouse => r.0 == (AdapterFlags {
                self_release_pending: flags.self_release_pending || we_have_capture,
                ..flags
            }) && r.1 is ReleaseCapture,
            PointerCommand::CancelInlineRename => r.0 == flags && r.1 is CancelInlineRename,
            PointerCommand::FireAddClick => r.0 == flags && r.1 is PickFolder,
            PointerCommand::FireFolderClick { folder_button, ctrl } => r.0 == flags && (
            r.1 matches CommandEffect::Open { open } && (folder_button + 1 < buttons@.len()
                ==> opens(open, ctrl, active, configured_timeout,
                buttons@[folder_button + 1].folder.path@)) && (folder_button + 1
                >= buttons@.len() ==> open is Nothing)),
            PointerCommand::CommitReorder { from_folder, to_folder } => r.0 == flags && (
            r.1 matches CommandEffect::CommitReorder { from_folder: f, to_folder: t } && f
                == from_folder && t == to_folder),
        },
{
    match cmd {
        PointerCommand::Redraw => (flags, CommandEffect::Invalidate),
        PointerCommand::StartMouseTracking => {
            if flags.mouse_tracking_started {
                (flags, CommandEffect::Skip)
            } else {
                (
                    AdapterFlags {
                        mouse_tracking_started: true,
                        self_release_pending: flags.self_release_pending,
                    },
                    CommandEffect::TrackMouseLeave,
                )
            }
        },
        PointerCommand::CaptureMouse => (flags, CommandEffect::SetCapture),
        PointerCommand::ReleaseMouse => {
            let pending = if we_have_capture {
                true
            } else {
                flags.self_release_pending
            };
            (
                AdapterFlags {
                    mouse_tracking_started: flags.mouse_tracking_started,
                    self_release_pending: pending,
                },
                CommandEffect::ReleaseCapture,
            )
        },
        PointerCommand::CancelInlineRename => (flags, CommandEffect::CancelInlineRename),
        PointerCommand::FireAddClick => (flags, CommandEffect::PickFolder),
        PointerCommand::FireFolderClick { folder_button, ctrl } => {
            let open = folder_click_action(buttons, active, configured_timeout, folder_button, ctrl);
            (flags, CommandEffect::Open { open })
        },
        PointerCommand::CommitReorder { from_folder, to_folder } => {
            (flags, CommandEffect::CommitReorder { from_folder, to_folder })
        },
    }
}

/// One context-menu entry; id 0 with an empty label is a separator.
#[derive(Debug, Clone, Copy)]
pub struct MenuItem {
    pub id: u32,
    pub label: &'static str,
}

/// The separator entry.
pub fn separator() -> (r: MenuItem)
    ensures
        r.id == 0,
        r.label@ == Seq::<char>::empty(),
{
    proof {
        reveal_strlit("");
    }
    MenuItem { id: 0, label: "" }
}

/// Whether the menu shows `item` as a separator line.
pub fn is_separator(item: &MenuItem) -> (r: bool)
    ensures
        r == (item.id == 0 && item.label@.len() == 0),
{
    item.id == 0 && item.label.unicode_len() == 0
}

/// The ids of the `+` button's menu, in order.
pub open spec fn add_menu_ids() -> Seq<u32> {
    seq![MENU_ID_EDIT_CONFIG, MENU_ID_RELOAD_CONFIG]
}

/// The ids of a folder button's menu, in order; 0 is the separator.
pub open spec fn folder_menu_ids() -> Seq<u32> {
    seq![MENU_ID_OPEN, MENU_ID_OPEN_NEW_TAB, MENU_ID_COPY_PATH, 0, MENU_ID_RENAME, MENU_ID_REMOVE]
}

/// The context menu of a button: "Edit config" and "Reload config" on the
/// `+` button; "Open", "Open in new tab", "Copy path", a separator,
/// "Rename" and "Remove" on a folder.
pub fn menu_for_button(is_add: bool) -> (r: Vec<MenuItem>)
    ensures
        is_add ==> {
            &&& r@.len() == 2
            &&& forall|i: int| 0 <= i < 2 ==> r@[i].id == add_menu_ids()[i]
            &&& r@[0].label@ == "Edit config"@
            &&& r@[1].label@ == "Reload config"@
        },
        !is_add ==> {
            &&& r@.len() == 6
            &&& forall|i: int| 0 <= i < 6 ==> r@[i].id == folder_menu_ids()[i]
            &&& r@[0].label@ == "Open"@
            &&& r@[1].label@ == "Open in new tab"@
            &&& r@[2].label@ == "Copy path"@
            &&& r@[3].label@.len() == 0
            &&& r@[4].label@ == "Rename"@
            &&& r@[5].label@ == "Remove"@
        },
{
    if is_add {
        vec![
            MenuItem { id: MENU_ID_EDIT_CONFIG, label: "Edit config" },
            MenuItem { id: MENU_ID_RELOAD_CONFIG, label: "Reload config" },
        ]
    } else {
        vec![
            MenuItem { id: MENU_ID_OPEN, label: "Open" },
            MenuItem { id: MENU_ID_OPEN_NEW_TAB, label: "Open in new tab" },
            MenuItem { id: MENU_ID_COPY_PATH, label: "Copy path" },
            separator(),
            MenuItem { id: MENU_ID_RENAME, label: "Rename" },
            MenuItem { id: MENU_ID_REMOVE, label: "Remove" },
        ]
    }
}

/// Whether `o` is what the menu's "Open" does with `path`: navigate an
/// Explorer target in place, a new window when the target is a file
/// dialog, nothing without a target.
pub open spec fn menu_opens(o: FolderOpen, active: Option<ActiveTarget>, path: Seq<char>) -> bool {
    match active {
        None => o is Nothing,
        Some(t) => match t.kind {
            TargetKind::FileDialog => o matches FolderOpen::OpenNewWindow { path: p } && p@ == path,
            TargetKind::Explorer => o matches FolderOpen::Navigate { explorer: e, path: p } && e
                == t.hwnd && p@ == path,
        },
    }
}

fn menu_open(active: Option<ActiveTarget>, path: &String) -> (r: FolderOpen)
    ensures
        menu_opens(r, active, path@),
{
    match active {
        None => FolderOpen::Nothing,
        Some(t) => match t.kind {
            TargetKind::FileDialog => FolderOpen::OpenNewWindow { path: path.clone() },
            TargetKind::Explorer => FolderOpen::Navigate { explorer: t.hwnd, path: path.clone() },
        },
    }
}

/// What a context-menu choice does.
#[derive(Debug, PartialEq, Eq)]
pub enum MenuAction {
    /// Open the config file in its editor.
    EditConfig,
    /// Post `WM_USER_RELOAD` to the toolbar.
    ReloadConfig,
    /// Activate the folder.
    Open { open: FolderOpen },
    /// Put `text` on the clipboard.
    CopyPath { text: String },
    /// Start an inline rename of folder `folder_index` over `rect`.
    StartRename { folder_index: usize, rect: Rect, name: String },
    /// Remove the folder of button `button_index`.
    Remove { button_index: usize },
    /// Dismissed, or an id the menu does not hold.
    Nothing,
}

/// What choosing `chosen` in the menu of button `idx` does.
pub fn menu_choice_action(
    chosen: u32,
    idx: usize,
    buttons: &[ButtonLayout],
    active: Option<ActiveTarget>,
    configured_timeout: Option<u32>,
) -> (r: MenuAction)
    requires
        idx < buttons@.len(),
        !buttons@[idx as int].is_add && (chosen == MENU_ID_COPY_PATH || chosen == MENU_ID_RENAME)
            ==> idx > 0,
    ensures
        ({
            let b = buttons@[idx as int];
            if b.is_add {
                if chosen == MENU_ID_EDIT_CONFIG {
                    r is EditConfig
                } else if chosen == MENU_ID_RELOAD_CONFIG {
                    r is ReloadConfig
                } else {
                    r is Nothing
                }
            } else if chosen == MENU_ID_OPEN {
                r matches MenuAction::Open { open } && menu_opens(open, active, b.folder.path@)
            } else if chosen == MENU_ID_OPEN_NEW_TAB {
                r matches MenuAction::Open { open } && opens(
                    open,
                    true,
                    active,
                    configured_timeout,
                    b.folder.path@,
                )
            } else if chosen == MENU_ID_COPY_PATH {
                r matches MenuAction::CopyPath { text } && text@ == b.folder.path@
            } else if chosen == MENU_ID_RENAME {
                r matches MenuAction::StartRename { folder_index, rect, name } && folder_index == idx
                    - 1 && rect == b.rect && name@ == b.folder.name@
            } else if chosen == MENU_ID_REMOVE {
                r matches MenuAction::Remove { button_index } && button_index == idx
            } else {
                r is Nothing
            }
        }),
{
    let b = &buttons[idx];
    if b.is_add {
        if chosen == MENU_ID_EDIT_CONFIG {
            MenuAction::EditConfig
        } else if chosen == MENU_ID_RELOAD_CONFIG {
            MenuAction::ReloadConfig
        } else {
            MenuAction::Nothing
        }
    } else if chosen == MENU_ID_OPEN {
        MenuAction::Open { open: menu_open(active, &b.folder.path) }
    } else if chosen == MENU_ID_OPEN_NEW_TAB {
        MenuAction::Open { open: open_path(true, active, configured_timeout, &b.folder.path) }
    } else if chosen == MENU_ID_COPY_PATH {
        MenuAction::CopyPath { text: b.folder.path.clone() }
    } else if chosen == MENU_ID_RENAME {
        MenuAction::StartRename { folder_index: idx - 1, rect: b.rect, name: b.folder.name.clone() }
    } else if chosen == MENU_ID_REMOVE {
        MenuAction::Remove { button_index: idx }
    } else {
        MenuAction::Nothing
    }
}

/// Click to navigate: from idle or hovering, pressing the mouse on folder
/// button `b` and releasing it on the same button, both as the hit test
/// finds them, fires `FireFolderClick` for folder `b - 1` with the
/// release's `ctrl`, the folder whose button `folder_click_action` opens
/// (`buttons[b]`), and leaves the pointer hovering `b`.
pub proof fn lemma_press_release_clicks_folder(
    buttons: Seq<ButtonLayout>,
    s: PointerState,
    x0: i32,
    y0: i32,
    x1: i32,
    y1: i32,
    ctrl: bool,
)
    requires
        s is Idle || s is Hovering,
        first_hit(buttons, x0 as int, y0 as int) matches Some(b) && b >= 1 && !buttons[b as int].is_add,
        first_hit(buttons, x1 as int, y1 as int) == first_hit(buttons, x0 as int, y0 as int),
    ensures
        ({
            let b = first_hit(buttons, x0 as int, y0 as int).unwrap();
            let s1 = transition_spec(
                s,
                PointerEvent::Press { x: x0, y: y0, hit: hit_result_spec(buttons, x0 as int, y0 as int) },
            ).0;
            let (s2, cmds) = transition_spec(
                s1,
                PointerEvent::Release {
                    x: x1,
                    y: y1,
                    hit: hit_result_spec(buttons, x1 as int, y1 as int),
                    ctrl,
                },
            );
            &&& cmds.contains(
                PointerCommand::FireFolderClick { folder_button: (b - 1) as usize, ctrl },
            )
            &&& (b - 1) + 1 == b
            &&& s2 == PointerState::Hovering { button: b }
        }),
{
    let b = first_hit(buttons, x0 as int, y0 as int).unwrap();
    let s1 = transition_spec(
        s,
        PointerEvent::Press { x: x0, y: y0, hit: hit_result_spec(buttons, x0 as int, y0 as int) },
    ).0;
    assert(s1 == PointerState::PressedFolder { button: b, press_x: x0, press_y: y0 });
    let cmds = transition_spec(
        s1,
        PointerEvent::Release { x: x1, y: y1, hit: hit_result_spec(buttons, x1 as int, y1 as int), ctrl },
    ).1;
    assert(cmds[1] == PointerCommand::FireFolderClick { folder_button: (b - 1) as usize, ctrl });
}

/// Drag to re-sort: from idle or hovering, pressing the mouse on folder
/// button `b`, moving it past the reorder threshold to where the insertion
/// point is `ins`, and releasing it anywhere commits moving folder `b - 1`
/// to insertion point `ins`.
pub proof fn lemma_drag_commits_reorder(
    buttons: Seq<ButtonLayout>,
    s: PointerState,
    x0: i32,
    y0: i32,
    mv: PointerEvent,
    release: PointerEvent,
)
    requires
        s is Idle || s is Hovering,
        first_hit(buttons, x0 as int, y0 as int) matches Some(b) && b >= 1 && !buttons[b as int].is_add,
        mv matches PointerEvent::Move { x, y, reorder_threshold_px, .. } && past_threshold_spec(
            x,
            y,
            x0,
            y0,
            reorder_threshold_px,
        ),
        release is Release,
    ensures
        ({
            let b = first_hit(buttons, x0 as int, y0 as int).unwrap();
            let s1 = transition_spec(
                s,
                PointerEvent::Press { x: x0, y: y0, hit: hit_result_spec(buttons, x0 as int, y0 as int) },
            ).0;
            let s2 = transition_spec(s1, mv).0;
            transition_spec(s2, release).1.contains(
                PointerCommand::CommitReorder {
                    from_folder: (b - 1) as usize,
                    to_folder: mv->insertion_if_reordering,
                },
            )
        }),
{
    let b = first_hit(buttons, x0 as int, y0 as int).unwrap();
    let s1 = transition_spec(
        s,
        PointerEvent::Press { x: x0, y: y0, hit: hit_result_spec(buttons, x0 as int, y0 as int) },
    ).0;
    assert(s1 == PointerState::PressedFolder { button: b, press_x: x0, press_y: y0 });
    let s2 = transition_spec(s1, mv).0;
    assert(s2 == PointerState::DraggingReorder {
        source_button: b,
        insertion: mv->insertion_if_reordering,
    });
    let cmds = transition_spec(s2, release).1;
    assert(cmds[1] == PointerCommand::CommitReorder {
        from_folder: (b - 1) as usize,
        to_folder: mv->insertion_if_reordering,
    });
}

} // verus!
