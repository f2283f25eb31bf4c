//! When the toolbar is shown, hidden or moved, decided from cross-process
//! window events. The WinEvent callback in the application gathers the
//! facts about the event's window and executes the `ForegroundAction`
//! chosen here.

use vstd::prelude::*;
use crate::text::{ascii_lower, char_to_ascii_lower, decode_units_prefix, utf16_lossy};
use crate::target::ActiveTarget;
use crate::config::DEFAULT_REPOSITION_DELAY_MS;

verus! {

/// Role a foreground window can play for the toolbar.
#[derive(Debug, Clone, Copy, PartialEq, Eq, Structural)]
pub enum HwndRole {
    /// A Shell-hosted file dialog (Save As / Open).
    FileDialog,
    /// Not a role the toolbar cares about.
    Unknown,
}

pub open spec fn dialog_class() -> Seq<char> {
    seq!['#', '3', '2', '7', '7', '0']
}

pub open spec fn cabinet_class() -> Seq<char> {
    seq!['C', 'a', 'b', 'i', 'n', 'e', 't', 'W', 'C', 'l', 'a', 's', 's']
}

fn str_equals(a: &str, b: &str) -> (r: bool)
    ensures
        r == (a@ == b@),
{
    let n = a.unicode_len();
    if n != b.unicode_len() {
        return false;
    }
    let mut i: usize = 0;
    while i < n
        invariant
            n == a@.len(),
            n == b@.len(),
            i <= n,
            forall|k: int| 0 <= k < i ==> a@[k] == b@[k],
        decreases n - i,
    {
        if a.get_char(i) != b.get_char(i) {
            return false;
        }
        i = i + 1;
    }
    assert(a@ =~= b@);
    true
}

/// Whether a window class name is the file dialog class `#32770`.
pub fn is_dialog_class(class_name: &str) -> (r: bool)
    ensures
        r == (class_name@ == dialog_class()),
{
    proof {
        reveal_strlit("#32770");
    }
    let r = str_equals(class_name, "#32770");
    assert("#32770"@ =~= dialog_class());
    r
}

/// Whether a window class name is the Explorer frame class `CabinetWClass`.
pub fn is_cabinet_class(class_name: &str) -> (r: bool)
    ensures
        r == (class_name@ == cabinet_class()),
{
    proof {
        reveal_strlit("CabinetWClass");
    }
    let r = str_equals(class_name, "CabinetWClass");
    assert("CabinetWClass"@ =~= cabinet_class());
    r
}

/// Whether a window class name is `SHELLDLL_DefView`, the shell view that
/// marks a Shell-hosted file dialog.
pub fn is_defview_class(class_name: &str) -> (r: bool)
    ensures
        r == (class_name@ == "SHELLDLL_DefView"@),
{
    str_equals(class_name, "SHELLDLL_DefView")
}

/// The class name that `GetClassNameW` wrote into `buf`, given the length it
/// returned: empty for a length of zero or less (the call failed), else the
/// first `len` units decoded.
pub fn class_name_from_units(buf: &[u16], len: i32) -> (r: String)
    requires
        len <= buf@.len(),
    ensures
        len <= 0 ==> r@ == Seq::<char>::empty(),
        len > 0 ==> r@ == utf16_lossy(buf@.subrange(0, len as int)),
{
    if len <= 0 {
        return String::new();
    }
    decode_units_prefix(buf, len as usize)
}

/// The probe that looks for a `SHELLDLL_DefView` descendant with
/// `EnumChildWindows`.
#[derive(Debug, Clone, Copy, Default)]
pub struct Win32DefViewProbe;

/// Whether classifying a window needs the `SHELLDLL_DefView` probe: only
/// when file dialogs are enabled and the window's class is `#32770`. For
/// any other window the probe is not run and its answer does not matter.
pub fn needs_defview_probe(class_name: &str, dialog_enabled: bool) -> (r: bool)
    ensures
        r == (dialog_enabled && class_name@ == dialog_class()),
{
    dialog_enabled && is_dialog_class(class_name)
}

/// A window is a file dialog when dialogs are enabled, its class is
/// `#32770`, and it has a `SHELLDLL_DefView` descendant (`has_defview`,
/// the probe's answer; the caller runs the probe only where
/// `needs_defview_probe` says so, and passes `false` elsewhere).
pub fn classify_hwnd(class_name: &str, dialog_enabled: bool, has_defview: bool) -> (r: HwndRole)
    ensures
        r == (if dialog_enabled && class_name@ == dialog_class() && has_defview {
            HwndRole::FileDialog
        } else {
            HwndRole::Unknown
        }),
{
    if !dialog_enabled {
        return HwndRole::Unknown;
    }
    if is_dialog_class(class_name) && has_defview {
        return HwndRole::FileDialog;
    }
    HwndRole::Unknown
}

/// Classification of a window gaining the foreground.
#[derive(Debug, Clone, Copy, PartialEq, Eq, Structural)]
pub enum Foreground {
    /// Owned by this process.
    Ours,
    /// Owned by `explorer.exe`.
    Explorer,
    /// Owned by any other process.
    Other,
}

pub open spec fn is_path_sep(c: char) -> bool {
    c == '\\' || c == '/'
}

/// Index where the last path segment of `s[..i]` starts.
pub open spec fn segment_start(s: Seq<char>, i: int) -> int
    decreases i,
{
    if i <= 0 {
        0
    } else if is_path_sep(s[i - 1]) {
        i
    } else {
        segment_start(s, i - 1)
    }
}

/// The text after the last `\` or `/`.
pub open spec fn basename(s: Seq<char>) -> Seq<char> {
    s.subrange(segment_start(s, s.len() as int), s.len() as int)
}

pub open spec fn explorer_exe() -> Seq<char> {
    seq!['e', 'x', 'p', 'l', 'o', 'r', 'e', 'r', '.', 'e', 'x', 'e']
}

/// ASCII lower-casing of every character.
pub open spec fn lower_seq(s: Seq<char>) -> Seq<char> {
    s.map_values(|c: char| ascii_lower(c))
}

pub open spec fn is_explorer_exe(path: Seq<char>) -> bool {
    lower_seq(basename(path)) == explorer_exe()
}

pub open spec fn classify_foreground_spec(target_pid: u32, target_exe: Option<Seq<char>>, our_pid: u32) -> Foreground {
    if target_pid == our_pid {
        Foreground::Ours
    } else if target_exe matches Some(p) && is_explorer_exe(p) {
        Foreground::Explorer
    } else {
        Foreground::Other
    }
}

proof fn lemma_segment_start_bounds(s: Seq<char>, i: int)
    requires
        0 <= i <= s.len(),
    ensures
        0 <= segment_start(s, i) <= i,
    decreases i,
{
    if i > 0 && !is_path_sep(s[i - 1]) {
        lemma_segment_start_bounds(s, i - 1);
    }
}

/// Whether the executable's file name (after the last `\` or `/`) is
/// `explorer.exe`, ignoring ASCII case.
pub fn exe_is_explorer(path: &str) -> (r: bool)
    ensures
        r == is_explorer_exe(path@),
{
    let n = path.unicode_len();
    let mut i: usize = n;
    while i > 0
        invariant
            n == path@.len(),
            i <= n,
            segment_start(path@, n as int) == segment_start(path@, i as int),
        ensures
            i <= n,
            segment_start(path@, n as int) == segment_start(path@, i as int),
            i == 0 || is_path_sep(path@[i - 1]),
        decreases i,
    {
        let c = path.get_char(i - 1);
        if c == '\\' || c == '/' {
            break;
        }
        i = i - 1;
    }
    proof {
        lemma_segment_start_bounds(path@, n as int);
    }
    let start = i;
    let ghost base = basename(path@);
    let ghost lowered = lower_seq(base);
    assert(base =~= path@.subrange(start as int, n as int));
    proof {
        reveal_strlit("explorer.exe");
    }
    let lit = "explorer.exe";
    assert(lit@ =~= explorer_exe());
    assert(segment_start(path@, start as int) == start as int);
    assert(lowered.len() == n - start);
    if n - start != 12 {
        assert(lowered.len() != explorer_exe().len());
        return false;
    }
    let mut k: usize = 0;
    while k < 12
        invariant
            n == path@.len(),
            start + 12 == n,
            base == path@.subrange(start as int, n as int),
            base == basename(path@),
            lowered == lower_seq(base),
            lit@ == explorer_exe(),
            k <= 12,
            forall|j: int| 0 <= j < k ==> lowered[j] == explorer_exe()[j],
        decreases 12 - k,
    {
        let c = char_to_ascii_lower(path.get_char(start + k));
        if c != lit.get_char(k) {
            assert(lowered[k as int] != explorer_exe()[k as int]);
            return false;
        }
        k = k + 1;
    }
    assert(lowered =~= explorer_exe());
    true
}

/// Classifies the owner of a window gaining the foreground by process id
/// and executable path.
pub fn classify_foreground(target_pid: u32, target_exe: Option<&str>, our_pid: u32) -> (r: Foreground)
    ensures
        r == classify_foreground_spec(
            target_pid,
            match target_exe {
                Some(p) => Some(p@),
                None => None,
            },
            our_pid,
        ),
{
    if target_pid == our_pid {
        return Foreground::Ours;
    }
    match target_exe {
        Some(p) => if exe_is_explorer(p) {
            Foreground::Explorer
        } else {
            Foreground::Other
        },
        None => Foreground::Other,
    }
}

pub const EVENT_SYSTEM_FOREGROUND: u32 = 0x0003;
pub const EVENT_SYSTEM_MOVESIZESTART: u32 = 0x000A;
pub const EVENT_SYSTEM_MOVESIZEEND: u32 = 0x000B;
pub const EVENT_SYSTEM_MINIMIZESTART: u32 = 0x0016;
pub const EVENT_SYSTEM_MINIMIZEEND: u32 = 0x0017;
pub const EVENT_OBJECT_LOCATIONCHANGE: u32 = 0x800B;
pub const OBJID_WINDOW: i32 = 0;
pub const CHILDID_SELF: i32 = 0;


/// What the toolbar state says, when the toolbar window has one.
#[derive(Debug, Clone, Copy, PartialEq, Eq, Structural)]
pub struct ToolbarFacts {
    pub active: Option<ActiveTarget>,
    pub explorer_moving: bool,
    /// The configured reposition delay, when a config is loaded.
    pub reposition_delay_ms: Option<u32>,
}

/// Facts about one WinEvent, gathered by the callback.
#[derive(Debug, Clone, Copy, PartialEq, Eq, Structural)]
pub struct ForegroundEvent {
    pub event: u32,
    pub hwnd: isize,
    pub id_object: i32,
    pub id_child: i32,
    /// The window's class is `CabinetWClass`.
    pub is_cabinet: bool,
    /// The window belongs to this process.
    pub in_our_process: bool,
    /// The window belongs to an `explorer.exe` process.
    pub in_explorer_process: bool,
    /// The toolbar window exists.
    pub toolbar_exists: bool,
    /// The toolbar's state, when it has one.
    pub state: Option<ToolbarFacts>,
}

/// What the callback does.
#[derive(Debug, Clone, Copy, PartialEq, Eq, Structural)]
pub enum ForegroundAction {
    Ignore,
    /// Hide the toolbar unless the current foreground window is ours.
    UpdateVisibility,
    /// Move the toolbar next to `hwnd` and show it.
    RepositionAndShow { hwnd: isize },
    /// An Explorer drag/resize began on the active target: mark it moving
    /// and hide the toolbar.
    BeginExplorerMove,
    /// The drag/resize ended: clear the flag, then reposition next to `hwnd`.
    EndExplorerMove { hwnd: isize },
    /// Hide now and reposition after `delay_ms` (debounced by timer).
    HideAndScheduleReposition { delay_ms: u32 },
    /// An Explorer window took the foreground: make it the active target,
    /// create the toolbar if there is none (and Explorer is ready), then
    /// reposition next to it if the toolbar exists.
    ExplorerForeground { hwnd: isize, create_toolbar: bool },
    /// Another Explorer-process window took the foreground: show the toolbar
    /// only if `popup_should_show` says so for the active target `active`.
    CheckExplorerPopup { active: isize },
    /// Hide the toolbar.
    Hide,
}

pub open spec fn active_is(st: Option<ToolbarFacts>, hwnd: isize) -> bool {
    st matches Some(s) && s.active matches Some(t) && t.hwnd == hwnd
}

pub open spec fn decide_foreground_spec(e: ForegroundEvent) -> ForegroundAction {
    if e.event == EVENT_SYSTEM_MINIMIZESTART {
        if !e.in_our_process && e.toolbar_exists {
            ForegroundAction::UpdateVisibility
        } else {
            ForegroundAction::Ignore
        }
    } else if e.event == EVENT_SYSTEM_MINIMIZEEND {
        if e.is_cabinet && e.toolbar_exists {
            ForegroundAction::RepositionAndShow { hwnd: e.hwnd }
        } else {
            ForegroundAction::Ignore
        }
    } else if e.event == EVENT_SYSTEM_MOVESIZESTART {
        if e.toolbar_exists && active_is(e.state, e.hwnd) {
            ForegroundAction::BeginExplorerMove
        } else {
            ForegroundAction::Ignore
        }
    } else if e.event == EVENT_SYSTEM_MOVESIZEEND {
        if e.toolbar_exists && active_is(e.state, e.hwnd) {
            ForegroundAction::EndExplorerMove { hwnd: e.hwnd }
        } else {
            ForegroundAction::Ignore
        }
    } else if e.event == EVENT_OBJECT_LOCATIONCHANGE && e.id_object == OBJID_WINDOW && e.id_child
        == CHILDID_SELF {
        if e.toolbar_exists && active_is(e.state, e.hwnd) && !e.state->0.explorer_moving {
            ForegroundAction::HideAndScheduleReposition {
                delay_ms: match e.state->0.reposition_delay_ms {
                    Some(d) => d,
                    None => DEFAULT_REPOSITION_DELAY_MS,
                },
            }
        } else {
            ForegroundAction::Ignore
        }
    } else if e.event != EVENT_SYSTEM_FOREGROUND {
        ForegroundAction::Ignore
    } else if e.is_cabinet {
        ForegroundAction::ExplorerForeground { hwnd: e.hwnd, create_toolbar: !e.toolbar_exists }
    } else if e.in_explorer_process {
        if e.toolbar_exists && (e.state matches Some(s) && s.active is Some) {
            ForegroundAction::CheckExplorerPopup { active: e.state->0.active->0.hwnd }
        } else {
            ForegroundAction::Ignore
        }
    } else if e.in_our_process {
        ForegroundAction::Ignore
    } else if e.toolbar_exists {
        ForegroundAction::Hide
    } else {
        ForegroundAction::Ignore
    }
}

/// Decides what a WinEvent does to the toolbar: minimise and move/resize
/// events of the active Explorer hide or reposition it, location changes
/// are debounced, an Explorer window in the foreground (re)attaches it,
/// Explorer's own pop-ups keep it only when they belong to the active
/// Explorer, this process's windows keep it, and any other window hides it.
pub fn decide_foreground(e: ForegroundEvent) -> (r: ForegroundAction)
    ensures
        r == decide_foreground_spec(e),
{
    let active_matches = match e.state {
        Some(s) => match s.active {
            Some(t) => t.hwnd == e.hwnd,
            None => false,
        },
        None => false,
    };
    if e.event == EVENT_SYSTEM_MINIMIZESTART {
        if !e.in_our_process && e.toolbar_exists {
            return ForegroundAction::UpdateVisibility;
        }
        return ForegroundAction::Ignore;
    }
    if e.event == EVENT_SYSTEM_MINIMIZEEND {
        if e.is_cabinet && e.toolbar_exists {
            return ForegroundAction::RepositionAndShow { hwnd: e.hwnd };
        }
        return ForegroundAction::Ignore;
    }
    if e.event == EVENT_SYSTEM_MOVESIZESTART {
        if e.toolbar_exists && active_matches {
            return ForegroundAction::BeginExplorerMove;
        }
        return ForegroundAction::Ignore;
    }
    if e.event == EVENT_SYSTEM_MOVESIZEEND {
        if e.toolbar_exists && active_matches {
            return ForegroundAction::EndExplorerMove { hwnd: e.hwnd };
        }
        return ForegroundAction::Ignore;
    }
    if e.event == EVENT_OBJECT_LOCATIONCHANGE && e.id_object == OBJID_WINDOW && e.id_child
        == CHILDID_SELF {
        if let Some(s) = e.state {
            if e.toolbar_exists && active_matches && !s.explorer_moving {
                let delay_ms = match s.reposition_delay_ms {
                    Some(d) => d,
                    None => DEFAULT_REPOSITION_DELAY_MS,
                };
                return ForegroundAction::HideAndScheduleReposition { delay_ms };
            }
        }
        return ForegroundAction::Ignore;
    }
    if e.event != EVENT_SYSTEM_FOREGROUND {
        return ForegroundAction::Ignore;
    }
    if e.is_cabinet {
        return ForegroundAction::ExplorerForeground {
            hwnd: e.hwnd,
            create_toolbar: !e.toolbar_exists,
        };
    }
    if e.in_explorer_process {
        if e.toolbar_exists {
            if let Some(s) = e.state {
                if let Some(t) = s.active {
                    return ForegroundAction::CheckExplorerPopup { active: t.hwnd };
                }
            }
        }
        return ForegroundAction::Ignore;
    }
    if e.in_our_process {
        return ForegroundAction::Ignore;
    }
    if e.toolbar_exists {
        ForegroundAction::Hide
    } else {
        ForegroundAction::Ignore
    }
}

/// An Explorer-process pop-up keeps the toolbar only if its root window is
/// the active Explorer (which excludes the task switcher) and Explorer
/// really is in the foreground: the foreground window is the pop-up itself,
/// a `CabinetWClass`, or another Explorer-process window.
pub fn popup_should_show(
    root: isize,
    active: isize,
    hwnd: isize,
    foreground: isize,
    foreground_is_cabinet: bool,
    foreground_in_explorer: bool,
) -> (r: bool)
    ensures
        r == (root == active && (foreground == hwnd || foreground_is_cabinet
            || foreground_in_explorer)),
{
    root == active && (foreground == hwnd || foreground_is_cabinet || foreground_in_explorer)
}

/// On a foreground change away from Explorer's own windows, the toolbar is
/// hidden unless the foreground window belongs to this process.
pub fn should_hide_for_foreground(foreground_in_our_process: bool) -> (r: bool)
    ensures
        r == !foreground_in_our_process,
{
    !foreground_in_our_process
}

/// When showing the toolbar over the active target: reposition when the
/// target's origin differs from the one recorded at the last positioning
/// (it moved, maximised or restored), otherwise just raise it.
pub fn needs_reposition(last_origin: Option<(i32, i32)>, current_origin: (i32, i32)) -> (r: bool)
    ensures
        r == (last_origin != Some(current_origin)),
{
    match last_origin {
        Some(o) => !(o.0 == current_origin.0 && o.1 == current_origin.1),
        None => true,
    }
}

/// A window of this process never hides the toolbar on a foreground change.
pub proof fn lemma_own_windows_never_hide(e: ForegroundEvent)
    requires
        e.event == EVENT_SYSTEM_FOREGROUND,
        e.in_our_process,
        !e.is_cabinet,
        !e.in_explorer_process,
    ensures
        decide_foreground_spec(e) == ForegroundAction::Ignore,
{
}

/// Only a foreground change to a window that is neither Explorer's nor this
/// process's hides the toolbar outright.
pub proof fn lemma_hide_only_for_foreign_foreground(e: ForegroundEvent)
    requires
        decide_foreground_spec(e) == ForegroundAction::Hide,
    ensures
        e.event == EVENT_SYSTEM_FOREGROUND,
        !e.is_cabinet,
        !e.in_explorer_process,
        !e.in_our_process,
        e.toolbar_exists,
{
}

/// Move and resize tracking only ever concerns the active target.
pub proof fn lemma_move_tracking_targets_active(e: ForegroundEvent)
    requires
        decide_foreground_spec(e) is BeginExplorerMove || decide_foreground_spec(
            e,
        ) is EndExplorerMove || decide_foreground_spec(e) is HideAndScheduleReposition,
    ensures
        active_is(e.state, e.hwnd),
        e.toolbar_exists,
{
}

/// A move or resize of the active Explorer window is bracketed: while the
/// toolbar exists, the end of a move/resize of the window that is the
/// active target ends the move for that window (clear the moving flag,
/// reposition, show), and the start and end of a move/resize of the same
/// window with the same toolbar state are answered alike: the start begins
/// a move exactly when the end ends one.
pub proof fn lemma_move_end_answers_move_start(start: ForegroundEvent, end: ForegroundEvent)
    requires
        start.event == 0x000A,
        end.event == 0x000B,
        start.hwnd == end.hwnd,
        start.toolbar_exists == end.toolbar_exists,
        start.state == end.state,
    ensures
        (end.toolbar_exists && end.state is Some && end.state->0.active is Some
            && end.state->0.active->0.hwnd == end.hwnd) ==> decide_foreground_spec(end) == (ForegroundAction::EndExplorerMove {
            hwnd: end.hwnd,
        }),
        (decide_foreground_spec(start) == ForegroundAction::BeginExplorerMove) <==> (
        decide_foreground_spec(end) == (ForegroundAction::EndExplorerMove { hwnd: end.hwnd })),
        decide_foreground_spec(end) is EndExplorerMove || decide_foreground_spec(end) is Ignore,
{
}

} // verus!
