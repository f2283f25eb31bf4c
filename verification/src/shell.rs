//! Decisions of the Explorer shell integration: which `IShellBrowser` of a
//! window is its active tab, how a folder is opened in a new tab (post
//! Ctrl+T, wait for the new browser to appear, fall back to a new window),
//! and the command line of a new Explorer window. The application makes the
//! COM calls and feeds their results here.

use std::collections::HashSet;
use vstd::prelude::*;

verus! {

broadcast use vstd::std_specs::hash::group_hash_axioms;

pub const WM_KEYDOWN: u32 = 0x0100;
pub const WM_KEYUP: u32 = 0x0101;
pub const VK_CONTROL_KEY: usize = 0x11;
pub const VK_T_KEY: usize = 0x54;
/// Interval between two looks for the new tab.
pub const POLL_INTERVAL_MS: u64 = 25;

/// One browser of the `IShellWindows` collection: its top-level window and
/// whether its active view lies under the window's foreground tab.
#[derive(Debug, Clone, Copy, PartialEq, Eq, Structural)]
pub struct BrowserCandidate {
    pub hwnd: isize,
    pub under_active_tab: bool,
}

/// The first index at or after `i` satisfying `p`.
pub open spec fn first_index_from(s: Seq<BrowserCandidate>, i: int, cabinet: isize, need_tab: bool) -> Option<usize>
    decreases s.len() - i,
{
    if i < 0 || i >= s.len() {
        None
    } else if s[i].hwnd == cabinet && (!need_tab || s[i].under_active_tab) {
        Some(i as usize)
    } else {
        first_index_from(s, i + 1, cabinet, need_tab)
    }
}

/// The browser of `cabinet`: the first one showing the foreground tab,
/// else the first one of that window.
pub open spec fn chosen_browser(s: Seq<BrowserCandidate>, cabinet: isize) -> Option<usize> {
    match first_index_from(s, 0, cabinet, true) {
        Some(i) => Some(i),
        None => first_index_from(s, 0, cabinet, false),
    }
}

/// Which browser `get_shell_browser_for(cabinet)` takes.
pub fn choose_browser(candidates: &[BrowserCandidate], cabinet: isize) -> (r: Option<usize>)
    ensures
        r == chosen_browser(candidates@, cabinet),
{
    let mut first_match: Option<usize> = None;
    let mut i: usize = 0;
    while i < candidates.len()
        invariant
            i <= candidates@.len(),
            first_index_from(candidates@, 0, cabinet, true) == first_index_from(
                candidates@,
                i as int,
                cabinet,
                true,
            ),
            first_index_from(candidates@, 0, cabinet, false) == match first_match {
                Some(k) => Some(k),
                None => first_index_from(candidates@, i as int, cabinet, false),
            },
            first_match matches Some(k) ==> k < i,
        decreases candidates@.len() - i,
    {
        let c = candidates[i];
        if c.hwnd == cabinet {
            if c.under_active_tab {
                return Some(i);
            }
            if first_match.is_none() {
                first_match = Some(i);
            }
        }
        i = i + 1;
    }
    first_match
}

/// How far up the window tree a browser's view is followed when looking
/// for the foreground tab.
pub const MAX_ANCESTOR_STEPS: u32 = 16;

/// One step of the walk from a browser's view window towards the tab.
#[derive(Debug, Clone, Copy, PartialEq, Eq, Structural)]
pub enum AncestorStep {
    /// The current window is the tab: the view is under it.
    Found,
    /// No parent, a parent equal to the window, or too many steps: it is not.
    NotUnder,
    /// Go on from the parent.
    Up { next: isize },
}

/// Step `step` (from 0) of the walk, at window `cur` whose parent is
/// `parent` (0 for none).
pub fn ancestor_step(step: u32, cur: isize, target: isize, parent: isize) -> (r: AncestorStep)
    ensures
        r == (if step >= MAX_ANCESTOR_STEPS {
            AncestorStep::NotUnder
        } else if cur == target {
            AncestorStep::Found
        } else if parent == 0 || parent == cur {
            AncestorStep::NotUnder
        } else {
            AncestorStep::Up { next: parent }
        }),
{
    if step >= MAX_ANCESTOR_STEPS {
        AncestorStep::NotUnder
    } else if cur == target {
        AncestorStep::Found
    } else if parent == 0 || parent == cur {
        AncestorStep::NotUnder
    } else {
        AncestorStep::Up { next: parent }
    }
}

/// How an "open in new tab" starts: with a zero timeout the tab attempt is
/// skipped and a new window opens at once.
#[derive(Debug, Clone, Copy, PartialEq, Eq, Structural)]
pub enum NewTabStart {
    NewWindow,
    TryTab,
}

pub fn new_tab_start(timeout_ms: u32) -> (r: NewTabStart)
    ensures
        r == (if timeout_ms == 0 { NewTabStart::NewWindow } else { NewTabStart::TryTab }),
{
    if timeout_ms == 0 {
        NewTabStart::NewWindow
    } else {
        NewTabStart::TryTab
    }
}

/// The messages posted to the Explorer window to press Ctrl+T: Ctrl down,
/// T down, T up, Ctrl up, as `(message, virtual key)`.
pub fn ctrl_t_messages() -> (r: Vec<(u32, usize)>)
    ensures
        r@ == seq![
            (WM_KEYDOWN, VK_CONTROL_KEY),
            (WM_KEYDOWN, VK_T_KEY),
            (WM_KEYUP, VK_T_KEY),
            (WM_KEYUP, VK_CONTROL_KEY),
        ],
{
    let v = vec![
        (WM_KEYDOWN, VK_CONTROL_KEY),
        (WM_KEYDOWN, VK_T_KEY),
        (WM_KEYUP, VK_T_KEY),
        (WM_KEYUP, VK_CONTROL_KEY),
    ];
    assert(v@ =~= seq![
        (WM_KEYDOWN, VK_CONTROL_KEY),
        (WM_KEYDOWN, VK_T_KEY),
        (WM_KEYUP, VK_T_KEY),
        (WM_KEYUP, VK_CONTROL_KEY),
    ]);
    v
}

/// Whether the wait for the new tab is over.
pub fn timed_out(elapsed_ms: u64, timeout_ms: u32) -> (r: bool)
    ensures
        r == (elapsed_ms >= timeout_ms),
{
    elapsed_ms >= timeout_ms as u64
}

/// The first browser of `current` whose window was not there `before`.
pub open spec fn is_first_new(before: Set<isize>, current: Seq<isize>, r: Option<usize>) -> bool {
    match r {
        Some(i) => {
            &&& i < current.len()
            &&& !before.contains(current[i as int])
            &&& forall|k: int| 0 <= k < i ==> before.contains(#[trigger] current[k])
        },
        None => forall|k: int| 0 <= k < current.len() ==> before.contains(#[trigger] current[k]),
    }
}

/// The index of the new tab's browser in the latest enumeration, if one
/// has appeared; `before` holds the windows enumerated before Ctrl+T.
pub fn first_new_browser(before: &HashSet<isize>, current: &[isize]) -> (r: Option<usize>)
    ensures
        is_first_new(before@, current@, r),
{
    let mut i: usize = 0;
    while i < current.len()
        invariant
            i <= current@.len(),
            forall|k: int| 0 <= k < i ==> before@.contains(#[trigger] current@[k]),
        decreases current@.len() - i,
    {
        if !before.contains(&current[i]) {
            return Some(i);
        }
        i = i + 1;
    }
    None
}

/// After the new tab was found: the path opens in a new window instead
/// unless it parsed and the browse succeeded.
pub fn falls_back_to_window(parsed: bool, browsed: bool) -> (r: bool)
    ensures
        r == !(parsed && browsed),
{
    !(parsed && browsed)
}

/// The argument handed to `explorer.exe` for a new window: the path in
/// double quotes, so that a path with spaces stays one argument.
pub fn quoted_path(path: &str) -> (r: String)
    ensures
        r@ == seq!['"'] + path@ + seq!['"'],
{
    proof {
        reveal_strlit("\"");
    }
    let mut s = String::from_str("\"");
    s.append(path);
    s.append("\"");
    s
}

/// The shell integration backed by `IShellWindows` and `ShellExecuteW`.
#[derive(Debug, Clone, Copy, Default)]
pub struct Win32Shell;

impl Win32Shell {
    pub fn new() -> (r: Win32Shell)
        ensures
            r == Win32Shell,
    {
        Win32Shell
    }
}

} // verus!
