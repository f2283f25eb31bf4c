//! Pointer-interaction state machine: hover, press, click and drag-reorder.
//!
//! The window procedure translates mouse messages into `PointerEvent`s and
//! executes the returned `PointerCommand`s (capture, tracking, redraw,
//! clicks and reorder commits). A press and release on the same button is
//! a click; a folder button pressed and moved past the reorder threshold
//! becomes a reorder drag, committed on release. Capture is held exactly
//! in the pressed-folder and dragging states.

use vstd::prelude::*;

verus! {

/// The single named state of the pointer interaction.
#[derive(Debug, Clone, Copy, PartialEq, Eq, Structural)]
pub enum PointerState {
    Idle,
    Hovering { button: usize },
    PressedNonFolder { button: usize },
    PressedFolder { button: usize, press_x: i32, press_y: i32 },
    DraggingReorder { source_button: usize, insertion: usize },
}

impl Default for PointerState {
    fn default() -> (r: PointerState)
        ensures
            r == PointerState::Idle,
    {
        PointerState::Idle
    }
}

/// Hit-test result for a cursor position (`None` in an event means the
/// cursor is over the grip or empty space).
#[derive(Debug, Clone, Copy, PartialEq, Eq, Structural)]
pub struct HitResult {
    pub button: usize,
    pub is_folder: bool,
}

#[derive(Debug, Clone, Copy, PartialEq, Eq, Structural)]
pub enum PointerEvent {
    Move {
        x: i32,
        y: i32,
        hit: Option<HitResult>,
        reorder_threshold_px: i32,
        insertion_if_reordering: usize,
    },
    Leave,
    Press { x: i32, y: i32, hit: Option<HitResult> },
    Release { x: i32, y: i32, hit: Option<HitResult>, ctrl: bool },
    CaptureLost,
}

#[derive(Debug, Clone, Copy, PartialEq, Eq, Structural)]
pub enum PointerCommand {
    Redraw,
    StartMouseTracking,
    CaptureMouse,
    ReleaseMouse,
    CancelInlineRename,
    FireAddClick,
    FireFolderClick { folder_button: usize, ctrl: bool },
    CommitReorder { from_folder: usize, to_folder: usize },
}

/// The state and commands that a press on `h` at `(x, y)` gives.
pub open spec fn press_on_hit_spec(h: HitResult, x: i32, y: i32) -> (
    PointerState,
    Seq<PointerCommand>,
) {
    if h.is_folder {
        (
            PointerState::PressedFolder { button: h.button, press_x: x, press_y: y },
            seq![
                PointerCommand::CaptureMouse,
                PointerCommand::CancelInlineRename,
                PointerCommand::Redraw,
            ],
        )
    } else {
        (PointerState::PressedNonFolder { button: h.button }, seq![PointerCommand::Redraw])
    }
}

/// How far apart two coordinates are.
pub open spec fn dist(a: int, b: int) -> int {
    if a >= b {
        a - b
    } else {
        b - a
    }
}

/// Whether the cursor at `(x, y)` has moved more than `threshold` pixels,
/// along either axis, from where the button was pressed.
pub open spec fn past_threshold_spec(x: i32, y: i32, press_x: i32, press_y: i32, threshold: i32) -> bool {
    dist(x as int, press_x as int) > threshold || dist(y as int, press_y as int) > threshold
}

/// Whether a release happened over button `b`.
pub open spec fn released_on(hit: Option<HitResult>, b: usize) -> bool {
    hit matches Some(h) && h.button == b
}

/// Where a release leaves the interaction, and the commands that end it:
/// hovering the button under the cursor (redraw, re-arm leave tracking),
/// or idle over empty space (redraw).
pub open spec fn release_landing(hit: Option<HitResult>) -> (PointerState, Seq<PointerCommand>) {
    match hit {
        Some(h) => (
            PointerState::Hovering { button: h.button },
            seq![PointerCommand::Redraw, PointerCommand::StartMouseTracking],
        ),
        None => (PointerState::Idle, seq![PointerCommand::Redraw]),
    }
}

/// The transition table.
pub open spec fn transition_spec(state: PointerState, event: PointerEvent) -> (
    PointerState,
    Seq<PointerCommand>,
) {
    match (state, event) {
        (PointerState::Idle, PointerEvent::Move { hit: Some(h), .. }) => (
            PointerState::Hovering { button: h.button },
            seq![PointerCommand::Redraw, PointerCommand::StartMouseTracking],
        ),
        (PointerState::Idle, PointerEvent::Press { hit: Some(h), x, y }) => press_on_hit_spec(
            h,
            x,
            y,
        ),
        (PointerState::Idle, _) => (PointerState::Idle, Seq::empty()),
        (PointerState::Hovering { button: b }, PointerEvent::Move { hit: Some(h), .. }) => {
            if h.button == b {
                (PointerState::Hovering { button: b }, Seq::empty())
            } else {
                (PointerState::Hovering { button: h.button }, seq![PointerCommand::Redraw])
            }
        },
        (PointerState::Hovering { .. }, PointerEvent::Move { hit: None, .. }) => (
            PointerState::Idle,
            seq![PointerCommand::Redraw],
        ),
        (PointerState::Hovering { .. }, PointerEvent::Leave) => (
            PointerState::Idle,
            seq![PointerCommand::Redraw],
        ),
        (PointerState::Hovering { .. }, PointerEvent::Press { hit: Some(h), x, y }) => {
            press_on_hit_spec(h, x, y)
        },
        (PointerState::Hovering { button: b }, _) => (
            PointerState::Hovering { button: b },
            Seq::empty(),
        ),
        (PointerState::PressedNonFolder { button: b }, PointerEvent::Release { hit, .. }) => {
            let (s2, tail) = release_landing(hit);
            if released_on(hit, b) {
                (s2, seq![PointerCommand::FireAddClick] + tail)
            } else {
                (s2, tail)
            }
        },
        (PointerState::PressedNonFolder { .. }, PointerEvent::Leave) => (
            PointerState::Idle,
            seq![PointerCommand::Redraw],
        ),
        (
            PointerState::PressedFolder { button: b, press_x, press_y },
            PointerEvent::Move { x, y, reorder_threshold_px, insertion_if_reordering, .. },
        ) => {
            if past_threshold_spec(x, y, press_x, press_y, reorder_threshold_px) {
                (
                    PointerState::DraggingReorder {
                        source_button: b,
                        insertion: insertion_if_reordering,
                    },
                    seq![PointerCommand::Redraw],
                )
            } else {
                (state, Seq::empty())
            }
        },
        (PointerState::PressedFolder { button: b, .. }, PointerEvent::Release { hit, ctrl, .. }) => {
            let (s2, tail) = release_landing(hit);
            if released_on(hit, b) && b >= 1 {
                (
                    s2,
                    seq![
                        PointerCommand::ReleaseMouse,
                        PointerCommand::FireFolderClick { folder_button: (b - 1) as usize, ctrl },
                    ] + tail,
                )
            } else {
                (s2, seq![PointerCommand::ReleaseMouse] + tail)
            }
        },
        (
            PointerState::DraggingReorder { source_button: src, insertion: ins },
            PointerEvent::Move { insertion_if_reordering: moved_to, .. },
        ) => {
            if moved_to == ins {
                (state, Seq::empty())
            } else {
                (
                    PointerState::DraggingReorder { source_button: src, insertion: moved_to },
                    seq![PointerCommand::Redraw],
                )
            }
        },
        (
            PointerState::DraggingReorder { source_button: src, insertion: ins },
            PointerEvent::Release { hit, .. },
        ) => {
            let (s2, tail) = release_landing(hit);
            if src >= 1 {
                (
                    s2,
                    seq![
                        PointerCommand::ReleaseMouse,
                        PointerCommand::CommitReorder { from_folder: (src - 1) as usize, to_folder: ins },
                    ] + tail,
                )
            } else {
                (s2, seq![PointerCommand::ReleaseMouse] + tail)
            }
        },
        (PointerState::PressedFolder { .. }, PointerEvent::CaptureLost) => (
            PointerState::Idle,
            seq![PointerCommand::Redraw],
        ),
        (PointerState::DraggingReorder { .. }, PointerEvent::CaptureLost) => (
            PointerState::Idle,
            seq![PointerCommand::Redraw],
        ),
        (s, _) => (s, Seq::empty()),
    }
}

/// State and commands for a press onto a hit button: a folder button
/// starts a folder gesture (capture, cancel any inline rename, redraw);
/// any other button is pressed with a redraw.
pub fn press_on_hit(h: HitResult, x: i32, y: i32) -> (r: (PointerState, Vec<PointerCommand>))
    ensures
        r.0 == press_on_hit_spec(h, x, y).0,
        r.1@ == press_on_hit_spec(h, x, y).1,
{
    if h.is_folder {
        let cmds = vec![
            PointerCommand::CaptureMouse,
            PointerCommand::CancelInlineRename,
            PointerCommand::Redraw,
        ];
        proof {
            assert(cmds@ =~= press_on_hit_spec(h, x, y).1);
        }
        (PointerState::PressedFolder { button: h.button, press_x: x, press_y: y }, cmds)
    } else {
        let cmds = vec![PointerCommand::Redraw];
        proof {
            assert(cmds@ =~= press_on_hit_spec(h, x, y).1);
        }
        (PointerState::PressedNonFolder { button: h.button }, cmds)
    }
}

/// Whether the cursor at `(x, y)` has moved past `threshold` pixels, along
/// either axis, from the press point `(press_x, press_y)`.
pub fn past_threshold(x: i32, y: i32, press_x: i32, press_y: i32, threshold: i32) -> (r: bool)
    ensures
        r == past_threshold_spec(x, y, press_x, press_y, threshold),
{
    let dx: i64 = if x >= press_x {
        x as i64 - press_x as i64
    } else {
        press_x as i64 - x as i64
    };
    let dy: i64 = if y >= press_y {
        y as i64 - press_y as i64
    } else {
        press_y as i64 - y as i64
    };
    dx > threshold as i64 || dy > threshold as i64
}

fn released_on_button(hit: Option<HitResult>, b: usize) -> (r: bool)
    ensures
        r == released_on(hit, b),
{
    match hit {
        Some(h) => h.button == b,
        None => false,
    }
}

/// The end of a release: the commands in `prefix`, then those of
/// `release_landing`.
fn land(hit: Option<HitResult>, prefix: Vec<PointerCommand>) -> (r: (PointerState, Vec<PointerCommand>))
    ensures
        r.0 == release_landing(hit).0,
        r.1@ == prefix@ + release_landing(hit).1,
{
    let mut cmds = prefix;
    match hit {
        Some(h) => {
            cmds.push(PointerCommand::Redraw);
            cmds.push(PointerCommand::StartMouseTracking);
            proof {
                assert(cmds@ =~= prefix@ + release_landing(hit).1);
            }
            (PointerState::Hovering { button: h.button }, cmds)
        },
        None => {
            cmds.push(PointerCommand::Redraw);
            proof {
                assert(cmds@ =~= prefix@ + release_landing(hit).1);
            }
            (PointerState::Idle, cmds)
        },
    }
}

/// Pure state-machine step: the new state and the commands for the adapter,
/// in order.
pub fn transition(state: PointerState, event: PointerEvent) -> (r: (
    PointerState,
    Vec<PointerCommand>,
))
    ensures
        r.0 == transition_spec(state, event).0,
        r.1@ == transition_spec(state, event).1,
{
    match state {
        PointerState::Idle => match event {
            PointerEvent::Move { hit: Some(h), .. } => {
                let cmds = vec![PointerCommand::Redraw, PointerCommand::StartMouseTracking];
                proof {
                    assert(cmds@ =~= transition_spec(state, event).1);
                }
                (PointerState::Hovering { button: h.button }, cmds)
            },
            PointerEvent::Press { hit: Some(h), x, y } => press_on_hit(h, x, y),
            _ => {
                let cmds: Vec<PointerCommand> = Vec::new();
                proof {
                    assert(cmds@ =~= transition_spec(state, event).1);
                }
                (PointerState::Idle, cmds)
            },
        },
        PointerState::Hovering { button: b } => match event {
            PointerEvent::Move { hit: Some(h), .. } => {
                if h.button == b {
                    let cmds: Vec<PointerCommand> = Vec::new();
                    proof {
                        assert(cmds@ =~= transition_spec(state, event).1);
                    }
                    (PointerState::Hovering { button: b }, cmds)
                } else {
                    let cmds = vec![PointerCommand::Redraw];
                    proof {
                        assert(cmds@ =~= transition_spec(state, event).1);
                    }
                    (PointerState::Hovering { button: h.button }, cmds)
                }
            },
            PointerEvent::Move { hit: None, .. } | PointerEvent::Leave => {
                let cmds = vec![PointerCommand::Redraw];
                proof {
                    assert(cmds@ =~= transition_spec(state, event).1);
                }
                (PointerState::Idle, cmds)
            },
            PointerEvent::Press { hit: Some(h), x, y } => press_on_hit(h, x, y),
            _ => {
                let cmds: Vec<PointerCommand> = Vec::new();
                proof {
                    assert(cmds@ =~= transition_spec(state, event).1);
                }
                (PointerState::Hovering { button: b }, cmds)
            },
        },
        PointerState::PressedNonFolder { button: b } => match event {
            PointerEvent::Release { hit, .. } => {
                let mut prefix: Vec<PointerCommand> = Vec::new();
                if released_on_button(hit, b) {
                    prefix.push(PointerCommand::FireAddClick);
                }
                let r = land(hit, prefix);
                proof {
                    assert(r.1@ =~= transition_spec(state, event).1);
                }
                r
            },
            PointerEvent::Leave => {
                let cmds = vec![PointerCommand::Redraw];
                proof {
                    assert(cmds@ =~= transition_spec(state, event).1);
                }
                (PointerState::Idle, cmds)
            },
            _ => {
                let cmds: Vec<PointerCommand> = Vec::new();
                proof {
                    assert(cmds@ =~= transition_spec(state, event).1);
                }
                (state, cmds)
            },
        },
        PointerState::PressedFolder { button: b, press_x, press_y } => match event {
            PointerEvent::Move { x, y, reorder_threshold_px, insertion_if_reordering, .. } => {
                if past_threshold(x, y, press_x, press_y, reorder_threshold_px) {
                    let cmds = vec![PointerCommand::Redraw];
                    proof {
                        assert(cmds@ =~= transition_spec(state, event).1);
                    }
                    (
                        PointerState::DraggingReorder {
                            source_button: b,
                            insertion: insertion_if_reordering,
                        },
                        cmds,
                    )
                } else {
                    let cmds: Vec<PointerCommand> = Vec::new();
                    proof {
                        assert(cmds@ =~= transition_spec(state, event).1);
                    }
                    (state, cmds)
                }
            },
            PointerEvent::Release { hit, ctrl, .. } => {
                let mut prefix = vec![PointerCommand::ReleaseMouse];
                if b >= 1 && released_on_button(hit, b) {
                    prefix.push(PointerCommand::FireFolderClick { folder_button: b - 1, ctrl });
                }
                let r = land(hit, prefix);
                proof {
                    assert(r.1@ =~= transition_spec(state, event).1);
                }
                r
            },
            PointerEvent::CaptureLost => {
                let cmds = vec![PointerCommand::Redraw];
                proof {
                    assert(cmds@ =~= transition_spec(state, event).1);
                }
                (PointerState::Idle, cmds)
            },
            _ => {
                let cmds: Vec<PointerCommand> = Vec::new();
                proof {
                    assert(cmds@ =~= transition_spec(state, event).1);
                }
                (state, cmds)
            },
        },
        PointerState::DraggingReorder { source_button: src, insertion: ins } => match event {
            PointerEvent::Move { insertion_if_reordering: moved_to, .. } => {
                if moved_to == ins {
                    let cmds: Vec<PointerCommand> = Vec::new();
                    proof {
                        assert(cmds@ =~= transition_spec(state, event).1);
                    }
                    (state, cmds)
                } else {
                    let cmds = vec![PointerCommand::Redraw];
                    proof {
                        assert(cmds@ =~= transition_spec(state, event).1);
                    }
                    (PointerState::DraggingReorder { source_button: src, insertion: moved_to }, cmds)
                }
            },
            PointerEvent::Release { hit, .. } => {
                let mut prefix = vec![PointerCommand::ReleaseMouse];
                if src >= 1 {
                    prefix.push(
                        PointerCommand::CommitReorder { from_folder: src - 1, to_folder: ins },
                    );
                }
                let r = land(hit, prefix);
                proof {
                    assert(r.1@ =~= transition_spec(state, event).1);
                }
                r
            },
            PointerEvent::CaptureLost => {
                let cmds = vec![PointerCommand::Redraw];
                proof {
                    assert(cmds@ =~= transition_spec(state, event).1);
                }
                (PointerState::Idle, cmds)
            },
            _ => {
                let cmds: Vec<PointerCommand> = Vec::new();
                proof {
                    assert(cmds@ =~= transition_spec(state, event).1);
                }
                (state, cmds)
            },
        },
    }
}

pub open spec fn hover_button_spec(s: PointerState) -> Option<usize> {
    match s {
        PointerState::Hovering { button } => Some(button),
        _ => None,
    }
}

pub open spec fn pressed_button_spec(s: PointerState) -> Option<usize> {
    match s {
        PointerState::PressedNonFolder { button } => Some(button),
        PointerState::PressedFolder { button, .. } => Some(button),
        _ => None,
    }
}

pub open spec fn dragging_reorder_spec(s: PointerState) -> Option<(usize, usize)> {
    match s {
        PointerState::DraggingReorder { source_button, insertion } => Some(
            (source_button, insertion),
        ),
        _ => None,
    }
}

impl PointerState {
    /// The button under the cursor while hovering.
    pub fn hover_button(&self) -> (r: Option<usize>)
        ensures
            r == hover_button_spec(*self),
    {
        match self {
            PointerState::Hovering { button } => Some(*button),
            _ => None,
        }
    }

    /// The button held down, folder or not.
    pub fn pressed_button(&self) -> (r: Option<usize>)
        ensures
            r == pressed_button_spec(*self),
    {
        match self {
            PointerState::PressedNonFolder { button } => Some(*button),
            PointerState::PressedFolder { button, .. } => Some(*button),
            _ => None,
        }
    }

    /// `(source_button, insertion)` while a reorder drag is in progress.
    pub fn dragging_reorder(&self) -> (r: Option<(usize, usize)>)
        ensures
            r == dragging_reorder_spec(*self),
    {
        match self {
            PointerState::DraggingReorder { source_button, insertion } => Some(
                (*source_button, *insertion),
            ),
            _ => None,
        }
    }
}

/// States in which the adapter holds mouse capture.
pub open spec fn holds_capture(s: PointerState) -> bool {
    s is PressedFolder || s is DraggingReorder
}

/// Capture bookkeeping: a step emits `CaptureMouse` exactly when it moves
/// into a capturing state from a non-capturing one, and `ReleaseMouse`
/// exactly when it leaves a capturing state on anything but a loss of
/// capture; after a loss of capture no capturing state remains. So the
/// adapter holds capture exactly in the capturing states.
pub proof fn lemma_capture_follows_state(s: PointerState, e: PointerEvent)
    ensures
        ({
            let (s2, cmds) = transition_spec(s, e);
            &&& cmds.contains(PointerCommand::CaptureMouse) <==> (holds_capture(s2)
                && !holds_capture(s))
            &&& cmds.contains(PointerCommand::ReleaseMouse) <==> (holds_capture(s)
                && !holds_capture(s2) && !(e is CaptureLost))
            &&& e is CaptureLost ==> !holds_capture(s2)
        }),
{
    let (s2, cmds) = transition_spec(s, e);
    assert forall|i: int| 0 <= i < cmds.len() implies {
        &&& cmds[i] == PointerCommand::CaptureMouse ==> (holds_capture(s2) && !holds_capture(s))
        &&& cmds[i] == PointerCommand::ReleaseMouse ==> (holds_capture(s) && !holds_capture(s2)
            && !(e is CaptureLost))
    } by {}
    if holds_capture(s2) && !holds_capture(s) {
        assert(cmds[0] == PointerCommand::CaptureMouse);
    }
    if holds_capture(s) && !holds_capture(s2) && !(e is CaptureLost) {
        assert(cmds[0] == PointerCommand::ReleaseMouse);
    }
}

/// Every change of the hovered or pressed button is accompanied by a
/// `Redraw` command, so highlights never go stale.
pub proof fn lemma_highlight_change_redraws(s: PointerState, e: PointerEvent)
    ensures
        ({
            let (s2, cmds) = transition_spec(s, e);
            (hover_button_spec(s2) != hover_button_spec(s) || pressed_button_spec(s2)
                != pressed_button_spec(s)) ==> cmds.contains(PointerCommand::Redraw)
        }),
{
    let (s2, cmds) = transition_spec(s, e);
    if hover_button_spec(s2) != hover_button_spec(s) || pressed_button_spec(s2)
        != pressed_button_spec(s) {
        assert(cmds[0] == PointerCommand::Redraw || cmds[1] == PointerCommand::Redraw
            || cmds[2] == PointerCommand::Redraw);
    }
}

/// The folder click that a step makes: a release over the folder button
/// that was pressed clicks that folder (`button - 1` in folder-index
/// space), with the release's `ctrl` state.
pub open spec fn folder_click_of(s: PointerState, e: PointerEvent) -> Option<(usize, bool)> {
    match (s, e) {
        (PointerState::PressedFolder { button, .. }, PointerEvent::Release { hit, ctrl, .. }) => {
            if button >= 1 && released_on(hit, button) {
                Some(((button - 1) as usize, ctrl))
            } else {
                None
            }
        },
        _ => None,
    }
}

/// Whether a step clicks the non-folder (`+`) button: a release over the
/// non-folder button that was pressed.
pub open spec fn add_click_of(s: PointerState, e: PointerEvent) -> bool {
    match (s, e) {
        (PointerState::PressedNonFolder { button }, PointerEvent::Release { hit, .. }) => released_on(
            hit,
            button,
        ),
        _ => false,
    }
}

/// The reorder that a step commits: releasing a drag of folder button
/// `source_button`, wherever the cursor is, moves folder
/// `source_button - 1` to the insertion point the drag last showed.
pub open spec fn reorder_commit_of(s: PointerState, e: PointerEvent) -> Option<(usize, usize)> {
    match (s, e) {
        (
            PointerState::DraggingReorder { source_button, insertion },
            PointerEvent::Release { .. },
        ) => {
            if source_button >= 1 {
                Some(((source_button - 1) as usize, insertion))
            } else {
                None
            }
        },
        _ => None,
    }
}

/// A left click on a folder button: `FireFolderClick { f, ctrl }` is
/// emitted exactly when folder button `f + 1` was pressed and the mouse is
/// released over that same button, `ctrl` being the release's modifier.
/// A release anywhere else clicks nothing.
pub proof fn lemma_folder_click_exactly_on_release_over_press(
    s: PointerState,
    e: PointerEvent,
    f: usize,
    ctrl: bool,
)
    ensures
        transition_spec(s, e).1.contains(PointerCommand::FireFolderClick { folder_button: f, ctrl })
            <==> folder_click_of(s, e) == Some((f, ctrl)),
{
    let cmds = transition_spec(s, e).1;
    let click = PointerCommand::FireFolderClick { folder_button: f, ctrl };
    assert forall|i: int| 0 <= i < cmds.len() && cmds[i] == click implies folder_click_of(s, e)
        == Some((f, ctrl)) by {}
    if folder_click_of(s, e) == Some((f, ctrl)) {
        assert(cmds[1] == click);
    }
}

/// A click on the `+` button: `FireAddClick` is emitted exactly when a
/// non-folder button was pressed and the mouse is released over it.
pub proof fn lemma_add_click_exactly_on_release_over_press(s: PointerState, e: PointerEvent)
    ensures
        transition_spec(s, e).1.contains(PointerCommand::FireAddClick) <==> add_click_of(s, e),
{
    let cmds = transition_spec(s, e).1;
    assert forall|i: int| 0 <= i < cmds.len() && cmds[i] == PointerCommand::FireAddClick implies add_click_of(
        s,
        e,
    ) by {}
    if add_click_of(s, e) {
        assert(cmds[0] == PointerCommand::FireAddClick);
    }
}

/// A reorder drag: `CommitReorder { from, to }` is emitted exactly when a
/// drag of folder button `from + 1` is released, with `to` the insertion
/// point the drag last showed. No other step commits a reorder; a loss of
/// capture cancels the drag.
pub proof fn lemma_reorder_commits_exactly_on_release(
    s: PointerState,
    e: PointerEvent,
    from: usize,
    to: usize,
)
    ensures
        transition_spec(s, e).1.contains(
            PointerCommand::CommitReorder { from_folder: from, to_folder: to },
        ) <==> reorder_commit_of(s, e) == Some((from, to)),
{
    let cmds = transition_spec(s, e).1;
    let commit = PointerCommand::CommitReorder { from_folder: from, to_folder: to };
    assert forall|i: int| 0 <= i < cmds.len() && cmds[i] == commit implies reorder_commit_of(s, e)
        == Some((from, to)) by {}
    if reorder_commit_of(s, e) == Some((from, to)) {
        assert(cmds[1] == commit);
    }
}

/// A press gesture starts only on a hit button, and a folder gesture only
/// on a folder button.
pub proof fn lemma_press_needs_hit(s: PointerState, e: PointerEvent)
    ensures
        ({
            let s2 = transition_spec(s, e).0;
            (s2 is PressedFolder && !(s is PressedFolder)) ==> (e matches PointerEvent::Press {
                hit: Some(h),
                ..
            } && h.is_folder && h.button == s2->PressedFolder_button)
        }),
{
}

} // verus!
