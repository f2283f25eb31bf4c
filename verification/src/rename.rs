//! Inline-rename state machine.
//!
//! The EDIT-control subclass procedure in the application turns Enter, Esc
//! and focus loss into `RenameEvent`s; the returned `RenameAction`s are
//! executed in order (apply the rename through the config, destroy the
//! EDIT control, reload the toolbar).

use vstd::prelude::*;

verus! {

/// The rename in flight. `edit_hwnd` is the EDIT control's handle value,
/// opaque to the controller.
#[derive(Debug, Clone, Copy, PartialEq, Eq, Structural)]
pub struct RenameState {
    pub folder_index: usize,
    pub edit_hwnd: isize,
}

/// Events the controller observes. The text of `CommitRequested` is read
/// from the EDIT control beforehand.
#[derive(Debug, PartialEq, Eq)]
pub enum RenameEvent {
    Started { folder_index: usize, edit_hwnd: isize },
    CommitRequested { text: String },
    Cancelled,
}

/// What the adapter must do, in order. Trimming and the empty-name rule
/// are applied later by `Config::rename_folder`.
#[derive(Debug, PartialEq, Eq)]
pub enum RenameAction {
    ApplyRename { folder_index: usize, new_name: String },
    DestroyEdit { edit_hwnd: isize },
    ReloadToolbar,
}

/// The transition table:
///
/// | state          | event                | new state | actions                                  |
/// |----------------|----------------------|-----------|------------------------------------------|
/// | `None`         | `Started{i,e}`       | `Some`    | none                                     |
/// | `Some{_,e0}`   | `Started{i,e}`       | `Some`    | `DestroyEdit{e0}`                        |
/// | `Some{i,e}`    | `CommitRequested{t}` | `None`    | `ApplyRename{i,t}`, `DestroyEdit{e}`, `ReloadToolbar` |
/// | `Some{_,e}`    | `Cancelled`          | `None`    | `DestroyEdit{e}`                         |
/// | `None`         | commit or cancel     | `None`    | none                                     |
pub open spec fn transition_spec(state: Option<RenameState>, event: RenameEvent) -> (
    Option<RenameState>,
    Seq<RenameAction>,
) {
    match (state, event) {
        (None, RenameEvent::Started { folder_index, edit_hwnd }) => (
            Some(RenameState { folder_index, edit_hwnd }),
            Seq::empty(),
        ),
        (Some(prior), RenameEvent::Started { folder_index, edit_hwnd }) => (
            Some(RenameState { folder_index, edit_hwnd }),
            seq![RenameAction::DestroyEdit { edit_hwnd: prior.edit_hwnd }],
        ),
        (Some(active), RenameEvent::CommitRequested { text }) => (
            None,
            seq![
                RenameAction::ApplyRename { folder_index: active.folder_index, new_name: text },
                RenameAction::DestroyEdit { edit_hwnd: active.edit_hwnd },
                RenameAction::ReloadToolbar,
            ],
        ),
        (Some(active), RenameEvent::Cancelled) => (
            None,
            seq![RenameAction::DestroyEdit { edit_hwnd: active.edit_hwnd }],
        ),
        (None, _) => (None, Seq::empty()),
    }
}

/// Pure transition: the next state and the actions to execute, in order.
pub fn transition(state: Option<RenameState>, event: RenameEvent) -> (r: (
    Option<RenameState>,
    Vec<RenameAction>,
))
    ensures
        r.0 == transition_spec(state, event).0,
        r.1@ == transition_spec(state, event).1,
{
    let ghost ev = event;
    match (state, event) {
        (None, RenameEvent::Started { folder_index, edit_hwnd }) => {
            let acts: Vec<RenameAction> = Vec::new();
            proof {
                assert(acts@ =~= transition_spec(state, ev).1);
            }
            (Some(RenameState { folder_index, edit_hwnd }), acts)
        },
        (Some(prior), RenameEvent::Started { folder_index, edit_hwnd }) => {
            let acts = vec![RenameAction::DestroyEdit { edit_hwnd: prior.edit_hwnd }];
            proof {
                assert(acts@ =~= transition_spec(state, ev).1);
            }
            (Some(RenameState { folder_index, edit_hwnd }), acts)
        },
        (Some(active), RenameEvent::CommitRequested { text }) => {
            let acts = vec![
                RenameAction::ApplyRename { folder_index: active.folder_index, new_name: text },
                RenameAction::DestroyEdit { edit_hwnd: active.edit_hwnd },
                RenameAction::ReloadToolbar,
            ];
            proof {
                assert(acts@ =~= transition_spec(state, ev).1);
            }
            (None, acts)
        },
        (Some(active), RenameEvent::Cancelled) => {
            let acts = vec![RenameAction::DestroyEdit { edit_hwnd: active.edit_hwnd }];
            proof {
                assert(acts@ =~= transition_spec(state, ev).1);
            }
            (None, acts)
        },
        (None, _) => {
            let acts: Vec<RenameAction> = Vec::new();
            proof {
                assert(acts@ =~= transition_spec(state, ev).1);
            }
            (None, acts)
        },
    }
}

/// `Started` always yields an active rename carrying exactly the event's
/// folder index and EDIT handle, whatever rename was active before.
pub proof fn lemma_started_replaces_state(
    prior: Option<RenameState>,
    folder_index: usize,
    edit_hwnd: isize,
)
    ensures
        transition_spec(prior, RenameEvent::Started { folder_index, edit_hwnd }).0 == Some(
            RenameState { folder_index, edit_hwnd },
        ),
{
}

/// `ApplyRename` only ever appears as the first of exactly three actions,
/// followed by `DestroyEdit` and then `ReloadToolbar`.
pub proof fn lemma_apply_rename_only_in_commit_sequence(
    state: Option<RenameState>,
    event: RenameEvent,
)
    ensures
        ({
            let acts = transition_spec(state, event).1;
            forall|i: int|
                0 <= i < acts.len() && (#[trigger] acts[i]) is ApplyRename ==> {
                    &&& i == 0
                    &&& acts.len() == 3
                    &&& acts[1] is DestroyEdit
                    &&& acts[2] is ReloadToolbar
                }
        }),
{
}

/// Every step that ends the active rename or replaces it destroys the EDIT
/// control it was using, and no step destroys any other control.
pub proof fn lemma_edit_control_released(state: Option<RenameState>, event: RenameEvent)
    ensures
        ({
            let (next, acts) = transition_spec(state, event);
            &&& forall|i: int|
                0 <= i < acts.len() && (#[trigger] acts[i]) is DestroyEdit ==> state is Some
                    && acts[i]->edit_hwnd == state->0.edit_hwnd
            &&& (state is Some && next != state) ==> acts.contains(
                RenameAction::DestroyEdit { edit_hwnd: state->0.edit_hwnd },
            )
        }),
{
    let (next, acts) = transition_spec(state, event);
    if state is Some && next != state {
        match event {
            RenameEvent::Started { .. } => {
                assert(acts[0] == RenameAction::DestroyEdit { edit_hwnd: state->0.edit_hwnd });
            },
            RenameEvent::CommitRequested { .. } => {
                assert(acts[1] == RenameAction::DestroyEdit { edit_hwnd: state->0.edit_hwnd });
            },
            RenameEvent::Cancelled => {
                assert(acts[0] == RenameAction::DestroyEdit { edit_hwnd: state->0.edit_hwnd });
            },
        }
    }
}

/// The same state and event always give the same next state and actions:
/// two results that both meet `transition`'s contract are equal.
pub proof fn lemma_transition_is_deterministic(
    state: Option<RenameState>,
    event: RenameEvent,
    first: (Option<RenameState>, Seq<RenameAction>),
    second: (Option<RenameState>, Seq<RenameAction>),
)
    requires
        first == transition_spec(state, event),
        second == transition_spec(state, event),
    ensures
        first == second,
{
}

/// With no rename active, commit and cancel are ignored.
pub proof fn lemma_idle_ignores_stale_events(event: RenameEvent)
    requires
        !(event is Started),
    ensures
        transition_spec(None, event).0 is None,
        transition_spec(None, event).1.len() == 0,
{
}

pub const WM_KILLFOCUS: u32 = 0x0008;
pub const WM_GETDLGCODE: u32 = 0x0087;
pub const WM_KEYDOWN: u32 = 0x0100;
pub const VK_RETURN: usize = 0x0D;
pub const VK_ESCAPE: usize = 0x1B;

/// How the rename EDIT control's subclass procedure treats a message.
#[derive(Debug, Clone, Copy, PartialEq, Eq, Structural)]
pub enum EditMessage {
    /// `WM_GETDLGCODE`: answer `DLGC_WANTALLKEYS` so Enter and Esc arrive.
    WantAllKeys,
    /// Enter, or the control lost focus: commit the typed text.
    Commit,
    /// Esc: cancel the rename.
    Cancel,
    /// Anything else goes to the default procedure.
    PassOn,
}

pub fn classify_edit_message(msg: u32, wparam: usize) -> (r: EditMessage)
    ensures
        r == (if msg == WM_GETDLGCODE {
            EditMessage::WantAllKeys
        } else if msg == WM_KEYDOWN && wparam == VK_RETURN {
            EditMessage::Commit
        } else if msg == WM_KEYDOWN && wparam == VK_ESCAPE {
            EditMessage::Cancel
        } else if msg == WM_KILLFOCUS {
            EditMessage::Commit
        } else {
            EditMessage::PassOn
        }),
{
    if msg == WM_GETDLGCODE {
        EditMessage::WantAllKeys
    } else if msg == WM_KEYDOWN && wparam == VK_RETURN {
        EditMessage::Commit
    } else if msg == WM_KEYDOWN && wparam == VK_ESCAPE {
        EditMessage::Cancel
    } else if msg == WM_KILLFOCUS {
        EditMessage::Commit
    } else {
        EditMessage::PassOn
    }
}

} // verus!
