//! Drag-and-drop effect rules for the toolbar's drop target.
//!
//! Same drive defaults to move, another drive to copy, Ctrl forces copy and
//! Shift forces move; the `+` button accepts exactly one dragged directory.
//! The OLE adapter in the application trades Win32 flags in and out through
//! `keystate_from_flags` and `dropeffect_code`.

use vstd::prelude::*;
use crate::text::{ascii_upper, char_is_ascii_alpha, char_to_ascii_upper, is_ascii_alpha};
use crate::config::{is_shell_alias, shell_prefix};
use crate::text::has_prefix;

verus! {

/// Modifier keys that affect drop semantics.
#[derive(Debug, Clone, Copy, PartialEq, Eq, Structural)]
pub struct KeyState {
    pub ctrl: bool,
    pub shift: bool,
    pub alt: bool,
}

impl KeyState {
    /// No modifier held.
    pub fn none() -> (r: KeyState)
        ensures
            !r.ctrl && !r.shift && !r.alt,
    {
        KeyState { ctrl: false, shift: false, alt: false }
    }
}

impl Default for KeyState {
    fn default() -> (r: KeyState)
        ensures
            !r.ctrl && !r.shift && !r.alt,
    {
        KeyState::none()
    }
}

/// Result of the effect computation.
#[derive(Debug, Clone, Copy, PartialEq, Eq, Structural)]
pub enum Effect {
    NoEffect,
    Copy,
    Move,
    Link,
}

/// What a drop on the current button does.
#[derive(Debug, PartialEq, Eq)]
pub enum DropAction {
    /// Drop on a folder button: move or copy the payload there.
    MoveCopyTo { target: String },
    /// Drop on the `+` button: append the dragged directory to the config.
    AddFolder,
}

/// Payload facts cached for one drag session.
#[derive(Debug, Clone, Copy, PartialEq, Eq, Structural)]
pub struct DragSession {
    /// True if the payload is exactly one directory.
    pub is_single_directory: bool,
    /// Upper-case source drive letter when the payload lies on a lettered drive.
    pub source_drive: Option<char>,
}

/// Upper-case drive letter of `s` when it starts with `X:`.
pub open spec fn drive_letter_spec(s: Seq<char>) -> Option<char> {
    if s.len() >= 2 && is_ascii_alpha(s[0]) && s[1] == ':' {
        Some(ascii_upper(s[0]))
    } else {
        None
    }
}

/// The drive letter (upper-cased) of `path`, if it starts with one.
pub fn drive_letter(path: &str) -> (r: Option<char>)
    ensures
        r == drive_letter_spec(path@),
{
    let n = path.unicode_len();
    if n < 2 {
        return None;
    }
    let first = path.get_char(0);
    if char_is_ascii_alpha(first) && path.get_char(1) == ':' {
        Some(char_to_ascii_upper(first))
    } else {
        None
    }
}

pub open spec fn determine_effect_spec(
    keystate: KeyState,
    source_drive: Option<char>,
    target_drive: Option<char>,
) -> Effect {
    if keystate.ctrl {
        Effect::Copy
    } else if keystate.shift {
        Effect::Move
    } else if target_drive is None {
        Effect::Move
    } else if source_drive == target_drive {
        Effect::Move
    } else {
        Effect::Copy
    }
}

/// Ctrl forces `Copy`, then Shift forces `Move`; otherwise the same drive
/// (or an unknown target drive) gives `Move` and anything else `Copy`.
pub fn determine_effect(
    keystate: KeyState,
    source_drive: Option<char>,
    target_drive: Option<char>,
) -> (r: Effect)
    ensures
        r == determine_effect_spec(keystate, source_drive, target_drive),
{
    if keystate.ctrl {
        return Effect::Copy;
    }
    if keystate.shift {
        return Effect::Move;
    }
    match (source_drive, target_drive) {
        (Some(s), Some(t)) => if s == t {
            Effect::Move
        } else {
            Effect::Copy
        },
        (_, None) => Effect::Move,
        _ => Effect::Copy,
    }
}

pub open spec fn command_bar_effect_spec(
    keystate: KeyState,
    source_drive: Option<char>,
    target_drive: Option<char>,
) -> Effect {
    if keystate.ctrl {
        Effect::Copy
    } else if keystate.shift {
        Effect::Move
    } else if source_drive is Some && source_drive == target_drive {
        Effect::Move
    } else {
        Effect::Copy
    }
}

/// The rule of the extension hosted in Explorer's command bar, which reads
/// drive letters without shell resolution: Ctrl copies, Shift moves, two
/// equal known drives move, anything else (an unknown drive included)
/// copies.
pub fn command_bar_effect(
    keystate: KeyState,
    source_drive: Option<char>,
    target_drive: Option<char>,
) -> (r: Effect)
    ensures
        r == command_bar_effect_spec(keystate, source_drive, target_drive),
{
    if keystate.ctrl {
        return Effect::Copy;
    }
    if keystate.shift {
        return Effect::Move;
    }
    match (source_drive, target_drive) {
        (Some(s), Some(t)) => if s == t {
            Effect::Move
        } else {
            Effect::Copy
        },
        _ => Effect::Copy,
    }
}

/// The two drop rules differ only when the target's drive is unknown: the
/// toolbar then moves, the command-bar extension copies (unless a modifier
/// decides).
pub proof fn lemma_effect_rules_agree_on_known_target(
    keystate: KeyState,
    source_drive: Option<char>,
    target_drive: Option<char>,
)
    ensures
        target_drive is Some ==> determine_effect_spec(keystate, source_drive, target_drive)
            == command_bar_effect_spec(keystate, source_drive, target_drive),
        target_drive is None && !keystate.ctrl && !keystate.shift ==> determine_effect_spec(
            keystate,
            source_drive,
            target_drive,
        ) == Effect::Move && command_bar_effect_spec(keystate, source_drive, target_drive)
            == Effect::Copy,
{
}

pub open spec fn target_drive_spec(action: Option<&DropAction>) -> Option<char> {
    match action {
        Some(DropAction::MoveCopyTo { target }) => drive_letter_spec(target@),
        _ => None,
    }
}

/// The drive letter of a folder-button target; `None` for other actions.
pub fn target_drive_from_action(action: Option<&DropAction>) -> (r: Option<char>)
    ensures
        r == target_drive_spec(action),
{
    match action {
        Some(DropAction::MoveCopyTo { target }) => drive_letter(target.as_str()),
        _ => None,
    }
}

pub open spec fn source_drive_of(session: Option<&DragSession>) -> Option<char> {
    match session {
        Some(s) => s.source_drive,
        None => None,
    }
}

pub open spec fn effect_for_spec(
    action: Option<&DropAction>,
    session: Option<&DragSession>,
    keystate: KeyState,
) -> Effect {
    match action {
        Some(DropAction::MoveCopyTo { .. }) => determine_effect_spec(
            keystate,
            source_drive_of(session),
            target_drive_spec(action),
        ),
        Some(DropAction::AddFolder) => match session {
            Some(s) => if s.is_single_directory {
                Effect::Copy
            } else {
                Effect::NoEffect
            },
            None => Effect::NoEffect,
        },
        None => Effect::NoEffect,
    }
}

/// The effect shown while dragging over the toolbar.
pub fn effect_for(
    action: Option<&DropAction>,
    session: Option<&DragSession>,
    keystate: KeyState,
) -> (r: Effect)
    ensures
        r == effect_for_spec(action, session, keystate),
{
    match action {
        Some(DropAction::MoveCopyTo { .. }) => {
            let src = match session {
                Some(s) => s.source_drive,
                None => None,
            };
            let target_drive = target_drive_from_action(action);
            determine_effect(keystate, src, target_drive)
        },
        Some(DropAction::AddFolder) => {
            let single = match session {
                Some(s) => s.is_single_directory,
                None => false,
            };
            if single {
                Effect::Copy
            } else {
                Effect::NoEffect
            }
        },
        None => Effect::NoEffect,
    }
}

/// `MK_CONTROL` bit of the OLE key-state flags.
pub const MK_CONTROL: u32 = 0x0008;

/// `MK_SHIFT` bit of the OLE key-state flags.
pub const MK_SHIFT: u32 = 0x0004;

/// Modifier keys from an OLE key-state word (Alt is not reported by
/// `IDropTarget`).
pub fn keystate_from_flags(flags: u32) -> (r: KeyState)
    ensures
        r.ctrl == (flags & MK_CONTROL != 0),
        r.shift == (flags & MK_SHIFT != 0),
        !r.alt,
{
    KeyState { ctrl: flags & MK_CONTROL != 0, shift: flags & MK_SHIFT != 0, alt: false }
}

pub open spec fn dropeffect_code_spec(e: Effect) -> u32 {
    match e {
        Effect::NoEffect => 0,
        Effect::Copy => 1,
        Effect::Move => 2,
        Effect::Link => 4,
    }
}

/// The `DROPEFFECT` value that stands for `e`.
pub fn dropeffect_code(e: Effect) -> (r: u32)
    ensures
        r == dropeffect_code_spec(e),
{
    match e {
        Effect::NoEffect => 0,
        Effect::Copy => 1,
        Effect::Move => 2,
        Effect::Link => 4,
    }
}

/// A path that already names a lettered-drive location and needs no shell
/// resolution: not a `shell:` alias, and its second byte is `:`.
pub open spec fn is_resolved_drive_path(s: Seq<char>) -> bool {
    &&& !has_prefix(s, shell_prefix())
    &&& s.len() >= 2
    &&& (s[0] as u32) < 0x80
    &&& s[1] == ':'
}

/// Whether the drop target must ask the shell to resolve `path` before
/// reading its drive letter.
pub fn needs_shell_resolution(path: &str) -> (r: bool)
    ensures
        r == !is_resolved_drive_path(path@),
{
    if is_shell_alias(path) {
        return true;
    }
    let n = path.unicode_len();
    if n < 2 {
        return true;
    }
    let c0 = path.get_char(0);
    let c1 = path.get_char(1);
    !((c0 as u32) < 0x80 && c1 == ':')
}

/// What a completed drop does.
#[derive(Debug, PartialEq, Eq, Structural, Clone, Copy)]
pub enum DropOutcome {
    /// Nothing happens; the reported effect is `Effect::NoEffect`.
    Refused,
    /// Move (when `effect` is `Move`) or copy the payload into the target.
    Transfer { effect: Effect },
    /// Append the dragged directory to the config; the reported effect is `Copy`.
    AppendFolder,
}

pub open spec fn drop_outcome_spec(
    has_data: bool,
    action: Option<&DropAction>,
    session: Option<&DragSession>,
    keystate: KeyState,
    resolved_target_drive: Option<char>,
) -> DropOutcome {
    if !has_data {
        DropOutcome::Refused
    } else {
        match action {
            Some(DropAction::MoveCopyTo { .. }) => DropOutcome::Transfer {
                effect: determine_effect_spec(
                    keystate,
                    source_drive_of(session),
                    resolved_target_drive,
                ),
            },
            Some(DropAction::AddFolder) => match session {
                Some(s) => if s.is_single_directory {
                    DropOutcome::AppendFolder
                } else {
                    DropOutcome::Refused
                },
                None => DropOutcome::Refused,
            },
            None => DropOutcome::Refused,
        }
    }
}

/// Decides a drop. `action` is the action under the cursor (or the last one
/// seen), `resolved_target_drive` the drive letter of the folder target after
/// shell resolution (only read for a folder target).
pub fn drop_outcome(
    has_data: bool,
    action: Option<&DropAction>,
    session: Option<&DragSession>,
    keystate: KeyState,
    resolved_target_drive: Option<char>,
) -> (r: DropOutcome)
    ensures
        r == drop_outcome_spec(has_data, action, session, keystate, resolved_target_drive),
{
    if !has_data {
        return DropOutcome::Refused;
    }
    match action {
        Some(DropAction::MoveCopyTo { .. }) => {
            let src = match session {
                Some(s) => s.source_drive,
                None => None,
            };
            DropOutcome::Transfer {
                effect: determine_effect(keystate, src, resolved_target_drive),
            }
        },
        Some(DropAction::AddFolder) => {
            let single = match session {
                Some(s) => s.is_single_directory,
                None => false,
            };
            if single {
                DropOutcome::AppendFolder
            } else {
                DropOutcome::Refused
            }
        },
        None => DropOutcome::Refused,
    }
}

/// Ctrl wins over Shift whatever the drives are.
pub proof fn lemma_ctrl_forces_copy(k: KeyState, s: Option<char>, t: Option<char>)
    requires
        k.ctrl,
    ensures
        determine_effect_spec(k, s, t) == Effect::Copy,
{
}

/// Without Ctrl, Shift always moves.
pub proof fn lemma_shift_forces_move(k: KeyState, s: Option<char>, t: Option<char>)
    requires
        !k.ctrl,
        k.shift,
    ensures
        determine_effect_spec(k, s, t) == Effect::Move,
{
}

/// With no modifier, a known target drive gives `Move` exactly when the
/// source is on that same drive.
pub proof fn lemma_drive_rule(k: KeyState, s: Option<char>, t: char)
    requires
        !k.ctrl,
        !k.shift,
    ensures
        determine_effect_spec(k, s, Some(t)) == (if s == Some(t) {
            Effect::Move
        } else {
            Effect::Copy
        }),
{
}

/// While dragging, the shown effect is never `Link`.
pub proof fn lemma_effect_never_link(
    action: Option<&DropAction>,
    session: Option<&DragSession>,
    keystate: KeyState,
)
    ensures
        effect_for_spec(action, session, keystate) != Effect::Link,
{
}

/// The effect a completed drop reports agrees with the effect shown while
/// dragging over the same target, when the shell leaves the target's drive
/// letter unchanged.
pub proof fn lemma_drop_agrees_with_drag(
    action: Option<&DropAction>,
    session: Option<&DragSession>,
    keystate: KeyState,
)
    ensures
        match drop_outcome_spec(true, action, session, keystate, target_drive_spec(action)) {
            DropOutcome::Refused => effect_for_spec(action, session, keystate) == Effect::NoEffect,
            DropOutcome::Transfer { effect } => effect_for_spec(action, session, keystate)
                == effect,
            DropOutcome::AppendFolder => effect_for_spec(action, session, keystate)
                == Effect::Copy,
        },
{
}

/// A completed drop of files on a folder button: with no modifier, files
/// from a drive other than the resolved target's drive are copied and
/// files from the same drive are moved; Ctrl copies and Shift (without
/// Ctrl) moves whatever the drives (`s` and `t` stand for any two drive
/// letters). The effect goes by the resolved drive only: two folder
/// targets whose path texts differ give the same outcome.
pub proof fn lemma_drop_on_folder_goes_by_resolved_drive(
    target: String,
    other_target: String,
    session: DragSession,
    keystate: KeyState,
    resolved: Option<char>,
    s: char,
    t: char,
)
    ensures
        ({
            let a = DropAction::MoveCopyTo { target };
            let out = drop_outcome_spec(true, Some(&a), Some(&session), keystate, resolved);
            &&& (!keystate.ctrl && !keystate.shift && session.source_drive == Some(s) && resolved
                == Some(t) && s != t) ==> out == (DropOutcome::Transfer {
                effect: Effect::Copy,
            })
            &&& (!keystate.ctrl && !keystate.shift && session.source_drive == Some(s) && resolved
                == Some(s)) ==> out == (DropOutcome::Transfer { effect: Effect::Move })
            &&& keystate.ctrl ==> out == (DropOutcome::Transfer { effect: Effect::Copy })
            &&& (!keystate.ctrl && keystate.shift) ==> out == (DropOutcome::Transfer {
                effect: Effect::Move,
            })
            &&& out == drop_outcome_spec(
                true,
                Some(&DropAction::MoveCopyTo { target: other_target }),
                Some(&session),
                keystate,
                resolved,
            )
        }),
{
}

} // verus!
