use vstd::prelude::*;

verus! {

/// The pointer event kinds the menu reacts to; every other kind is
/// ignored.
#[derive(Clone, Copy, Debug, PartialEq, Eq, Structural)]
pub enum MouseEventKind {
    Move,
    Press,
    Other,
}

/// The key codes the menu distinguishes. Anything else the host may
/// send is not consumed.
#[derive(Clone, Copy, Debug, PartialEq, Eq, Structural)]
pub enum KeyCode {
    Escape,
    Enter,
    UpArrow,
    DownArrow,
    Char(char),
}

/// The modifier state of a key event: exactly none, exactly Ctrl, or
/// any other combination (which the menu never consumes).
#[derive(Clone, Copy, Debug, PartialEq, Eq, Structural)]
pub enum KeyModifiers {
    Plain,
    Ctrl,
    Other,
}

/// What the host must do after a pointer event.
#[derive(Clone, Copy, Debug, PartialEq, Eq, Structural)]
pub enum PointerOutcome {
    /// Nothing to do; the session stays open.
    Ignored,
    /// The hover highlight moved to a selectable row; the session stays
    /// open.
    Hover,
    /// A press outside the menu: close the modal session without
    /// dispatching any action.
    CancelSession,
    /// A press activated the entry at this row index: the session is
    /// closed; dispatch that entry's action.
    Activate(usize),
}

/// What the host must do after a key event.
#[derive(Clone, Copy, Debug, PartialEq, Eq, Structural)]
pub enum KeyOutcome {
    /// The key is not consumed; the host may route it elsewhere.
    NotHandled,
    /// Consumed with nothing further to do (Enter with no selection).
    Handled,
    /// Consumed and state may have changed: schedule a redraw.
    Redraw,
    /// A cancel key: close the modal session without dispatching.
    CancelSession,
    /// Enter activated the entry at this row index: the session is
    /// closed; dispatch that entry's action.
    Activate(usize),
}

/// Escape, `q`, and Ctrl-`c` cancel the session.
pub open spec fn is_cancel_key(key: KeyCode, mods: KeyModifiers) -> bool {
    ||| (key == KeyCode::Escape && mods == KeyModifiers::Plain)
    ||| (key == KeyCode::Char('q') && mods == KeyModifiers::Plain)
    ||| (key == KeyCode::Char('c') && mods == KeyModifiers::Ctrl)
}

/// Up-arrow, `k`, and Ctrl-`p` move the selection up.
pub open spec fn is_up_key(key: KeyCode, mods: KeyModifiers) -> bool {
    ||| (key == KeyCode::UpArrow && mods == KeyModifiers::Plain)
    ||| (key == KeyCode::Char('k') && mods == KeyModifiers::Plain)
    ||| (key == KeyCode::Char('p') && mods == KeyModifiers::Ctrl)
}

/// Down-arrow, `j`, and Ctrl-`n` move the selection down.
pub open spec fn is_down_key(key: KeyCode, mods: KeyModifiers) -> bool {
    ||| (key == KeyCode::DownArrow && mods == KeyModifiers::Plain)
    ||| (key == KeyCode::Char('j') && mods == KeyModifiers::Plain)
    ||| (key == KeyCode::Char('n') && mods == KeyModifiers::Ctrl)
}

/// Enter, unmodified, activates the selection.
pub open spec fn is_enter_key(key: KeyCode, mods: KeyModifiers) -> bool {
    key == KeyCode::Enter && mods == KeyModifiers::Plain
}

} // verus!
