//! The window-event decision.
//!
//! The windowing collaborator owns the event loop; the one decision this
//! core makes about its events is whether a key event asks the window to
//! close.

use vstd::prelude::*;

verus! {

/// A key, as far as the close decision reads it.
#[derive(Clone, Copy, Debug, PartialEq, Eq, Structural)]
pub enum WindowKey {
    Escape,
    Q,
    Other,
}

/// What happened to the key.
#[derive(Clone, Copy, Debug, PartialEq, Eq, Structural)]
pub enum KeyAction {
    Press,
    Release,
    Repeat,
}

/// Whether a key event asks the window to close: pressing Escape or Q
/// does, nothing else.
pub fn close_requested(key: WindowKey, action: KeyAction) -> (r: bool)
    ensures
        r == (action == KeyAction::Press && (key == WindowKey::Escape || key == WindowKey::Q)),
{
    match (key, action) {
        (WindowKey::Escape, KeyAction::Press) => true,
        (WindowKey::Q, KeyAction::Press) => true,
        _ => false,
    }
}

} // verus!
