//! Key events and input modes, as the session sees them.

use vstd::prelude::*;

verus! {

/// The three modes of the session.
#[derive(Debug, Clone, Copy, PartialEq, Eq, Structural)]
pub enum InputMode {
    /// Nothing is being typed or browsed; the starting mode.
    Normal,
    /// Keys edit the query.
    Editing,
    /// Keys move through the result list.
    Viewing,
}

/// One key press. Keys that no mode reacts to are all `Other`.
#[derive(Debug, Clone, Copy, PartialEq, Eq, Structural)]
pub enum Key {
    Char(char),
    Enter,
    Backspace,
    Esc,
    Up,
    Down,
    Other,
}

/// The mode after a key, which depends on the mode before and the key alone.
pub open spec fn next_mode(mode: InputMode, key: Key) -> InputMode {
    match mode {
        InputMode::Normal => if key == Key::Char('e') {
            InputMode::Editing
        } else if key == Key::Char('v') {
            InputMode::Viewing
        } else {
            InputMode::Normal
        },
        InputMode::Editing => if key == Key::Esc {
            InputMode::Normal
        } else {
            InputMode::Editing
        },
        InputMode::Viewing => if key == Key::Char('q') {
            InputMode::Normal
        } else {
            InputMode::Viewing
        },
    }
}

/// The mode after a run of keys, from the first to the last.
pub open spec fn mode_after(mode: InputMode, keys: Seq<Key>) -> InputMode
    decreases keys.len(),
{
    if keys.len() == 0 {
        mode
    } else {
        next_mode(mode_after(mode, keys.drop_last()), keys.last())
    }
}

} // verus!
