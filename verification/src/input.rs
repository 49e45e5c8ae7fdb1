//! Input events as the core sees them.
//!
//! An external event source (a terminal backend) produces its own event
//! type; whatever feeds the core converts the keyboard events it cares
//! about into `InputEvent` values and maps everything else (mouse moves,
//! resizes, key releases) to `InputEvent::Other`, which every dispatch
//! table ignores.

use vstd::prelude::*;

verus! {

/// A single keyboard key, reduced to what the dispatch tables read.
#[derive(Clone, Copy, Debug, PartialEq, Eq, Structural)]
pub enum Key {
    /// A printable character, including digits and punctuation.
    Char(char),
    Esc,
    Enter,
    Backspace,
    Left,
    Right,
    Up,
    Down,
}

/// One event handed to the core by the surrounding event loop.
#[derive(Clone, Copy, Debug, PartialEq, Eq, Structural)]
pub enum InputEvent {
    Key(Key),
    /// Anything the core does not interpret (mouse, resize, releases).
    Other,
}

} // verus!
