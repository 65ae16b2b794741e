//! Key-press events as the state machine sees them.
//!
//! The input boundary delivers discrete key presses; release events never
//! reach the library. Keys that carry no meaning for the console map to
//! [`KeyEvent::Other`] and are ignored everywhere.

use vstd::prelude::*;

verus! {

/// One key press, reduced to the keys the console reacts to.
#[derive(Clone, Copy, PartialEq, Eq, Debug)]
pub enum KeyEvent {
    /// A printable character.
    Char(char),
    Up,
    Down,
    Left,
    Right,
    Home,
    End,
    Tab,
    Enter,
    Esc,
    Backspace,
    Delete,
    /// Any key the console does not react to.
    Other,
}

} // verus!
