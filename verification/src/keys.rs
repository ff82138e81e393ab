//! The key events the music player reacts to.
//!
//! The event source hands the library one of these per key press; anything
//! the player does not react to arrives as `Other`.

use vstd::prelude::*;

verus! {

#[derive(Clone, Copy, PartialEq, Eq, Structural, Debug)]
pub enum Key {
    Up,
    Down,
    Enter,
    Esc,
    Tab,
    BackTab,
    Backspace,
    Char(char),
    Other,
}

} // verus!
