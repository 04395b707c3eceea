//! Plain key events and form actions.
//!
//! A `Key` is what the input dispatcher consumes: the caller translates
//! whatever raw event the terminal delivered into one of these values.

use vstd::prelude::*;

verus! {

/// A key press, reduced to what the dispatcher distinguishes.
///
/// `Char` carries a printable character; every key the application does not
/// react to maps to `Other`.
#[derive(Clone, Copy, Debug)]
pub enum Key {
    Char(char),
    Enter,
    Backspace,
    Esc,
    Up,
    Down,
    Other,
}

/// What a key press means while a text form is open.
#[derive(Clone, Copy, Debug, PartialEq, Eq, Structural)]
pub enum FormAction {
    /// The form stays open (the buffer may have been edited).
    NoChange,
    /// Commit the buffer.
    Submit,
    /// Discard the buffer.
    Escape,
}

} // verus!
