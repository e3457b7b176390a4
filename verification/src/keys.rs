//! The small vocabulary of the session engine: keys, events, judgments,
//! outcomes and phases.

use vstd::prelude::*;

verus! {

/// What the engine can tell apart in a keystroke.
#[derive(Clone, Copy, Debug, PartialEq, Eq, Structural)]
pub enum Key {
    /// A character was typed.
    Char(char),
    /// The last judgment is to be undone.
    Backspace,
    /// The finish key: the user asks to leave.
    Enter,
    /// Any other key; it changes nothing.
    Other,
}

/// A message on the channel between the input reader and the engine.
#[derive(Clone, Copy, Debug, PartialEq, Eq, Structural)]
pub enum Event {
    /// A key was pressed.
    KeyInput(Key),
}

/// The verdict on one position of the reference text.
#[derive(Clone, Copy, Debug, PartialEq, Eq, Structural)]
pub enum Judgment {
    /// Not yet attempted.
    Pending,
    /// The typed character matched the target.
    Correct,
    /// The typed character did not match the target.
    Incorrect,
}

/// What handling one key signals to the caller.
#[derive(Clone, Copy, Debug, PartialEq, Eq, Structural)]
pub enum Outcome {
    /// The session goes on.
    Continue,
    /// The cursor stands at the end of the reference text.
    Completed,
    /// The user asked to leave.
    Exit,
}

/// The state of the session's state machine.
#[derive(Clone, Copy, Debug, PartialEq, Eq, Structural)]
pub enum Phase {
    /// Characters are still to be typed.
    Active,
    /// Every position has been judged.
    Completed,
    /// The finish key was pressed; no further event is dispatched.
    ExitRequested,
}

} // verus!
