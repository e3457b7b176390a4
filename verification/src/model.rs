//! The mathematical model of a typing session: its state as sequences and
//! numbers, the transition that one key causes, and what holds of every
//! state that keys can lead to.

use vstd::prelude::*;
use crate::keys::{Judgment, Key, Outcome, Phase};

verus! {

/// The judgment that typing `typed` earns where `target` is expected.
/// Characters are compared as they are: case matters.
pub open spec fn judge(target: char, typed: char) -> Judgment {
    if typed == target {
        Judgment::Correct
    } else {
        Judgment::Incorrect
    }
}

/// A typing session as a mathematical value.
#[verifier::ext_equal]
pub struct SessionState {
    /// The characters to be typed, separators included.
    pub text: Seq<char>,
    /// One judgment for each position of `text`.
    pub judgments: Seq<Judgment>,
    /// The next position to judge; `text.len()` once the session is complete.
    pub cursor: nat,
    /// Whether the finish key has been pressed.
    pub exit_requested: bool,
}

impl SessionState {
    /// The session at its start: nothing judged, the cursor at the first
    /// position.
    pub open spec fn initial(text: Seq<char>) -> SessionState {
        SessionState {
            text,
            judgments: Seq::new(text.len(), |i: int| Judgment::Pending),
            cursor: 0,
            exit_requested: false,
        }
    }

    /// Every position has one judgment, the cursor lies within the text,
    /// everything before the cursor has been judged and nothing from the
    /// cursor on has.
    pub open spec fn wf(self) -> bool {
        &&& self.judgments.len() == self.text.len()
        &&& self.cursor <= self.text.len()
        &&& forall|i: int| 0 <= i < self.cursor ==> self.judgments[i] != Judgment::Pending
        &&& forall|i: int|
            self.cursor <= i < self.text.len() ==> self.judgments[i] == Judgment::Pending
    }

    /// The cursor stands behind the last position.
    pub open spec fn at_end(self) -> bool {
        self.cursor >= self.text.len()
    }

    /// The state after `key` has been handled.
    pub open spec fn press(self, key: Key) -> SessionState {
        match key {
            Key::Char(c) => if self.cursor < self.text.len() {
                SessionState {
                    judgments: self.judgments.update(
                        self.cursor as int,
                        judge(self.text[self.cursor as int], c),
                    ),
                    cursor: self.cursor + 1,
                    ..self
                }
            } else {
                self
            },
            Key::Backspace => if self.cursor > 0 {
                SessionState {
                    judgments: self.judgments.update(self.cursor - 1, Judgment::Pending),
                    cursor: (self.cursor - 1) as nat,
                    ..self
                }
            } else {
                self
            },
            Key::Enter => SessionState { exit_requested: true, ..self },
            Key::Other => self,
        }
    }

    /// What handling `key` in this state signals.
    pub open spec fn signal(self, key: Key) -> Outcome {
        match key {
            Key::Char(_) => if self.cursor + 1 < self.text.len() {
                Outcome::Continue
            } else {
                Outcome::Completed
            },
            Key::Backspace => Outcome::Continue,
            Key::Enter => Outcome::Exit,
            Key::Other => Outcome::Continue,
        }
    }

    /// Where the session stands in its state machine.
    pub open spec fn phase(self) -> Phase {
        if self.exit_requested {
            Phase::ExitRequested
        } else if self.at_end() {
            Phase::Completed
        } else {
            Phase::Active
        }
    }

    /// The character expected at the cursor, if the session is not complete.
    pub open spec fn next_expected(self) -> Option<char> {
        if self.cursor < self.text.len() {
            Some(self.text[self.cursor as int])
        } else {
            None
        }
    }

    /// Each character of the text beside its judgment.
    pub open spec fn snapshot(self) -> Seq<(char, Judgment)> {
        Seq::new(self.text.len(), |i: int| (self.text[i], self.judgments[i]))
    }

    /// The state after the keys of `keys` have been handled in order.
    pub open spec fn run(self, keys: Seq<Key>) -> SessionState
        decreases keys.len(),
    {
        if keys.len() == 0 {
            self
        } else {
            self.run(keys.drop_last()).press(keys.last())
        }
    }
}

} // verus!
