//! The session engine: the one mutable aggregate of a typing attempt, and
//! the operations that keys and the renderer have on it.

use vstd::prelude::*;
use crate::keys::{Judgment, Key, Outcome, Phase};
use crate::model::SessionState;
use crate::words::reference_text;

verus! {

/// A typing session: the reference text, one judgment for each of its
/// positions, the cursor, and whether the user has asked to leave.
pub struct App {
    text: Vec<char>,
    judgments: Vec<Judgment>,
    cursor: usize,
    exit_requested: bool,
}

impl View for App {
    type V = SessionState;

    closed spec fn view(&self) -> SessionState {
        SessionState {
            text: self.text@,
            judgments: self.judgments@,
            cursor: self.cursor as nat,
            exit_requested: self.exit_requested,
        }
    }
}

impl App {
    /// The session's invariant, which every constructor establishes and
    /// every operation keeps.
    pub open spec fn wf(&self) -> bool {
        self@.wf()
    }

    /// A session on a reference text of `word_count` words from the word
    /// supply: nothing judged yet, the cursor at the first position. Without
    /// words the text is empty and the session complete from the start.
    pub fn new(word_count: u8) -> (app: App)
        ensures
            app.wf(),
            exists|words: Seq<Seq<char>>|
                words.len() == word_count && app@ == SessionState::initial(
                    #[trigger] reference_text(words),
                ),
            word_count == 0 ==> app@.text.len() == 0 && app@.phase() == Phase::Completed,
    {
        App::with_text(App::get_words(word_count))
    }

    /// A session on the given reference text: nothing judged yet, the cursor
    /// at the first position.
    pub fn with_text(text: Vec<char>) -> (app: App)
        ensures
            app.wf(),
            app@ == SessionState::initial(text@),
    {
        let mut judgments: Vec<Judgment> = Vec::new();
        let mut i: usize = 0;
        while i < text.len()
            invariant
                i <= text.len(),
                judgments.len() == i,
                forall|k: int| 0 <= k < i ==> judgments@[k] == Judgment::Pending,
            decreases text.len() - i,
        {
            judgments.push(Judgment::Pending);
            i += 1;
        }
        assert(judgments@ =~= SessionState::initial(text@).judgments);
        App { text, judgments, cursor: 0, exit_requested: false }
    }

    /// Applies one key to the session and says what follows from it.
    ///
    /// A character is judged against the target at the cursor and moves the
    /// cursor on; at the end of the text it changes nothing. Backspace takes
    /// the last judgment back; at the start it changes nothing. The finish
    /// key asks to leave, wherever the cursor stands. Any other key changes
    /// nothing.
    pub fn handle_key(&mut self, key: Key) -> (outcome: Outcome)
        requires
            old(self).wf(),
        ensures
            final(self).wf(),
            final(self)@ == old(self)@.press(key),
            outcome == old(self)@.signal(key),
    {
        match key {
            Key::Char(c) => {
                if self.cursor < self.text.len() {
                    let at: usize = self.cursor;
                    let verdict = if c == self.text[at] {
                        Judgment::Correct
                    } else {
                        Judgment::Incorrect
                    };
                    self.judgments.set(at, verdict);
                    self.cursor = at + 1;
                    if self.cursor == self.text.len() {
                        Outcome::Completed
                    } else {
                        Outcome::Continue
                    }
                } else {
                    Outcome::Completed
                }
            },
            Key::Backspace => {
                if self.cursor > 0 {
                    let at: usize = self.cursor - 1;
                    self.judgments.set(at, Judgment::Pending);
                    self.cursor = at;
                }
                Outcome::Continue
            },
            Key::Enter => {
                self.exit_requested = true;
                Outcome::Exit
            },
            Key::Other => Outcome::Continue,
        }
    }

    /// The character expected at the cursor, read from the text as it stands
    /// now; none once the cursor is at the end.
    pub fn next_expected_char(&self) -> (next: Option<char>)
        ensures
            next == self@.next_expected(),
    {
        if self.cursor < self.text.len() {
            Some(self.text[self.cursor])
        } else {
            None
        }
    }

    /// Each character of the text beside its judgment, as values of their
    /// own: the renderer gets nothing of the session to write to.
    pub fn snapshot(&self) -> (cells: Vec<(char, Judgment)>)
        requires
            self.wf(),
        ensures
            cells@ == self@.snapshot(),
    {
        let mut cells: Vec<(char, Judgment)> = Vec::new();
        let mut i: usize = 0;
        while i < self.text.len()
            invariant
                self.wf(),
                i <= self.text.len(),
                cells.len() == i,
                forall|k: int|
                    0 <= k < i ==> cells@[k] == (#[trigger] self.text@[k], self.judgments@[k]),
            decreases self.text.len() - i,
        {
            cells.push((self.text[i], self.judgments[i]));
            i += 1;
        }
        assert(cells@ =~= self@.snapshot());
        cells
    }

    /// The next position to judge.
    pub fn cursor(&self) -> (at: usize)
        ensures
            at == self@.cursor,
    {
        self.cursor
    }

    /// The number of characters in the reference text.
    pub fn len(&self) -> (n: usize)
        ensures
            n == self@.text.len(),
    {
        self.text.len()
    }

    /// Whether the finish key has been pressed.
    pub fn exit_requested(&self) -> (asked: bool)
        ensures
            asked == self@.exit_requested,
    {
        self.exit_requested
    }

    /// Where the session stands: exit requested, complete, or active.
    pub fn phase(&self) -> (phase: Phase)
        ensures
            phase == self@.phase(),
    {
        if self.exit_requested {
            Phase::ExitRequested
        } else if self.cursor >= self.text.len() {
            Phase::Completed
        } else {
            Phase::Active
        }
    }
}

} // verus!
