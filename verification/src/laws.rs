//! What holds of every session, proved over the model that the engine's
//! contracts speak of.

use vstd::prelude::*;
use crate::keys::{Event, Judgment, Key, Outcome, Phase};
use crate::model::SessionState;
use crate::pipeline::LoopAction;
use crate::words::{letters, occurrences, reference_text, SEPARATOR};

verus! {

/// Every key in `keys` is a character key.
pub open spec fn all_chars(keys: Seq<Key>) -> bool {
    forall|i: int| 0 <= i < keys.len() ==> keys[i] is Char
}

/// A session starts well-formed, whatever its text.
pub proof fn initial_is_wf(text: Seq<char>)
    ensures
        SessionState::initial(text).wf(),
        SessionState::initial(text).cursor == 0,
        SessionState::initial(text).text == text,
{
}

/// No key takes a well-formed session out of well-formedness, and none
/// changes the text.
pub proof fn press_keeps_wf(s: SessionState, key: Key)
    requires
        s.wf(),
    ensures
        s.press(key).wf(),
        s.press(key).text == s.text,
{
}

/// In every state that keys can lead to from the start, all positions
/// before the cursor are judged correct or incorrect, and all positions from
/// the cursor on are pending.
pub proof fn reachable_is_wf(text: Seq<char>, keys: Seq<Key>)
    ensures
        SessionState::initial(text).run(keys).wf(),
        SessionState::initial(text).run(keys).text == text,
        ({
            let s = SessionState::initial(text).run(keys);
            &&& s.cursor <= text.len()
            &&& s.judgments.len() == text.len()
            &&& forall|i: int|
                0 <= i < s.cursor ==> s.judgments[i] == Judgment::Correct || s.judgments[i]
                    == Judgment::Incorrect
            &&& forall|i: int| s.cursor <= i < text.len() ==> s.judgments[i] == Judgment::Pending
        }),
    decreases keys.len(),
{
    if keys.len() > 0 {
        reachable_is_wf(text, keys.drop_last());
        press_keeps_wf(SessionState::initial(text).run(keys.drop_last()), keys.last());
    }
}

/// Typing a character and then pressing backspace gives back the very state
/// from before the character: the cursor returns and the position is pending
/// again. This holds wherever a character can still be typed, and in the
/// session without text.
pub proof fn type_then_backspace_restores(s: SessionState, c: char)
    requires
        s.wf(),
        s.cursor < s.text.len() || s.text.len() == 0,
    ensures
        s.press(Key::Char(c)).press(Key::Backspace) == s,
        s.press(Key::Char(c)).signal(Key::Backspace) == Outcome::Continue,
{
    let t = s.press(Key::Char(c)).press(Key::Backspace);
    assert(t.judgments =~= s.judgments);
}

/// Character keys move the cursor on by one each, as long as text is left.
pub proof fn typing_advances(s: SessionState, keys: Seq<Key>)
    requires
        s.wf(),
        all_chars(keys),
        s.cursor + keys.len() <= s.text.len(),
    ensures
        s.run(keys).wf(),
        s.run(keys).text == s.text,
        s.run(keys).cursor == s.cursor + keys.len(),
        s.run(keys).exit_requested == s.exit_requested,
    decreases keys.len(),
{
    if keys.len() > 0 {
        typing_advances(s, keys.drop_last());
        press_keeps_wf(s.run(keys.drop_last()), keys.last());
    }
}

/// Typing as many characters as the text is long, right or wrong, takes a
/// fresh session to its end: the cursor equals the length, the last of the
/// keys signals completion and the session is complete. One more character
/// changes nothing and signals completion again.
pub proof fn typing_whole_text_completes(text: Seq<char>, keys: Seq<Key>)
    requires
        all_chars(keys),
        keys.len() == text.len(),
    ensures
        ({
            let done = SessionState::initial(text).run(keys);
            &&& done.wf()
            &&& done.cursor == text.len()
            &&& done.phase() == Phase::Completed
            &&& keys.len() > 0 ==> SessionState::initial(text).run(keys.drop_last()).signal(
                keys.last(),
            ) == Outcome::Completed
            &&& forall|c: char| #[trigger] done.press(Key::Char(c)) == done
            &&& forall|c: char| #[trigger] done.signal(Key::Char(c)) == Outcome::Completed
        }),
{
    let start = SessionState::initial(text);
    typing_advances(start, keys);
    if keys.len() > 0 {
        typing_advances(start, keys.drop_last());
    }
}

/// Backspace at the start of the text changes nothing: the cursor stays at
/// the first position and no judgment changes.
pub proof fn backspace_at_start_is_noop(s: SessionState)
    requires
        s.cursor == 0,
    ensures
        s.press(Key::Backspace) == s,
        s.signal(Key::Backspace) == Outcome::Continue,
{
}

/// The finish key asks to leave wherever the cursor stands, and leaves the
/// text, the judgments and the cursor as they were.
pub proof fn finish_key_requests_exit(s: SessionState)
    ensures
        s.signal(Key::Enter) == Outcome::Exit,
        s.press(Key::Enter).phase() == Phase::ExitRequested,
        s.press(Key::Enter) == (SessionState { exit_requested: true, ..s }),
{
}

/// Once the user has asked to leave, no key brings the session back.
pub proof fn exit_is_terminal(s: SessionState, key: Key)
    requires
        s.phase() == Phase::ExitRequested,
    ensures
        s.press(key).phase() == Phase::ExitRequested,
{
}

/// After the user has asked to leave, a turn of the event loop dispatches
/// nothing: the state stays as it is and the loop is told to stop.
pub proof fn no_dispatch_after_exit(s: SessionState, received: Option<Event>)
    requires
        s.phase() == Phase::ExitRequested,
    ensures
        s.step(received) == s,
        s.action(received) == LoopAction::Stop,
{
}

/// A turn of the event loop draws exactly when it consumed an event, and it
/// changes the session only then.
pub proof fn one_redraw_per_event(s: SessionState, received: Option<Event>)
    ensures
        s.action(received) == LoopAction::Redraw <==> s.consumes(received),
        !s.consumes(received) ==> s.step(received) == s,
{
}

/// A reference text holds the characters of its words and one separator for
/// each word: it is at least as long as the words are many, and empty when
/// there are none.
pub proof fn reference_text_len(words: Seq<Seq<char>>)
    ensures
        reference_text(words).len() == letters(words) + words.len(),
        reference_text(words).len() >= words.len(),
        words.len() == 0 ==> reference_text(words).len() == 0,
    decreases words.len(),
{
    if words.len() > 0 {
        reference_text_len(words.drop_last());
    }
}

/// Counting a character in two sequences joined is counting it in each.
pub proof fn occurrences_of_concat(a: Seq<char>, b: Seq<char>, c: char)
    ensures
        occurrences(a + b, c) == occurrences(a, c) + occurrences(b, c),
    decreases b.len(),
{
    if b.len() == 0 {
        assert(a + b == a);
    } else {
        assert((a + b).drop_last() == a + b.drop_last());
        occurrences_of_concat(a, b.drop_last(), c);
    }
}

/// A sequence that does not contain a character has no occurrence of it.
pub proof fn occurrences_of_absent(s: Seq<char>, c: char)
    requires
        !s.contains(c),
    ensures
        occurrences(s, c) == 0,
    decreases s.len(),
{
    if s.len() > 0 {
        assert(s.last() == s[s.len() - 1]);
        assert forall|i: int| 0 <= i < s.drop_last().len() implies s.drop_last()[i] != c by {
            assert(s.drop_last()[i] == s[i]);
        }
        occurrences_of_absent(s.drop_last(), c);
    }
}

/// Where no word holds the separator, the reference text holds it exactly
/// once for each word.
pub proof fn one_separator_per_word(words: Seq<Seq<char>>)
    requires
        forall|i: int| 0 <= i < words.len() ==> !(#[trigger] words[i]).contains(SEPARATOR),
    ensures
        occurrences(reference_text(words), SEPARATOR) == words.len(),
    decreases words.len(),
{
    if words.len() > 0 {
        let rest = words.drop_last();
        let head = reference_text(rest);
        assert forall|i: int| 0 <= i < rest.len() implies !(#[trigger] rest[i]).contains(
            SEPARATOR,
        ) by {
            assert(rest[i] == words[i]);
        }
        one_separator_per_word(rest);
        assert(words.last() == words[words.len() - 1]);
        occurrences_of_absent(words.last(), SEPARATOR);
        occurrences_of_concat(head, words.last(), SEPARATOR);
        occurrences_of_concat(head + words.last(), seq![SEPARATOR], SEPARATOR);
        assert(occurrences(seq![SEPARATOR], SEPARATOR) == 1) by {
            assert(seq![SEPARATOR].drop_last() == Seq::<char>::empty());
            assert(occurrences(Seq::<char>::empty(), SEPARATOR) == 0);
        }
    }
}

} // verus!
