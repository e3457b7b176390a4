use typebeast::{App, Judgment, Key, Outcome, Phase};

fn session_on(text: &str) -> App {
    App::with_text(text.chars().collect())
}

fn type_all(app: &mut App, typed: &str) -> Vec<Outcome> {
    typed.chars().map(|c| app.handle_key(Key::Char(c))).collect()
}

fn judgments(app: &App) -> Vec<Judgment> {
    app.snapshot().into_iter().map(|(_, j)| j).collect()
}

fn assert_invariant(app: &App) {
    let cells = app.snapshot();
    assert_eq!(cells.len(), app.len());
    assert!(app.cursor() <= app.len());
    for (i, (_, j)) in cells.iter().enumerate() {
        if i < app.cursor() {
            assert!(matches!(j, Judgment::Correct | Judgment::Incorrect));
        } else {
            assert_eq!(*j, Judgment::Pending);
        }
    }
}

#[test]
fn fresh_session_is_pending_everywhere() {
    let app = session_on("cat ");
    assert_eq!(app.cursor(), 0);
    assert_eq!(app.len(), 4);
    assert_eq!(app.phase(), Phase::Active);
    assert!(!app.exit_requested());
    assert_eq!(judgments(&app), vec![Judgment::Pending; 4]);
    assert_eq!(app.next_expected_char(), Some('c'));
}

#[test]
fn all_correct_input_is_judged_correct() {
    let mut app = session_on("cat ");
    let outcomes = type_all(&mut app, "cat ");
    assert_eq!(
        outcomes,
        vec![Outcome::Continue, Outcome::Continue, Outcome::Continue, Outcome::Completed]
    );
    assert_eq!(judgments(&app), vec![Judgment::Correct; 4]);
    assert_eq!(app.cursor(), 4);
    assert_eq!(app.phase(), Phase::Completed);
}

#[test]
fn one_wrong_character_is_judged_incorrect() {
    let mut app = session_on("cat ");
    type_all(&mut app, "cax ");
    assert_eq!(
        judgments(&app),
        vec![Judgment::Correct, Judgment::Correct, Judgment::Incorrect, Judgment::Correct]
    );
}

#[test]
fn comparison_is_case_sensitive() {
    let mut app = session_on("Cat");
    type_all(&mut app, "cAt");
    assert_eq!(
        judgments(&app),
        vec![Judgment::Incorrect, Judgment::Incorrect, Judgment::Correct]
    );
}

#[test]
fn snapshot_pairs_characters_with_judgments() {
    let mut app = session_on("ab");
    app.handle_key(Key::Char('x'));
    assert_eq!(
        app.snapshot(),
        vec![('a', Judgment::Incorrect), ('b', Judgment::Pending)]
    );
}

#[test]
fn snapshot_is_a_copy() {
    let app = session_on("ab");
    let mut cells = app.snapshot();
    cells[0] = ('z', Judgment::Correct);
    cells.push(('q', Judgment::Incorrect));
    assert_eq!(
        app.snapshot(),
        vec![('a', Judgment::Pending), ('b', Judgment::Pending)]
    );
    assert_eq!(app.cursor(), 0);
}

#[test]
fn invariant_holds_after_every_key() {
    let mut app = session_on("hello world ");
    let keys = [
        Key::Char('h'),
        Key::Char('x'),
        Key::Backspace,
        Key::Other,
        Key::Backspace,
        Key::Backspace,
        Key::Char('h'),
        Key::Char('e'),
        Key::Enter,
        Key::Char('l'),
        Key::Backspace,
    ];
    assert_invariant(&app);
    for key in keys {
        app.handle_key(key);
        assert_invariant(&app);
    }
    assert_eq!(app.cursor(), 2);
}

#[test]
fn type_then_backspace_restores_the_state() {
    let mut app = session_on("cat ");
    app.handle_key(Key::Char('c'));
    let cursor = app.cursor();
    let cells = app.snapshot();
    let phase = app.phase();
    for typed in ['a', 'z'] {
        assert_eq!(app.handle_key(Key::Char(typed)), Outcome::Continue);
        assert_eq!(app.cursor(), cursor + 1);
        assert_eq!(app.handle_key(Key::Backspace), Outcome::Continue);
        assert_eq!(app.cursor(), cursor);
        assert_eq!(app.snapshot(), cells);
        assert_eq!(app.phase(), phase);
        assert_eq!(app.next_expected_char(), Some('a'));
    }
}

#[test]
fn backspace_undoes_the_last_judgment_only() {
    let mut app = session_on("abc");
    type_all(&mut app, "axc");
    assert_eq!(app.handle_key(Key::Backspace), Outcome::Continue);
    assert_eq!(app.cursor(), 2);
    assert_eq!(app.phase(), Phase::Active);
    assert_eq!(
        judgments(&app),
        vec![Judgment::Correct, Judgment::Incorrect, Judgment::Pending]
    );
}

#[test]
fn typing_the_whole_text_completes() {
    for typed in ["cat ", "dog!", "c?t "] {
        let mut app = session_on("cat ");
        let outcomes = type_all(&mut app, typed);
        assert_eq!(outcomes.last(), Some(&Outcome::Completed));
        assert_eq!(app.cursor(), app.len());
        assert_eq!(app.phase(), Phase::Completed);
        assert_eq!(app.next_expected_char(), None);
    }
}

#[test]
fn typing_past_the_end_changes_nothing() {
    let mut app = session_on("ab");
    type_all(&mut app, "ax");
    let cells = app.snapshot();
    assert_eq!(app.handle_key(Key::Char('q')), Outcome::Completed);
    assert_eq!(app.handle_key(Key::Char('b')), Outcome::Completed);
    assert_eq!(app.cursor(), 2);
    assert_eq!(app.snapshot(), cells);
    assert_eq!(app.phase(), Phase::Completed);
}

#[test]
fn backspace_at_start_changes_nothing() {
    let mut app = session_on("cat ");
    assert_eq!(app.handle_key(Key::Backspace), Outcome::Continue);
    assert_eq!(app.cursor(), 0);
    assert_eq!(judgments(&app), vec![Judgment::Pending; 4]);
    assert_eq!(app.phase(), Phase::Active);
}

#[test]
fn other_keys_change_nothing() {
    let mut app = session_on("cat ");
    app.handle_key(Key::Char('c'));
    let cells = app.snapshot();
    assert_eq!(app.handle_key(Key::Other), Outcome::Continue);
    assert_eq!(app.cursor(), 1);
    assert_eq!(app.snapshot(), cells);
    assert_eq!(app.phase(), Phase::Active);
}

#[test]
fn finish_key_exits_at_start() {
    let mut app = session_on("cat ");
    assert_eq!(app.handle_key(Key::Enter), Outcome::Exit);
    assert_eq!(app.phase(), Phase::ExitRequested);
    assert!(app.exit_requested());
    assert_eq!(app.cursor(), 0);
    assert_eq!(judgments(&app), vec![Judgment::Pending; 4]);
}

#[test]
fn finish_key_exits_mid_session() {
    let mut app = session_on("cat ");
    type_all(&mut app, "cx");
    let cells = app.snapshot();
    assert_eq!(app.handle_key(Key::Enter), Outcome::Exit);
    assert_eq!(app.phase(), Phase::ExitRequested);
    assert_eq!(app.cursor(), 2);
    assert_eq!(app.snapshot(), cells);
}

#[test]
fn finish_key_exits_at_end() {
    let mut app = session_on("cat ");
    type_all(&mut app, "cat ");
    assert_eq!(app.phase(), Phase::Completed);
    assert_eq!(app.handle_key(Key::Enter), Outcome::Exit);
    assert_eq!(app.phase(), Phase::ExitRequested);
    assert_eq!(app.cursor(), 4);
}

#[test]
fn exit_stays_requested() {
    let mut app = session_on("ab");
    app.handle_key(Key::Enter);
    for key in [Key::Char('a'), Key::Backspace, Key::Other, Key::Enter] {
        app.handle_key(key);
        assert_eq!(app.phase(), Phase::ExitRequested);
    }
}

#[test]
fn empty_text_is_complete_from_the_start() {
    let mut app = session_on("");
    assert_eq!(app.len(), 0);
    assert_eq!(app.cursor(), 0);
    assert_eq!(app.phase(), Phase::Completed);
    assert_eq!(app.next_expected_char(), None);
    assert_eq!(app.snapshot(), vec![]);
    assert_eq!(app.handle_key(Key::Char('a')), Outcome::Completed);
    assert_eq!(app.handle_key(Key::Backspace), Outcome::Continue);
    assert_eq!(app.handle_key(Key::Other), Outcome::Continue);
    assert_eq!(app.cursor(), 0);
    assert_eq!(app.handle_key(Key::Enter), Outcome::Exit);
    assert_eq!(app.phase(), Phase::ExitRequested);
}

#[test]
fn next_expected_char_follows_the_cursor() {
    let mut app = session_on("abc");
    assert_eq!(app.next_expected_char(), Some('a'));
    app.handle_key(Key::Char('a'));
    assert_eq!(app.next_expected_char(), Some('b'));
    app.handle_key(Key::Char('x'));
    assert_eq!(app.next_expected_char(), Some('c'));
    app.handle_key(Key::Backspace);
    assert_eq!(app.next_expected_char(), Some('b'));
    app.handle_key(Key::Char('b'));
    app.handle_key(Key::Char('c'));
    assert_eq!(app.next_expected_char(), None);
    app.handle_key(Key::Backspace);
    assert_eq!(app.next_expected_char(), Some('c'));
}
