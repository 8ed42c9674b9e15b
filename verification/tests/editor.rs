use neo::editor::{
    command, Command, Event, Feedback, KeyCode, KeyEvent, KeyEventKind, LineEditor, Next, Phase,
    CONTROL, NO_MODIFIER, SHIFT,
};

fn press(code: KeyCode, modifiers: u8) -> Event {
    Event::Key(KeyEvent { code, modifiers, kind: KeyEventKind::Press })
}

fn key(c: char) -> Event {
    press(KeyCode::Char(c), NO_MODIFIER)
}

fn control(c: char) -> Event {
    press(KeyCode::Char(c), CONTROL)
}

fn backspace() -> Event {
    press(KeyCode::Backspace, NO_MODIFIER)
}

fn enter() -> Event {
    press(KeyCode::Enter, NO_MODIFIER)
}

fn editing() -> LineEditor {
    let mut editor = LineEditor::new();
    assert!(editor.begin());
    editor
}

fn type_text(editor: &mut LineEditor, text: &str) {
    for c in text.chars() {
        assert_eq!(editor.handle(&key(c)), Feedback::Redraw);
    }
}

#[test]
fn events_are_read_as_commands() {
    assert_eq!(command(&key('x')), Command::Insert('x'));
    assert_eq!(command(&key('c')), Command::Insert('c'));
    assert_eq!(command(&press(KeyCode::Char('x'), SHIFT)), Command::Insert('X'));
    assert_eq!(command(&press(KeyCode::Char('é'), SHIFT)), Command::Insert('é'));
    assert_eq!(command(&control('c')), Command::CancelSignal);
    assert_eq!(command(&control('d')), Command::EndOfInput);
    assert_eq!(command(&control('l')), Command::ClearScreen);
    assert_eq!(command(&control('x')), Command::Ignore);
    assert_eq!(command(&control('D')), Command::Ignore);
    assert_eq!(command(&press(KeyCode::Char('d'), CONTROL | SHIFT)), Command::Ignore);
    assert_eq!(command(&press(KeyCode::Char('x'), 4)), Command::Ignore);
    assert_eq!(command(&backspace()), Command::Erase);
    assert_eq!(command(&press(KeyCode::Backspace, CONTROL)), Command::Ignore);
    assert_eq!(command(&enter()), Command::Submit);
    assert_eq!(command(&press(KeyCode::Enter, SHIFT)), Command::Ignore);
    assert_eq!(command(&press(KeyCode::Other, NO_MODIFIER)), Command::Ignore);
    assert_eq!(command(&Event::Other), Command::Ignore);
}

#[test]
fn only_presses_count() {
    for kind in [KeyEventKind::Repeat, KeyEventKind::Release] {
        let event = Event::Key(KeyEvent { code: KeyCode::Char('x'), modifiers: NO_MODIFIER, kind });
        assert_eq!(command(&event), Command::Ignore);
        let event = Event::Key(KeyEvent { code: KeyCode::Char('d'), modifiers: CONTROL, kind });
        assert_eq!(command(&event), Command::Ignore);
    }
}

#[test]
fn new_editor_is_idle() {
    let editor = LineEditor::new();
    assert_eq!(editor.phase(), Phase::Idle);
    assert!(!editor.is_editing());
    assert_eq!(editor.line(), "");
    assert!(matches!(editor.next(), Next::Restart));
}

#[test]
fn nothing_is_taken_before_a_cycle_begins() {
    let mut editor = LineEditor::new();
    assert_eq!(editor.handle(&key('x')), Feedback::Quiet);
    assert_eq!(editor.handle(&enter()), Feedback::Quiet);
    assert_eq!(editor.phase(), Phase::Idle);
    assert_eq!(editor.line(), "");
}

#[test]
fn typing_appends_and_backspace_removes() {
    let mut editor = editing();
    assert!(editor.is_editing());
    assert!(matches!(editor.next(), Next::Read));
    type_text(&mut editor, "ab");
    assert_eq!(editor.line(), "ab");
    assert_eq!(editor.handle(&backspace()), Feedback::Redraw);
    assert_eq!(editor.line(), "a");
    assert_eq!(editor.handle(&backspace()), Feedback::Redraw);
    assert_eq!(editor.line(), "");
    assert_eq!(editor.handle(&backspace()), Feedback::Quiet);
    assert_eq!(editor.line(), "");
    assert!(editor.is_editing());
}

#[test]
fn shift_types_upper_case() {
    let mut editor = editing();
    assert_eq!(editor.handle(&press(KeyCode::Char('l'), SHIFT)), Feedback::Redraw);
    assert_eq!(editor.handle(&key('s')), Feedback::Redraw);
    assert_eq!(editor.line(), "Ls");
}

#[test]
fn ls_erased_then_pwd_submits_pwd() {
    let mut editor = editing();
    type_text(&mut editor, "ls");
    assert_eq!(editor.handle(&backspace()), Feedback::Redraw);
    assert_eq!(editor.handle(&backspace()), Feedback::Redraw);
    assert_eq!(editor.handle(&backspace()), Feedback::Quiet);
    type_text(&mut editor, "pwd");
    assert_eq!(editor.handle(&enter()), Feedback::NewLine);
    assert_eq!(editor.phase(), Phase::Submitted);
    assert!(!editor.is_editing());
    assert_eq!(editor.line(), "pwd");
    match editor.next() {
        Next::Execute(request) => {
            assert_eq!(request.get_key(), "pwd");
            assert!(request.get_args().is_empty());
        }
        other => panic!("{:?}", other),
    }
}

#[test]
fn end_of_input_at_empty_prompt_ends_the_shell() {
    let mut editor = editing();
    assert_eq!(editor.handle(&control('d')), Feedback::Quiet);
    assert_eq!(editor.phase(), Phase::Interrupted);
    assert!(!editor.is_editing());
    assert!(matches!(editor.next(), Next::Exit));
    assert!(!editor.begin());
    assert_eq!(editor.phase(), Phase::Interrupted);
    assert_eq!(editor.handle(&key('x')), Feedback::Quiet);
    assert_eq!(editor.line(), "");
    assert!(matches!(editor.next(), Next::Exit));
}

#[test]
fn end_of_input_with_text_ends_the_shell() {
    let mut editor = editing();
    type_text(&mut editor, "ls");
    assert_eq!(editor.handle(&control('d')), Feedback::Quiet);
    assert!(matches!(editor.next(), Next::Exit));
}

#[test]
fn clear_screen_abandons_the_line() {
    let mut editor = editing();
    type_text(&mut editor, "rm -rf");
    assert_eq!(editor.handle(&control('l')), Feedback::ClearScreen);
    assert_eq!(editor.phase(), Phase::Cancelled);
    assert!(!editor.is_editing());
    assert_eq!(editor.line(), "");
    assert!(matches!(editor.next(), Next::Restart));
    assert!(editor.begin());
    assert!(editor.is_editing());
    assert_eq!(editor.line(), "");
}

#[test]
fn cancel_signal_changes_nothing() {
    let mut editor = editing();
    type_text(&mut editor, "ls");
    assert_eq!(editor.handle(&control('c')), Feedback::Quiet);
    assert!(editor.is_editing());
    assert_eq!(editor.line(), "ls");
}

#[test]
fn blank_lines_are_dropped() {
    for text in ["", " ", "  \t ", "\u{a0}"] {
        let mut editor = editing();
        type_text(&mut editor, text);
        assert_eq!(editor.handle(&enter()), Feedback::NewLine);
        assert_eq!(editor.phase(), Phase::Submitted);
        assert!(matches!(editor.next(), Next::Restart), "{:?}", text);
    }
}

#[test]
fn submitted_line_becomes_a_request() {
    let mut editor = editing();
    type_text(&mut editor, "  echo  hello world  ");
    assert_eq!(editor.handle(&enter()), Feedback::NewLine);
    match editor.next() {
        Next::Execute(request) => {
            assert_eq!(request.get_key(), "echo");
            assert_eq!(request.get_args(), &vec!["hello".to_string(), "world".to_string()]);
        }
        other => panic!("{:?}", other),
    }
    assert_eq!(editor.handle(&key('x')), Feedback::Quiet);
    assert_eq!(editor.line(), "  echo  hello world  ");
}

#[test]
fn each_cycle_begins_with_an_empty_line() {
    let mut editor = editing();
    type_text(&mut editor, "ls");
    assert_eq!(editor.handle(&enter()), Feedback::NewLine);
    assert!(editor.begin());
    assert!(editor.is_editing());
    assert_eq!(editor.line(), "");
    type_text(&mut editor, "pwd");
    assert!(editor.begin());
    assert_eq!(editor.line(), "");
}
