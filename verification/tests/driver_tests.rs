use echo_session::driver::{KeyInput, StepOutcome};
use echo_session::session::Progression;

#[test]
fn escape_exits_and_changes_nothing() {
    let mut p = Progression::new();
    p.input_char('a');
    let out = p.handle_key(KeyInput::Escape);
    assert_eq!(out, StepOutcome::Exit);
    assert_eq!(p.input_buffer, vec!['a']);
    assert_eq!(p.messages.len(), 0);
}

#[test]
fn character_key_appends_and_redraws() {
    let mut p = Progression::new();
    let out = p.handle_key(KeyInput::Character('x'));
    assert_eq!(out, StepOutcome::Redraw);
    assert_eq!(p.input_buffer, vec!['x']);
}

#[test]
fn line_terminator_key_commits() {
    let mut p = Progression::new();
    p.handle_key(KeyInput::Character('h'));
    p.handle_key(KeyInput::Character('i'));
    let out = p.handle_key(KeyInput::Character('\n'));
    assert_eq!(out, StepOutcome::Redraw);
    assert_eq!(p.messages.len(), 1);
    assert_eq!(p.messages[0].sender, "me");
    assert_eq!(p.messages[0].data, "hi");
    assert_eq!(p.input_buffer, Vec::<char>::new());
}

#[test]
fn backspace_key_deletes_and_redraws() {
    let mut p = Progression::new();
    p.handle_key(KeyInput::Character('a'));
    p.handle_key(KeyInput::Character('b'));
    let out = p.handle_key(KeyInput::Backspace);
    assert_eq!(out, StepOutcome::Redraw);
    assert_eq!(p.input_buffer, vec!['a']);
}

#[test]
fn other_keys_are_ignored() {
    let mut p = Progression::new();
    p.handle_key(KeyInput::Character('a'));
    let out = p.handle_key(KeyInput::Other);
    assert_eq!(out, StepOutcome::Ignore);
    assert_eq!(p.input_buffer, vec!['a']);
    assert_eq!(p.messages.len(), 0);
}
