use gpudash::input::{poll_timeout_nanos, tick_due, CommandLine, Control, KeyInput, TICK_NANOS};

fn typed(line: &mut CommandLine, s: &str) {
    for c in s.chars() {
        assert_eq!(line.handle_key(KeyInput::Char(c), true), Control::Continue);
    }
}

#[test]
fn q_then_enter_quits() {
    let mut line = CommandLine::new();
    typed(&mut line, "q");
    assert_eq!(line.handle_key(KeyInput::Enter, true), Control::Quit);
}

#[test]
fn q_with_surrounding_white_space_quits() {
    let mut line = CommandLine::new();
    typed(&mut line, " \tq  ");
    assert_eq!(line.handle_key(KeyInput::Enter, true), Control::Quit);
    let mut line = CommandLine::new();
    typed(&mut line, "\u{3000}q\u{a0}");
    assert_eq!(line.handle_key(KeyInput::Enter, true), Control::Quit);
}

#[test]
fn other_commands_clear_the_line() {
    let mut line = CommandLine::new();
    typed(&mut line, "qq");
    assert_eq!(line.handle_key(KeyInput::Enter, true), Control::Continue);
    assert_eq!(line.text(), "");
    typed(&mut line, "Q");
    assert_eq!(line.handle_key(KeyInput::Enter, true), Control::Continue);
    assert_eq!(line.text(), "");
    assert_eq!(line.handle_key(KeyInput::Enter, true), Control::Continue);
    typed(&mut line, "q");
    assert_eq!(line.handle_key(KeyInput::Enter, true), Control::Quit);
}

#[test]
fn backspace_takes_back_a_character() {
    let mut line = CommandLine::new();
    typed(&mut line, "qx");
    assert_eq!(line.handle_key(KeyInput::Backspace, true), Control::Continue);
    assert_eq!(line.text(), "q");
    assert_eq!(line.handle_key(KeyInput::Enter, true), Control::Quit);
}

#[test]
fn backspace_on_an_empty_line_does_nothing() {
    let mut line = CommandLine::new();
    assert_eq!(line.handle_key(KeyInput::Backspace, true), Control::Continue);
    assert_eq!(line.text(), "");
}

#[test]
fn released_and_other_keys_change_nothing() {
    let mut line = CommandLine::new();
    typed(&mut line, "q");
    assert_eq!(line.handle_key(KeyInput::Char('x'), false), Control::Continue);
    assert_eq!(line.handle_key(KeyInput::Enter, false), Control::Continue);
    assert_eq!(line.handle_key(KeyInput::Other, true), Control::Continue);
    assert_eq!(line.text(), "q");
    assert_eq!(line.handle_key(KeyInput::Enter, true), Control::Quit);
}

#[test]
fn timeout_is_what_is_left_of_the_tick() {
    assert_eq!(TICK_NANOS, 1_000_000_000);
    assert_eq!(poll_timeout_nanos(0), 1_000_000_000);
    assert_eq!(poll_timeout_nanos(300_000_000), 700_000_000);
    assert_eq!(poll_timeout_nanos(1_000_000_000), 0);
    assert_eq!(poll_timeout_nanos(5_000_000_000), 0);
}

#[test]
fn tick_is_due_after_a_second() {
    assert!(!tick_due(999_999_999));
    assert!(tick_due(1_000_000_000));
    assert!(tick_due(u128::MAX));
}
