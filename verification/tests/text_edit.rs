use cc_switch::cli::tui::text_edit::{
    normalize_key_event, KeyCode, KeyEvent, TextInput, TextInputPolicy,
};

fn plain(code: KeyCode) -> KeyEvent {
    KeyEvent { code, control: false, alt: false }
}

fn ctrl(code: KeyCode) -> KeyEvent {
    KeyEvent { code, control: true, alt: false }
}

fn alt(code: KeyCode) -> KeyEvent {
    KeyEvent { code, control: false, alt: true }
}

#[test]
fn readline_line_movement_and_deletion_work() {
    let mut input = TextInput::new("alpha beta");
    input.apply_key(ctrl(KeyCode::Char('a')));
    assert_eq!(input.cursor, 0);

    input.apply_key(ctrl(KeyCode::Char('e')));
    assert_eq!(input.cursor, "alpha beta".chars().count());

    input.apply_key(ctrl(KeyCode::Char('w')));
    assert_eq!(input.value, "alpha ");
    assert_eq!(input.cursor, "alpha ".chars().count());

    input.apply_key(ctrl(KeyCode::Char('u')));
    assert_eq!(input.value, "");
    assert_eq!(input.cursor, 0);
}

#[test]
fn word_movement_handles_punctuation_and_unicode() {
    let mut input = TextInput::new("你好 model-name 🚀");

    input.apply_key(alt(KeyCode::Char('b')));
    assert_eq!(input.cursor, "你好 model-name ".chars().count());

    input.apply_key(alt(KeyCode::Char('b')));
    assert_eq!(input.cursor, "你好 model-".chars().count());

    input.apply_key(alt(KeyCode::Char('f')));
    assert_eq!(input.cursor, "你好 model-name".chars().count());
}

#[test]
fn max_chars_policy_handles_insert_without_changing() {
    let mut input = TextInput::new("abc");
    let edit = input
        .apply_key_with_policy(
            plain(KeyCode::Char('d')),
            TextInputPolicy { max_chars: Some(3), sanitize: None },
        )
        .expect("printable input should be handled");

    assert!(!edit.changed);
    assert_eq!(input.value, "abc");
}

#[test]
fn apply_command_clamps_external_cursor_state() {
    let mut input = TextInput { value: "abc".to_string(), cursor: 99 };

    input.apply_key(ctrl(KeyCode::Char('w')));

    assert_eq!(input.value, "");
    assert_eq!(input.cursor, 0);
}

#[test]
fn normalize_ctrl_h_becomes_backspace() {
    let normalized = normalize_key_event(ctrl(KeyCode::Char('h')));
    assert_eq!(normalized.code, KeyCode::Backspace);
    assert!(!normalized.control);
}

#[test]
fn normalize_plain_h_unchanged() {
    let normalized = normalize_key_event(plain(KeyCode::Char('h')));
    assert_eq!(normalized.code, KeyCode::Char('h'));
    assert_eq!(normalized, plain(KeyCode::Char('h')));
}

#[test]
fn normalize_real_backspace_unchanged() {
    let normalized = normalize_key_event(plain(KeyCode::Backspace));
    assert_eq!(normalized.code, KeyCode::Backspace);
}

#[test]
fn editing_moves_and_deletes() {
    let mut input = TextInput::new("añb");
    assert_eq!(input.cursor, 3);
    assert!(input.move_left());
    assert!(input.backspace());
    assert_eq!(input.value, "ab");
    assert_eq!(input.cursor, 1);
    assert!(input.insert_char('ñ'));
    assert_eq!((input.value.as_str(), input.cursor), ("añb", 2));
    assert!(input.delete());
    assert_eq!(input.value, "añ");
    assert!(!input.delete());
    assert!(input.move_home());
    assert!(!input.move_left());
    assert!(!input.backspace());
    assert!(input.move_right());
    assert!(input.move_end());
    assert!(!input.move_end());
    assert!(!input.is_blank());
    input.set("  ");
    assert!(input.is_blank());
    assert_eq!(input.cursor, 2);
}
