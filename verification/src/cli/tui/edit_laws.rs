//! What holds of editing a line of text.

use vstd::prelude::*;
#[allow(unused_imports)]
use crate::cli::tui::text_edit;
#[allow(unused_imports)]
use crate::cli::tui::text_edit::{
    CharKind, InputView, KeyCode, KeyEvent, TextEditCommand, TextInputPolicy,
};
#[allow(unused_imports)]
use crate::text;

verus! {

/// A key that is pressed alone.
pub open spec fn alone(code: KeyCode) -> KeyEvent {
    KeyEvent { code, control: false, alt: false }
}

/// A letter that is pressed together with the control key.
pub open spec fn with_control(letter: char) -> KeyEvent {
    KeyEvent { code: KeyCode::Char(letter), control: true, alt: false }
}

/// A key that is pressed together with the alt key.
pub open spec fn with_alt(code: KeyCode) -> KeyEvent {
    KeyEvent { code, control: false, alt: true }
}

/// The control key makes letters do what the keys for moving and deleting do, in either case
/// of the letter.
pub proof fn law_letters_stand_in_for_keys()
    ensures
        text_edit::command_of(with_control('a')) == text_edit::command_of(alone(KeyCode::Home)),
        text_edit::command_of(with_control('e')) == text_edit::command_of(alone(KeyCode::End)),
        text_edit::command_of(with_control('b')) == text_edit::command_of(alone(KeyCode::Left)),
        text_edit::command_of(with_control('f')) == text_edit::command_of(alone(KeyCode::Right)),
        text_edit::command_of(with_control('d')) == text_edit::command_of(alone(KeyCode::Delete)),
        text_edit::command_of(with_control('w')) == text_edit::command_of(
            with_alt(KeyCode::Backspace),
        ),
        text_edit::command_of(text_edit::normalized(with_control('h'))) == text_edit::command_of(
            alone(KeyCode::Backspace),
        ),
        text_edit::command_of(with_control('A')) == text_edit::command_of(with_control('a')),
        text_edit::command_of(with_control('B')) == text_edit::command_of(with_control('b')),
        text_edit::command_of(with_control('D')) == text_edit::command_of(with_control('d')),
        text_edit::command_of(with_control('E')) == text_edit::command_of(with_control('e')),
        text_edit::command_of(with_control('F')) == text_edit::command_of(with_control('f')),
        text_edit::command_of(with_control('K')) == text_edit::command_of(with_control('k')),
        text_edit::command_of(with_control('U')) == text_edit::command_of(with_control('u')),
        text_edit::command_of(with_control('W')) == text_edit::command_of(with_control('w')),
{
}

/// Only a key that is pressed alone, and that stands for no control character, is put into
/// the line, and it is put in as it is.
pub proof fn law_only_plain_characters_are_put_in(key: KeyEvent, c: char)
    ensures
        text_edit::command_of(key) == Some(TextEditCommand::Insert(c)) <==> key == alone(
            KeyCode::Char(c),
        ) && !text::is_control(c),
{
}

/// A key that moves the position moves it on any line, and keys in opposite directions undo
/// one another inside the line.
pub proof fn law_arrows_go_back_and_forth(s: InputView, policy: TextInputPolicy)
    requires
        0 <= s.cursor <= s.value.len(),
    ensures
        ({
            let left = text_edit::edited(s, TextEditCommand::MoveLeft, policy);
            let right = text_edit::edited(s, TextEditCommand::MoveRight, policy);
            &&& s.cursor > 0 ==> left.cursor < s.cursor && text_edit::edited(
                left,
                TextEditCommand::MoveRight,
                policy,
            ) == s
            &&& s.cursor < s.value.len() ==> right.cursor > s.cursor && text_edit::edited(
                right,
                TextEditCommand::MoveLeft,
                policy,
            ) == s
            &&& s.cursor == 0 ==> left == s
            &&& s.cursor == s.value.len() ==> right == s
        }),
        text_edit::edited(s, TextEditCommand::MoveLineStart, policy).cursor == 0,
        text_edit::edited(s, TextEditCommand::MoveLineEnd, policy).cursor == s.value.len(),
        text_edit::command_of(alone(KeyCode::Left)) == Some(TextEditCommand::MoveLeft),
        text_edit::command_of(alone(KeyCode::Right)) == Some(TextEditCommand::MoveRight),
        text_edit::command_of(alone(KeyCode::Home)) == Some(TextEditCommand::MoveLineStart),
        text_edit::command_of(alone(KeyCode::End)) == Some(TextEditCommand::MoveLineEnd),
        text_edit::command_of(with_alt(KeyCode::Char('b'))) == Some(TextEditCommand::MoveWordLeft),
        text_edit::command_of(with_alt(KeyCode::Char('f'))) == Some(TextEditCommand::MoveWordRight),
{
}

/// Moving changes no text.
pub proof fn law_moving_changes_no_text(
    s: InputView,
    command: TextEditCommand,
    policy: TextInputPolicy,
)
    requires
        command is MoveLeft || command is MoveRight || command is MoveLineStart || command is
            MoveLineEnd || command is MoveWordLeft || command is MoveWordRight,
    ensures
        text_edit::edited(s, command, policy).value == s.value,
{
}

/// What is deleted is what stands beside the position, on the side that was asked for; the
/// rest of the line stays.
pub proof fn law_the_rest_of_the_line_stays(s: InputView, policy: TextInputPolicy)
    requires
        0 <= s.cursor <= s.value.len(),
    ensures
        ({
            let back = text_edit::edited(s, TextEditCommand::DeleteBackward, policy);
            let forward = text_edit::edited(s, TextEditCommand::DeleteForward, policy);
            let start = text_edit::edited(s, TextEditCommand::DeleteToLineStart, policy);
            let end = text_edit::edited(s, TextEditCommand::DeleteToLineEnd, policy);
            let rest = s.value.skip(s.cursor);
            &&& s.cursor > 0 ==> back.value == s.value.take(s.cursor - 1) + rest && back.cursor
                == s.cursor - 1
            &&& s.cursor == 0 ==> back == s
            &&& s.cursor < s.value.len() ==> forward.value == s.value.take(s.cursor)
                + rest.skip(1) && forward.cursor == s.cursor
            &&& s.cursor == s.value.len() ==> forward == s
            &&& start.value == rest && start.cursor == 0
            &&& end.value + rest == s.value && end.cursor == s.cursor
        }),
        text_edit::command_of(alone(KeyCode::Backspace)) == Some(TextEditCommand::DeleteBackward),
        text_edit::command_of(alone(KeyCode::Delete)) == Some(TextEditCommand::DeleteForward),
        text_edit::command_of(with_control('u')) == Some(TextEditCommand::DeleteToLineStart),
        text_edit::command_of(with_control('k')) == Some(TextEditCommand::DeleteToLineEnd),
        text_edit::command_of(with_control('w')) == Some(TextEditCommand::DeleteWordBackward),
{
    let rest = s.value.skip(s.cursor);
    if s.cursor > 0 {
        assert(text_edit::cut(s.value, s.cursor - 1, s.cursor) =~= s.value.take(s.cursor - 1)
            + rest);
    }
    if s.cursor < s.value.len() {
        assert(text_edit::cut(s.value, s.cursor, s.cursor + 1) =~= s.value.take(s.cursor)
            + rest.skip(1));
    }
    assert(text_edit::cut(s.value, 0, s.cursor) =~= rest);
    assert(s.value.take(s.cursor) + rest =~= s.value);
    if s.cursor == 0 {
        assert(rest =~= s.value);
    }
    if s.cursor == s.value.len() {
        assert(s.value.take(s.cursor) =~= s.value);
    }
}

/// A character stands at the position once it has been put in, with the line on both sides of
/// it; a line that is full stays as it is, and where characters are replaced, the replacement
/// is put in.
pub proof fn law_a_character_is_put_in_at_the_position(
    s: InputView,
    c: char,
    policy: TextInputPolicy,
)
    requires
        0 <= s.cursor <= s.value.len(),
    ensures
        ({
            let after = text_edit::edited(s, TextEditCommand::Insert(c), policy);
            let full = policy.max_chars matches Some(most) && s.value.len() >= most;
            let put = match policy.sanitize {
                Some(replacement) => replacement,
                None => Some(c),
            };
            &&& full || put is None ==> after == s
            &&& !full && put is Some ==> {
                &&& after.value.len() == s.value.len() + 1
                &&& after.value[s.cursor] == put->Some_0
                &&& after.value.take(s.cursor) == s.value.take(s.cursor)
                &&& after.value.skip(s.cursor + 1) == s.value.skip(s.cursor)
                &&& after.cursor == s.cursor + 1
            }
        }),
{
    let put = match policy.sanitize {
        Some(replacement) => replacement,
        None => Some(c),
    };
    if let Some(c) = put {
        let after = text_edit::inserted(s, c);
        assert(after.value.take(s.cursor) =~= s.value.take(s.cursor));
        assert(after.value.skip(s.cursor + 1) =~= s.value.skip(s.cursor));
    }
}

/// Whether the characters from `from` to `to` are all of a kind.
pub open spec fn is_run(line: Seq<char>, from: int, to: int, kind: CharKind) -> bool {
    forall|i: int| from <= i < to ==> text_edit::kind_of(#[trigger] line[i]) == kind
}

proof fn lemma_run_start_is_a_run(line: Seq<char>, i: int, kind: CharKind)
    requires
        0 <= i <= line.len(),
    ensures
        ({
            let start = text_edit::run_start(line, i, kind);
            &&& 0 <= start <= i
            &&& is_run(line, start, i, kind)
            &&& start > 0 ==> text_edit::kind_of(line[start - 1]) != kind
        }),
    decreases i,
{
    if 0 < i && text_edit::kind_of(line[i - 1]) == kind {
        lemma_run_start_is_a_run(line, i - 1, kind);
    }
}

proof fn lemma_run_end_is_a_run(line: Seq<char>, i: int, kind: CharKind)
    requires
        0 <= i <= line.len(),
    ensures
        ({
            let end = text_edit::run_end(line, i, kind);
            &&& i <= end <= line.len()
            &&& is_run(line, i, end, kind)
            &&& end < line.len() ==> text_edit::kind_of(line[end]) != kind
        }),
    decreases line.len() - i,
{
    if i < line.len() && text_edit::kind_of(line[i]) == kind {
        lemma_run_end_is_a_run(line, i + 1, kind);
    }
}

/// The word before a position is a whole run of characters of one kind, and nothing but white
/// space stands between it and the position; what is deleted with it is just that.
pub proof fn law_the_word_before_is_whole(s: InputView, policy: TextInputPolicy)
    requires
        0 <= s.cursor <= s.value.len(),
    ensures
        ({
            let start = text_edit::edited(s, TextEditCommand::MoveWordLeft, policy).cursor;
            let deleted = text_edit::edited(s, TextEditCommand::DeleteWordBackward, policy);
            &&& 0 <= start <= s.cursor
            &&& exists|m: int|
                #![trigger is_run(s.value, m, s.cursor, CharKind::Whitespace)]
                {
                    &&& start <= m <= s.cursor
                    &&& is_run(s.value, m, s.cursor, CharKind::Whitespace)
                    &&& start < m ==> {
                        let kind = text_edit::kind_of(s.value[m - 1]);
                        &&& kind != CharKind::Whitespace
                        &&& is_run(s.value, start, m, kind)
                        &&& start > 0 ==> text_edit::kind_of(s.value[start - 1]) != kind
                    }
                    &&& start == m ==> start == 0
                }
            &&& deleted.value == s.value.take(start) + s.value.skip(s.cursor)
            &&& deleted.cursor == start
        }),
{
    let start = text_edit::word_before(s.value, s.cursor);
    let m = text_edit::run_start(s.value, s.cursor, CharKind::Whitespace);
    lemma_run_start_is_a_run(s.value, s.cursor, CharKind::Whitespace);
    if m > 0 {
        lemma_run_start_is_a_run(s.value, m, text_edit::kind_of(s.value[m - 1]));
    }
    assert(is_run(s.value, m, s.cursor, CharKind::Whitespace));
    if start == s.cursor {
        assert(s.value.take(start) + s.value.skip(s.cursor) =~= s.value);
    }
}

/// The word after a position is a whole run of characters of one kind, and nothing but white
/// space stands between the position and it.
pub proof fn law_the_word_after_is_whole(s: InputView, policy: TextInputPolicy)
    requires
        0 <= s.cursor <= s.value.len(),
    ensures
        ({
            let end = text_edit::edited(s, TextEditCommand::MoveWordRight, policy).cursor;
            &&& s.cursor <= end <= s.value.len()
            &&& exists|m: int|
                #![trigger is_run(s.value, s.cursor, m, CharKind::Whitespace)]
                {
                    &&& s.cursor <= m <= end
                    &&& is_run(s.value, s.cursor, m, CharKind::Whitespace)
                    &&& m < end ==> {
                        let kind = text_edit::kind_of(s.value[m]);
                        &&& kind != CharKind::Whitespace
                        &&& is_run(s.value, m, end, kind)
                        &&& end < s.value.len() ==> text_edit::kind_of(s.value[end]) != kind
                    }
                    &&& m == end ==> end == s.value.len()
                }
        }),
{
    let m = text_edit::run_end(s.value, s.cursor, CharKind::Whitespace);
    lemma_run_end_is_a_run(s.value, s.cursor, CharKind::Whitespace);
    if m < s.value.len() {
        lemma_run_end_is_a_run(s.value, m, text_edit::kind_of(s.value[m]));
    }
    assert(is_run(s.value, s.cursor, m, CharKind::Whitespace));
}

/// A word is made of letters, digits and underscores; white space is never part of one.
pub proof fn law_words_are_letters_digits_and_underscores(c: char)
    ensures
        text_edit::kind_of(c) == CharKind::Whitespace <==> text::is_white_space(c),
        text_edit::kind_of(c) == CharKind::Word <==> !text::is_white_space(c) && (
        text::char_is_alphanumeric(c) || c == '_'),
{
}

} // verus!
