//! Editing a line of text with the keyboard.

use vstd::prelude::*;
use vstd::string::*;
use crate::text;

verus! {

/// A key, by what it does when it is pressed alone.
#[derive(Debug, Clone, Copy, PartialEq, Eq, Structural)]
pub enum KeyCode {
    Left,
    Right,
    Home,
    End,
    Backspace,
    Delete,
    Char(char),
    /// Any other key.
    Other,
}

/// A key that is pressed, alone or together with others.
#[derive(Debug, Clone, Copy, PartialEq, Eq, Structural)]
pub struct KeyEvent {
    pub code: KeyCode,
    pub control: bool,
    pub alt: bool,
}

/// A key as it is meant: terminals send Ctrl+H for the backspace key.
pub open spec fn normalized(key: KeyEvent) -> KeyEvent {
    if key.control && key.code == KeyCode::Char('h') {
        KeyEvent { code: KeyCode::Backspace, control: false, alt: key.alt }
    } else {
        key
    }
}

/// A key as it is meant: terminals send Ctrl+H for the backspace key.
pub fn normalize_key_event(key: KeyEvent) -> (r: KeyEvent)
    ensures
        r == normalized(key),
{
    if key.control && key.code == KeyCode::Char('h') {
        KeyEvent { code: KeyCode::Backspace, control: false, alt: key.alt }
    } else {
        key
    }
}

/// What is done to a line of text.
#[derive(Debug, Clone, Copy, PartialEq, Eq, Structural)]
pub enum TextEditCommand {
    MoveLeft,
    MoveRight,
    MoveLineStart,
    MoveLineEnd,
    MoveWordLeft,
    MoveWordRight,
    DeleteBackward,
    DeleteForward,
    DeleteToLineStart,
    DeleteToLineEnd,
    DeleteWordBackward,
    Insert(char),
}

/// Whether a key is a letter, in either case.
pub open spec fn is_letter(code: KeyCode, lower: char, upper: char) -> bool {
    code == KeyCode::Char(lower) || code == KeyCode::Char(upper)
}

/// What a key does.
pub open spec fn command_of(key: KeyEvent) -> Option<TextEditCommand> {
    let code = key.code;
    if key.control {
        if is_letter(code, 'a', 'A') {
            Some(TextEditCommand::MoveLineStart)
        } else if is_letter(code, 'b', 'B') {
            Some(TextEditCommand::MoveLeft)
        } else if is_letter(code, 'd', 'D') {
            Some(TextEditCommand::DeleteForward)
        } else if is_letter(code, 'e', 'E') {
            Some(TextEditCommand::MoveLineEnd)
        } else if is_letter(code, 'f', 'F') {
            Some(TextEditCommand::MoveRight)
        } else if is_letter(code, 'k', 'K') {
            Some(TextEditCommand::DeleteToLineEnd)
        } else if is_letter(code, 'u', 'U') {
            Some(TextEditCommand::DeleteToLineStart)
        } else if is_letter(code, 'w', 'W') {
            Some(TextEditCommand::DeleteWordBackward)
        } else {
            None
        }
    } else if key.alt {
        if code == KeyCode::Backspace {
            Some(TextEditCommand::DeleteWordBackward)
        } else if is_letter(code, 'b', 'B') {
            Some(TextEditCommand::MoveWordLeft)
        } else if is_letter(code, 'f', 'F') {
            Some(TextEditCommand::MoveWordRight)
        } else {
            None
        }
    } else {
        match code {
            KeyCode::Left => Some(TextEditCommand::MoveLeft),
            KeyCode::Right => Some(TextEditCommand::MoveRight),
            KeyCode::Home => Some(TextEditCommand::MoveLineStart),
            KeyCode::End => Some(TextEditCommand::MoveLineEnd),
            KeyCode::Backspace => Some(TextEditCommand::DeleteBackward),
            KeyCode::Delete => Some(TextEditCommand::DeleteForward),
            KeyCode::Char(c) => if text::is_control(c) {
                None
            } else {
                Some(TextEditCommand::Insert(c))
            },
            KeyCode::Other => None,
        }
    }
}

impl TextEditCommand {
    /// What a key does.
    pub fn from_key(key: KeyEvent) -> (r: Option<TextEditCommand>)
        ensures
            r == command_of(key),
    {
        if key.control {
            return match key.code {
                KeyCode::Char('a') | KeyCode::Char('A') => Some(TextEditCommand::MoveLineStart),
                KeyCode::Char('b') | KeyCode::Char('B') => Some(TextEditCommand::MoveLeft),
                KeyCode::Char('d') | KeyCode::Char('D') => Some(TextEditCommand::DeleteForward),
                KeyCode::Char('e') | KeyCode::Char('E') => Some(TextEditCommand::MoveLineEnd),
                KeyCode::Char('f') | KeyCode::Char('F') => Some(TextEditCommand::MoveRight),
                KeyCode::Char('k') | KeyCode::Char('K') => Some(TextEditCommand::DeleteToLineEnd),
                KeyCode::Char('u') | KeyCode::Char('U') => Some(
                    TextEditCommand::DeleteToLineStart,
                ),
                KeyCode::Char('w') | KeyCode::Char('W') => Some(
                    TextEditCommand::DeleteWordBackward,
                ),
                _ => None,
            };
        }
        if key.alt {
            return match key.code {
                KeyCode::Backspace => Some(TextEditCommand::DeleteWordBackward),
                KeyCode::Char('b') | KeyCode::Char('B') => Some(TextEditCommand::MoveWordLeft),
                KeyCode::Char('f') | KeyCode::Char('F') => Some(TextEditCommand::MoveWordRight),
                _ => None,
            };
        }
        match key.code {
            KeyCode::Left => Some(TextEditCommand::MoveLeft),
            KeyCode::Right => Some(TextEditCommand::MoveRight),
            KeyCode::Home => Some(TextEditCommand::MoveLineStart),
            KeyCode::End => Some(TextEditCommand::MoveLineEnd),
            KeyCode::Backspace => Some(TextEditCommand::DeleteBackward),
            KeyCode::Delete => Some(TextEditCommand::DeleteForward),
            KeyCode::Char(c) => if text::control(c) {
                None
            } else {
                Some(TextEditCommand::Insert(c))
            },
            KeyCode::Other => None,
        }
    }
}

/// What a character is part of.
#[derive(Debug, Clone, Copy, PartialEq, Eq, Structural)]
pub enum CharKind {
    Whitespace,
    Word,
    Other,
}

/// What a character is part of.
pub open spec fn kind_of(c: char) -> CharKind {
    if text::is_white_space(c) {
        CharKind::Whitespace
    } else if text::char_is_alphanumeric(c) || c == '_' {
        CharKind::Word
    } else {
        CharKind::Other
    }
}

/// What a character is part of.
fn char_kind(c: char) -> (r: CharKind)
    ensures
        r == kind_of(c),
{
    if text::white_space(c) {
        CharKind::Whitespace
    } else if c.is_alphanumeric() || c == '_' {
        CharKind::Word
    } else {
        CharKind::Other
    }
}

/// The beginning of the run of characters of a kind that ends at `i`.
pub open spec fn run_start(line: Seq<char>, i: int, kind: CharKind) -> int
    decreases i,
{
    if 0 < i <= line.len() && kind_of(line[i - 1]) == kind {
        run_start(line, i - 1, kind)
    } else {
        i
    }
}

/// The end of the run of characters of a kind that begins at `i`.
pub open spec fn run_end(line: Seq<char>, i: int, kind: CharKind) -> int
    decreases line.len() - i,
{
    if 0 <= i < line.len() && kind_of(line[i]) == kind {
        run_end(line, i + 1, kind)
    } else {
        i
    }
}

/// The smaller of two numbers.
pub open spec fn least(a: int, b: int) -> int {
    if a < b {
        a
    } else {
        b
    }
}

/// Where the word before a position begins, behind white space.
pub open spec fn word_before(line: Seq<char>, cursor: int) -> int {
    let i = run_start(line, least(cursor, line.len() as int), CharKind::Whitespace);
    if i == 0 {
        0
    } else {
        run_start(line, i, kind_of(line[i - 1]))
    }
}

/// Where the word after a position ends, behind white space.
pub open spec fn word_after(line: Seq<char>, cursor: int) -> int {
    let i = run_end(line, least(cursor, line.len() as int), CharKind::Whitespace);
    if i >= line.len() {
        line.len() as int
    } else {
        run_end(line, i, kind_of(line[i]))
    }
}

/// A run begins where it ends or before.
proof fn lemma_run_start(line: Seq<char>, i: int, kind: CharKind)
    requires
        0 <= i <= line.len(),
    ensures
        0 <= run_start(line, i, kind) <= i,
    decreases i,
{
    if 0 < i && kind_of(line[i - 1]) == kind {
        lemma_run_start(line, i - 1, kind);
    }
}

/// A run ends where it begins or after.
proof fn lemma_run_end(line: Seq<char>, i: int, kind: CharKind)
    requires
        0 <= i <= line.len(),
    ensures
        i <= run_end(line, i, kind) <= line.len(),
    decreases line.len() - i,
{
    if i < line.len() && kind_of(line[i]) == kind {
        lemma_run_end(line, i + 1, kind);
    }
}

/// Where the word before a position begins.
pub fn previous_word_boundary(line: &str, cursor: usize) -> (r: usize)
    ensures
        r == word_before(line@, cursor as int),
        r <= cursor,
{
    let chars = text::chars_of(line);
    let start: usize = if cursor < chars.len() {
        cursor
    } else {
        chars.len()
    };
    let mut i: usize = start;
    while i > 0 && matches!(char_kind(chars[i - 1]), CharKind::Whitespace)
        invariant
            i <= start <= chars@.len(),
            run_start(chars@, start as int, CharKind::Whitespace) == run_start(
                chars@,
                i as int,
                CharKind::Whitespace,
            ),
        decreases i,
    {
        i = i - 1;
    }
    if i == 0 {
        return 0;
    }
    let target = char_kind(chars[i - 1]);
    let from: usize = i;
    while i > 0 && char_kind(chars[i - 1]) == target
        invariant
            i <= from <= start <= chars@.len(),
            run_start(chars@, from as int, target) == run_start(chars@, i as int, target),
        decreases i,
    {
        i = i - 1;
    }
    i
}

/// Where the word after a position ends.
pub fn next_word_boundary(line: &str, cursor: usize) -> (r: usize)
    ensures
        r == word_after(line@, cursor as int),
        r <= line@.len(),
        cursor <= line@.len() ==> cursor <= r,
{
    let chars = text::chars_of(line);
    let n: usize = chars.len();
    let start: usize = if cursor < n {
        cursor
    } else {
        n
    };
    let mut i: usize = start;
    while i < n && matches!(char_kind(chars[i]), CharKind::Whitespace)
        invariant
            start <= i <= n == chars@.len(),
            run_end(chars@, start as int, CharKind::Whitespace) == run_end(
                chars@,
                i as int,
                CharKind::Whitespace,
            ),
        decreases n - i,
    {
        i = i + 1;
    }
    if i >= n {
        return n;
    }
    let target = char_kind(chars[i]);
    let from: usize = i;
    while i < n && char_kind(chars[i]) == target
        invariant
            start <= from <= i <= n == chars@.len(),
            run_end(chars@, from as int, target) == run_end(chars@, i as int, target),
        decreases n - i,
    {
        i = i + 1;
    }
    i
}

/// What a line of text may hold. `sanitize` is what is to be inserted in place of
/// a character, if anything, where that is restricted.
#[derive(Debug, Clone, Copy)]
pub struct TextInputPolicy {
    pub max_chars: Option<usize>,
    pub sanitize: Option<Option<char>>,
}

/// Whether a line of text has been changed by a key.
#[derive(Debug, Clone, Copy, PartialEq, Eq, Structural)]
pub struct TextInputEdit {
    pub changed: bool,
}

/// A line of text and the position at which it is edited, in characters.
#[derive(Debug)]
pub struct TextInput {
    pub value: String,
    pub cursor: usize,
}

/// The model of [`TextInput`].
pub struct InputView {
    pub value: Seq<char>,
    pub cursor: int,
}

impl View for TextInput {
    type V = InputView;

    open spec fn view(&self) -> InputView {
        InputView { value: self.value@, cursor: self.cursor as int }
    }
}

/// A text without the characters from `from` to `to`, where there are any.
pub open spec fn cut(value: Seq<char>, from: int, to: int) -> Seq<char> {
    let n = value.len() as int;
    value.take(least(from, n)) + value.skip(least(to, n))
}

/// The line with a character put in at the position, or at its end where the
/// position is behind that.
pub open spec fn inserted(s: InputView, c: char) -> InputView {
    let at = least(s.cursor, s.value.len() as int);
    InputView { value: s.value.take(at).push(c) + s.value.skip(at), cursor: s.cursor + 1 }
}

/// The line with the position moved.
pub open spec fn moved(s: InputView, cursor: int) -> InputView {
    InputView { cursor, ..s }
}

/// What taking away the character before the position does.
pub open spec fn after_backspace(s: InputView) -> InputView {
    if s.cursor == 0 || s.value.len() == 0 {
        s
    } else {
        InputView { value: cut(s.value, s.cursor - 1, s.cursor), cursor: s.cursor - 1 }
    }
}

/// What taking away the character after the position does.
pub open spec fn after_delete(s: InputView) -> InputView {
    if s.cursor >= s.value.len() {
        s
    } else {
        InputView { value: cut(s.value, s.cursor, s.cursor + 1), ..s }
    }
}

/// What taking away everything before the position does.
pub open spec fn after_delete_to_start(s: InputView) -> InputView {
    if s.cursor == 0 {
        s
    } else {
        InputView { value: cut(s.value, 0, s.cursor), cursor: 0 }
    }
}

/// What taking away everything after the position does.
pub open spec fn after_delete_to_end(s: InputView) -> InputView {
    if s.cursor >= s.value.len() {
        s
    } else {
        InputView { value: s.value.take(s.cursor), ..s }
    }
}

/// What taking away the word before the position does.
pub open spec fn after_delete_word(s: InputView) -> InputView {
    let start = word_before(s.value, s.cursor);
    if start == s.cursor {
        s
    } else {
        InputView { value: cut(s.value, start, s.cursor), cursor: start }
    }
}

impl TextInput {
    /// A line to be edited at its end.
    pub fn new(value: &str) -> (r: TextInput)
        ensures
            r@ == (InputView { value: value@, cursor: value@.len() as int }),
    {
        TextInput { value: value.to_owned(), cursor: value.unicode_len() }
    }

    /// Puts another line in place, to be edited at its end.
    pub fn set(&mut self, value: &str)
        ensures
            final(self)@ == (InputView { value: value@, cursor: value@.len() as int }),
    {
        self.value = value.to_owned();
        self.cursor = value.unicode_len();
    }

    /// Whether the line holds nothing but white space.
    pub fn is_blank(&self) -> (r: bool)
        ensures
            r == text::is_blank(self@.value),
    {
        text::blank(self.value.as_str())
    }

    /// The number of characters of the line.
    pub fn len_chars(&self) -> (r: usize)
        ensures
            r == self@.value.len(),
    {
        self.value.as_str().unicode_len()
    }

    /// Puts the position inside the line.
    fn clamp_cursor(&mut self)
        ensures
            final(self)@ == moved(
                old(self)@,
                least(old(self)@.cursor, old(self)@.value.len() as int),
            ),
    {
        let n: usize = self.len_chars();
        if n <= self.cursor {
            self.cursor = n;
        }
    }

    /// Moves the position to the left, and tells whether it moved.
    pub fn move_left(&mut self) -> (moved_at_all: bool)
        ensures
            final(self)@ == moved(
                old(self)@,
                if old(self)@.cursor > 0 {
                    old(self)@.cursor - 1
                } else {
                    0
                },
            ),
            moved_at_all == (final(self)@.cursor != old(self)@.cursor),
    {
        let before: usize = self.cursor;
        self.cursor = self.cursor.saturating_sub(1);
        self.cursor != before
    }

    /// Moves the position to the right, and tells whether it moved.
    pub fn move_right(&mut self) -> (moved_at_all: bool)
        requires
            old(self)@.cursor < usize::MAX,
        ensures
            final(self)@ == moved(
                old(self)@,
                least(old(self)@.cursor + 1, old(self)@.value.len() as int),
            ),
            moved_at_all == (final(self)@.cursor != old(self)@.cursor),
    {
        let before: usize = self.cursor;
        let n: usize = self.len_chars();
        self.cursor = if self.cursor + 1 < n {
            self.cursor + 1
        } else {
            n
        };
        self.cursor != before
    }

    /// Moves the position to the beginning, and tells whether it moved.
    pub fn move_home(&mut self) -> (moved_at_all: bool)
        ensures
            final(self)@ == moved(old(self)@, 0),
            moved_at_all == (old(self)@.cursor != 0),
    {
        let before: usize = self.cursor;
        self.cursor = 0;
        self.cursor != before
    }

    /// Moves the position to the end, and tells whether it moved.
    pub fn move_end(&mut self) -> (moved_at_all: bool)
        ensures
            final(self)@ == moved(old(self)@, old(self)@.value.len() as int),
            moved_at_all == (final(self)@.cursor != old(self)@.cursor),
    {
        let before: usize = self.cursor;
        self.cursor = self.len_chars();
        self.cursor != before
    }

    /// Moves the position to the beginning of the word before it.
    pub fn move_word_left(&mut self) -> (moved_at_all: bool)
        ensures
            final(self)@ == moved(old(self)@, word_before(old(self)@.value, old(self)@.cursor)),
            moved_at_all == (final(self)@.cursor != old(self)@.cursor),
    {
        let before: usize = self.cursor;
        self.cursor = previous_word_boundary(self.value.as_str(), self.cursor);
        self.cursor != before
    }

    /// Moves the position to the end of the word after it.
    pub fn move_word_right(&mut self) -> (moved_at_all: bool)
        ensures
            final(self)@ == moved(old(self)@, word_after(old(self)@.value, old(self)@.cursor)),
            moved_at_all == (final(self)@.cursor != old(self)@.cursor),
    {
        let before: usize = self.cursor;
        self.cursor = next_word_boundary(self.value.as_str(), self.cursor);
        self.cursor != before
    }

    /// Puts in a character at the position.
    pub fn insert_char(&mut self, c: char) -> (changed: bool)
        requires
            old(self)@.cursor < usize::MAX,
        ensures
            final(self)@ == inserted(old(self)@, c),
            changed,
    {
        let chars = text::chars_of(self.value.as_str());
        let n: usize = chars.len();
        let at: usize = if self.cursor < n {
            self.cursor
        } else {
            n
        };
        let mut value = text::text_of(&chars, 0, at);
        assert(chars@.subrange(0, at as int) == chars@.take(at as int));
        assert(chars@.subrange(at as int, n as int) == chars@.skip(at as int));
        value.push(c);
        value.append(text::text_of(&chars, at, n).as_str());
        self.value = value;
        self.cursor = self.cursor + 1;
        true
    }

    /// Takes away the characters from `from` to `to`.
    fn cut_range(&mut self, from: usize, to: usize)
        requires
            from <= to,
        ensures
            final(self)@ == (InputView {
                value: cut(old(self)@.value, from as int, to as int),
                ..old(self)@
            }),
    {
        let chars = text::chars_of(self.value.as_str());
        let n: usize = chars.len();
        let start: usize = if from < n {
            from
        } else {
            n
        };
        let end: usize = if to < n {
            to
        } else {
            n
        };
        let mut value = text::text_of(&chars, 0, start);
        assert(chars@.subrange(0, start as int) == chars@.take(start as int));
        assert(chars@.subrange(end as int, n as int) == chars@.skip(end as int));
        value.append(text::text_of(&chars, end, n).as_str());
        self.value = value;
    }

    /// Takes away the character before the position, and tells whether there was
    /// one to take.
    pub fn backspace(&mut self) -> (changed: bool)
        ensures
            final(self)@ == after_backspace(old(self)@),
            changed == (old(self)@.cursor != 0 && old(self)@.value.len() > 0),
    {
        if self.cursor == 0 || self.len_chars() == 0 {
            return false;
        }
        let cursor: usize = self.cursor;
        self.cut_range(cursor - 1, cursor);
        self.cursor = cursor - 1;
        true
    }

    /// Takes away the character after the position, and tells whether there was
    /// one.
    pub fn delete(&mut self) -> (changed: bool)
        ensures
            final(self)@ == after_delete(old(self)@),
            changed == (old(self)@.cursor < old(self)@.value.len()),
    {
        if self.cursor >= self.len_chars() {
            return false;
        }
        let cursor: usize = self.cursor;
        self.cut_range(cursor, cursor + 1);
        true
    }

    /// Takes away everything before the position.
    pub fn delete_to_line_start(&mut self) -> (changed: bool)
        ensures
            final(self)@ == after_delete_to_start(old(self)@),
            changed == (old(self)@.cursor != 0),
    {
        if self.cursor == 0 {
            return false;
        }
        let cursor: usize = self.cursor;
        self.cut_range(0, cursor);
        self.cursor = 0;
        true
    }

    /// Takes away everything after the position.
    pub fn delete_to_line_end(&mut self) -> (changed: bool)
        ensures
            final(self)@ == after_delete_to_end(old(self)@),
            changed == (old(self)@.cursor < old(self)@.value.len()),
    {
        let n: usize = self.len_chars();
        if self.cursor >= n {
            return false;
        }
        let cursor: usize = self.cursor;
        let ghost value = self.value@;
        self.cut_range(cursor, n);
        assert(cut(value, cursor as int, n as int) =~= value.take(cursor as int));
        true
    }

    /// Takes away the word before the position.
    pub fn delete_word_backward(&mut self) -> (changed: bool)
        ensures
            final(self)@ == after_delete_word(old(self)@),
            changed == (word_before(old(self)@.value, old(self)@.cursor) != old(self)@.cursor),
    {
        let start: usize = previous_word_boundary(self.value.as_str(), self.cursor);
        if start == self.cursor {
            return false;
        }
        let cursor: usize = self.cursor;
        self.cut_range(start, cursor);
        self.cursor = start;
        true
    }
}

/// What a command makes of a line whose position is inside it.
pub open spec fn edited(s: InputView, command: TextEditCommand, policy: TextInputPolicy) -> InputView {
    let n = s.value.len() as int;
    match command {
        TextEditCommand::MoveLeft => moved(
            s,
            if s.cursor > 0 {
                s.cursor - 1
            } else {
                0
            },
        ),
        TextEditCommand::MoveRight => moved(s, least(s.cursor + 1, n)),
        TextEditCommand::MoveLineStart => moved(s, 0),
        TextEditCommand::MoveLineEnd => moved(s, n),
        TextEditCommand::MoveWordLeft => moved(s, word_before(s.value, s.cursor)),
        TextEditCommand::MoveWordRight => moved(s, word_after(s.value, s.cursor)),
        TextEditCommand::DeleteBackward => after_backspace(s),
        TextEditCommand::DeleteForward => after_delete(s),
        TextEditCommand::DeleteToLineStart => after_delete_to_start(s),
        TextEditCommand::DeleteToLineEnd => after_delete_to_end(s),
        TextEditCommand::DeleteWordBackward => after_delete_word(s),
        TextEditCommand::Insert(c) => {
            let allowed = match policy.sanitize {
                Some(allowed) => allowed,
                None => Some(c),
            };
            let is_full = policy.max_chars matches Some(most) && n >= most;
            match allowed {
                Some(c) => if is_full {
                    s
                } else {
                    inserted(s, c)
                },
                None => s,
            }
        },
    }
}

/// The line with its position inside it.
pub open spec fn clamped(s: InputView) -> InputView {
    moved(s, least(s.cursor, s.value.len() as int))
}

impl TextInput {
    /// Carries out a command, and tells whether it did anything. A position behind
    /// the end of the line is put at its end first.
    pub fn apply_command(&mut self, command: TextEditCommand, policy: TextInputPolicy) -> (changed:
        bool)
        requires
            old(self)@.value.len() < usize::MAX,
        ensures
            final(self)@ == edited(clamped(old(self)@), command, policy),
            changed == (final(self)@ != clamped(old(self)@)),
    {
        self.clamp_cursor();
        let ghost before = self@;
        let changed = match command {
            TextEditCommand::MoveLeft => self.move_left(),
            TextEditCommand::MoveRight => self.move_right(),
            TextEditCommand::MoveLineStart => self.move_home(),
            TextEditCommand::MoveLineEnd => self.move_end(),
            TextEditCommand::MoveWordLeft => self.move_word_left(),
            TextEditCommand::MoveWordRight => self.move_word_right(),
            TextEditCommand::DeleteBackward => self.backspace(),
            TextEditCommand::DeleteForward => self.delete(),
            TextEditCommand::DeleteToLineStart => self.delete_to_line_start(),
            TextEditCommand::DeleteToLineEnd => self.delete_to_line_end(),
            TextEditCommand::DeleteWordBackward => self.delete_word_backward(),
            TextEditCommand::Insert(c) => {
                let allowed = match policy.sanitize {
                    Some(allowed) => allowed,
                    None => Some(c),
                };
                let is_full = match policy.max_chars {
                    Some(most) => self.len_chars() >= most,
                    None => false,
                };
                match allowed {
                    Some(c) => if is_full {
                        false
                    } else {
                        self.insert_char(c)
                    },
                    None => false,
                }
            },
        };
        proof {
            if changed && self@.cursor == before.cursor {
                assert(self@.value.len() != before.value.len());
            }
        }
        changed
    }

    /// Carries out what a key does, if it does anything here.
    pub fn apply_key_with_policy(&mut self, key: KeyEvent, policy: TextInputPolicy) -> (r: Option<
        TextInputEdit,
    >)
        requires
            old(self)@.value.len() < usize::MAX,
        ensures
            match command_of(key) {
                Some(command) => {
                    &&& final(self)@ == edited(clamped(old(self)@), command, policy)
                    &&& r == Some(
                        TextInputEdit { changed: final(self)@ != clamped(old(self)@) },
                    )
                },
                None => r is None && final(self)@ == old(self)@,
            },
    {
        match TextEditCommand::from_key(key) {
            Some(command) => Some(TextInputEdit { changed: self.apply_command(command, policy) }),
            None => None,
        }
    }

    /// Carries out what a key does in a line that may hold anything.
    pub fn apply_key(&mut self, key: KeyEvent) -> (r: Option<TextInputEdit>)
        requires
            old(self)@.value.len() < usize::MAX,
        ensures
            match command_of(key) {
                Some(command) => {
                    let free = TextInputPolicy { max_chars: None, sanitize: None };
                    &&& final(self)@ == edited(clamped(old(self)@), command, free)
                    &&& r == Some(
                        TextInputEdit { changed: final(self)@ != clamped(old(self)@) },
                    )
                },
                None => r is None && final(self)@ == old(self)@,
            },
    {
        self.apply_key_with_policy(key, TextInputPolicy { max_chars: None, sanitize: None })
    }
}

/// Whatever a command does, the position is inside the line after it.
pub proof fn law_position_stays_inside(
    s: InputView,
    command: TextEditCommand,
    policy: TextInputPolicy,
)
    requires
        0 <= s.cursor,
    ensures
        ({
            let after = edited(clamped(s), command, policy);
            0 <= after.cursor <= after.value.len()
        }),
{
    let t = clamped(s);
    let n = t.value.len() as int;
    lemma_run_start(t.value, t.cursor, CharKind::Whitespace);
    lemma_run_end(t.value, t.cursor, CharKind::Whitespace);
    let i = run_start(t.value, t.cursor, CharKind::Whitespace);
    let j = run_end(t.value, t.cursor, CharKind::Whitespace);
    if i > 0 {
        lemma_run_start(t.value, i, kind_of(t.value[i - 1]));
    }
    if j < n {
        lemma_run_end(t.value, j, kind_of(t.value[j]));
    }
}

/// Taking away the character that was just put in gives back the line as it was.
pub proof fn law_backspace_undoes_insertion(s: InputView, c: char)
    requires
        0 <= s.cursor <= s.value.len(),
    ensures
        after_backspace(inserted(s, c)) == s,
{
    let t = inserted(s, c);
    assert(cut(t.value, t.cursor - 1, t.cursor) =~= s.value);
}

/// A command never makes a line longer than it may be, unless it was.
pub proof fn law_lines_keep_to_their_limit(
    s: InputView,
    command: TextEditCommand,
    policy: TextInputPolicy,
    most: usize,
)
    requires
        0 <= s.cursor,
        policy.max_chars == Some(most),
        s.value.len() <= most,
    ensures
        edited(clamped(s), command, policy).value.len() <= most,
{
    let t = clamped(s);
    lemma_run_start(t.value, t.cursor, CharKind::Whitespace);
    let i = run_start(t.value, t.cursor, CharKind::Whitespace);
    if i > 0 {
        lemma_run_start(t.value, i, kind_of(t.value[i - 1]));
    }
}

} // verus!
