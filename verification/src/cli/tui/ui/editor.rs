//! The editor as it is shown.

use vstd::prelude::*;
use vstd::string::*;
use crate::text;

verus! {

/// What is edited.
#[derive(Debug, Clone, Copy, PartialEq, Eq, Structural)]
pub enum EditorKind {
    Json,
    Toml,
    Plain,
}

/// What stands above the text.
#[derive(Debug, Clone, Copy, PartialEq, Eq, Structural)]
pub enum FieldHeading {
    JsonText,
    TomlText,
    PlainText,
}

/// What stands above a text of a kind.
pub open spec fn heading_of(kind: EditorKind) -> FieldHeading {
    match kind {
        EditorKind::Json => FieldHeading::JsonText,
        EditorKind::Toml => FieldHeading::TomlText,
        EditorKind::Plain => FieldHeading::PlainText,
    }
}

/// What stands above a text of a kind.
pub fn field_heading(kind: EditorKind) -> (r: FieldHeading)
    ensures
        r == heading_of(kind),
{
    match kind {
        EditorKind::Json => FieldHeading::JsonText,
        EditorKind::Toml => FieldHeading::TomlText,
        EditorKind::Plain => FieldHeading::PlainText,
    }
}

/// Where a snippet of shared configuration was opened from.
#[derive(Debug, Clone, Copy, PartialEq, Eq, Structural)]
pub enum SnippetSource {
    /// The form of a provider.
    ProviderForm,
    /// Anywhere else.
    Elsewhere,
}

/// What a key does in the editor.
#[derive(Debug, Clone, Copy, PartialEq, Eq, Structural)]
pub enum EditorKey {
    Move,
    ExternalEditor,
    Format,
    Extract,
    Save,
    Close,
}

/// The key that does something in the editor.
pub open spec fn key_name(key: EditorKey) -> Seq<char> {
    match key {
        EditorKey::Move => "↑↓←→"@,
        EditorKey::ExternalEditor => "Ctrl+O"@,
        EditorKey::Format => "F2"@,
        EditorKey::Extract => "F4"@,
        EditorKey::Save => "Ctrl+S"@,
        EditorKey::Close => "Esc"@,
    }
}

impl EditorKey {
    /// The key that does it.
    pub fn name(self) -> (r: &'static str)
        ensures
            r@ == key_name(self),
    {
        match self {
            EditorKey::Move => "↑↓←→",
            EditorKey::ExternalEditor => "Ctrl+O",
            EditorKey::Format => "F2",
            EditorKey::Extract => "F4",
            EditorKey::Save => "Ctrl+S",
            EditorKey::Close => "Esc",
        }
    }
}

/// The keys that are shown above the text: a snippet of shared configuration can be
/// formatted too, and one that was opened from the form of a provider extracted.
pub open spec fn editor_keys(snippet: Option<SnippetSource>) -> Seq<EditorKey> {
    match snippet {
        None => seq![
            EditorKey::Move,
            EditorKey::ExternalEditor,
            EditorKey::Save,
            EditorKey::Close,
        ],
        Some(SnippetSource::Elsewhere) => seq![
            EditorKey::Move,
            EditorKey::ExternalEditor,
            EditorKey::Format,
            EditorKey::Save,
            EditorKey::Close,
        ],
        Some(SnippetSource::ProviderForm) => seq![
            EditorKey::Move,
            EditorKey::ExternalEditor,
            EditorKey::Format,
            EditorKey::Extract,
            EditorKey::Save,
            EditorKey::Close,
        ],
    }
}

/// The pieces of lines, one after the other.
pub open spec fn flat(lines: Seq<Seq<Seq<char>>>) -> Seq<Seq<char>>
    decreases lines.len(),
{
    if lines.len() == 0 {
        seq![]
    } else {
        flat(lines.drop_last()) + lines.last()
    }
}

/// The models of the pieces of lines.
pub open spec fn wrapped_views(wrapped: Seq<Vec<String>>) -> Seq<Seq<Seq<char>>> {
    Seq::new(wrapped.len(), |i: int| text::views(wrapped[i]@))
}

/// The line at the top, where the text is scrolled so far down.
pub open spec fn first_line(scroll: int, lines: int) -> int {
    if lines == 0 {
        0
    } else if scroll < lines {
        scroll
    } else {
        lines - 1
    }
}

/// The first `height` of a sequence.
pub open spec fn at_most(pieces: Seq<Seq<char>>, height: int) -> Seq<Seq<char>> {
    if pieces.len() <= height {
        pieces
    } else {
        pieces.take(height)
    }
}

/// What is shown of a text whose lines have been wrapped.
pub open spec fn visible(wrapped: Seq<Seq<Seq<char>>>, scroll: int, height: int) -> Seq<Seq<char>> {
    at_most(flat(wrapped.skip(first_line(scroll, wrapped.len() as int))), height)
}

/// What is shown of a text whose lines have been wrapped: the pieces from the line at
/// the top on, as many as there is room for.
pub fn visible_pieces(wrapped: &Vec<Vec<String>>, scroll: usize, height: usize) -> (r: Vec<String>)
    ensures
        text::views(r@) == visible(wrapped_views(wrapped@), scroll as int, height as int),
{
    let total: usize = wrapped.len();
    let start: usize = if total == 0 {
        0
    } else if scroll < total {
        scroll
    } else {
        total - 1
    };
    let ghost rest = wrapped_views(wrapped@).skip(start as int);
    let mut r: Vec<String> = Vec::new();
    assert(text::views(r@) =~= at_most(flat(rest.take(0)), height as int));
    let mut i: usize = start;
    while i < total
        invariant
            start <= i <= total == wrapped@.len(),
            rest == wrapped_views(wrapped@).skip(start as int),
            text::views(r@) == at_most(flat(rest.take(i - start)), height as int),
        decreases total - i,
    {
        let ghost before = flat(rest.take(i - start));
        let ghost line = rest[i - start];
        assert(line == text::views(wrapped@[i as int]@));
        assert(rest.take(i - start + 1).drop_last() =~= rest.take(i - start));
        let mut j: usize = 0;
        assert(before + line.take(0) =~= before);
        while j < wrapped[i].len()
            invariant
                i < wrapped@.len(),
                j <= wrapped@[i as int]@.len(),
                line == text::views(wrapped@[i as int]@),
                text::views(r@) == at_most(before + line.take(j as int), height as int),
            decreases wrapped@[i as int]@.len() - j,
        {
            assert(line.take(j + 1) =~= line.take(j as int).push(line[j as int]));
            assert(before + line.take(j + 1) =~= (before + line.take(j as int)).push(
                line[j as int],
            ));
            assert(text::views(r@).len() == r@.len());
            if r.len() < height {
                let ghost shown = r@;
                r.push(wrapped[i][j].clone());
                assert(text::views(r@) =~= text::views(shown).push(line[j as int]));
            } else {
                assert(at_most(before + line.take(j + 1), height as int) =~= at_most(
                    before + line.take(j as int),
                    height as int,
                ));
            }
            j = j + 1;
        }
        assert(line.take(j as int) =~= line);
        i = i + 1;
    }
    assert(rest.take(i - start) =~= rest);
    r
}

/// Where the cursor is, if it can be seen: at most in the last column.
pub open spec fn cursor(x: int, y: int, width: int, height: int, row: int, column: int) -> Option<
    (int, int),
> {
    if row >= height {
        None
    } else if width > 0 && column > width - 1 {
        Some((x + width - 1, y + row))
    } else if width == 0 {
        Some((x, y + row))
    } else {
        Some((x + column, y + row))
    }
}

/// Where the cursor is, if it can be seen; the text is shown in `width` columns and
/// `height` rows from the column `x` and the row `y` on, and the cursor is at the row
/// `row` and the column `column` of what is shown.
pub fn cursor_cell(x: u16, y: u16, width: u16, height: u16, row: usize, column: u16) -> (r: Option<
    (u16, u16),
>)
    requires
        x + width <= u16::MAX,
        y + height <= u16::MAX,
    ensures
        match cursor(x as int, y as int, width as int, height as int, row as int, column as int) {
            Some((at, on)) => r == Some((at as u16, on as u16)),
            None => r is None,
        },
{
    if row >= height as usize {
        return None;
    }
    let last: u16 = if width == 0 {
        0
    } else {
        width - 1
    };
    let ahead: u16 = if column < last {
        column
    } else {
        last
    };
    Some((x + ahead, y + row as u16))
}

/// The editor as it is shown.
#[derive(Debug)]
pub struct EditorScreen {
    pub title: String,
    pub heading: FieldHeading,
    pub keys: Vec<EditorKey>,
    pub pieces: Vec<String>,
    pub cursor: Option<(u16, u16)>,
}

/// The room that the text is shown in, and where the cursor is in it.
#[derive(Debug, Clone, Copy)]
pub struct EditorArea {
    pub x: u16,
    pub y: u16,
    pub width: u16,
    pub height: u16,
    pub cursor_row: usize,
    pub cursor_column: u16,
}

impl EditorArea {
    /// The room lies on a screen.
    pub open spec fn fits(self) -> bool {
        &&& self.x + self.width <= u16::MAX
        &&& self.y + self.height <= u16::MAX
    }
}

/// The editor as it is shown; the lines of the text have been wrapped.
pub fn render_editor(
    title: &str,
    kind: EditorKind,
    snippet: Option<SnippetSource>,
    wrapped: &Vec<Vec<String>>,
    scroll: usize,
    area: EditorArea,
) -> (r: EditorScreen)
    requires
        area.fits(),
    ensures
        r.title@ == " "@ + title@ + " "@,
        r.heading == heading_of(kind),
        r.keys@ == editor_keys(snippet),
        text::views(r.pieces@) == visible(
            wrapped_views(wrapped@),
            scroll as int,
            area.height as int,
        ),
        match cursor(
            area.x as int,
            area.y as int,
            area.width as int,
            area.height as int,
            area.cursor_row as int,
            area.cursor_column as int,
        ) {
            Some((at, on)) => r.cursor == Some((at as u16, on as u16)),
            None => r.cursor is None,
        },
{
    let mut keys: Vec<EditorKey> = Vec::new();
    keys.push(EditorKey::Move);
    keys.push(EditorKey::ExternalEditor);
    if let Some(source) = snippet {
        keys.push(EditorKey::Format);
        if source == SnippetSource::ProviderForm {
            keys.push(EditorKey::Extract);
        }
    }
    keys.push(EditorKey::Save);
    keys.push(EditorKey::Close);
    assert(keys@ =~= editor_keys(snippet));
    EditorScreen {
        title: text::concat3(" ", title, " "),
        heading: field_heading(kind),
        keys,
        pieces: visible_pieces(wrapped, scroll, area.height as usize),
        cursor: cursor_cell(
            area.x,
            area.y,
            area.width,
            area.height,
            area.cursor_row,
            area.cursor_column,
        ),
    }
}

/// The cursor is never shown outside of the room that the text is shown in, if there
/// is any.
pub proof fn law_the_cursor_stays_inside(
    x: int,
    y: int,
    width: int,
    height: int,
    row: int,
    column: int,
)
    requires
        0 < width,
        0 <= row,
        0 <= column,
        cursor(x, y, width, height, row, column) is Some,
    ensures
        ({
            let (at, on) = cursor(x, y, width, height, row, column)->Some_0;
            x <= at < x + width && y <= on < y + height
        }),
{
}

} // verus!
