//! The text in the editor.

use vstd::prelude::*;
use vstd::string::*;
use crate::cli::tui::ui::editor::EditorKind;
use crate::text;

verus! {

/// The text in the editor, line by line, and the text that it was opened with.
#[derive(Debug)]
pub struct EditorState {
    pub title: String,
    pub kind: EditorKind,
    pub lines: Vec<String>,
    pub initial_text: String,
}

impl EditorState {
    /// The text.
    pub open spec fn content(&self) -> Seq<char> {
        text::join(text::views(self.lines@), seq!['\n'])
    }

    /// Opens the editor: the text is cut into lines at every line feed.
    pub fn new(title: &str, kind: EditorKind, initial: &str) -> (r: EditorState)
        ensures
            r.title@ == title@,
            r.kind == kind,
            text::views(r.lines@) == text::split_on(initial@, '\n'),
            r.content() == initial@,
            r.initial_text@ == initial@,
    {
        proof {
            text::lemma_join_of_pieces(initial@, '\n');
        }
        EditorState {
            title: title.to_owned(),
            kind,
            lines: text::pieces(initial, '\n'),
            initial_text: initial.to_owned(),
        }
    }

    /// The text.
    pub fn text(&self) -> (r: String)
        ensures
            r@ == self.content(),
    {
        proof {
            reveal_strlit("\n");
        }
        assert("\n"@ =~= seq!['\n']);
        text::joined(&self.lines, "\n")
    }

    /// Whether the text differs from the one that the editor was opened with.
    pub fn is_dirty(&self) -> (r: bool)
        ensures
            r == (self.content() != self.initial_text@),
    {
        !text::same_text(self.text().as_str(), self.initial_text.as_str())
    }

    /// Takes over what another editor made of the text, cut into lines at every line feed;
    /// where that failed, the text stays as it is.
    pub fn run_external_editor(&mut self, edited: Result<String, String>) -> (r: Result<(), String>)
        ensures
            final(self).title == old(self).title,
            final(self).kind == old(self).kind,
            final(self).initial_text == old(self).initial_text,
            match edited {
                Ok(after) => {
                    &&& r is Ok
                    &&& text::views(final(self).lines@) == text::split_on(after@, '\n')
                    &&& final(self).content() == after@
                },
                Err(error) => r == Result::<(), String>::Err(error) && final(self).lines == old(
                    self,
                ).lines,
            },
    {
        match edited {
            Ok(after) => {
                proof {
                    text::lemma_join_of_pieces(after@, '\n');
                }
                self.lines = text::pieces(after.as_str(), '\n');
                Ok(())
            },
            Err(error) => Err(error),
        }
    }
}

} // verus!
