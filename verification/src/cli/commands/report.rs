//! What a command says: lines of text, and errors.

use vstd::prelude::*;
use vstd::string::*;
use crate::text;

verus! {

/// Why a command fails.
#[derive(Debug)]
pub enum CommandError {
    /// What was typed is not as it should be.
    InvalidInput(String),
    /// Anything else.
    Message(String),
}

/// The model of [`CommandError`].
pub enum CommandErrorView {
    InvalidInput(Seq<char>),
    Message(Seq<char>),
}

impl View for CommandError {
    type V = CommandErrorView;

    open spec fn view(&self) -> CommandErrorView {
        match *self {
            CommandError::InvalidInput(message) => CommandErrorView::InvalidInput(message@),
            CommandError::Message(message) => CommandErrorView::Message(message@),
        }
    }
}

/// How a line is set off.
#[derive(Debug, Clone, Copy, PartialEq, Eq, Structural)]
pub enum LineStyle {
    Plain,
    Highlight,
    Success,
    Info,
    Warning,
    Error,
}

/// A line of text.
#[derive(Debug)]
pub struct ReportLine {
    pub style: LineStyle,
    pub text: String,
}

/// The model of [`ReportLine`].
pub struct ReportLineView {
    pub style: LineStyle,
    pub text: Seq<char>,
}

impl View for ReportLine {
    type V = ReportLineView;

    open spec fn view(&self) -> ReportLineView {
        ReportLineView { style: self.style, text: self.text@ }
    }
}

/// The models of lines.
pub open spec fn report_views(lines: Seq<ReportLine>) -> Seq<ReportLineView> {
    Seq::new(lines.len(), |i: int| lines[i]@)
}

/// A line.
pub open spec fn line(style: LineStyle, text: Seq<char>) -> ReportLineView {
    ReportLineView { style, text }
}

/// Lines of text.
#[derive(Debug)]
pub struct Report {
    pub lines: Vec<ReportLine>,
}

impl View for Report {
    type V = Seq<ReportLineView>;

    open spec fn view(&self) -> Seq<ReportLineView> {
        report_views(self.lines@)
    }
}

impl Report {
    /// No lines.
    pub fn new() -> (r: Report)
        ensures
            r@ == Seq::<ReportLineView>::empty(),
    {
        let r = Report { lines: Vec::new() };
        assert(r@ =~= Seq::<ReportLineView>::empty());
        r
    }

    /// Adds a line.
    pub fn push(&mut self, style: LineStyle, text: String)
        ensures
            final(self)@ == old(self)@.push(line(style, text@)),
    {
        let ghost before = self.lines@;
        self.lines.push(ReportLine { style, text });
        assert(report_views(self.lines@) =~= report_views(before).push(line(style, text@)));
    }

    /// Adds a line that is not set off.
    pub fn plain(&mut self, text: &str)
        ensures
            final(self)@ == old(self)@.push(line(LineStyle::Plain, text@)),
    {
        self.push(LineStyle::Plain, text.to_owned());
    }

    /// Adds a title and the rule below it.
    pub fn title(&mut self, text: &str)
        ensures
            final(self)@ == old(self)@ + title(text@),
    {
        self.push(LineStyle::Highlight, text.to_owned());
        self.plain("==================================================");
        assert(self@ =~= old(self)@ + title(text@));
    }

    /// Adds what stands behind a label.
    pub fn labelled(&mut self, label: &str, value: &str)
        ensures
            final(self)@ == old(self)@.push(line(LineStyle::Plain, label@ + value@)),
    {
        self.push(LineStyle::Plain, text::concat2(label, value));
    }

    /// Adds a list below a label.
    pub fn list(&mut self, label: &str, values: &Vec<String>)
        ensures
            final(self)@ == old(self)@ + string_list(label@, text::views(values@)),
    {
        let ghost start = self@;
        let ghost all = text::views(values@);
        if values.len() == 0 {
            self.labelled(label, ": N/A");
            assert(self@ =~= start + string_list(label@, all));
            return;
        }
        self.labelled(label, ":");
        let ghost head = start.push(line(LineStyle::Plain, label@ + ":"@));
        let mut i: usize = 0;
        assert(self@ =~= head + list_items(all.take(0)));
        while i < values.len()
            invariant
                i <= values@.len(),
                all == text::views(values@),
                self@ == head + list_items(all.take(i as int)),
            decreases values@.len() - i,
        {
            assert(all[i as int] == values@[i as int]@);
            assert(all.take(i + 1) =~= all.take(i as int).push(all[i as int]));
            self.labelled("  - ", values[i].as_str());
            assert(list_items(all.take(i + 1)) =~= list_items(all.take(i as int)).push(
                line(LineStyle::Plain, "  - "@ + all[i as int]),
            ));
            assert(self@ =~= head + list_items(all.take(i + 1)));
            i = i + 1;
        }
        assert(all.take(i as int) =~= all);
        assert(self@ =~= start + string_list(label@, all));
    }
}

/// A title and the rule below it.
pub open spec fn title(text: Seq<char>) -> Seq<ReportLineView> {
    seq![
        line(LineStyle::Highlight, text),
        line(LineStyle::Plain, "=================================================="@),
    ]
}

/// The items of a list.
pub open spec fn list_items(values: Seq<Seq<char>>) -> Seq<ReportLineView> {
    values.map_values(|value: Seq<char>| line(LineStyle::Plain, "  - "@ + value))
}

/// A list below a label.
pub open spec fn string_list(label: Seq<char>, values: Seq<Seq<char>>) -> Seq<ReportLineView> {
    if values.len() == 0 {
        seq![line(LineStyle::Plain, label + ": N/A"@)]
    } else {
        seq![line(LineStyle::Plain, label + ":"@)] + list_items(values)
    }
}

/// A value, or a mark in its place where there is none.
pub open spec fn or_na(value: Option<Seq<char>>) -> Seq<char> {
    match value {
        Some(value) => value,
        None => "N/A"@,
    }
}

/// A value, or a mark in its place where there is none.
pub fn value_or_na(value: &Option<String>) -> (r: &str)
    ensures
        r@ == or_na(text::option_view(*value)),
{
    match value {
        Some(value) => value.as_str(),
        None => "N/A",
    }
}

/// A value, or a mark in its place where it is blank.
pub fn blank_as_na<'a>(value: &'a str) -> (r: &'a str)
    ensures
        r@ == (if text::is_blank(value@) {
            "N/A"@
        } else {
            value@
        }),
{
    if text::blank(value) {
        "N/A"
    } else {
        value
    }
}

/// What is said of a value that should not be blank.
pub open spec fn empty_message(label: Seq<char>) -> Seq<char> {
    label + " cannot be empty."@
}

/// A value without white space around it, which must not be empty.
pub fn non_empty<'a>(label: &str, value: &'a str) -> (r: Result<&'a str, CommandError>)
    ensures
        match r {
            Ok(trimmed) => !text::is_blank(value@) && trimmed@ == text::trim(value@),
            Err(error) => text::is_blank(value@) && error@ == CommandErrorView::InvalidInput(
                empty_message(label@),
            ),
        },
{
    if text::blank(value) {
        Err(CommandError::InvalidInput(text::concat2(label, " cannot be empty.")))
    } else {
        Ok(text::trimmed(value))
    }
}

/// The language in which something is said.
#[derive(Debug, Clone, Copy, PartialEq, Eq, Structural)]
pub enum Language {
    English,
    Chinese,
}

/// One of two texts.
pub open spec fn said(language: Language, english: Seq<char>, chinese: Seq<char>) -> Seq<char> {
    match language {
        Language::English => english,
        Language::Chinese => chinese,
    }
}

/// One of two texts.
pub fn say(language: Language, english: &'static str, chinese: &'static str) -> (r: &'static str)
    ensures
        r@ == said(language, english@, chinese@),
{
    match language {
        Language::English => english,
        Language::Chinese => chinese,
    }
}

} // verus!
