//! What is shown of the files in the workspace of OpenClaw, and of its daily notes.

use vstd::prelude::*;
use vstd::string::*;
use crate::cli::commands::config_openclaw::show;
use crate::cli::commands::report;
use crate::cli::commands::report::{LineStyle, Report};
#[allow(unused_imports)]
use crate::cli::commands::report::ReportLineView;
use crate::text;

verus! {

/// A file that belongs into the workspace, and whether it is there.
#[derive(Debug)]
pub struct WorkspaceFileInfo {
    pub filename: String,
    pub exists: bool,
}

/// A file of daily notes.
#[derive(Debug)]
pub struct DailyMemoryFileInfo {
    pub filename: String,
    pub date: String,
    pub size_bytes: u64,
    pub preview: String,
}

/// A file of daily notes in which something was found.
#[derive(Debug)]
pub struct DailyMemorySearchResult {
    pub filename: String,
    pub match_count: u64,
    pub snippet: String,
}

/// A table.
#[derive(Debug)]
pub struct Table {
    pub header: Vec<String>,
    pub rows: Vec<Vec<String>>,
}

/// The model of [`Table`].
pub struct TableView {
    pub header: Seq<Seq<char>>,
    pub rows: Seq<Seq<Seq<char>>>,
}

/// The models of rows.
pub open spec fn row_views(rows: Seq<Vec<String>>) -> Seq<Seq<Seq<char>>> {
    Seq::new(rows.len(), |i: int| text::views(rows[i]@))
}

impl View for Table {
    type V = TableView;

    open spec fn view(&self) -> TableView {
        TableView { header: text::views(self.header@), rows: row_views(self.rows@) }
    }
}

/// What is shown.
#[derive(Debug)]
pub enum Listing {
    /// All that is known, as JSON.
    Json,
    Lines(Report),
    Table(Table),
    /// A text just as it is.
    Content(String),
}

/// The model of [`Listing`].
pub enum ListingView {
    Json,
    Lines(Seq<ReportLineView>),
    Table(TableView),
    Content(Seq<char>),
}

impl View for Listing {
    type V = ListingView;

    open spec fn view(&self) -> ListingView {
        match *self {
            Listing::Json => ListingView::Json,
            Listing::Lines(report) => ListingView::Lines(report@),
            Listing::Table(table) => ListingView::Table(table@),
            Listing::Content(content) => ListingView::Content(content@),
        }
    }
}

/// A single line.
pub open spec fn one_line(style: LineStyle, text: Seq<char>) -> ListingView {
    ListingView::Lines(seq![report::line(style, text)])
}

/// A single line.
fn single_line(style: LineStyle, line: &str) -> (r: Listing)
    ensures
        r@ == one_line(style, line@),
{
    let mut report = Report::new();
    report.push(style, line.to_owned());
    assert(report@ =~= seq![report::line(style, line@)]);
    Listing::Lines(report)
}

/// Adds a row.
fn push_row(rows: &mut Vec<Vec<String>>, row: Vec<String>)
    ensures
        row_views(final(rows)@) == row_views(old(rows)@).push(text::views(row@)),
{
    let ghost before = rows@;
    rows.push(row);
    assert(row_views(rows@) =~= row_views(before).push(text::views(row@)));
}

/// Two texts.
fn pair(a: &str, b: &str) -> (r: Vec<String>)
    ensures
        text::views(r@) == seq![a@, b@],
{
    let mut r: Vec<String> = Vec::new();
    r.push(a.to_owned());
    r.push(b.to_owned());
    assert(text::views(r@) =~= seq![a@, b@]);
    r
}

/// Three texts.
fn triple(a: &str, b: &str, c: &str) -> (r: Vec<String>)
    ensures
        text::views(r@) == seq![a@, b@, c@],
{
    let mut r = pair(a, b);
    let ghost before = text::views(r@);
    r.push(c.to_owned());
    assert(text::views(r@) =~= before.push(c@));
    assert(text::views(r@) =~= seq![a@, b@, c@]);
    r
}

/// Four texts.
fn quadruple(a: &str, b: &str, c: &str, d: &str) -> (r: Vec<String>)
    ensures
        text::views(r@) == seq![a@, b@, c@, d@],
{
    let mut r = triple(a, b, c);
    let ghost before = text::views(r@);
    r.push(d.to_owned());
    assert(text::views(r@) =~= before.push(d@));
    assert(text::views(r@) =~= seq![a@, b@, c@, d@]);
    r
}

/// The row of a file in the workspace.
pub open spec fn workspace_row(file: WorkspaceFileInfo) -> Seq<Seq<char>> {
    seq![file.filename@, show::yes_no(file.exists)]
}

/// The rows of files in the workspace.
pub open spec fn workspace_rows(files: Seq<WorkspaceFileInfo>) -> Seq<Seq<Seq<char>>> {
    Seq::new(files.len(), |i: int| workspace_row(files[i]))
}

/// The files that belong into the workspace, and whether they are there.
pub fn list_workspace(files: &Vec<WorkspaceFileInfo>, json: bool) -> (r: Listing)
    ensures
        r@ == (if json {
            ListingView::Json
        } else {
            ListingView::Table(
                TableView { header: seq!["File"@, "Exists"@], rows: workspace_rows(files@) },
            )
        }),
{
    if json {
        return Listing::Json;
    }
    let ghost all = workspace_rows(files@);
    let mut rows: Vec<Vec<String>> = Vec::new();
    let mut i: usize = 0;
    assert(row_views(rows@) =~= all.take(0));
    while i < files.len()
        invariant
            i <= files@.len() == all.len(),
            all == workspace_rows(files@),
            row_views(rows@) == all.take(i as int),
        decreases files@.len() - i,
    {
        assert(all.take(i + 1) =~= all.take(i as int).push(all[i as int]));
        push_row(
            &mut rows,
            pair(files[i].filename.as_str(), show::yes_or_no(files[i].exists)),
        );
        i = i + 1;
    }
    assert(all.take(i as int) =~= all);
    Listing::Table(Table { header: pair("File", "Exists"), rows })
}

/// Whether a file is in the workspace.
pub fn workspace_exists(exists: bool, json: bool) -> (r: Listing)
    ensures
        r@ == (if json {
            ListingView::Json
        } else {
            one_line(LineStyle::Plain, show::yes_no(exists))
        }),
{
    if json {
        Listing::Json
    } else {
        single_line(LineStyle::Plain, show::yes_or_no(exists))
    }
}

/// A file in the workspace.
pub fn show_workspace_file(content: Option<String>) -> (r: Listing)
    ensures
        r@ == (match content {
            Some(content) => ListingView::Content(content@),
            None => one_line(LineStyle::Info, "Workspace file does not exist."@),
        }),
{
    match content {
        Some(content) => Listing::Content(content),
        None => single_line(LineStyle::Info, "Workspace file does not exist."),
    }
}

/// A file of daily notes.
pub fn show_memory_file(content: Option<String>) -> (r: Listing)
    ensures
        r@ == (match content {
            Some(content) => ListingView::Content(content@),
            None => one_line(LineStyle::Info, "Daily memory file does not exist."@),
        }),
{
    match content {
        Some(content) => Listing::Content(content),
        None => single_line(LineStyle::Info, "Daily memory file does not exist."),
    }
}

/// The row of a file of daily notes.
pub open spec fn memory_row(file: DailyMemoryFileInfo) -> Seq<Seq<char>> {
    seq![file.filename@, file.date@, text::decimal(file.size_bytes as nat), file.preview@]
}

/// The rows of files of daily notes.
pub open spec fn memory_rows(files: Seq<DailyMemoryFileInfo>) -> Seq<Seq<Seq<char>>> {
    Seq::new(files.len(), |i: int| memory_row(files[i]))
}

/// The files of daily notes.
pub fn list_memory(files: &Vec<DailyMemoryFileInfo>, json: bool) -> (r: Listing)
    ensures
        r@ == (if json {
            ListingView::Json
        } else if files@.len() == 0 {
            one_line(LineStyle::Info, "No daily memory files found."@)
        } else {
            ListingView::Table(
                TableView {
                    header: seq!["File"@, "Date"@, "Size"@, "Preview"@],
                    rows: memory_rows(files@),
                },
            )
        }),
{
    if json {
        return Listing::Json;
    }
    if files.len() == 0 {
        return single_line(LineStyle::Info, "No daily memory files found.");
    }
    let ghost all = memory_rows(files@);
    let mut rows: Vec<Vec<String>> = Vec::new();
    let mut i: usize = 0;
    assert(row_views(rows@) =~= all.take(0));
    while i < files.len()
        invariant
            i <= files@.len() == all.len(),
            all == memory_rows(files@),
            row_views(rows@) == all.take(i as int),
        decreases files@.len() - i,
    {
        let file = &files[i];
        assert(all.take(i + 1) =~= all.take(i as int).push(all[i as int]));
        push_row(
            &mut rows,
            quadruple(
                file.filename.as_str(),
                file.date.as_str(),
                text::number_text(file.size_bytes).as_str(),
                file.preview.as_str(),
            ),
        );
        i = i + 1;
    }
    assert(all.take(i as int) =~= all);
    Listing::Table(Table { header: quadruple("File", "Date", "Size", "Preview"), rows })
}

/// The row of a file of daily notes in which something was found.
pub open spec fn search_row(found: DailyMemorySearchResult) -> Seq<Seq<char>> {
    seq![found.filename@, text::decimal(found.match_count as nat), found.snippet@]
}

/// The rows of files of daily notes in which something was found.
pub open spec fn search_rows(found: Seq<DailyMemorySearchResult>) -> Seq<Seq<Seq<char>>> {
    Seq::new(found.len(), |i: int| search_row(found[i]))
}

/// The files of daily notes in which something was found.
pub fn search_memory(found: &Vec<DailyMemorySearchResult>, json: bool) -> (r: Listing)
    ensures
        r@ == (if json {
            ListingView::Json
        } else if found@.len() == 0 {
            one_line(LineStyle::Info, "No daily memory matches found."@)
        } else {
            ListingView::Table(
                TableView {
                    header: seq!["File"@, "Matches"@, "Snippet"@],
                    rows: search_rows(found@),
                },
            )
        }),
{
    if json {
        return Listing::Json;
    }
    if found.len() == 0 {
        return single_line(LineStyle::Info, "No daily memory matches found.");
    }
    let ghost all = search_rows(found@);
    let mut rows: Vec<Vec<String>> = Vec::new();
    let mut i: usize = 0;
    assert(row_views(rows@) =~= all.take(0));
    while i < found.len()
        invariant
            i <= found@.len() == all.len(),
            all == search_rows(found@),
            row_views(rows@) == all.take(i as int),
        decreases found@.len() - i,
    {
        let one = &found[i];
        assert(all.take(i + 1) =~= all.take(i as int).push(all[i as int]));
        push_row(
            &mut rows,
            triple(
                one.filename.as_str(),
                text::number_text(one.match_count).as_str(),
                one.snippet.as_str(),
            ),
        );
        i = i + 1;
    }
    assert(all.take(i as int) =~= all);
    Listing::Table(Table { header: triple("File", "Matches", "Snippet"), rows })
}

/// A list of texts.
pub fn list_texts(label: &str, values: &Vec<String>, json: bool) -> (r: Listing)
    ensures
        r@ == (if json {
            ListingView::Json
        } else {
            ListingView::Lines(report::string_list(label@, text::views(values@)))
        }),
{
    if json {
        return Listing::Json;
    }
    let mut report = Report::new();
    report.list(label, values);
    assert(report@ =~= report::string_list(label@, text::views(values@)));
    Listing::Lines(report)
}

} // verus!
