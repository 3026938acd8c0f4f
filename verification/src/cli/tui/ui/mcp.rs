//! The list of MCP servers.

use vstd::prelude::*;
use vstd::string::*;
use crate::app_type::{AppType, EnabledApps};
use crate::text;

verus! {

/// An MCP server in the list.
#[derive(Debug)]
pub struct McpRow {
    pub id: String,
    pub name: String,
    pub apps: EnabledApps,
}

/// The model of [`McpRow`].
pub struct McpRowView {
    pub id: Seq<char>,
    pub name: Seq<char>,
    pub apps: EnabledApps,
}

impl View for McpRow {
    type V = McpRowView;

    open spec fn view(&self) -> McpRowView {
        McpRowView { id: self.id@, name: self.name@, apps: self.apps }
    }
}

/// The models of rows.
pub open spec fn row_views(rows: Seq<McpRow>) -> Seq<McpRowView> {
    Seq::new(rows.len(), |i: int| rows[i]@)
}

/// Where the first server `id`, from `from` on, is enabled.
pub open spec fn apps_of(rows: Seq<McpRowView>, id: Seq<char>, from: int) -> Option<EnabledApps>
    decreases rows.len() - from,
{
    if from < 0 || from >= rows.len() {
        None
    } else if rows[from].id == id {
        Some(rows[from].apps)
    } else {
        apps_of(rows, id, from + 1)
    }
}

/// Where the server `id` is enabled.
pub fn find_apps(rows: &Vec<McpRow>, id: &str) -> (r: Option<EnabledApps>)
    ensures
        r == apps_of(row_views(rows@), id@, 0),
{
    let ghost views = row_views(rows@);
    let mut i: usize = 0;
    while i < rows.len()
        invariant
            i <= rows@.len(),
            views == row_views(rows@),
            apps_of(views, id@, 0) == apps_of(views, id@, i as int),
        decreases rows@.len() - i,
    {
        assert(views[i as int] == rows@[i as int]@);
        if text::same_text(rows[i].id.as_str(), id) {
            return Some(rows[i].apps);
        }
        i = i + 1;
    }
    None
}

/// Whether a row is shown while a search is on.
pub open spec fn row_matches(row: McpRowView, query: Option<Seq<char>>) -> bool {
    match query {
        None => true,
        Some(part) => {
            ||| text::contains(text::lowercase(row.name), part)
            ||| text::contains(text::lowercase(row.id), part)
        },
    }
}

/// The rows, of the first `n`, that are shown.
pub open spec fn shown(rows: Seq<McpRowView>, query: Option<Seq<char>>, n: int) -> Seq<int>
    decreases n,
{
    if n <= 0 || n > rows.len() {
        seq![]
    } else if row_matches(rows[n - 1], query) {
        shown(rows, query, n - 1).push(n - 1)
    } else {
        shown(rows, query, n - 1)
    }
}

/// The numbers that indices stand for.
pub open spec fn index_views(indices: Seq<usize>) -> Seq<int> {
    Seq::new(indices.len(), |i: int| indices[i] as int)
}

/// The rows whose name or identifier holds what is searched for, which is in small
/// letters; all of them without a search.
pub fn mcp_rows_filtered(rows: &Vec<McpRow>, query: &Option<String>) -> (r: Vec<usize>)
    ensures
        index_views(r@) == shown(
            row_views(rows@),
            text::option_view(*query),
            rows@.len() as int,
        ),
        forall|i: int| 0 <= i < r@.len() ==> #[trigger] r@[i] < rows@.len(),
{
    let ghost views = row_views(rows@);
    let mut r: Vec<usize> = Vec::new();
    let mut i: usize = 0;
    while i < rows.len()
        invariant
            i <= rows@.len(),
            views == row_views(rows@),
            index_views(r@) == shown(views, text::option_view(*query), i as int),
            forall|k: int| 0 <= k < r@.len() ==> #[trigger] r@[k] < i,
        decreases rows@.len() - i,
    {
        assert(views[i as int] == rows@[i as int]@);
        let matches = match query {
            None => true,
            Some(part) => {
                text::has_part(rows[i].name.to_lowercase().as_str(), part.as_str())
                    || text::has_part(rows[i].id.to_lowercase().as_str(), part.as_str())
            },
        };
        if matches {
            let ghost before = r@;
            r.push(i);
            assert(index_views(r@) =~= index_views(before).push(i as int));
        }
        i = i + 1;
    }
    r
}

/// How many of the first `n` servers are enabled for an application.
pub open spec fn enabled_for(rows: Seq<McpRowView>, app: AppType, n: int) -> nat
    decreases n,
{
    if n <= 0 || n > rows.len() {
        0
    } else {
        enabled_for(rows, app, n - 1) + (if rows[n - 1].apps.has(app) {
            1nat
        } else {
            0nat
        })
    }
}

/// How many servers are enabled for an application.
pub fn mcp_server_count(rows: &Vec<McpRow>, app: AppType) -> (r: usize)
    ensures
        r == enabled_for(row_views(rows@), app, rows@.len() as int),
{
    let ghost views = row_views(rows@);
    let mut r: usize = 0;
    let mut i: usize = 0;
    while i < rows.len()
        invariant
            r <= i <= rows@.len(),
            views == row_views(rows@),
            r == enabled_for(views, app, i as int),
        decreases rows@.len() - i,
    {
        assert(views[i as int] == rows@[i as int]@);
        if rows[i].apps.is_enabled_for(app) {
            r = r + 1;
        }
        i = i + 1;
    }
    r
}

/// What a key does in the list.
#[derive(Debug, Clone, Copy, PartialEq, Eq, Structural)]
pub enum McpKey {
    Toggle,
    Apps,
    Add,
    Edit,
    ImportExisting,
    Delete,
}

/// The key that does something in the list.
pub open spec fn key_name(key: McpKey) -> Seq<char> {
    match key {
        McpKey::Toggle => "Space"@,
        McpKey::Apps => "m"@,
        McpKey::Add => "a"@,
        McpKey::Edit => "e"@,
        McpKey::ImportExisting => "i"@,
        McpKey::Delete => "d"@,
    }
}

impl McpKey {
    /// The key that does it.
    pub fn name(self) -> (r: &'static str)
        ensures
            r@ == key_name(self),
    {
        match self {
            McpKey::Toggle => "Space",
            McpKey::Apps => "m",
            McpKey::Add => "a",
            McpKey::Edit => "e",
            McpKey::ImportExisting => "i",
            McpKey::Delete => "d",
        }
    }
}

/// The keys that are shown above the list.
pub open spec fn list_keys(focused: bool) -> Seq<McpKey> {
    if focused {
        seq![
            McpKey::Toggle,
            McpKey::Apps,
            McpKey::Add,
            McpKey::Edit,
            McpKey::ImportExisting,
            McpKey::Delete,
        ]
    } else {
        seq![]
    }
}

/// A row of the table: a name, and the applications that the server is enabled for.
#[derive(Debug)]
pub struct McpTableRow {
    pub name: String,
    pub apps: EnabledApps,
}

/// The list of MCP servers as it is shown.
#[derive(Debug)]
pub struct McpScreen {
    pub keys: Vec<McpKey>,
    /// How many servers are enabled for each application, shown or not, in the order of
    /// the columns.
    pub counts: [usize; 5],
    pub table: Vec<McpTableRow>,
    pub selected: usize,
}

/// The list of MCP servers as it is shown.
pub fn render_mcp(rows: &Vec<McpRow>, query: &Option<String>, focused: bool, selected: usize) -> (r:
    McpScreen)
    ensures
        r.keys@ == list_keys(focused),
        r.selected == selected,
        r.counts@[0] == enabled_for(row_views(rows@), AppType::Claude, rows@.len() as int),
        r.counts@[1] == enabled_for(row_views(rows@), AppType::Codex, rows@.len() as int),
        r.counts@[2] == enabled_for(row_views(rows@), AppType::Gemini, rows@.len() as int),
        r.counts@[3] == enabled_for(row_views(rows@), AppType::OpenCode, rows@.len() as int),
        r.counts@[4] == enabled_for(row_views(rows@), AppType::Hermes, rows@.len() as int),
        ({
            let views = row_views(rows@);
            let visible = shown(views, text::option_view(*query), rows@.len() as int);
            &&& r.table@.len() == visible.len()
            &&& forall|i: int|
                0 <= i < visible.len() ==> {
                    &&& (#[trigger] r.table@[i]).name@ == views[visible[i]].name
                    &&& r.table@[i].apps == views[visible[i]].apps
                }
        }),
{
    let visible = mcp_rows_filtered(rows, query);
    let ghost views = row_views(rows@);
    let ghost places = shown(views, text::option_view(*query), rows@.len() as int);
    let mut table: Vec<McpTableRow> = Vec::new();
    let mut i: usize = 0;
    while i < visible.len()
        invariant
            i <= visible@.len(),
            views == row_views(rows@),
            index_views(visible@) == places,
            forall|k: int| 0 <= k < visible@.len() ==> #[trigger] visible@[k] < rows@.len(),
            table@.len() == i,
            forall|k: int|
                0 <= k < i ==> {
                    &&& (#[trigger] table@[k]).name@ == views[places[k]].name
                    &&& table@[k].apps == views[places[k]].apps
                },
        decreases visible@.len() - i,
    {
        let row = &rows[visible[i]];
        assert(places[i as int] == index_views(visible@)[i as int]);
        assert(views[places[i as int]] == rows@[visible@[i as int] as int]@);
        table.push(McpTableRow { name: row.name.clone(), apps: row.apps });
        i = i + 1;
    }
    assert(index_views(visible@).len() == visible@.len());
    let mut keys: Vec<McpKey> = Vec::new();
    if focused {
        keys.push(McpKey::Toggle);
        keys.push(McpKey::Apps);
        keys.push(McpKey::Add);
        keys.push(McpKey::Edit);
        keys.push(McpKey::ImportExisting);
        keys.push(McpKey::Delete);
    }
    assert(keys@ =~= list_keys(focused));
    McpScreen {
        keys,
        counts: [
            mcp_server_count(rows, AppType::Claude),
            mcp_server_count(rows, AppType::Codex),
            mcp_server_count(rows, AppType::Gemini),
            mcp_server_count(rows, AppType::OpenCode),
            mcp_server_count(rows, AppType::Hermes),
        ],
        table,
        selected,
    }
}

} // verus!
