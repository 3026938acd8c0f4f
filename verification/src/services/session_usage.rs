//! What the usage of all kinds of session logs has in common: the result of a
//! synchronisation, and the rows that it writes.

use vstd::prelude::*;
use vstd::string::*;
use crate::text;

verus! {

/// What a synchronisation came to.
#[derive(Debug)]
pub struct SessionSyncResult {
    pub imported: u32,
    pub skipped: u32,
    pub files_scanned: u32,
    pub suspected_duplicates: u32,
    pub deferred_files: u32,
    pub errors: Vec<String>,
}

/// How many rows are written between two commits.
pub const SESSION_LOG_COMMIT_BATCH: u32 = 500;

/// The model of [`SessionSyncResult`].
pub struct SyncResultView {
    pub imported: u32,
    pub skipped: u32,
    pub files_scanned: u32,
    pub suspected_duplicates: u32,
    pub deferred_files: u32,
    pub errors: Seq<Seq<char>>,
}

impl View for SessionSyncResult {
    type V = SyncResultView;

    open spec fn view(&self) -> SyncResultView {
        SyncResultView {
            imported: self.imported,
            skipped: self.skipped,
            files_scanned: self.files_scanned,
            suspected_duplicates: self.suspected_duplicates,
            deferred_files: self.deferred_files,
            errors: text::views(self.errors@),
        }
    }
}

/// The result of a synchronisation that found nothing in a number of files.
pub open spec fn nothing_found(files_scanned: u32) -> SyncResultView {
    SyncResultView {
        imported: 0,
        skipped: 0,
        files_scanned,
        suspected_duplicates: 0,
        deferred_files: 0,
        errors: Seq::empty(),
    }
}

impl SessionSyncResult {
    /// The result of a synchronisation that found nothing.
    pub fn empty(files_scanned: u32) -> (r: SessionSyncResult)
        ensures
            r@ == nothing_found(files_scanned),
    {
        let r = SessionSyncResult {
            imported: 0,
            skipped: 0,
            files_scanned,
            suspected_duplicates: 0,
            deferred_files: 0,
            errors: Vec::new(),
        };
        assert(text::views(r.errors@) =~= Seq::empty());
        r
    }

    /// Adds an error.
    pub fn push_error(&mut self, error: String)
        ensures
            final(self)@ == (SyncResultView {
                errors: old(self)@.errors.push(error@),
                ..old(self)@
            }),
    {
        let ghost before = text::views(self.errors@);
        self.errors.push(error);
        assert(text::views(self.errors@) =~= before.push(error@));
    }
}

/// The sum of two counts, or the largest count where the sum is larger.
pub open spec fn capped_sum(a: u32, b: u32) -> u32 {
    if a + b <= u32::MAX {
        (a + b) as u32
    } else {
        u32::MAX
    }
}

/// What a call cost, in US dollars.
#[derive(Debug)]
pub struct CostTexts {
    pub input: String,
    pub output: String,
    pub cache_read: String,
    pub cache_creation: String,
    pub total: String,
}

/// The model of [`CostTexts`].
pub struct CostView {
    pub input: Seq<char>,
    pub output: Seq<char>,
    pub cache_read: Seq<char>,
    pub cache_creation: Seq<char>,
    pub total: Seq<char>,
}

impl View for CostTexts {
    type V = CostView;

    open spec fn view(&self) -> CostView {
        CostView {
            input: self.input@,
            output: self.output@,
            cache_read: self.cache_read@,
            cache_creation: self.cache_creation@,
            total: self.total@,
        }
    }
}

impl CostTexts {
    /// The same once more.
    pub fn duplicate(&self) -> (r: CostTexts)
        ensures
            r@ == self@,
    {
        CostTexts {
            input: self.input.clone(),
            output: self.output.clone(),
            cache_read: self.cache_read.clone(),
            cache_creation: self.cache_creation.clone(),
            total: self.total.clone(),
        }
    }
}

/// The model of a cost that may be unknown.
pub open spec fn cost_view(costs: Option<CostTexts>) -> Option<CostView> {
    match costs {
        Some(costs) => Some(costs@),
        None => None,
    }
}

/// A cost that may be unknown, once more.
pub fn copy_costs(costs: &Option<CostTexts>) -> (r: Option<CostTexts>)
    ensures
        cost_view(r) == cost_view(*costs),
{
    match costs {
        Some(costs) => Some(costs.duplicate()),
        None => None,
    }
}

/// The cost of a call of which only the total is known.
pub open spec fn only_total(total: Seq<char>) -> CostView {
    CostView { input: "0"@, output: "0"@, cache_read: "0"@, cache_creation: "0"@, total }
}

/// The cost of a call of which only the total is known.
pub fn only_total_cost(total: &str) -> (r: CostTexts)
    ensures
        r@ == only_total(total@),
{
    CostTexts {
        input: "0".to_owned(),
        output: "0".to_owned(),
        cache_read: "0".to_owned(),
        cache_creation: "0".to_owned(),
        total: total.to_owned(),
    }
}

/// The tokens of a call, each kind counted apart.
#[derive(Debug, Clone, Copy, PartialEq, Eq, Structural)]
pub struct CallTokens {
    pub input: u32,
    pub output: u32,
    pub cache_read: u32,
    pub cache_creation: u32,
}

/// By what two records of one call are recognised.
#[derive(Debug)]
pub struct DedupKey {
    pub app_type: String,
    pub model: String,
    pub tokens: CallTokens,
    pub created_at: i64,
}

/// The model of [`DedupKey`].
pub struct KeyView {
    pub app_type: Seq<char>,
    pub model: Seq<char>,
    pub tokens: CallTokens,
    pub created_at: i64,
}

impl View for DedupKey {
    type V = KeyView;

    open spec fn view(&self) -> KeyView {
        KeyView {
            app_type: self.app_type@,
            model: self.model@,
            tokens: self.tokens,
            created_at: self.created_at,
        }
    }
}

/// A row of the table of calls.
#[derive(Debug)]
pub struct LogRow {
    pub request_id: String,
    pub provider_id: String,
    pub app_type: String,
    pub model: String,
    pub request_model: String,
    pub tokens: CallTokens,
    pub costs: CostTexts,
    pub latency_ms: i64,
    pub first_token_ms: Option<i64>,
    pub status_code: i64,
    pub error_message: Option<String>,
    pub session_id: String,
    pub provider_type: String,
    pub is_streaming: i64,
    pub cost_multiplier: String,
    pub created_at: i64,
    pub data_source: String,
}

/// The model of [`LogRow`].
pub struct RowView {
    pub request_id: Seq<char>,
    pub provider_id: Seq<char>,
    pub app_type: Seq<char>,
    pub model: Seq<char>,
    pub request_model: Seq<char>,
    pub tokens: CallTokens,
    pub costs: CostView,
    pub latency_ms: i64,
    pub first_token_ms: Option<i64>,
    pub status_code: i64,
    pub error_message: Option<Seq<char>>,
    pub session_id: Seq<char>,
    pub provider_type: Seq<char>,
    pub is_streaming: i64,
    pub cost_multiplier: Seq<char>,
    pub created_at: i64,
    pub data_source: Seq<char>,
}

impl View for LogRow {
    type V = RowView;

    open spec fn view(&self) -> RowView {
        RowView {
            request_id: self.request_id@,
            provider_id: self.provider_id@,
            app_type: self.app_type@,
            model: self.model@,
            request_model: self.request_model@,
            tokens: self.tokens,
            costs: self.costs@,
            latency_ms: self.latency_ms,
            first_token_ms: self.first_token_ms,
            status_code: self.status_code,
            error_message: text::option_view(self.error_message),
            session_id: self.session_id@,
            provider_type: self.provider_type@,
            is_streaming: self.is_streaming,
            cost_multiplier: self.cost_multiplier@,
            created_at: self.created_at,
            data_source: self.data_source@,
        }
    }
}

/// The row of a call out of the session logs of an application.
pub open spec fn session_row(
    app: Seq<char>,
    request_id: Seq<char>,
    session_id: Seq<char>,
    model: Seq<char>,
    tokens: CallTokens,
    costs: CostView,
    created_at: i64,
) -> RowView {
    let source = app + "_session"@;
    RowView {
        request_id,
        provider_id: "_"@ + source,
        app_type: app,
        model,
        request_model: model,
        tokens,
        costs,
        latency_ms: 0,
        first_token_ms: None,
        status_code: 200,
        error_message: None,
        session_id,
        provider_type: source,
        is_streaming: 1,
        cost_multiplier: "1.0"@,
        created_at,
        data_source: source,
    }
}

/// The row of a call out of the session logs of an application.
pub fn session_log_row(
    app: &str,
    request_id: &str,
    session_id: &str,
    model: &str,
    tokens: CallTokens,
    costs: CostTexts,
    created_at: i64,
) -> (r: LogRow)
    ensures
        r@ == session_row(
            app@,
            request_id@,
            session_id@,
            model@,
            tokens,
            costs@,
            created_at,
        ),
{
    let source = text::concat2(app, "_session");
    LogRow {
        request_id: request_id.to_owned(),
        provider_id: text::concat2("_", source.as_str()),
        app_type: app.to_owned(),
        model: model.to_owned(),
        request_model: model.to_owned(),
        tokens,
        costs,
        latency_ms: 0,
        first_token_ms: None,
        status_code: 200,
        error_message: None,
        session_id: session_id.to_owned(),
        provider_type: source.clone(),
        is_streaming: 1,
        cost_multiplier: "1.0".to_owned(),
        created_at,
        data_source: source,
    }
}

/// A call out of a session log is written with its own ids, model, tokens, costs and time, and
/// says by its source which application's logs it came out of.
pub proof fn law_a_row_says_whose_log_it_came_out_of(
    app: Seq<char>,
    request_id: Seq<char>,
    session_id: Seq<char>,
    model: Seq<char>,
    tokens: CallTokens,
    costs: CostView,
    created_at: i64,
)
    ensures
        ({
            let row = session_row(app, request_id, session_id, model, tokens, costs, created_at);
            &&& row.app_type == app
            &&& row.data_source == app + "_session"@
            &&& row.provider_type == app + "_session"@
            &&& row.provider_id == "_"@ + (app + "_session"@)
            &&& row.request_id == request_id
            &&& row.session_id == session_id
            &&& row.model == model
            &&& row.request_model == model
            &&& row.tokens == tokens
            &&& row.costs == costs
            &&& row.created_at == created_at
            &&& row.status_code == 200
            &&& row.error_message is None
            &&& row.is_streaming == 1
            &&& row.latency_ms == 0
            &&& row.first_token_ms is None
            &&& row.cost_multiplier == "1.0"@
        }),
{
}

/// A sum that fits is exact; any other is the largest number.
pub proof fn law_sums_are_capped(a: u32, b: u32)
    ensures
        a + b <= u32::MAX ==> capped_sum(a, b) == a + b,
        a + b > u32::MAX ==> capped_sum(a, b) == u32::MAX,
{
}

/// A row is modelled by what stands in it.
pub proof fn law_a_row_is_modelled_by_what_stands_in_it(row: LogRow, key: DedupKey)
    ensures
        row@.request_id == row.request_id@,
        row@.provider_id == row.provider_id@,
        row@.app_type == row.app_type@,
        row@.model == row.model@,
        row@.request_model == row.request_model@,
        row@.tokens == row.tokens,
        row@.costs.input == row.costs.input@,
        row@.costs.output == row.costs.output@,
        row@.costs.cache_read == row.costs.cache_read@,
        row@.costs.cache_creation == row.costs.cache_creation@,
        row@.costs.total == row.costs.total@,
        row@.session_id == row.session_id@,
        row@.provider_type == row.provider_type@,
        row@.data_source == row.data_source@,
        row@.created_at == row.created_at,
        row@.status_code == row.status_code,
        row@.is_streaming == row.is_streaming,
        row@.latency_ms == row.latency_ms,
        row@.cost_multiplier == row.cost_multiplier@,
        key@.app_type == key.app_type@,
        key@.model == key.model@,
        key@.tokens == key.tokens,
        key@.created_at == key.created_at,
{
}

/// The result of a synchronisation is modelled by what stands in it.
pub proof fn law_a_result_is_modelled_by_what_stands_in_it(result: SessionSyncResult, i: int)
    requires
        0 <= i < result.errors@.len(),
    ensures
        result@.imported == result.imported,
        result@.skipped == result.skipped,
        result@.files_scanned == result.files_scanned,
        result@.suspected_duplicates == result.suspected_duplicates,
        result@.deferred_files == result.deferred_files,
        result@.errors.len() == result.errors@.len(),
        result@.errors[i] == result.errors@[i]@,
{
}

} // verus!
