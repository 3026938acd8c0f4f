//! Bringing the usage of session logs up to date: what is done with each log, and
//! what it all comes to.

use vstd::prelude::*;
use vstd::string::*;
use crate::file_name;
use crate::services::session_usage;
use crate::services::session_usage::{
    CallTokens, CostTexts, CostView, DedupKey, KeyView, LogRow, RowView, SessionSyncResult,
    SyncResultView,
};
use crate::services::session_usage_codex::meta;
use crate::services::session_usage_codex::meta::{
    Instant, ParentResolution, ParentView, RootMetaView,
};
use crate::services::session_usage_codex::pending;
use crate::services::session_usage_codex::pending::{
    CodexReplayCaches, PendingReason, PendingView, ReasonView,
};
use crate::services::session_usage_codex::rollout;
use crate::services::session_usage_codex::rollout::RolloutIndex;
use crate::services::session_usage_codex::scan::{EntryView, PendingCodexEntry};
use crate::services::session_usage_codex::tokens;
use crate::text;

verus! {

/// What is done first with a log.
#[derive(Debug)]
pub enum FileCheck {
    /// Nothing: it has not changed since it was last read.
    Unchanged,
    /// Nothing: its usage still cannot be told.
    StillDeferred,
    /// It is put off: its name does not tell its thread.
    NoThread(PendingReason),
    /// It is read as the log of this thread.
    Read(String),
}

/// Whether a log has not changed since it was last read. `suspicious` tells that it
/// may have been replaced by another one with the same time.
pub open spec fn is_unchanged(modified: i64, last_modified: i64, suspicious: bool) -> bool {
    modified <= last_modified && !suspicious
}

/// Whether the usage of a log still cannot be told.
pub open spec fn is_deferred(
    put_off: Map<Seq<char>, PendingView>,
    path: Seq<char>,
    modified: i64,
    size: u64,
    index: RolloutIndex,
) -> bool {
    &&& put_off.dom().contains(path)
    &&& pending::is_current(put_off[path], modified, size)
    &&& pending::still_holds(put_off[path].reason, index)
}

/// The logs whose usage cannot be told, without one of which that was found as it is
/// now.
pub open spec fn looked_at_again(
    put_off: Map<Seq<char>, PendingView>,
    path: Seq<char>,
    modified: i64,
    size: u64,
) -> Map<Seq<char>, PendingView> {
    if put_off.dom().contains(path) && pending::is_current(put_off[path], modified, size) {
        put_off.remove(path)
    } else {
        put_off
    }
}

/// Why a log is put off whose name does not tell its thread.
pub open spec fn nameless() -> ReasonView {
    ReasonView::Stable("文件名缺少有效的尾部 UUID"@)
}

/// What is known of a log file before it is read.
#[derive(Debug)]
pub struct FileStat {
    pub path: String,
    pub name: Option<String>,
    pub modified: i64,
    pub size: u64,
    /// The time of the log when it was last read.
    pub last_modified: i64,
    /// Whether it may have been replaced by another one with the same time.
    pub suspicious: bool,
}

/// The thread of a log, by its name.
pub open spec fn stat_thread(file: FileStat) -> Option<Seq<char>> {
    match file.name {
        Some(name) => rollout::thread_of(name@),
        None => None,
    }
}

/// What is done first with a log.
pub fn check_codex_file(file: &FileStat, index: &RolloutIndex, caches: &mut CodexReplayCaches) -> (r:
    FileCheck)
    ensures
        final(caches).parents() == old(caches).parents(),
        if is_unchanged(file.modified, file.last_modified, file.suspicious) {
            r is Unchanged && *final(caches) == *old(caches)
        } else if is_deferred(old(caches).pending(), file.path@, file.modified, file.size, *index) {
            r is StillDeferred && final(caches).pending() == old(caches).pending()
        } else {
            &&& match (r, stat_thread(*file)) {
                (FileCheck::Read(thread), Some(own)) => thread@ == own,
                (FileCheck::NoThread(reason), None) => reason@ == nameless(),
                _ => false,
            }
            &&& final(caches).pending() == looked_at_again(
                old(caches).pending(),
                file.path@,
                file.modified,
                file.size,
            )
        },
{
    if file.modified <= file.last_modified && !file.suspicious {
        return FileCheck::Unchanged;
    }
    if caches.still_deferred(file.path.as_str(), file.modified, file.size, index) {
        return FileCheck::StillDeferred;
    }
    let thread = match &file.name {
        Some(name) => rollout::thread_id_from_filename(name.as_str()),
        None => None,
    };
    match thread {
        Some(thread) => FileCheck::Read(thread),
        None => FileCheck::NoThread(PendingReason::Stable("文件名缺少有效的尾部 UUID".to_owned())),
    }
}

/// How a log is read.
#[derive(Debug)]
pub enum FileStart {
    /// It is put off.
    Defer(PendingReason),
    /// All of it is its own.
    Live,
    /// It begins with a replay of the log of another thread as it was at an
    /// instant.
    Forked { parent_id: String, cutoff: Instant },
}

/// The model of [`FileStart`].
pub enum StartView {
    Defer(ReasonView),
    Live,
    Forked { parent_id: Seq<char>, cutoff: Instant },
}

impl View for FileStart {
    type V = StartView;

    open spec fn view(&self) -> StartView {
        match *self {
            FileStart::Defer(reason) => StartView::Defer(reason@),
            FileStart::Live => StartView::Live,
            FileStart::Forked { parent_id, cutoff } => StartView::Forked {
                parent_id: parent_id@,
                cutoff,
            },
        }
    }
}

/// How a log is read, by what it says of itself.
pub open spec fn start_of(meta: Option<RootMetaView>) -> StartView {
    match meta {
        Some(meta) => match meta.parent {
            ParentView::Root => StartView::Live,
            ParentView::Deferred(reason) => StartView::Defer(ReasonView::Stable(reason)),
            ParentView::Parent(parent_id) => match meta.timestamp {
                Some(cutoff) => StartView::Forked { parent_id, cutoff },
                None => StartView::Defer(
                    ReasonView::Stable("parented rollout 的 root meta 缺少有效 timestamp"@),
                ),
            },
        },
        None => StartView::Defer(ReasonView::Stable("含计费 token 但尚无 session_meta"@)),
    }
}

/// What the log of a thread says of itself.
pub open spec fn meta_of(lines: Seq<Option<Seq<char>>>, thread: Seq<char>) -> Option<RootMetaView> {
    match meta::first_meta(lines) {
        Some(value) => Some(meta::root_meta(value, Some(thread))),
        None => None,
    }
}

/// How the log of a thread is read.
pub fn start_codex_file(lines: &Vec<Option<String>>, root_thread_id: &str) -> (r: FileStart)
    ensures
        r@ == start_of(meta_of(meta::line_views(lines@), root_thread_id@)),
{
    let meta = match meta::read_root_meta(lines, Some(root_thread_id)) {
        Some(meta) => meta,
        None => {
            return FileStart::Defer(
                PendingReason::Stable("含计费 token 但尚无 session_meta".to_owned()),
            );
        },
    };
    match meta.parent {
        ParentResolution::Root => FileStart::Live,
        ParentResolution::Deferred(reason) => FileStart::Defer(PendingReason::Stable(reason)),
        ParentResolution::Parent(parent_id) => match meta.timestamp {
            Some(cutoff) => FileStart::Forked { parent_id, cutoff },
            None => FileStart::Defer(
                PendingReason::Stable(
                    "parented rollout 的 root meta 缺少有效 timestamp".to_owned(),
                ),
            ),
        },
    }
}

/// What a log came to.
#[derive(Debug, Clone, Copy, PartialEq, Eq, Structural)]
pub struct CodexFileSyncResult {
    pub imported: u32,
    pub skipped: u32,
    pub suspected_duplicates: u32,
    pub deferred: bool,
}

/// The result of a log of which nothing was written, with a number of uses left out.
pub open spec fn left_out(skipped: u32) -> CodexFileSyncResult {
    CodexFileSyncResult { imported: 0, skipped, suspected_duplicates: 0, deferred: false }
}

impl CodexFileSyncResult {
    /// The result of a log of which nothing was written, with a number of uses
    /// left out.
    pub fn with_skipped(skipped: u32) -> (r: CodexFileSyncResult)
        ensures
            r == left_out(skipped),
    {
        CodexFileSyncResult { imported: 0, skipped, suspected_duplicates: 0, deferred: false }
    }

    /// The result of a log that was put off.
    pub fn put_off() -> (r: CodexFileSyncResult)
        ensures
            r == (CodexFileSyncResult {
                imported: 0,
                skipped: 0,
                suspected_duplicates: 0,
                deferred: true,
            }),
    {
        CodexFileSyncResult { imported: 0, skipped: 0, suspected_duplicates: 0, deferred: true }
    }
}

/// What came of writing a call.
#[derive(Debug, Clone, Copy, PartialEq, Eq, Structural)]
pub enum InsertOutcome {
    /// It had been written before.
    Known,
    /// It was written, or had been in the meantime, by the number of rows.
    Written { rows: usize, suspected: bool },
    /// It could not be written.
    Failed { suspected: bool },
}

/// A count and one more, or the largest count.
pub open spec fn one_more(n: u32) -> u32 {
    session_usage::capped_sum(n, 1)
}

/// Whether what came of writing a call makes it look like another one.
pub open spec fn is_suspected(outcome: InsertOutcome) -> bool {
    match outcome {
        InsertOutcome::Known => false,
        InsertOutcome::Written { suspected, .. } => suspected,
        InsertOutcome::Failed { suspected } => suspected,
    }
}

/// Whether a row was written for a call.
pub open spec fn is_imported(outcome: InsertOutcome) -> bool {
    outcome matches InsertOutcome::Written { rows, .. } && rows > 0
}

/// What a log comes to with one more call.
pub open spec fn with_call(result: CodexFileSyncResult, outcome: InsertOutcome) -> CodexFileSyncResult {
    CodexFileSyncResult {
        imported: if is_imported(outcome) {
            one_more(result.imported)
        } else {
            result.imported
        },
        skipped: if is_imported(outcome) {
            result.skipped
        } else {
            one_more(result.skipped)
        },
        suspected_duplicates: if is_suspected(outcome) {
            one_more(result.suspected_duplicates)
        } else {
            result.suspected_duplicates
        },
        deferred: result.deferred,
    }
}

/// What a log comes to with more calls, one after the other.
pub open spec fn with_calls(result: CodexFileSyncResult, outcomes: Seq<InsertOutcome>) -> CodexFileSyncResult
    decreases outcomes.len(),
{
    if outcomes.len() == 0 {
        result
    } else {
        with_call(with_calls(result, outcomes.drop_last()), outcomes.last())
    }
}

impl CodexFileSyncResult {
    /// Counts one more call.
    pub fn record(&mut self, outcome: InsertOutcome)
        ensures
            *final(self) == with_call(*old(self), outcome),
    {
        let suspected = match outcome {
            InsertOutcome::Known => false,
            InsertOutcome::Written { suspected, .. } => suspected,
            InsertOutcome::Failed { suspected } => suspected,
        };
        let imported = match outcome {
            InsertOutcome::Written { rows, .. } => rows > 0,
            _ => false,
        };
        if suspected {
            self.suspected_duplicates = self.suspected_duplicates.saturating_add(1);
        }
        if imported {
            self.imported = self.imported.saturating_add(1);
        } else {
            self.skipped = self.skipped.saturating_add(1);
        }
    }
}

/// The calls that have been written since the last commit.
#[derive(Debug, Clone, Copy, PartialEq, Eq, Structural)]
pub struct CommitBatch {
    pub since_commit: u32,
}

impl CommitBatch {
    /// Counts one more call, and tells whether a commit is due, after which
    /// counting begins again.
    pub fn advance(&mut self, batch_size: u32) -> (commit: bool)
        ensures
            commit == (one_more(old(self).since_commit) >= batch_size),
            final(self).since_commit == if commit {
                0
            } else {
                one_more(old(self).since_commit)
            },
            batch_size > 0 ==> final(self).since_commit < batch_size,
    {
        self.since_commit = self.since_commit.saturating_add(1);
        if self.since_commit >= batch_size {
            self.since_commit = 0;
            true
        } else {
            false
        }
    }
}

/// The tokens of a call out of a session log. Writing to a cache is not counted
/// there.
pub open spec fn call_tokens(entry: EntryView) -> CallTokens {
    CallTokens {
        input: entry.delta.input,
        output: entry.delta.output,
        cache_read: entry.delta.cached_input,
        cache_creation: 0,
    }
}

/// The row of a call; where the model has no price it costs nothing.
pub open spec fn entry_row(entry: EntryView, costs: Option<CostView>) -> RowView {
    session_usage::session_row(
        "codex"@,
        entry.request_id,
        entry.session_id,
        entry.model,
        call_tokens(entry),
        match costs {
            Some(costs) => costs,
            None => session_usage::only_total("0"@),
        },
        entry.created_at,
    )
}

/// By what other records of a call are recognised.
pub open spec fn entry_key(entry: EntryView) -> KeyView {
    KeyView {
        app_type: "codex"@,
        model: entry.model,
        tokens: call_tokens(entry),
        created_at: entry.created_at,
    }
}

impl PendingCodexEntry {
    /// By what other records of the call are recognised.
    pub fn dedup_key(&self) -> (r: DedupKey)
        ensures
            r@ == entry_key(self@),
    {
        DedupKey {
            app_type: "codex".to_owned(),
            model: self.model.clone(),
            tokens: self.tokens(),
            created_at: self.created_at,
        }
    }

    /// The tokens of the call.
    pub fn tokens(&self) -> (r: CallTokens)
        ensures
            r == call_tokens(self@),
    {
        CallTokens {
            input: self.delta.input,
            output: self.delta.output,
            cache_read: self.delta.cached_input,
            cache_creation: 0,
        }
    }

    /// The row of the call.
    pub fn log_row(&self, costs: Option<CostTexts>) -> (r: LogRow)
        ensures
            r@ == entry_row(self@, session_usage::cost_view(costs)),
    {
        let costs = match costs {
            Some(costs) => costs,
            None => session_usage::only_total_cost("0"),
        };
        session_usage::session_log_row(
            "codex",
            self.request_id.as_str(),
            self.session_id.as_str(),
            self.model.as_str(),
            self.tokens(),
            costs,
            self.created_at,
        )
    }
}

/// What has been found out of a call that is being written.
#[derive(Debug)]
pub struct InsertProgress {
    /// Whether it had been written before.
    pub known: Option<Result<bool, String>>,
    /// Whether it looks like another one.
    pub suspected: Option<Result<bool, String>>,
    /// What it cost, if its model has a price.
    pub costs: Option<Option<CostTexts>>,
    /// How many rows were written.
    pub rows: Option<Result<usize, String>>,
}

/// What is done next to write a call.
#[derive(Debug)]
pub enum InsertStep {
    /// See whether it has been written before.
    FindKnown(DedupKey),
    /// See whether it looks like another one.
    FindSuspected(DedupKey),
    /// See what it cost.
    FindCosts(CallTokens),
    /// Write this row.
    Write(LogRow),
    /// Nothing.
    Done(InsertOutcome),
}

/// The model of [`InsertStep`].
pub enum InsertView {
    FindKnown(KeyView),
    FindSuspected(KeyView),
    FindCosts(CallTokens),
    Write(RowView),
    Done(InsertOutcome),
}

impl View for InsertStep {
    type V = InsertView;

    open spec fn view(&self) -> InsertView {
        match *self {
            InsertStep::FindKnown(key) => InsertView::FindKnown(key@),
            InsertStep::FindSuspected(key) => InsertView::FindSuspected(key@),
            InsertStep::FindCosts(tokens) => InsertView::FindCosts(tokens),
            InsertStep::Write(row) => InsertView::Write(row@),
            InsertStep::Done(outcome) => InsertView::Done(outcome),
        }
    }
}

/// What is done next to write a call: one that has been written before is left alone,
/// and one that looks like another is written all the same.
pub open spec fn insert_step(entry: EntryView, found: InsertProgress) -> InsertView {
    match found.known {
        None => InsertView::FindKnown(entry_key(entry)),
        Some(Ok(true)) => InsertView::Done(InsertOutcome::Known),
        Some(Err(_)) => InsertView::Done(InsertOutcome::Failed { suspected: false }),
        Some(Ok(false)) => match found.suspected {
            None => InsertView::FindSuspected(entry_key(entry)),
            Some(Err(_)) => InsertView::Done(InsertOutcome::Failed { suspected: false }),
            Some(Ok(suspected)) => match found.costs {
                None => InsertView::FindCosts(call_tokens(entry)),
                Some(costs) => match found.rows {
                    None => InsertView::Write(entry_row(entry, session_usage::cost_view(costs))),
                    Some(Ok(rows)) => InsertView::Done(InsertOutcome::Written { rows, suspected }),
                    Some(Err(_)) => InsertView::Done(InsertOutcome::Failed { suspected }),
                },
            },
        },
    }
}

/// What is done next to write a call, by what has been found out so far.
pub fn insert_codex_session_entry(entry: &PendingCodexEntry, found: &InsertProgress) -> (r:
    InsertStep)
    ensures
        r@ == insert_step(entry@, *found),
{
    match &found.known {
        None => {
            return InsertStep::FindKnown(entry.dedup_key());
        },
        Some(Ok(known)) => {
            if *known {
                return InsertStep::Done(InsertOutcome::Known);
            }
        },
        Some(Err(_)) => {
            return InsertStep::Done(InsertOutcome::Failed { suspected: false });
        },
    }
    let suspected = match &found.suspected {
        None => {
            return InsertStep::FindSuspected(entry.dedup_key());
        },
        Some(Ok(suspected)) => *suspected,
        Some(Err(_)) => {
            return InsertStep::Done(InsertOutcome::Failed { suspected: false });
        },
    };
    let costs = match &found.costs {
        None => {
            return InsertStep::FindCosts(entry.tokens());
        },
        Some(costs) => costs,
    };
    match &found.rows {
        None => InsertStep::Write(entry.log_row(session_usage::copy_costs(costs))),
        Some(Ok(rows)) => InsertStep::Done(InsertOutcome::Written { rows: *rows, suspected }),
        Some(Err(_)) => InsertStep::Done(InsertOutcome::Failed { suspected }),
    }
}

/// What is done with an entry of a directory of session logs.
#[derive(Debug, Clone, Copy, PartialEq, Eq, Structural)]
pub enum WalkAction {
    Descend,
    Take,
    Ignore,
}

/// Whether the extension of a file name is `jsonl`.
pub open spec fn is_json_lines_name(name: Seq<char>) -> bool {
    let stem = file_name::stem_of(name);
    stem.len() < name.len() && name.skip(stem.len() as int + 1) == "jsonl"@
}

/// What is done with an entry `depth` directories below the first one: directories
/// are entered down to `max_depth`, and files of JSON lines are taken.
pub fn walk_action(is_dir: bool, name: Option<&str>, depth: u32, max_depth: u32) -> (r: WalkAction)
    ensures
        r == if is_dir && depth < max_depth {
            WalkAction::Descend
        } else if name matches Some(name) && is_json_lines_name(name@) {
            WalkAction::Take
        } else {
            WalkAction::Ignore
        },
{
    if is_dir && depth < max_depth {
        return WalkAction::Descend;
    }
    match name {
        Some(name) => if file_name::has_extension(name, "jsonl") {
            WalkAction::Take
        } else {
            WalkAction::Ignore
        },
        None => WalkAction::Ignore,
    }
}

/// A session log file and the time at which it was last changed.
#[derive(Debug)]
pub struct DatedFile {
    pub path: String,
    pub modified: i64,
}

/// Whether files stand with the last changed first.
pub open spec fn newest_first(files: Seq<DatedFile>) -> bool {
    forall|i: int, j: int|
        0 <= i <= j < files.len() ==> (#[trigger] files[i]).modified >= (
        #[trigger] files[j]).modified
}

/// Puts a file where it belongs among files with the last changed first.
pub fn push_codex_file(files: &mut Vec<DatedFile>, file: DatedFile)
    requires
        newest_first(old(files)@),
    ensures
        newest_first(final(files)@),
        final(files)@.to_multiset() == old(files)@.to_multiset().insert(file),
{
    let ghost before = files@;
    let mut i: usize = 0;
    while i < files.len() && files[i].modified >= file.modified
        invariant
            i <= files@.len(),
            files@ == before,
            forall|k: int| 0 <= k < i ==> (#[trigger] before[k]).modified >= file.modified,
        decreases files@.len() - i,
    {
        i = i + 1;
    }
    files.insert(i, file);
    proof {
        assert(files@ =~= before.insert(i as int, file));
        vstd::seq_lib::to_multiset_insert(before, i as int, file);
        assert forall|a: int, b: int| 0 <= a <= b < files@.len() implies (
        #[trigger] files@[a]).modified >= (#[trigger] files@[b]).modified by {
            let x = if a < i {
                a
            } else {
                a - 1
            };
            let y = if b < i {
                b
            } else {
                b - 1
            };
            if a != i {
                assert(files@[a] == before[x]);
            }
            if b != i {
                assert(files@[b] == before[y]);
            }
        }
    }
}

/// How far a log has been read.
#[derive(Debug)]
pub struct SyncRow {
    pub file_path: String,
    pub last_modified: i64,
    pub last_line_offset: i64,
}

/// Whether a row is that of a file with a name in another directory.
pub open spec fn is_same_name(row: SyncRow, path: Seq<char>, name: Seq<char>) -> bool {
    &&& row.file_path@ != path
    &&& text::ends_with(row.file_path@, "/"@ + name) || text::ends_with(
        row.file_path@,
        "\\"@ + name,
    )
}

/// Whether a row has been read further than another one, or as far and later.
pub open spec fn is_further(a: SyncRow, b: SyncRow) -> bool {
    a.last_line_offset > b.last_line_offset || (a.last_line_offset == b.last_line_offset
        && a.last_modified > b.last_modified)
}

/// The state of the row that has been read furthest among those of files with a
/// name in other directories.
pub open spec fn furthest(rows: Seq<SyncRow>, path: Seq<char>, name: Seq<char>) -> Option<SyncRow>
    decreases rows.len(),
{
    if rows.len() == 0 {
        None
    } else {
        let before = furthest(rows.drop_last(), path, name);
        let last = rows.last();
        if is_same_name(last, path, name) && (before matches Some(best) ==> is_further(last, best)) {
            Some(last)
        } else {
            before
        }
    }
}

/// How far a log has been read: by its own state, or else, for an archived log, by
/// that of the log with its name that has been read furthest. Tells whether the
/// state is another log's.
pub fn codex_sync_state(
    own: (i64, i64),
    in_archive: bool,
    path: &str,
    name: Option<&str>,
    rows: &Vec<SyncRow>,
) -> (r: ((i64, i64), bool))
    ensures
        r == if own != (0i64, 0i64) || !in_archive || name is None {
            (own, false)
        } else {
            match furthest(rows@, path@, name.unwrap()@) {
                Some(row) => ((row.last_modified, row.last_line_offset), true),
                None => (own, false),
            }
        },
{
    if own.0 != 0 || own.1 != 0 || !in_archive {
        return (own, false);
    }
    let name = match name {
        Some(name) => name,
        None => {
            return (own, false);
        },
    };
    let slash_suffix = text::concat2("/", name);
    let backslash_suffix = text::concat2("\\", name);
    let mut best: Option<usize> = None;
    let mut i: usize = 0;
    while i < rows.len()
        invariant
            i <= rows@.len(),
            slash_suffix@ == "/"@ + name@,
            backslash_suffix@ == "\\"@ + name@,
            match best {
                Some(k) => k < i && furthest(rows@.take(i as int), path@, name@) == Some(
                    rows@[k as int],
                ),
                None => furthest(rows@.take(i as int), path@, name@) is None,
            },
        decreases rows@.len() - i,
    {
        assert(rows@.take(i + 1).drop_last() == rows@.take(i as int));
        assert(rows@.take(i + 1).last() == rows@[i as int]);
        let row = &rows[i];
        let matches = !text::same_text(row.file_path.as_str(), path) && (text::has_suffix(
            row.file_path.as_str(),
            slash_suffix.as_str(),
        ) || text::has_suffix(row.file_path.as_str(), backslash_suffix.as_str()));
        let further = match best {
            Some(k) => row.last_line_offset > rows[k].last_line_offset || (row.last_line_offset
                == rows[k].last_line_offset && row.last_modified > rows[k].last_modified),
            None => true,
        };
        if matches && further {
            best = Some(i);
        }
        i = i + 1;
    }
    assert(rows@.take(i as int) == rows@);
    match best {
        Some(k) => ((rows[k].last_modified, rows[k].last_line_offset), true),
        None => (own, false),
    }
}

/// What is deleted so that the usage of all session logs is read anew.
#[derive(Debug)]
pub struct ResetPlan {
    pub delete_logs: bool,
    pub delete_rollups: bool,
    pub delete_cursors: Vec<String>,
}

/// The paths of session logs among paths.
pub open spec fn cursor_paths(paths: Seq<Seq<char>>) -> Seq<Seq<char>> {
    paths.filter(|path: Seq<char>| rollout::is_cursor_path(path))
}

/// What is deleted, by which tables there are; `paths` are those of which it is
/// known how far they have been read, where that is known of any.
pub fn reset_plan(has_logs: bool, has_rollups: bool, paths: &Option<Vec<String>>) -> (r: ResetPlan)
    ensures
        r.delete_logs == has_logs,
        r.delete_rollups == has_rollups,
        text::views(r.delete_cursors@) == match *paths {
            Some(paths) => cursor_paths(text::views(paths@)),
            None => Seq::empty(),
        },
{
    let mut delete_cursors: Vec<String> = Vec::new();
    assert(text::views(delete_cursors@) =~= Seq::empty());
    if let Some(paths) = paths {
        let ghost all = text::views(paths@);
        let ghost keep = |path: Seq<char>| rollout::is_cursor_path(path);
        let mut i: usize = 0;
        assert(all.take(0).filter(keep) =~= Seq::empty()) by {
            reveal(Seq::filter);
        }
        while i < paths.len()
            invariant
                i <= paths@.len() == all.len(),
                all == text::views(paths@),
                keep == (|path: Seq<char>| rollout::is_cursor_path(path)),
                text::views(delete_cursors@) == all.take(i as int).filter(keep),
            decreases paths@.len() - i,
        {
            let ghost before = text::views(delete_cursors@);
            assert(all.take(i + 1).drop_last() == all.take(i as int));
            assert(all.take(i + 1).last() == paths@[i as int]@);
            proof {
                reveal(Seq::filter);
            }
            if rollout::is_codex_cursor_path(paths[i].as_str()) {
                delete_cursors.push(paths[i].clone());
                assert(text::views(delete_cursors@) =~= before.push(paths@[i as int]@));
            }
            i = i + 1;
        }
        assert(all.take(i as int) == all);
    }
    ResetPlan { delete_logs: has_logs, delete_rollups: has_rollups, delete_cursors }
}

/// What came of each log: what it came to, or why it could not be read.
#[derive(Debug)]
pub struct FileOutcome {
    pub path: String,
    pub outcome: Result<CodexFileSyncResult, String>,
}

/// The result with one more log.
pub open spec fn with_file(result: SyncResultView, file: FileOutcome) -> SyncResultView {
    match file.outcome {
        Ok(own) => SyncResultView {
            imported: session_usage::capped_sum(result.imported, own.imported),
            skipped: session_usage::capped_sum(result.skipped, own.skipped),
            suspected_duplicates: session_usage::capped_sum(
                result.suspected_duplicates,
                own.suspected_duplicates,
            ),
            deferred_files: if own.deferred {
                one_more(result.deferred_files)
            } else {
                result.deferred_files
            },
            ..result
        },
        Err(reason) => SyncResultView {
            errors: result.errors.push(
                "Codex 会话文件解析失败 "@ + file.path@ + ": "@ + reason@,
            ),
            ..result
        },
    }
}

/// What all logs come to.
pub open spec fn all_files(files_scanned: u32, files: Seq<FileOutcome>) -> SyncResultView
    decreases files.len(),
{
    if files.len() == 0 {
        session_usage::nothing_found(files_scanned)
    } else {
        with_file(all_files(files_scanned, files.drop_last()), files.last())
    }
}

/// What all logs come to.
pub fn sync_codex_usage(files: &Vec<FileOutcome>) -> (r: SessionSyncResult)
    ensures
        r@ == all_files(tokens::low32(files@.len() as u64), files@),
{
    let count: u32 = tokens::low_bits(files.len() as u64);
    let mut result = SessionSyncResult::empty(count);
    let mut i: usize = 0;
    while i < files.len()
        invariant
            i <= files@.len(),
            result@ == all_files(count, files@.take(i as int)),
        decreases files@.len() - i,
    {
        assert(files@.take(i + 1).drop_last() == files@.take(i as int));
        assert(files@.take(i + 1).last() == files@[i as int]);
        match &files[i].outcome {
            Ok(own) => {
                result.imported = result.imported.saturating_add(own.imported);
                result.skipped = result.skipped.saturating_add(own.skipped);
                result.suspected_duplicates = result.suspected_duplicates.saturating_add(
                    own.suspected_duplicates,
                );
                if own.deferred {
                    result.deferred_files = result.deferred_files.saturating_add(1);
                }
            },
            Err(reason) => {
                let head = text::concat3(
                    "Codex 会话文件解析失败 ",
                    files[i].path.as_str(),
                    ": ",
                );
                result.push_error(text::concat2(head.as_str(), reason.as_str()));
            },
        }
        i = i + 1;
    }
    assert(files@.take(i as int) == files@);
    result
}

} // verus!
