//! What is written of the calls out of session logs, and what all logs come to.

use vstd::prelude::*;
use vstd::string::*;
use crate::file_name;
#[allow(unused_imports)]
use crate::json;
#[allow(unused_imports)]
use crate::json::JsonView;
#[allow(unused_imports)]
use crate::services::session_usage;
#[allow(unused_imports)]
use crate::services::session_usage::{CallTokens, CostView, KeyView, RowView, SyncResultView};
#[allow(unused_imports)]
use crate::services::session_usage_codex::meta;
#[allow(unused_imports)]
use crate::services::session_usage_codex::meta::{ParentView, RootMetaView};
#[allow(unused_imports)]
use crate::services::session_usage_codex::pending::ReasonView;
#[allow(unused_imports)]
use crate::services::session_usage_codex::rollout;
#[allow(unused_imports)]
use crate::services::session_usage_codex::scan::EntryView;
use crate::services::session_usage_codex::sync;
#[allow(unused_imports)]
use crate::services::session_usage_codex::sync::{
    CodexFileSyncResult, FileOutcome, InsertOutcome, InsertProgress, InsertView, StartView, SyncRow,
};
#[allow(unused_imports)]
use crate::text;

verus! {

/// Whether tokens are those of a call: its input with what of it came from a cache, its output,
/// and nothing that was put into a cache.
pub open spec fn are_those_of(tokens: CallTokens, call: EntryView) -> bool {
    &&& tokens.input == call.delta.input
    &&& tokens.cache_read == call.delta.cached_input
    &&& tokens.output == call.delta.output
    &&& tokens.cache_creation == 0
}

/// What a call is recognised by, what its price is asked for with, and what is written of it
/// all count the same tokens, those of the call, under its own model, time and ids.
pub proof fn law_every_step_counts_the_same_tokens(call: EntryView, found: InsertProgress)
    ensures
        match sync::insert_step(call, found) {
            InsertView::FindKnown(key) => are_key(key, call),
            InsertView::FindSuspected(key) => are_key(key, call),
            InsertView::FindCosts(tokens) => are_those_of(tokens, call),
            InsertView::Write(row) => {
                &&& are_those_of(row.tokens, call)
                &&& row.request_id == call.request_id
                &&& row.session_id == call.session_id
                &&& row.model == call.model
                &&& row.request_model == call.model
                &&& row.created_at == call.created_at
                &&& row.app_type == "codex"@
                &&& row.data_source == "codex"@ + "_session"@
                &&& row.provider_id == "_"@ + ("codex"@ + "_session"@)
                &&& row.status_code == 200
                &&& row.error_message is None
                &&& found.costs matches Some(costs) && match costs {
                    Some(price) => row.costs == price@,
                    None => row.costs.total == "0"@,
                }
            },
            _ => true,
        },
{
}

/// Whether a key is one by which other records of a call are recognised.
pub open spec fn are_key(key: KeyView, call: EntryView) -> bool {
    &&& are_those_of(key.tokens, call)
    &&& key.model == call.model
    &&& key.created_at == call.created_at
    &&& key.app_type == "codex"@
}

/// A call is looked for before anything else and written only where it was not found; one
/// that looks like another is written all the same, and noted.
pub proof fn law_a_known_call_is_left_alone(call: EntryView, found: InsertProgress)
    ensures
        ({
            let step = sync::insert_step(call, found);
            &&& found.known is None <==> step is FindKnown
            &&& found.known matches Some(Ok(known)) ==> known ==> step == InsertView::Done(
                InsertOutcome::Known,
            )
            &&& found.known matches Some(Err(_)) ==> step == InsertView::Done(
                InsertOutcome::Failed { suspected: false },
            )
            &&& step is Write ==> {
                &&& found.known matches Some(Ok(known)) && !known
                &&& found.suspected matches Some(Ok(_))
                &&& found.costs is Some
                &&& found.rows is None
            }
            &&& step matches InsertView::Done(InsertOutcome::Written { rows, suspected }) ==> {
                &&& found.rows matches Some(Ok(n)) && n == rows
                &&& found.suspected matches Some(Ok(s)) && s == suspected
            }
        }),
{
}

/// A call that was written is counted as imported, any other as skipped, and one that looks
/// like another is counted beside that; nothing else of a log's result changes.
pub proof fn law_each_call_is_counted_once(result: CodexFileSyncResult, outcome: InsertOutcome)
    requires
        result.imported < u32::MAX,
        result.skipped < u32::MAX,
        result.suspected_duplicates < u32::MAX,
    ensures
        ({
            let after = sync::with_call(result, outcome);
            let written = outcome matches InsertOutcome::Written { rows, .. } && rows > 0;
            &&& after.imported == result.imported + if written {
                1int
            } else {
                0
            }
            &&& after.imported + after.skipped == result.imported + result.skipped + 1
            &&& after.deferred == result.deferred
            &&& after.suspected_duplicates - result.suspected_duplicates == match outcome {
                InsertOutcome::Known => 0int,
                InsertOutcome::Written { suspected, .. } => if suspected {
                    1
                } else {
                    0
                },
                InsertOutcome::Failed { suspected } => if suspected {
                    1
                } else {
                    0
                },
            }
        }),
{
}

/// The sum of a count over the logs that could be read.
pub open spec fn summed(files: Seq<FileOutcome>, count: spec_fn(CodexFileSyncResult) -> nat) -> nat
    decreases files.len(),
{
    if files.len() == 0 {
        0
    } else {
        summed(files.drop_last(), count) + match files.last().outcome {
            Ok(own) => count(own),
            Err(_) => 0,
        }
    }
}

/// The number of logs that could not be read.
pub open spec fn unread(files: Seq<FileOutcome>) -> nat
    decreases files.len(),
{
    if files.len() == 0 {
        0
    } else {
        unread(files.drop_last()) + if files.last().outcome is Err {
            1nat
        } else {
            0
        }
    }
}

/// What all logs come to is the sum of what each comes to, as far as it can be counted; each
/// that was put off is counted, and each that could not be read has an error of its own.
pub proof fn law_logs_add_up(scanned: u32, files: Seq<FileOutcome>)
    requires
        summed(files, |own: CodexFileSyncResult| own.imported as nat) <= u32::MAX,
        summed(files, |own: CodexFileSyncResult| own.skipped as nat) <= u32::MAX,
        summed(files, |own: CodexFileSyncResult| own.suspected_duplicates as nat) <= u32::MAX,
        files.len() <= u32::MAX,
    ensures
        ({
            let all = sync::all_files(scanned, files);
            &&& all.imported == summed(files, |own: CodexFileSyncResult| own.imported as nat)
            &&& all.skipped == summed(files, |own: CodexFileSyncResult| own.skipped as nat)
            &&& all.suspected_duplicates == summed(
                files,
                |own: CodexFileSyncResult| own.suspected_duplicates as nat,
            )
            &&& all.deferred_files == summed(
                files,
                |own: CodexFileSyncResult|
                    if own.deferred {
                        1
                    } else {
                        0
                    },
            )
            &&& all.deferred_files <= files.len()
            &&& all.errors.len() == unread(files)
            &&& all.files_scanned == scanned
        }),
    decreases files.len(),
{
    if files.len() > 0 {
        law_logs_add_up(scanned, files.drop_last());
    }
}

/// A log that could not be read is told by its path and by what went wrong.
pub proof fn law_an_unread_log_is_told(scanned: u32, files: Seq<FileOutcome>, k: int, reason: String)
    requires
        0 <= k < files.len(),
        files[k].outcome == Err::<CodexFileSyncResult, String>(reason),
    ensures
        sync::all_files(scanned, files).errors.contains(
            "Codex 会话文件解析失败 "@ + files[k].path@ + ": "@ + reason@,
        ),
    decreases files.len(),
{
    let told = "Codex 会话文件解析失败 "@ + files[k].path@ + ": "@ + reason@;
    let all = sync::all_files(scanned, files).errors;
    let before = sync::all_files(scanned, files.drop_last()).errors;
    if k < files.len() - 1 {
        law_an_unread_log_is_told(scanned, files.drop_last(), k, reason);
        let i = choose|i: int| 0 <= i < before.len() && before[i] == told;
        assert(all[i] == told);
    } else {
        assert(all[all.len() - 1] == told);
    }
}

/// Where an archived log has not been read under its own path, reading goes on where the log
/// of the same name that was read furthest was left, and there is none that was read further.
pub proof fn law_an_archived_log_goes_on_where_it_was_left(
    rows: Seq<SyncRow>,
    path: Seq<char>,
    name: Seq<char>,
)
    ensures
        match sync::furthest(rows, path, name) {
            Some(best) => {
                &&& rows.contains(best)
                &&& best.file_path@ != path
                &&& forall|i: int|
                    0 <= i < rows.len() && sync::is_same_name(#[trigger] rows[i], path, name)
                        ==> rows[i].last_line_offset < best.last_line_offset || (
                    rows[i].last_line_offset == best.last_line_offset && rows[i].last_modified
                        <= best.last_modified)
            },
            None => forall|i: int|
                0 <= i < rows.len() ==> !sync::is_same_name(#[trigger] rows[i], path, name),
        },
    decreases rows.len(),
{
    if rows.len() > 0 {
        let head = rows.drop_last();
        law_an_archived_log_goes_on_where_it_was_left(head, path, name);
        assert(rows.last() == rows[rows.len() - 1]);
        assert(forall|i: int| 0 <= i < head.len() ==> head[i] == rows[i]);
        if let Some(best) = sync::furthest(rows, path, name) {
            if best != rows.last() {
                let i = choose|i: int| 0 <= i < head.len() && head[i] == best;
                assert(rows[i] == best);
            }
        }
        assert forall|i: int| 0 <= i < head.len() && sync::is_same_name(
            #[trigger] rows[i],
            path,
            name,
        ) implies sync::furthest(head, path, name) is Some by {
            assert(sync::is_same_name(head[i], path, name));
        }
        assert forall|i: int| 0 <= i < rows.len() && sync::is_same_name(
            #[trigger] rows[i],
            path,
            name,
        ) implies (sync::furthest(rows, path, name) matches Some(best) && (rows[i].last_line_offset
            < best.last_line_offset || (rows[i].last_line_offset == best.last_line_offset
            && rows[i].last_modified <= best.last_modified))) by {
            if i < head.len() {
                assert(head[i] == rows[i]);
            }
        }
    }
}

/// The thread that a text in a field names, where it is not empty.
pub open spec fn named(value: JsonView, name: Seq<char>) -> Option<Seq<char>> {
    match value.field(name) {
        Some(JsonView::Text(id)) => if id.len() > 0 {
            Some(id)
        } else {
            None
        },
        _ => None,
    }
}

/// The thread that spawned a log, by the log's own words.
pub open spec fn spawner(payload: JsonView) -> Option<Seq<char>> {
    match payload.field("source"@) {
        Some(source) => match source.field("subagent"@) {
            Some(subagent) => match subagent.field("thread_spawn"@) {
                Some(spawn) => named(spawn, "parent_thread_id"@),
                None => None,
            },
            None => None,
        },
        None => None,
    }
}

/// The thread that a log says it is, under the first of its names that is there.
pub open spec fn own_thread(payload: JsonView) -> Option<Seq<char>> {
    if payload.field("id"@) is Some {
        named(payload, "id"@)
    } else if payload.field("thread_id"@) is Some {
        named(payload, "thread_id"@)
    } else {
        named(payload, "threadId"@)
    }
}

/// A log's parent is the thread that it says it was forked from or spawned by. It has none
/// where it says neither. It is put off where it says both and they differ, where it says it
/// is of another thread than its name says, where the parent is no thread, or where the parent
/// is itself.
pub proof fn law_a_parent_is_what_the_log_says(value: JsonView, payload: JsonView, thread: Seq<char>)
    requires
        value.field("payload"@) == Some(payload),
    ensures
        ({
            let parent = meta::root_meta(value, Some(thread)).parent;
            let forked = named(payload, "forked_from_id"@);
            let spawned = spawner(payload);
            let is_own = own_thread(payload) is None || own_thread(payload) == Some(thread);
            &&& !is_own ==> parent is Deferred
            &&& is_own && forked is None && spawned is None ==> parent is Root
            &&& is_own && forked is Some && spawned is Some && forked != spawned ==> parent
                is Deferred
            &&& is_own && (forked is Some || spawned is Some) && (forked is None || spawned is None
                || forked == spawned) ==> {
                let given = if forked is Some {
                    forked->0
                } else {
                    spawned->0
                };
                match rollout::uuid_hyphenated(given) {
                    Some(id) => if id == thread {
                        parent is Deferred
                    } else {
                        parent == ParentView::Parent(id)
                    },
                    None => parent is Deferred,
                }
            }
        }),
{
}

/// A log with a parent is told from what it repeats up to the instant of its own beginning;
/// without that instant it is put off, and without a parent all of it is its own.
pub proof fn law_a_fork_is_cut_where_it_began(meta: RootMetaView, parent: Seq<char>)
    ensures
        meta.parent is Root ==> sync::start_of(Some(meta)) is Live,
        meta.parent == ParentView::Parent(parent) ==> match meta.timestamp {
            Some(instant) => sync::start_of(Some(meta)) == (StartView::Forked {
                parent_id: parent,
                cutoff: instant,
            }),
            None => sync::start_of(Some(meta)) is Defer,
        },
        meta.parent is Deferred ==> sync::start_of(Some(meta)) is Defer,
        sync::start_of(None) is Defer,
{
}

/// A log is left alone just where it has not changed since it was read and nothing speaks for
/// its having been replaced.
pub proof fn law_only_an_unchanged_log_is_left_alone(modified: i64, last: i64)
    ensures
        modified > last ==> !sync::is_unchanged(modified, last, false),
        modified <= last ==> sync::is_unchanged(modified, last, false),
        !sync::is_unchanged(modified, last, true),
{
}

/// Files of JSON lines are those whose extension says so.
pub proof fn law_json_lines_are_told_by_their_extension(stem: Seq<char>, extension: Seq<char>)
    requires
        stem.len() > 0,
        extension.len() > 0,
        !extension.contains('.'),
    ensures
        sync::is_json_lines_name(stem + seq!['.'] + extension) <==> extension == "jsonl"@,
{
    file_name::law_an_extension_is_what_stands_behind_the_last_dot(stem, extension);
    let name = stem + seq!['.'] + extension;
    assert(name.skip(stem.len() as int + 1) =~= extension);
}

/// Just the paths of session logs are forgotten.
pub proof fn law_only_logs_are_forgotten(paths: Seq<Seq<char>>, path: Seq<char>)
    ensures
        sync::cursor_paths(paths).contains(path) <==> paths.contains(path)
            && rollout::is_cursor_path(path),
{
    let p = |path: Seq<char>| rollout::is_cursor_path(path);
    let kept = paths.filter(p);
    if kept.contains(path) {
        paths.lemma_filter_contains_rev(p, path);
        let i = choose|i: int| 0 <= i < kept.len() && kept[i] == path;
        paths.lemma_filter_pred(p, i);
    }
    if paths.contains(path) && rollout::is_cursor_path(path) {
        let i = choose|i: int| 0 <= i < paths.len() && paths[i] == path;
        paths.lemma_filter_contains(p, i);
    }
}

} // verus!
