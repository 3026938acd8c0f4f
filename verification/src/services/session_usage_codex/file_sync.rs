//! Bringing the usage of one session log up to date: what is read, one thing after the
//! other, and what becomes of the log in the end.

use vstd::prelude::*;
use vstd::string::*;
#[allow(unused_imports)]
use crate::json;
use crate::services::session_usage_codex::meta;
use crate::services::session_usage_codex::meta::Instant;
use crate::services::session_usage_codex::pending;
use crate::services::session_usage_codex::pending::{
    CodexReplayCaches, Deferral, PendingReason, PendingView, ReasonView,
};
use crate::services::session_usage_codex::replay;
use crate::services::session_usage_codex::replay::{ReplayPhase, Snapshot, SnapshotView};
use crate::services::session_usage_codex::rollout::RolloutIndex;
use crate::services::session_usage_codex::scan;
#[allow(unused_imports)]
use crate::services::session_usage_codex::scan::{LogContext, ParseView};
use crate::services::session_usage_codex::sync;
use crate::services::session_usage_codex::sync::{
    CodexFileSyncResult, FileCheck, FileStart, FileStat, InsertOutcome, StartView,
};
use crate::services::session_usage_codex::tokens::TokenUsageSignature;
use crate::text;

verus! {

/// The lines of a log.
pub type Lines = Vec<Option<String>>;

/// The signatures that are known of logs, each up to an instant in microseconds.
pub type Known = Map<(Seq<char>, int), Seq<TokenUsageSignature>>;

/// A log of a parent that has been read: its lines, or why it could not be opened.
#[derive(Debug)]
pub struct ParentLog {
    pub path: String,
    pub lines: Result<Lines, String>,
}

/// What became of reading a log.
pub enum ReadView {
    Lines(Seq<Option<Seq<char>>>),
    Unreadable(Seq<char>),
}

/// What became of reading a log.
pub open spec fn read_view(lines: Result<Lines, String>) -> ReadView {
    match lines {
        Ok(lines) => ReadView::Lines(meta::line_views(lines@)),
        Err(error) => ReadView::Unreadable(error@),
    }
}

/// What became of reading the log at a path, where it has been read.
pub open spec fn read_at(logs: Seq<ParentLog>, path: Seq<char>) -> Option<ReadView>
    decreases logs.len(),
{
    if logs.len() == 0 {
        None
    } else if logs.last().path@ == path {
        Some(read_view(logs.last().lines))
    } else {
        read_at(logs.drop_last(), path)
    }
}

/// What became of reading the log at a path, where it has been read.
fn find_log<'a>(logs: &'a Vec<ParentLog>, path: &str) -> (r: Option<&'a Result<Lines, String>>)
    ensures
        match r {
            Some(lines) => read_at(logs@, path@) == Some(read_view(*lines)),
            None => read_at(logs@, path@) is None,
        },
{
    let mut i: usize = logs.len();
    assert(logs@.take(i as int) == logs@);
    while i > 0
        invariant
            i <= logs@.len(),
            read_at(logs@, path@) == read_at(logs@.take(i as int), path@),
        decreases i,
    {
        assert(logs@.take(i as int).drop_last() == logs@.take(i - 1));
        if text::same_text(logs[i - 1].path.as_str(), path) {
            return Some(&logs[i - 1].lines);
        }
        i = i - 1;
    }
    None
}

/// What is known of the log at a path up to an instant, where anything is.
pub open spec fn snapshot_at(path: Seq<char>, cutoff: Instant, known: Known, logs: Seq<ParentLog>) -> Option<
    SnapshotView,
> {
    if known.dom().contains((path, cutoff.micros())) {
        Some(SnapshotView::Events(known[(path, cutoff.micros())]))
    } else {
        match read_at(logs, path) {
            Some(ReadView::Lines(lines)) => Some(replay::snapshot_before(lines, cutoff, path)),
            Some(ReadView::Unreadable(error)) => Some(
                SnapshotView::Failure("无法打开父 rollout "@ + path + ": "@ + error),
            ),
            None => None,
        }
    }
}

/// What is known once a snapshot has been taken.
pub open spec fn with_snapshot(known: Known, path: Seq<char>, cutoff: Instant, snapshot: SnapshotView) -> Known {
    match snapshot {
        SnapshotView::Events(events) => known.insert((path, cutoff.micros()), events),
        SnapshotView::Failure(_) => known,
    }
}

/// What is known of the logs of a parent.
pub enum Gathered {
    /// The log at this path has to be read.
    Needs(Seq<char>),
    /// Everything, up to the first log that nothing can be told of.
    Snapshots(Seq<SnapshotView>),
}

/// Whether nothing more has to be looked at.
pub open spec fn is_settled(gathered: Gathered) -> bool {
    match gathered {
        Gathered::Needs(_) => true,
        Gathered::Snapshots(list) => list.len() > 0 && list.last() is Failure,
    }
}

/// What is known of the logs of a parent, and what is known then.
pub open spec fn gather(paths: Seq<Seq<char>>, cutoff: Instant, known: Known, logs: Seq<ParentLog>) -> (
    Gathered,
    Known,
)
    decreases paths.len(),
{
    if paths.len() == 0 {
        (Gathered::Snapshots(Seq::empty()), known)
    } else {
        let before = gather(paths.drop_last(), cutoff, known, logs);
        if is_settled(before.0) {
            before
        } else {
            match snapshot_at(paths.last(), cutoff, before.1, logs) {
                Some(snapshot) => (
                    Gathered::Snapshots(before.0->Snapshots_0.push(snapshot)),
                    with_snapshot(before.1, paths.last(), cutoff, snapshot),
                ),
                None => (Gathered::Needs(paths.last()), before.1),
            }
        }
    }
}

/// Where nothing more has to be looked at, the other logs change nothing.
proof fn lemma_settled_early(
    paths: Seq<Seq<char>>,
    i: int,
    cutoff: Instant,
    known: Known,
    logs: Seq<ParentLog>,
)
    requires
        0 <= i <= paths.len(),
        is_settled(gather(paths.take(i), cutoff, known, logs).0),
    ensures
        gather(paths, cutoff, known, logs) == gather(paths.take(i), cutoff, known, logs),
    decreases paths.len(),
{
    if i == paths.len() {
        assert(paths.take(i) == paths);
    } else {
        assert(paths.drop_last().take(i) == paths.take(i));
        lemma_settled_early(paths.drop_last(), i, cutoff, known, logs);
    }
}

/// Takes a snapshot of the log at a path, where that can be done.
fn take_snapshot(
    path: &str,
    cutoff: Instant,
    logs: &Vec<ParentLog>,
    caches: &mut CodexReplayCaches,
) -> (r: Option<Snapshot>)
    ensures
        final(caches).pending() == old(caches).pending(),
        match r {
            Some(snapshot) => {
                let view = replay::snapshot_view(snapshot);
                &&& snapshot_at(path@, cutoff, old(caches).parents(), logs@) == Some(view)
                &&& final(caches).parents() == with_snapshot(
                    old(caches).parents(),
                    path@,
                    cutoff,
                    view,
                )
            },
            None => {
                &&& snapshot_at(path@, cutoff, old(caches).parents(), logs@) is None
                &&& final(caches).parents() == old(caches).parents()
            },
        },
{
    if let Some(known) = caches.parent_signatures(path, &cutoff) {
        let copy = replay::copy_signatures(known);
        assert(caches.parents() =~= caches.parents().insert((path@, cutoff.micros()), copy@));
        return Some(Ok(copy));
    }
    match find_log(logs, path) {
        Some(Ok(lines)) => {
            let snapshot = replay::parent_signatures_before(lines, cutoff, path);
            if let Ok(signatures) = &snapshot {
                caches.remember_parent(path, &cutoff, signatures);
            }
            Some(snapshot)
        },
        Some(Err(error)) => {
            let head = text::concat3("无法打开父 rollout ", path, ": ");
            Some(Err(text::concat2(head.as_str(), error.as_str())))
        },
        None => None,
    }
}

/// What is known of the logs of a parent: snapshots, or the path of a log that has to
/// be read.
fn gather_snapshots(
    paths: &Vec<String>,
    cutoff: Instant,
    logs: &Vec<ParentLog>,
    caches: &mut CodexReplayCaches,
) -> (r: Result<Vec<Snapshot>, String>)
    ensures
        final(caches).pending() == old(caches).pending(),
        ({
            let all = gather(text::views(paths@), cutoff, old(caches).parents(), logs@);
            &&& final(caches).parents() == all.1
            &&& match r {
                Ok(list) => all.0 == Gathered::Snapshots(replay::snapshot_views(list@)),
                Err(path) => all.0 == Gathered::Needs(path@),
            }
        }),
{
    let ghost views = text::views(paths@);
    let ghost known = caches.parents();
    let mut list: Vec<Snapshot> = Vec::new();
    let mut i: usize = 0;
    assert(views.take(0) =~= Seq::empty());
    assert(replay::snapshot_views(list@) =~= Seq::empty());
    while i < paths.len()
        invariant
            i <= paths@.len() == views.len(),
            views == text::views(paths@),
            known == old(caches).parents(),
            caches.pending() == old(caches).pending(),
            gather(views.take(i as int), cutoff, known, logs@) == (
                Gathered::Snapshots(replay::snapshot_views(list@)),
                caches.parents(),
            ),
            !is_settled(Gathered::Snapshots(replay::snapshot_views(list@))),
        decreases paths@.len() - i,
    {
        assert(views.take(i + 1).drop_last() == views.take(i as int));
        assert(views.take(i + 1).last() == paths@[i as int]@);
        let ghost before = replay::snapshot_views(list@);
        match take_snapshot(paths[i].as_str(), cutoff, logs, caches) {
            Some(snapshot) => {
                let failed = snapshot.is_err();
                list.push(snapshot);
                assert(replay::snapshot_views(list@) =~= before.push(
                    replay::snapshot_view(snapshot),
                ));
                if failed {
                    proof {
                        lemma_settled_early(views, i + 1, cutoff, known, logs@);
                    }
                    return Ok(list);
                }
            },
            None => {
                proof {
                    lemma_settled_early(views, i + 1, cutoff, known, logs@);
                }
                return Err(paths[i].clone());
            },
        }
        i = i + 1;
    }
    assert(views.take(i as int) == views);
    Ok(list)
}

/// What is done next with a log.
#[derive(Debug)]
pub enum FileStep {
    /// Nothing: it has not changed since it was last read.
    Unchanged,
    /// Nothing: its usage cannot be told; where that is news, why.
    PutOff { warning: Option<String> },
    /// It is read.
    ReadLog,
    /// The log of its parent at this path is read.
    ReadParent(String),
    /// It counts as read up to a line, as it uses no tokens.
    Advance { line_offset: i64 },
    /// Its lines are scanned as the log of a thread, beginning in a phase, with these
    /// events of its parent.
    Scan { thread: String, parent: Vec<TokenUsageSignature>, phase: ReplayPhase },
}

/// The model of [`FileStep`].
pub enum StepView {
    Unchanged,
    PutOff { warning: Option<Seq<char>> },
    ReadLog,
    ReadParent(Seq<char>),
    Advance { line_offset: int },
    Scan { thread: Seq<char>, parent: Seq<TokenUsageSignature>, phase: ReplayPhase },
}

impl View for FileStep {
    type V = StepView;

    open spec fn view(&self) -> StepView {
        match *self {
            FileStep::Unchanged => StepView::Unchanged,
            FileStep::PutOff { warning } => StepView::PutOff { warning: text::option_view(warning) },
            FileStep::ReadLog => StepView::ReadLog,
            FileStep::ReadParent(path) => StepView::ReadParent(path@),
            FileStep::Advance { line_offset } => StepView::Advance {
                line_offset: line_offset as int,
            },
            FileStep::Scan { thread, parent, phase } => StepView::Scan {
                thread: thread@,
                parent: parent@,
                phase,
            },
        }
    }
}

/// Where reading a log has come to: when the log had last changed then, and how many of its
/// lines had been read.
#[derive(Debug, Clone, Copy, PartialEq, Eq, Structural)]
pub struct SyncCursor {
    pub modified: i64,
    pub line_offset: i64,
}

/// How a log ends that is not scanned: what it came to, and where reading it has come to,
/// where that is to be written down anew.
#[derive(Debug, Clone, Copy)]
pub struct FileEnd {
    pub result: CodexFileSyncResult,
    pub cursor: Option<SyncCursor>,
}

/// How a log ends with a step, unless something is still to be read or scanned.
pub open spec fn end_of(step: StepView, modified: i64) -> Option<FileEnd> {
    match step {
        StepView::Unchanged => Some(FileEnd { result: sync::left_out(0), cursor: None }),
        StepView::PutOff { .. } => Some(
            FileEnd {
                result: CodexFileSyncResult {
                    imported: 0,
                    skipped: 0,
                    suspected_duplicates: 0,
                    deferred: true,
                },
                cursor: None,
            },
        ),
        StepView::Advance { line_offset } => Some(
            FileEnd {
                result: sync::left_out(0),
                cursor: Some(SyncCursor { modified, line_offset: line_offset as i64 }),
            },
        ),
        _ => None,
    }
}

/// Where reading a log has come to after its end.
pub open spec fn cursor_after(last: SyncCursor, end: FileEnd) -> SyncCursor {
    match end.cursor {
        Some(cursor) => cursor,
        None => last,
    }
}

impl FileStep {
    /// How a log that changed at `modified` ends with this step, unless something is still
    /// to be read or scanned.
    pub fn end(&self, modified: i64) -> (r: Option<FileEnd>)
        ensures
            r == end_of(self@, modified),
    {
        match self {
            FileStep::Unchanged => Some(
                FileEnd { result: CodexFileSyncResult::with_skipped(0), cursor: None },
            ),
            FileStep::PutOff { .. } => Some(
                FileEnd { result: CodexFileSyncResult::put_off(), cursor: None },
            ),
            FileStep::Advance { line_offset } => Some(
                FileEnd {
                    result: CodexFileSyncResult::with_skipped(0),
                    cursor: Some(SyncCursor { modified, line_offset: *line_offset }),
                },
            ),
            _ => None,
        }
    }
}

/// What is done next with a log, and what is remembered then: which logs are put off,
/// and what is known of logs.
pub struct Progress {
    pub step: StepView,
    pub put_off: Map<Seq<char>, PendingView>,
    pub known: Known,
}

/// A log is put off for a reason, unless it uses no tokens.
pub open spec fn deferred(
    file: FileStat,
    lines: Seq<Option<Seq<char>>>,
    reason: ReasonView,
    put_off: Map<Seq<char>, PendingView>,
    known: Known,
) -> Progress {
    let entry = PendingView { modified: file.modified, size: file.size, reason };
    if scan::counted(lines).1 {
        let told = put_off.dom().contains(file.path@) && put_off[file.path@] == entry;
        Progress {
            step: StepView::PutOff {
                warning: if told {
                    None
                } else {
                    Some(pending::reason_text(reason))
                },
            },
            put_off: put_off.insert(file.path@, entry),
            known,
        }
    } else {
        Progress { step: StepView::Advance { line_offset: lines.len() as int }, put_off, known }
    }
}

/// A log is scanned, and no longer put off.
pub open spec fn scanned(
    file: FileStat,
    thread: Seq<char>,
    parent: Seq<TokenUsageSignature>,
    phase: ReplayPhase,
    put_off: Map<Seq<char>, PendingView>,
    known: Known,
) -> Progress {
    Progress {
        step: StepView::Scan { thread, parent, phase },
        put_off: put_off.remove(file.path@),
        known,
    }
}

/// What is done with the log of a thread that was forked from another one.
pub open spec fn forked(
    file: FileStat,
    lines: Seq<Option<Seq<char>>>,
    thread: Seq<char>,
    parent_id: Seq<char>,
    cutoff: Instant,
    logs: Seq<ParentLog>,
    index: RolloutIndex,
    put_off: Map<Seq<char>, PendingView>,
    known: Known,
) -> Progress {
    if !index.has(parent_id) {
        deferred(file, lines, ReasonView::MissingParent(parent_id), put_off, known)
    } else {
        let gathered = gather(index.paths_of(parent_id), cutoff, known, logs);
        match gathered.0 {
            Gathered::Needs(path) => Progress {
                step: StepView::ReadParent(path),
                put_off,
                known: gathered.1,
            },
            Gathered::Snapshots(list) => match replay::parent_events(parent_id, Some(list)) {
                SnapshotView::Events(events) => scanned(
                    file,
                    thread,
                    events,
                    ReplayPhase::Matching { parent_offset: 0 },
                    put_off,
                    gathered.1,
                ),
                SnapshotView::Failure(reason) => deferred(
                    file,
                    lines,
                    ReasonView::Retryable(reason),
                    put_off,
                    gathered.1,
                ),
            },
        }
    }
}

/// What is done with a log that has been read.
pub open spec fn with_log(
    file: FileStat,
    lines: Seq<Option<Seq<char>>>,
    logs: Seq<ParentLog>,
    index: RolloutIndex,
    put_off: Map<Seq<char>, PendingView>,
    known: Known,
) -> Progress {
    match sync::stat_thread(file) {
        None => deferred(file, lines, sync::nameless(), put_off, known),
        Some(thread) => match sync::start_of(sync::meta_of(lines, thread)) {
            StartView::Defer(reason) => deferred(file, lines, reason, put_off, known),
            StartView::Live => scanned(
                file,
                thread,
                Seq::empty(),
                ReplayPhase::Live,
                put_off,
                known,
            ),
            StartView::Forked { parent_id, cutoff } => forked(
                file,
                lines,
                thread,
                parent_id,
                cutoff,
                logs,
                index,
                put_off,
                known,
            ),
        },
    }
}

/// What is done next with a log; `log` are its lines, where they have been read, and
/// `logs` the logs of its parent that have been.
pub open spec fn progress(
    file: FileStat,
    log: Option<Seq<Option<Seq<char>>>>,
    logs: Seq<ParentLog>,
    index: RolloutIndex,
    put_off: Map<Seq<char>, PendingView>,
    known: Known,
) -> Progress {
    if sync::is_unchanged(file.modified, file.last_modified, file.suspicious) {
        Progress { step: StepView::Unchanged, put_off, known }
    } else if sync::is_deferred(put_off, file.path@, file.modified, file.size, index) {
        Progress { step: StepView::PutOff { warning: None }, put_off, known }
    } else {
        let left = sync::looked_at_again(put_off, file.path@, file.modified, file.size);
        match log {
            None => Progress { step: StepView::ReadLog, put_off: left, known },
            Some(lines) => with_log(file, lines, logs, index, left, known),
        }
    }
}

/// The model of the lines of a log that may have been read.
pub open spec fn log_view(log: Option<Lines>) -> Option<Seq<Option<Seq<char>>>> {
    match log {
        Some(lines) => Some(meta::line_views(lines@)),
        None => None,
    }
}

/// Puts a log off for a reason, unless it uses no tokens.
fn put_off(file: &FileStat, lines: &Lines, reason: PendingReason, caches: &mut CodexReplayCaches) -> (r:
    FileStep)
    requires
        lines@.len() <= i64::MAX,
    ensures
        (Progress { step: r@, put_off: final(caches).pending(), known: final(caches).parents() })
            == deferred(
            *file,
            meta::line_views(lines@),
            reason@,
            old(caches).pending(),
            old(caches).parents(),
        ),
{
    let said = reason.text();
    match pending::defer_billable_file_or_advance(
        lines,
        file.path.as_str(),
        file.modified,
        file.size,
        reason,
        caches,
    ) {
        Deferral::Deferred { news } => FileStep::PutOff {
            warning: if news {
                Some(said)
            } else {
                None
            },
        },
        Deferral::Advance { line_offset } => FileStep::Advance { line_offset },
    }
}

/// What is done next with a log. It is asked again each time that what it asked for
/// has been read, until it asks for nothing more: `log` are the lines of the log, and
/// `logs` the logs of its parent, that have been read so far.
pub fn sync_single_codex_file(
    file: &FileStat,
    log: &Option<Lines>,
    logs: &Vec<ParentLog>,
    index: &RolloutIndex,
    caches: &mut CodexReplayCaches,
) -> (r: FileStep)
    requires
        log matches Some(lines) ==> lines@.len() <= i64::MAX,
    ensures
        (Progress { step: r@, put_off: final(caches).pending(), known: final(caches).parents() })
            == progress(
            *file,
            log_view(*log),
            logs@,
            *index,
            old(caches).pending(),
            old(caches).parents(),
        ),
{
    let check = sync::check_codex_file(file, index, caches);
    let thread = match check {
        FileCheck::Unchanged => {
            return FileStep::Unchanged;
        },
        FileCheck::StillDeferred => {
            return FileStep::PutOff { warning: None };
        },
        FileCheck::NoThread(reason) => {
            return match log {
                Some(lines) => put_off(file, lines, reason, caches),
                None => FileStep::ReadLog,
            };
        },
        FileCheck::Read(thread) => thread,
    };
    let lines = match log {
        Some(lines) => lines,
        None => {
            return FileStep::ReadLog;
        },
    };
    match sync::start_codex_file(lines, thread.as_str()) {
        FileStart::Defer(reason) => put_off(file, lines, reason, caches),
        FileStart::Live => {
            caches.settle(file.path.as_str());
            FileStep::Scan { thread, parent: Vec::new(), phase: ReplayPhase::Live }
        },
        FileStart::Forked { parent_id, cutoff } => {
            let paths = match index.get(parent_id.as_str()) {
                Some(paths) => paths,
                None => {
                    return put_off(file, lines, PendingReason::MissingParent(parent_id), caches);
                },
            };
            let snapshots = match gather_snapshots(paths, cutoff, logs, caches) {
                Ok(list) => Some(list),
                Err(path) => {
                    return FileStep::ReadParent(path);
                },
            };
            match replay::resolve_parent_signatures(parent_id.as_str(), &snapshots) {
                Ok(parent) => {
                    caches.settle(file.path.as_str());
                    FileStep::Scan {
                        thread,
                        parent,
                        phase: ReplayPhase::Matching { parent_offset: 0 },
                    }
                },
                Err(reason) => put_off(file, lines, PendingReason::Retryable(reason), caches),
            }
        },
    }
}

/// A log that is asked for has not been read yet.
proof fn lemma_only_unread_is_needed(
    paths: Seq<Seq<char>>,
    cutoff: Instant,
    known: Known,
    logs: Seq<ParentLog>,
)
    ensures
        gather(paths, cutoff, known, logs).0 matches Gathered::Needs(path) ==> read_at(logs, path)
            is None,
    decreases paths.len(),
{
    if paths.len() > 0 {
        lemma_only_unread_is_needed(paths.drop_last(), cutoff, known, logs);
    }
}

/// No log is asked for twice: once it has been read, or turned out to be unreadable, it
/// is not asked for again.
pub proof fn law_nothing_is_read_twice(
    file: FileStat,
    log: Option<Seq<Option<Seq<char>>>>,
    logs: Seq<ParentLog>,
    index: RolloutIndex,
    put_off: Map<Seq<char>, PendingView>,
    known: Known,
)
    ensures
        progress(file, log, logs, index, put_off, known).step matches StepView::ReadParent(path)
            ==> read_at(logs, path) is None,
        log is Some ==> !(progress(file, log, logs, index, put_off, known).step is ReadLog),
{
    if let Some(lines) = log {
        if let Some(thread) = sync::stat_thread(file) {
            if let StartView::Forked { parent_id, cutoff } = sync::start_of(
                sync::meta_of(lines, thread),
            ) {
                lemma_only_unread_is_needed(index.paths_of(parent_id), cutoff, known, logs);
            }
        }
    }
}

/// A log that has been put off is not read again, and nothing more is said of it, as
/// long as neither it nor the logs that there are have changed; unless it was put off
/// because its parent could not be made out, which is tried again each time.
pub proof fn law_a_log_put_off_is_left_alone(
    file: FileStat,
    log: Option<Seq<Option<Seq<char>>>>,
    logs: Seq<ParentLog>,
    index: RolloutIndex,
    put_off: Map<Seq<char>, PendingView>,
    known: Known,
)
    requires
        progress(file, log, logs, index, put_off, known).step is PutOff,
        !(progress(file, log, logs, index, put_off, known).put_off[file.path@].reason is Retryable),
    ensures
        ({
            let first = progress(file, log, logs, index, put_off, known);
            let second = progress(file, None, Seq::empty(), index, first.put_off, first.known);
            &&& second.step == (StepView::PutOff { warning: None })
            &&& second.put_off == first.put_off
        }),
{
}

/// A log is scanned only if it is not put off any more, and put off only if it uses
/// tokens: one that uses none counts as read.
pub proof fn law_only_billable_logs_are_put_off(
    file: FileStat,
    lines: Seq<Option<Seq<char>>>,
    logs: Seq<ParentLog>,
    index: RolloutIndex,
    put_off: Map<Seq<char>, PendingView>,
    known: Known,
)
    requires
        !sync::is_deferred(put_off, file.path@, file.modified, file.size, index),
    ensures
        ({
            let next = progress(file, Some(lines), logs, index, put_off, known);
            &&& next.step is Scan ==> !next.put_off.dom().contains(file.path@)
            &&& next.step is PutOff ==> scan::counted(lines).1
            &&& next.step is Advance ==> !scan::counted(lines).1
        }),
{
}

/// The lines of a log all of which could be read.
pub open spec fn all_read(lines: Seq<Seq<char>>) -> Seq<Option<Seq<char>>> {
    Seq::new(lines.len(), |i: int| Some(lines[i]))
}

/// Whether none of the lines of a log repeats an event.
pub open spec fn repeats_nothing(lines: Seq<Seq<char>>, events: Seq<TokenUsageSignature>) -> bool {
    forall|i: int|
        0 <= i < lines.len() ==> (replay::signature_in(Some(#[trigger] lines[i])) matches Some(
            signature,
        ) ==> !events.contains(signature))
}

/// Whether every log of a parent is known to hold just these events up to an instant: they
/// are remembered of it, or it has been read, says of every use when it was, and was
/// written at least up to that instant.
pub open spec fn all_hold(
    paths: Seq<Seq<char>>,
    cutoff: Instant,
    known: Known,
    logs: Seq<ParentLog>,
    events: Seq<TokenUsageSignature>,
) -> bool {
    forall|i: int| 0 <= i < paths.len() ==> #[trigger] holds(paths[i], cutoff, known, logs, events)
}

/// Whether one log of a parent is known to hold just these events up to an instant.
pub open spec fn holds(
    path: Seq<char>,
    cutoff: Instant,
    known: Known,
    logs: Seq<ParentLog>,
    events: Seq<TokenUsageSignature>,
) -> bool {
    if known.dom().contains((path, cutoff.micros())) {
        known[(path, cutoff.micros())] == events
    } else {
        &&& read_at(logs, path) matches Some(ReadView::Lines(lines))
        &&& !replay::has_untimed(lines)
        &&& replay::reaches(lines, cutoff)
        &&& replay::signatures_until(lines, cutoff) == events
    }
}

/// What is gathered of logs that hold the same events.
proof fn lemma_gather(
    paths: Seq<Seq<char>>,
    n: int,
    cutoff: Instant,
    known: Known,
    logs: Seq<ParentLog>,
    events: Seq<TokenUsageSignature>,
)
    requires
        0 <= n <= paths.len(),
        all_hold(paths, cutoff, known, logs, events),
    ensures
        ({
            let (gathered, then) = gather(paths.take(n), cutoff, known, logs);
            &&& gathered == Gathered::Snapshots(
                Seq::new(n as nat, |i: int| SnapshotView::Events(events)),
            )
            &&& all_hold(paths, cutoff, then, logs, events)
        }),
    decreases n,
{
    let some = paths.take(n);
    let list = Seq::new(n as nat, |i: int| SnapshotView::Events(events));
    if n == 0 {
        assert(list =~= Seq::empty());
    } else {
        lemma_gather(paths, n - 1, cutoff, known, logs, events);
        assert(some.drop_last() =~= paths.take(n - 1));
        assert(some.last() == paths[n - 1]);
        let before = Seq::new((n - 1) as nat, |i: int| SnapshotView::Events(events));
        let then = gather(paths.take(n - 1), cutoff, known, logs).1;
        assert(before.push(SnapshotView::Events(events)) =~= list);
        let more = with_snapshot(
            then,
            some.last(),
            cutoff,
            SnapshotView::Events(events),
        );
        assert(holds(paths[n - 1], cutoff, then, logs, events));
        assert forall|i: int| 0 <= i < paths.len() implies #[trigger] holds(
            paths[i],
            cutoff,
            more,
            logs,
            events,
        ) by {
            assert(holds(paths[i], cutoff, then, logs, events));
        }
    }
}

/// Among snapshots of the same events none failed.
proof fn lemma_no_failure(list: Seq<SnapshotView>, events: Seq<TokenUsageSignature>)
    requires
        forall|i: int| 0 <= i < list.len() ==> #[trigger] list[i] == SnapshotView::Events(events),
    ensures
        replay::first_failure(list) is None,
    decreases list.len(),
{
    if list.len() > 0 {
        assert forall|i: int| 0 <= i < list.drop_first().len() implies #[trigger] list.drop_first()[i]
            == SnapshotView::Events(events) by {
            assert(list[i + 1] == SnapshotView::Events(events));
        }
        lemma_no_failure(list.drop_first(), events);
    }
}

/// An event that does not stand among those of the parent is not found there.
proof fn lemma_no_match(parent: Seq<TokenUsageSignature>, signature: TokenUsageSignature, from: int)
    requires
        !parent.contains(signature),
        0 <= from,
    ensures
        replay::first_match(parent, signature, from) is None,
    decreases parent.len() - from,
{
    if from < parent.len() {
        assert(parent[from] != signature);
        lemma_no_match(parent, signature, from + 1);
    }
}

/// A log that repeats nothing of its parent is billed as one without a parent.
proof fn lemma_billed_as_live(
    thread: Seq<char>,
    events: Seq<TokenUsageSignature>,
    now: i64,
    lines: Seq<Seq<char>>,
)
    requires
        repeats_nothing(lines, events),
    ensures
        ({
            let forked = scan::scan_all(
                scan::initial_state(ReplayPhase::Matching { parent_offset: 0 }),
                LogContext { thread, parent: events, now },
                lines,
                0,
            );
            let live = scan::scan_all(
                scan::initial_state(ReplayPhase::Live),
                LogContext { thread, parent: Seq::empty(), now },
                lines,
                0,
            );
            &&& forked.0 == (ParseView { replay_phase: forked.0.replay_phase, ..live.0 })
            &&& forked.0.replay_phase == (ReplayPhase::Matching { parent_offset: 0 })
                || forked.0.replay_phase == ReplayPhase::Live
            &&& live.0.replay_phase == ReplayPhase::Live
            &&& forked.1 == live.1
            &&& forked.2 == 0
            &&& live.0.prev_total == scan::counted(all_read(lines)).0
            &&& live.1.len() > 0 <==> scan::counted(all_read(lines)).1
        }),
    decreases lines.len(),
{
    if lines.len() == 0 {
        assert(all_read(lines) =~= Seq::empty());
    } else {
        let head = lines.drop_last();
        let line = lines.last();
        assert(lines[lines.len() - 1] == line);
        assert(repeats_nothing(head, events)) by {
            assert forall|i: int| 0 <= i < head.len() implies (replay::signature_in(
                Some(#[trigger] head[i]),
            ) matches Some(signature) ==> !events.contains(signature)) by {
                assert(head[i] == lines[i]);
            }
        }
        lemma_billed_as_live(thread, events, now, head);
        assert(all_read(lines).drop_last() =~= all_read(head));
        assert(all_read(lines).last() == Some(line));
        if let Some(signature) = replay::signature_in(Some(line)) {
            lemma_no_match(events, signature, 0);
        }
        if let Some(value) = json::json_parsed(line) {
            reveal_strlit("turn_context");
            reveal_strlit("event_msg");
            assert("turn_context"@.len() != "event_msg"@.len());
        }
    }
}

/// What a log comes to when all its calls are written: each of them is counted, as far as
/// can be.
proof fn lemma_all_written(skipped: u32, outcomes: Seq<InsertOutcome>)
    requires
        forall|i: int| 0 <= i < outcomes.len() ==> sync::is_imported(#[trigger] outcomes[i]),
    ensures
        ({
            let result = sync::with_calls(sync::left_out(skipped), outcomes);
            &&& result.imported == if outcomes.len() <= u32::MAX {
                outcomes.len() as int
            } else {
                u32::MAX as int
            }
            &&& result.skipped == skipped
            &&& !result.deferred
        }),
    decreases outcomes.len(),
{
    if outcomes.len() > 0 {
        assert forall|i: int| 0 <= i < outcomes.drop_last().len() implies sync::is_imported(
            #[trigger] outcomes.drop_last()[i],
        ) by {
            assert(sync::is_imported(outcomes[i]));
        }
        lemma_all_written(skipped, outcomes.drop_last());
        assert(sync::is_imported(outcomes[outcomes.len() - 1]));
    }
}

/// A log that is put off because its parent is missing keeps its place: nothing of it is
/// imported, and where reading had come to is left as it was. Once the parent is there,
/// written up to the fork and with other events than the child has, the child is read again
/// though it has not changed. All that it uses is billed then, as if it had no parent, and
/// where all of it can be written (`outcomes`) all of it is imported; it is no longer put
/// off.
pub proof fn law_a_log_put_off_is_billed_once_its_parent_is_there(
    file: FileStat,
    child: Seq<Seq<char>>,
    thread: Seq<char>,
    parent_id: Seq<char>,
    cutoff: Instant,
    last: SyncCursor,
    logs_before: Seq<ParentLog>,
    index_before: RolloutIndex,
    put_off: Map<Seq<char>, PendingView>,
    known: Known,
    logs: Seq<ParentLog>,
    index: RolloutIndex,
    known_later: Known,
    events: Seq<TokenUsageSignature>,
    now: i64,
    outcomes: Seq<InsertOutcome>,
)
    requires
        !sync::is_unchanged(file.modified, file.last_modified, file.suspicious),
        !sync::is_deferred(put_off, file.path@, file.modified, file.size, index_before),
        sync::stat_thread(file) == Some(thread),
        sync::start_of(sync::meta_of(all_read(child), thread)) == (StartView::Forked {
            parent_id,
            cutoff,
        }),
        scan::counted(all_read(child)).1,
        !index_before.has(parent_id),
        index.has(parent_id),
        index.paths_of(parent_id).len() > 0,
        all_hold(index.paths_of(parent_id), cutoff, known_later, logs, events),
        repeats_nothing(child, events),
        outcomes.len() == scan::scan_all(
            scan::initial_state(ReplayPhase::Matching { parent_offset: 0 }),
            LogContext { thread, parent: events, now },
            child,
            0,
        ).1.len(),
        forall|i: int| 0 <= i < outcomes.len() ==> sync::is_imported(#[trigger] outcomes[i]),
    ensures
        ({
            let first = progress(
                file,
                Some(all_read(child)),
                logs_before,
                index_before,
                put_off,
                known,
            );
            let asked = progress(file, None, Seq::empty(), index, first.put_off, first.known);
            let second = progress(
                file,
                Some(all_read(child)),
                logs,
                index,
                asked.put_off,
                known_later,
            );
            let billed = scan::scan_all(
                scan::initial_state(ReplayPhase::Matching { parent_offset: 0 }),
                LogContext { thread, parent: events, now },
                child,
                0,
            );
            let result = sync::with_calls(sync::left_out(billed.2 as u32), outcomes);
            &&& first.step is PutOff
            &&& first.put_off.dom().contains(file.path@)
            &&& first.put_off[file.path@].reason == ReasonView::MissingParent(parent_id)
            &&& end_of(first.step, file.modified) matches Some(end) && {
                &&& end.result.deferred
                &&& end.result.imported == 0
                &&& end.result.skipped == 0
                &&& cursor_after(last, end) == last
            }
            &&& asked.step is ReadLog
            &&& second.step == (StepView::Scan {
                thread,
                parent: events,
                phase: ReplayPhase::Matching { parent_offset: 0 },
            })
            &&& end_of(second.step, file.modified) is None
            &&& !second.put_off.dom().contains(file.path@)
            &&& billed.1.len() > 0
            &&& billed.1 == scan::scan_all(
                scan::initial_state(ReplayPhase::Live),
                LogContext { thread, parent: Seq::empty(), now },
                child,
                0,
            ).1
            &&& billed.2 == 0
            &&& !result.deferred
            &&& result.imported == if billed.1.len() <= u32::MAX {
                billed.1.len() as int
            } else {
                u32::MAX as int
            }
            &&& result.skipped == 0
        }),
{
    let paths = index.paths_of(parent_id);
    let n = paths.len() as int;
    assert(paths.take(n) =~= paths);
    lemma_gather(paths, n, cutoff, known_later, logs, events);
    let list = Seq::new(paths.len(), |i: int| SnapshotView::Events(events));
    lemma_no_failure(list, events);
    assert(list[0] == SnapshotView::Events(events));
    lemma_billed_as_live(thread, events, now, child);
    lemma_all_written(0, outcomes);
}

} // verus!
