//! What holds of a synchronisation from its beginning to its end, whatever comes of its
//! steps.

use vstd::prelude::*;
use crate::services::session_usage::SESSION_LOG_COMMIT_BATCH;
use crate::services::session_usage_opencode::batch;
#[allow(unused_imports)]
use crate::services::session_usage_opencode::batch::{BatchView, FlushAction, InsertView, ItemView};
#[allow(unused_imports)]
use crate::services::session_usage_opencode::message::MessageView;
use crate::services::session_usage_opencode::sync;
#[allow(unused_imports)]
use crate::services::session_usage_opencode::sync::{
    EventView, Outcome, RunView, Stage, StepView,
};

verus! {

/// What a synchronisation comes to by one event after the other.
pub open spec fn follow(s: RunView, events: Seq<EventView>) -> RunView
    decreases events.len(),
{
    if events.len() == 0 {
        s
    } else {
        sync::step(follow(s, events.drop_last()), events.last()).0
    }
}

/// Whether each of the events is what was waited for when it came.
pub open spec fn accepted(s: RunView, events: Seq<EventView>) -> bool
    decreases events.len(),
{
    events.len() > 0 ==> {
        &&& accepted(s, events.drop_last())
        &&& sync::accepts(follow(s, events.drop_last()), events.last())
    }
}

/// The step that the last of the events led to.
pub open spec fn last_step(s: RunView, events: Seq<EventView>) -> StepView {
    sync::step(follow(s, events.drop_last()), events.last()).1
}

/// Whether an event tells that something could not be read or written, or that a message
/// is still under way.
pub open spec fn is_setback(event: EventView) -> bool {
    match event {
        EventView::Messages { incomplete, .. } => incomplete,
        EventView::MessagesFailed(_) => true,
        EventView::Inserted(outcome) => outcome is Failed,
        EventView::Advanced(outcome) => outcome is Failed,
        _ => false,
    }
}

/// Whether an event ends a synchronisation before everything is done.
pub open spec fn is_stop(event: EventView) -> bool {
    match event {
        EventView::Begun(outcome) => outcome is Failed,
        EventView::Committed(outcome) => outcome is Failed,
        EventView::FileAdvanced(outcome) => outcome is Failed,
        _ => false,
    }
}

/// Whether none of the events is a setback.
pub open spec fn no_setback(events: Seq<EventView>) -> bool {
    forall|i: int| 0 <= i < events.len() ==> !is_setback(#[trigger] events[i])
}

/// Whether none of the events ends the synchronisation early.
pub open spec fn no_stop(events: Seq<EventView>) -> bool {
    forall|i: int| 0 <= i < events.len() ==> !is_stop(#[trigger] events[i])
}

/// Whether the database as a whole came to count as read.
pub open spec fn file_advanced(events: Seq<EventView>) -> bool {
    events.contains(EventView::FileAdvanced(Outcome::Done))
}

/// Whether items can be put into the batch.
spec fn is_open(s: RunView) -> bool {
    &&& s.reading ==> s.sessions.len() > 0
    &&& !sync::is_full(s.batch)
}

/// The number of sessions that have not been read to their end.
spec fn pending(s: RunView) -> int {
    s.batch.batch.len() - batch::message_count(s.batch.batch) + s.sessions.len()
}

/// No more messages than items are in a batch.
proof fn lemma_message_count(items: Seq<ItemView>)
    ensures
        batch::message_count(items) <= items.len(),
    decreases items.len(),
{
    if items.len() > 0 {
        lemma_message_count(items.drop_last());
    }
}

proof fn lemma_filled(s: RunView)
    requires
        batch::message_count(s.batch.batch) <= SESSION_LOG_COMMIT_BATCH,
    ensures
        ({
            let t = sync::filled(s);
            &&& t.sessions == s.sessions
            &&& t.stage == s.stage
            &&& t.file_modified == s.file_modified
            &&& sync::all_well(t) == sync::all_well(s)
            &&& t.batch.session_errors == s.batch.session_errors
            &&& batch::message_count(t.batch.batch) <= SESSION_LOG_COMMIT_BATCH
            &&& pending(t) == pending(s)
        }),
    decreases s.messages.len(),
{
    if !sync::is_full(s.batch) && s.messages.len() > 0 {
        let (id, msg_data) = s.messages[0];
        let item = ItemView::Message {
            session_id: s.sessions[0].0,
            request_id: batch::request_id(s.sessions[0].0, id),
            msg_data,
        };
        batch::law_batches_are_bounded(s.batch.batch, item, SESSION_LOG_COMMIT_BATCH as nat);
        lemma_filled(
            RunView {
                messages: s.messages.drop_first(),
                batch: sync::with_item(s.batch, item),
                ..s
            },
        );
    }
}

proof fn lemma_go_on(s: RunView)
    requires
        is_open(s),
    ensures
        ({
            let t = sync::go_on(s).0;
            &&& sync::is_sound(t)
            &&& t.file_modified == s.file_modified
            &&& sync::all_well(t) == sync::all_well(s)
            &&& t.stage is State || t.stage is Begin || t.stage is FileBegin || t.stage is Finished
            &&& t.stage is Finished ==> !sync::all_well(t)
            &&& !(sync::go_on(s).1 is AdvanceFile)
            &&& pending(t) <= pending(s)
        }),
{
    if s.reading {
        lemma_filled(s);
        let t = sync::filled(s);
        if !sync::is_full(t.batch) {
            batch::law_batches_are_bounded(
                t.batch.batch,
                sync::ended(t).batch.batch.last(),
                SESSION_LOG_COMMIT_BATCH as nat,
            );
        }
    }
}

proof fn lemma_write_from(s: RunView, item: int)
    requires
        0 <= item,
        s.batch.batch.len() <= usize::MAX,
        s.reading ==> s.sessions.len() > 0,
        batch::message_count(s.batch.batch) <= SESSION_LOG_COMMIT_BATCH,
    ensures
        ({
            let t = sync::write_from(s, item).0;
            &&& sync::is_sound(t)
            &&& t.file_modified == s.file_modified
            &&& sync::all_well(t) == sync::all_well(s)
            &&& t.stage is Item || t.stage is Commit
            &&& !(sync::write_from(s, item).1 is AdvanceFile)
            &&& pending(t) == pending(s)
        }),
    decreases s.batch.batch.len() - item,
{
    if item < s.batch.batch.len() {
        let t = RunView { batch: sync::reached(s.batch, item), ..s };
        if batch::action_of(s.batch.batch[item], s.batch.session_errors) is Nothing {
            lemma_write_from(t, item + 1);
        }
    }
}

/// What one event does to a synchronisation.
proof fn lemma_step(s: RunView, event: EventView)
    requires
        sync::is_sound(s),
        s.batch.batch.len() <= usize::MAX,
        sync::accepts(s, event),
    ensures
        ({
            let t = sync::step(s, event).0;
            let advanced = event == EventView::FileAdvanced(Outcome::Done);
            &&& sync::is_sound(t)
            &&& t.file_modified == s.file_modified
            &&& sync::all_well(t) == (sync::all_well(s) && !is_setback(event))
            &&& t.stage is FileCommit <==> advanced
            &&& s.stage is FileCommit ==> t.stage is Finished
            &&& t.stage is Finished && !is_stop(event) && !(s.stage is FileCommit) ==> !sync::all_well(t)
            &&& pending(t) <= pending(s)
            &&& sync::step(s, event).1 is AdvanceFile <==> t.stage is File
            &&& t.stage is File ==> sync::step(s, event).1 == (StepView::AdvanceFile {
                file_modified: s.file_modified,
            })
        }),
{
    match (s.stage, event) {
        (Stage::Start, EventView::Start) => {
            lemma_go_on(s);
        },
        (Stage::State, EventView::State { last_modified }) => {
            lemma_go_on(sync::passed(s));
        },
        (Stage::Messages, EventView::Messages { messages, incomplete }) => {
            lemma_go_on(
                RunView {
                    reading: true,
                    messages,
                    incomplete,
                    batch: BatchView {
                        saw_incomplete: s.batch.saw_incomplete || incomplete,
                        ..s.batch
                    },
                    ..s
                },
            );
        },
        (Stage::Messages, EventView::MessagesFailed(error)) => {
            lemma_go_on(
                sync::passed(
                    RunView {
                        batch: batch::with_error(
                            s.batch,
                            "OpenCode 会话消息查询失败 "@ + s.sessions[0].0 + ": "@ + error,
                        ),
                        ..s
                    },
                ),
            );
        },
        (Stage::Begin, EventView::Begun(Outcome::Done)) => {
            lemma_write_from(s, 0);
        },
        (Stage::Item { item }, EventView::Inserted(outcome)) => {
            lemma_write_from(
                RunView {
                    batch: batch::with_insert(
                        s.batch,
                        s.batch.batch[item as int]->Message_session_id,
                        s.batch.batch[item as int]->request_id,
                        outcome,
                    ),
                    ..s
                },
                item + 1,
            );
        },
        (Stage::Item { item }, EventView::Advanced(Outcome::Done)) => {
            lemma_write_from(s, item + 1);
        },
        (Stage::Item { item }, EventView::Advanced(Outcome::Failed(error))) => {
            lemma_write_from(
                RunView {
                    batch: batch::with_error(
                        s.batch,
                        "OpenCode 会话同步状态更新失败 "@ + s.batch.batch[item as int]->sync_key
                            + ": "@ + error,
                    ),
                    ..s
                },
                item + 1,
            );
        },
        (Stage::Commit, EventView::Committed(Outcome::Done)) => {
            lemma_message_count(s.batch.batch);
            lemma_go_on(RunView { batch: BatchView { batch: Seq::empty(), ..s.batch }, ..s });
        },
        _ => {},
    }
}

/// At every point of a synchronisation: it is sound, it is about the database of the same
/// time, and all is well as long as there was no setback.
proof fn lemma_follow(
    db_path: Seq<char>,
    file_modified: i64,
    found: Seq<(Seq<char>, i64)>,
    events: Seq<EventView>,
)
    requires
        accepted(sync::begun(db_path, file_modified, found), events),
        found.len() + SESSION_LOG_COMMIT_BATCH <= usize::MAX,
    ensures
        ({
            let s = follow(sync::begun(db_path, file_modified, found), events);
            &&& sync::is_sound(s)
            &&& s.file_modified == file_modified
            &&& pending(s) <= found.len()
            &&& s.batch.batch.len() <= usize::MAX
            &&& sync::all_well(s) <==> no_setback(events)
            &&& file_advanced(events) ==> (s.stage is FileCommit || s.stage is Finished)
                && no_setback(events)
            &&& s.stage is FileCommit ==> file_advanced(events)
            &&& s.stage is Finished && no_stop(events) && no_setback(events) ==> file_advanced(
                events,
            )
        }),
    decreases events.len(),
{
    let s0 = sync::begun(db_path, file_modified, found);
    if events.len() > 0 {
        let head = events.drop_last();
        let last = events.last();
        let s = follow(s0, head);
        let t = follow(s0, events);
        lemma_follow(db_path, file_modified, found, head);
        lemma_step(s, last);
        lemma_message_count(t.batch.batch);
        assert(events[events.len() - 1] == last);
        assert(no_setback(events) <==> no_setback(head) && !is_setback(last)) by {
            if no_setback(events) {
                assert forall|i: int| 0 <= i < head.len() implies !is_setback(#[trigger] head[i]) by {
                    assert(head[i] == events[i]);
                }
            }
            if no_setback(head) && !is_setback(last) {
                assert forall|i: int| 0 <= i < events.len() implies !is_setback(
                    #[trigger] events[i],
                ) by {
                    if i < head.len() {
                        assert(head[i] == events[i]);
                    }
                }
            }
        }
        assert(no_stop(events) ==> no_stop(head) && !is_stop(last)) by {
            if no_stop(events) {
                assert forall|i: int| 0 <= i < head.len() implies !is_stop(#[trigger] head[i]) by {
                    assert(head[i] == events[i]);
                }
            }
        }
        let advanced = EventView::FileAdvanced(Outcome::Done);
        assert(file_advanced(events) <==> file_advanced(head) || last == advanced) by {
            if file_advanced(head) {
                let i = choose|i: int| 0 <= i < head.len() && head[i] == advanced;
                assert(events[i] == advanced);
            }
            if file_advanced(events) && last != advanced {
                let i = choose|i: int| 0 <= i < events.len() && events[i] == advanced;
                assert(head[i] == advanced);
            }
        }
    }
}

/// The database as a whole comes to count as read, as of the time it was found with, just
/// when every session has been read and written, nothing could not be read or written,
/// and no message is still under way; a synchronisation that a transaction ends early
/// never comes to that. (The number of sessions is one that can be counted.)
pub proof fn law_the_database_counts_as_read_when_all_went_well(
    db_path: Seq<char>,
    file_modified: i64,
    found: Seq<(Seq<char>, i64)>,
    events: Seq<EventView>,
)
    requires
        accepted(sync::begun(db_path, file_modified, found), events),
        found.len() + SESSION_LOG_COMMIT_BATCH <= usize::MAX,
    ensures
        ({
            let s0 = sync::begun(db_path, file_modified, found);
            let s = follow(s0, events);
            &&& s.stage is Finished && no_stop(events) ==> (file_advanced(events) <==> no_setback(
                events,
            ))
            &&& file_advanced(events) ==> no_setback(events)
            &&& events.len() > 0 && last_step(s0, events) is AdvanceFile ==> {
                &&& last_step(s0, events) == (StepView::AdvanceFile { file_modified })
                &&& no_setback(events)
                &&& s.sessions.len() == 0
                &&& s.batch.batch.len() == 0
            }
        }),
{
    lemma_follow(db_path, file_modified, found, events);
    if events.len() > 0 {
        lemma_follow(db_path, file_modified, found, events.drop_last());
        lemma_step(
            follow(sync::begun(db_path, file_modified, found), events.drop_last()),
            events.last(),
        );
    }
}

/// However many messages the sessions have, no transaction writes more of them than the
/// size of a batch.
pub proof fn law_transactions_are_bounded(
    db_path: Seq<char>,
    file_modified: i64,
    found: Seq<(Seq<char>, i64)>,
    events: Seq<EventView>,
)
    requires
        accepted(sync::begun(db_path, file_modified, found), events),
        found.len() + SESSION_LOG_COMMIT_BATCH <= usize::MAX,
    ensures
        batch::message_count(
            follow(sync::begun(db_path, file_modified, found), events).batch.batch,
        ) <= SESSION_LOG_COMMIT_BATCH,
{
    lemma_follow(db_path, file_modified, found, events);
}

/// The sessions of which a message could not be written.
pub open spec fn failed_sessions(s: RunView, events: Seq<EventView>) -> Set<Seq<char>>
    decreases events.len(),
{
    if events.len() == 0 {
        Set::empty()
    } else {
        let before = failed_sessions(s, events.drop_last());
        let at = follow(s, events.drop_last());
        match (at.stage, events.last()) {
            (Stage::Item { item }, EventView::Inserted(InsertView::Failed(_))) => before.insert(
                at.batch.batch[item as int]->Message_session_id,
            ),
            _ => before,
        }
    }
}

/// The sessions of which a message is still under way.
pub open spec fn unfinished_sessions(s: RunView, events: Seq<EventView>) -> Set<Seq<char>>
    decreases events.len(),
{
    if events.len() == 0 {
        Set::empty()
    } else {
        let before = unfinished_sessions(s, events.drop_last());
        let at = follow(s, events.drop_last());
        match events.last() {
            EventView::Messages { incomplete, .. } => if incomplete {
                before.insert(at.sessions[0].0)
            } else {
                before
            },
            _ => before,
        }
    }
}

/// No session stands twice among those that were found.
pub open spec fn distinct_sessions(found: Seq<(Seq<char>, i64)>) -> bool {
    forall|i: int, j: int|
        0 <= i < j < found.len() ==> (#[trigger] found[i]).0 != (#[trigger] found[j]).0
}

/// What is kept of the sessions whose end is still to come, in the batch from an item on
/// or among those that are left.
spec fn keeps(s: RunView, from: int, failed: Set<Seq<char>>, unfinished: Set<Seq<char>>) -> bool {
    let items = s.batch.batch;
    &&& distinct_sessions(s.sessions)
    &&& forall|k: int|
        from <= k < items.len() && (#[trigger] items[k]) is SessionFinalize ==> {
            &&& failed.contains(items[k]->SessionFinalize_session_id)
                ==> s.batch.session_errors.contains(items[k]->SessionFinalize_session_id)
            &&& unfinished.contains(items[k]->SessionFinalize_session_id)
                ==> !items[k]->advance_state
        }
    &&& forall|k: int, j: int|
        from <= k < items.len() && 0 <= j < s.sessions.len() && (#[trigger] items[k])
            is SessionFinalize ==> items[k]->SessionFinalize_session_id != (
        #[trigger] s.sessions[j]).0
    &&& forall|k: int, l: int|
        from <= k < l < items.len() && (#[trigger] items[k]) is SessionFinalize && (
        #[trigger] items[l]) is SessionFinalize ==> items[k]->SessionFinalize_session_id
            != items[l]->SessionFinalize_session_id
    &&& forall|j: int|
        0 <= j < s.sessions.len() ==> {
            &&& failed.contains((#[trigger] s.sessions[j]).0) ==> s.batch.session_errors.contains(
                s.sessions[j].0,
            )
            &&& unfinished.contains(s.sessions[j].0) ==> j == 0 && s.reading && s.incomplete
        }
}

/// The first item of the batch whose turn is still to come.
spec fn position(s: RunView) -> int {
    match s.stage {
        Stage::Item { item } => item + 1,
        Stage::Commit | Stage::Finished => s.batch.batch.len() as int,
        _ => 0,
    }
}

/// What is kept at every point, and of the session that comes to count as read.
spec fn keeps_all(s: RunView, failed: Set<Seq<char>>, unfinished: Set<Seq<char>>) -> bool {
    &&& keeps(s, position(s), failed, unfinished)
    &&& s.stage matches Stage::Item { item } ==> match s.batch.batch[item as int] {
        ItemView::SessionFinalize { session_id, .. } => !failed.contains(session_id)
            && !unfinished.contains(session_id),
        ItemView::Message { .. } => true,
    }
}

proof fn lemma_filled_keeps(s: RunView, failed: Set<Seq<char>>, unfinished: Set<Seq<char>>)
    requires
        keeps(s, 0, failed, unfinished),
    ensures
        keeps(sync::filled(s), 0, failed, unfinished),
        sync::filled(s).sessions == s.sessions,
        sync::filled(s).reading == s.reading,
        sync::filled(s).incomplete == s.incomplete,
    decreases s.messages.len(),
{
    if !sync::is_full(s.batch) && s.messages.len() > 0 {
        let (id, msg_data) = s.messages[0];
        let item = ItemView::Message {
            session_id: s.sessions[0].0,
            request_id: batch::request_id(s.sessions[0].0, id),
            msg_data,
        };
        let t = RunView {
            messages: s.messages.drop_first(),
            batch: sync::with_item(s.batch, item),
            ..s
        };
        let items = s.batch.batch;
        assert forall|k: int| 0 <= k < t.batch.batch.len() && (#[trigger] t.batch.batch[k])
            is SessionFinalize implies k < items.len() && t.batch.batch[k] == items[k] by {}
        lemma_filled_keeps(t, failed, unfinished);
    }
}

proof fn lemma_passed_keeps(s: RunView, failed: Set<Seq<char>>, unfinished: Set<Seq<char>>)
    requires
        keeps(s, 0, failed, unfinished),
        s.sessions.len() > 0,
    ensures
        keeps(sync::passed(s), 0, failed, unfinished),
{
    let t = sync::passed(s);
    assert forall|j: int| 0 <= j < t.sessions.len() implies #[trigger] t.sessions[j]
        == s.sessions[j + 1] by {}
}

proof fn lemma_ended_keeps(s: RunView, failed: Set<Seq<char>>, unfinished: Set<Seq<char>>)
    requires
        keeps(s, 0, failed, unfinished),
        s.sessions.len() > 0,
        s.reading,
    ensures
        keeps(sync::ended(s), 0, failed, unfinished),
{
    let t = sync::ended(s);
    let items = s.batch.batch;
    let all = t.batch.batch;
    assert forall|j: int| 0 <= j < t.sessions.len() implies #[trigger] t.sessions[j]
        == s.sessions[j + 1] && t.sessions[j].0 != s.sessions[0].0 by {}
    assert forall|k: int| 0 <= k < items.len() implies #[trigger] all[k] == items[k] by {}
    assert(all[items.len() as int]->SessionFinalize_session_id == s.sessions[0].0);
}

proof fn lemma_go_on_keeps(s: RunView, failed: Set<Seq<char>>, unfinished: Set<Seq<char>>)
    requires
        keeps(s, 0, failed, unfinished),
        is_open(s),
    ensures
        keeps_all(sync::go_on(s).0, failed, unfinished),
{
    lemma_go_on(s);
    if s.reading {
        lemma_filled_keeps(s, failed, unfinished);
        let t = sync::filled(s);
        if !sync::is_full(t.batch) {
            lemma_ended_keeps(t, failed, unfinished);
        }
    }
}

proof fn lemma_write_from_keeps(
    s: RunView,
    item: int,
    failed: Set<Seq<char>>,
    unfinished: Set<Seq<char>>,
)
    requires
        0 <= item,
        s.batch.batch.len() <= usize::MAX,
        keeps(s, item, failed, unfinished),
    ensures
        keeps_all(sync::write_from(s, item).0, failed, unfinished),
    decreases s.batch.batch.len() - item,
{
    if item < s.batch.batch.len() {
        let t = RunView { batch: sync::reached(s.batch, item), ..s };
        assert(keeps(t, item + 1, failed, unfinished));
        if batch::action_of(s.batch.batch[item], s.batch.session_errors) is Nothing {
            lemma_write_from_keeps(t, item + 1, failed, unfinished);
        }
    }
}

proof fn lemma_follow_keeps(
    db_path: Seq<char>,
    file_modified: i64,
    found: Seq<(Seq<char>, i64)>,
    events: Seq<EventView>,
)
    requires
        accepted(sync::begun(db_path, file_modified, found), events),
        found.len() + SESSION_LOG_COMMIT_BATCH <= usize::MAX,
        distinct_sessions(found),
    ensures
        ({
            let s0 = sync::begun(db_path, file_modified, found);
            keeps_all(
                follow(s0, events),
                failed_sessions(s0, events),
                unfinished_sessions(s0, events),
            )
        }),
    decreases events.len(),
{
    let s0 = sync::begun(db_path, file_modified, found);
    if events.len() > 0 {
        let head = events.drop_last();
        let event = events.last();
        let s = follow(s0, head);
        lemma_follow(db_path, file_modified, found, head);
        lemma_follow_keeps(db_path, file_modified, found, head);
        let failed = failed_sessions(s0, events);
        let unfinished = unfinished_sessions(s0, events);
        match (s.stage, event) {
            (Stage::Start, EventView::Start) => {
                lemma_go_on_keeps(s, failed, unfinished);
            },
            (Stage::State, EventView::State { last_modified }) => {
                lemma_passed_keeps(s, failed, unfinished);
                lemma_go_on_keeps(sync::passed(s), failed, unfinished);
            },
            (Stage::Messages, EventView::Messages { messages, incomplete }) => {
                let t = RunView {
                    reading: true,
                    messages,
                    incomplete,
                    batch: BatchView {
                        saw_incomplete: s.batch.saw_incomplete || incomplete,
                        ..s.batch
                    },
                    ..s
                };
                assert(keeps(t, 0, failed, unfinished));
                lemma_go_on_keeps(t, failed, unfinished);
            },
            (Stage::Messages, EventView::MessagesFailed(error)) => {
                let t = RunView {
                    batch: batch::with_error(
                        s.batch,
                        "OpenCode 会话消息查询失败 "@ + s.sessions[0].0 + ": "@ + error,
                    ),
                    ..s
                };
                assert(keeps(t, 0, failed, unfinished));
                lemma_passed_keeps(t, failed, unfinished);
                lemma_go_on_keeps(sync::passed(t), failed, unfinished);
            },
            (Stage::Begin, EventView::Begun(Outcome::Done)) => {
                lemma_write_from_keeps(s, 0, failed, unfinished);
            },
            (Stage::Item { item }, EventView::Inserted(outcome)) => {
                let t = RunView {
                    batch: batch::with_insert(
                        s.batch,
                        s.batch.batch[item as int]->Message_session_id,
                        s.batch.batch[item as int]->request_id,
                        outcome,
                    ),
                    ..s
                };
                assert(keeps(t, item + 1, failed, unfinished));
                lemma_write_from_keeps(t, item + 1, failed, unfinished);
            },
            (Stage::Item { item }, EventView::Advanced(Outcome::Done)) => {
                lemma_write_from_keeps(s, item + 1, failed, unfinished);
            },
            (Stage::Item { item }, EventView::Advanced(Outcome::Failed(error))) => {
                let t = RunView {
                    batch: batch::with_error(
                        s.batch,
                        "OpenCode 会话同步状态更新失败 "@ + s.batch.batch[item as int]->sync_key
                            + ": "@ + error,
                    ),
                    ..s
                };
                assert(keeps(t, item + 1, failed, unfinished));
                lemma_write_from_keeps(t, item + 1, failed, unfinished);
            },
            (Stage::Commit, EventView::Committed(Outcome::Done)) => {
                let t = RunView { batch: BatchView { batch: Seq::empty(), ..s.batch }, ..s };
                assert(keeps(t, 0, failed, unfinished));
                lemma_go_on_keeps(t, failed, unfinished);
            },
            _ => {},
        }
    }
}

/// A session comes to count as read only where all of its messages were written, in
/// whichever of the batches, and none of them is still under way. (No session was found
/// twice, and their number is one that can be counted.)
pub proof fn law_only_complete_sessions_count_as_read(
    db_path: Seq<char>,
    file_modified: i64,
    found: Seq<(Seq<char>, i64)>,
    events: Seq<EventView>,
    item: usize,
)
    requires
        accepted(sync::begun(db_path, file_modified, found), events),
        found.len() + SESSION_LOG_COMMIT_BATCH <= usize::MAX,
        distinct_sessions(found),
        events.len() > 0,
        last_step(sync::begun(db_path, file_modified, found), events) == (StepView::Advance { item }),
    ensures
        ({
            let s0 = sync::begun(db_path, file_modified, found);
            let s = follow(s0, events);
            &&& s.batch.batch[item as int] is SessionFinalize
            &&& !failed_sessions(s0, events).contains(
                s.batch.batch[item as int]->SessionFinalize_session_id,
            )
            &&& !unfinished_sessions(s0, events).contains(
                s.batch.batch[item as int]->SessionFinalize_session_id,
            )
        }),
{
    lemma_follow(db_path, file_modified, found, events.drop_last());
    lemma_follow_keeps(db_path, file_modified, found, events);
    lemma_advance_step(
        follow(sync::begun(db_path, file_modified, found), events.drop_last()),
        events.last(),
        item,
    );
}

proof fn lemma_advance_from(s: RunView, from: int, item: usize)
    requires
        0 <= from,
        s.batch.batch.len() <= usize::MAX,
        sync::write_from(s, from).1 == (StepView::Advance { item }),
    ensures
        sync::write_from(s, from).0.stage == (Stage::Item { item }),
        sync::write_from(s, from).0.batch.batch[item as int] is SessionFinalize,
    decreases s.batch.batch.len() - from,
{
    if from < s.batch.batch.len() {
        if batch::action_of(s.batch.batch[from], s.batch.session_errors) is Nothing {
            lemma_advance_from(RunView { batch: sync::reached(s.batch, from), ..s }, from + 1, item);
        }
    }
}

proof fn lemma_advance_step(s: RunView, event: EventView, item: usize)
    requires
        sync::is_sound(s),
        s.batch.batch.len() <= usize::MAX,
        sync::accepts(s, event),
        sync::step(s, event).1 == (StepView::Advance { item }),
    ensures
        sync::step(s, event).0.stage == (Stage::Item { item }),
        sync::step(s, event).0.batch.batch[item as int] is SessionFinalize,
{
    match (s.stage, event) {
        (Stage::Begin, EventView::Begun(Outcome::Done)) => {
            lemma_advance_from(s, 0, item);
        },
        (Stage::Item { item: i }, EventView::Inserted(outcome)) => {
            lemma_advance_from(
                RunView {
                    batch: batch::with_insert(
                        s.batch,
                        s.batch.batch[i as int]->Message_session_id,
                        s.batch.batch[i as int]->request_id,
                        outcome,
                    ),
                    ..s
                },
                i + 1,
                item,
            );
        },
        (Stage::Item { item: i }, EventView::Advanced(Outcome::Done)) => {
            lemma_advance_from(s, i + 1, item);
        },
        (Stage::Item { item: i }, EventView::Advanced(Outcome::Failed(error))) => {
            lemma_advance_from(
                RunView {
                    batch: batch::with_error(
                        s.batch,
                        "OpenCode 会话同步状态更新失败 "@ + s.batch.batch[i as int]->sync_key
                            + ": "@ + error,
                    ),
                    ..s
                },
                i + 1,
                item,
            );
        },
        _ => {},
    }
}

/// A message as an item of a batch.
pub open spec fn as_item(session_id: Seq<char>, found: (Seq<char>, MessageView)) -> ItemView {
    ItemView::Message {
        session_id,
        request_id: batch::request_id(session_id, found.0),
        msg_data: found.1,
    }
}

/// The messages of a session as items of a batch.
pub open spec fn as_items(session_id: Seq<char>, found: Seq<(Seq<char>, MessageView)>) -> Seq<ItemView> {
    Seq::new(found.len(), |i: int| as_item(session_id, found[i]))
}

/// The messages that were found, in the order in which they were read.
pub open spec fn messages_found(s: RunView, events: Seq<EventView>) -> Seq<ItemView>
    decreases events.len(),
{
    if events.len() == 0 {
        Seq::empty()
    } else {
        let before = messages_found(s, events.drop_last());
        let at = follow(s, events.drop_last());
        match events.last() {
            EventView::Messages { messages, .. } => before + as_items(at.sessions[0].0, messages),
            _ => before,
        }
    }
}

/// The messages that were to be written, in that order, whatever came of it.
pub open spec fn messages_written(s: RunView, events: Seq<EventView>) -> Seq<ItemView>
    decreases events.len(),
{
    if events.len() == 0 {
        Seq::empty()
    } else {
        let before = messages_written(s, events.drop_last());
        let at = follow(s, events.drop_last());
        match (at.stage, events.last()) {
            (Stage::Item { item }, EventView::Inserted(_)) => before.push(
                at.batch.batch[item as int],
            ),
            _ => before,
        }
    }
}

/// The messages among items.
spec fn messages_in(items: Seq<ItemView>) -> Seq<ItemView>
    decreases items.len(),
{
    if items.len() == 0 {
        Seq::empty()
    } else if items.last() is Message {
        messages_in(items.drop_last()).push(items.last())
    } else {
        messages_in(items.drop_last())
    }
}

proof fn lemma_messages_in_append(a: Seq<ItemView>, b: Seq<ItemView>)
    ensures
        messages_in(a + b) == messages_in(a) + messages_in(b),
    decreases b.len(),
{
    if b.len() == 0 {
        assert(a + b =~= a);
        assert(messages_in(a) + messages_in(b) =~= messages_in(a));
    } else {
        assert((a + b).drop_last() =~= a + b.drop_last());
        lemma_messages_in_append(a, b.drop_last());
        assert(messages_in(a + b) =~= messages_in(a) + messages_in(b));
    }
}

/// The messages among the items from one of them on.
proof fn lemma_messages_from(items: Seq<ItemView>, item: int)
    requires
        0 <= item < items.len(),
    ensures
        messages_in(items.skip(item)) == (if items[item] is Message {
            seq![items[item]]
        } else {
            seq![]
        }) + messages_in(items.skip(item + 1)),
{
    let one = seq![items[item]];
    assert(items.skip(item) =~= one + items.skip(item + 1));
    lemma_messages_in_append(one, items.skip(item + 1));
    assert(one.drop_last() =~= Seq::empty());
    assert(messages_in(Seq::<ItemView>::empty()) =~= Seq::empty());
    assert(messages_in(one) =~= if items[item] is Message {
        seq![items[item]]
    } else {
        seq![]
    });
}

/// The messages that are still to be written: those in the batch from an item on, and
/// those of the session that is read.
spec fn still_to_write(s: RunView, from: int) -> Seq<ItemView> {
    messages_in(s.batch.batch.skip(from)) + as_items(s.sessions[0].0, s.messages)
}

/// The first item of the batch that is not done with.
spec fn done_until(s: RunView) -> int {
    match s.stage {
        Stage::Item { item } => item as int,
        Stage::Commit => s.batch.batch.len() as int,
        _ => 0,
    }
}

proof fn lemma_filled_writes(s: RunView)
    ensures
        still_to_write(sync::filled(s), 0) == still_to_write(s, 0),
        sync::filled(s).sessions == s.sessions,
        sync::filled(s).reading == s.reading,
        sync::is_full(sync::filled(s).batch) || sync::filled(s).messages.len() == 0,
    decreases s.messages.len(),
{
    if !sync::is_full(s.batch) && s.messages.len() > 0 {
        let id = s.sessions[0].0;
        let item = as_item(id, s.messages[0]);
        let t = RunView {
            messages: s.messages.drop_first(),
            batch: sync::with_item(s.batch, item),
            ..s
        };
        lemma_filled_writes(t);
        let items = s.batch.batch;
        assert(items.skip(0) =~= items);
        assert(t.batch.batch.skip(0) =~= items.push(item));
        assert(items.push(item).drop_last() =~= items);
        assert(messages_in(items.push(item)) + as_items(id, t.messages) =~= messages_in(items)
            + as_items(id, s.messages));
    }
}

proof fn lemma_go_on_writes(s: RunView)
    requires
        !s.reading ==> s.messages.len() == 0,
    ensures
        ({
            let t = sync::go_on(s).0;
            &&& still_to_write(t, 0) == still_to_write(s, 0)
            &&& !t.reading ==> t.messages.len() == 0
            &&& t.stage is FileBegin || t.stage is Finished ==> still_to_write(t, 0) == Seq::<
                ItemView,
            >::empty()
        }),
{
    let none = Seq::<(Seq<char>, MessageView)>::empty();
    if s.reading {
        lemma_filled_writes(s);
        let t = sync::filled(s);
        if !sync::is_full(t.batch) {
            let u = sync::ended(t);
            let items = t.batch.batch;
            assert(items.skip(0) =~= items);
            assert(u.batch.batch.skip(0) =~= u.batch.batch);
            assert(u.batch.batch.drop_last() =~= items);
            assert(t.messages =~= none);
            assert(as_items(t.sessions[0].0, none) =~= as_items(u.sessions[0].0, none));
        }
    }
    let t = sync::go_on(s).0;
    if t.stage is FileBegin || t.stage is Finished {
        assert(t.messages =~= none);
        assert(t.batch.batch.skip(0) =~= Seq::empty());
        assert(still_to_write(t, 0) =~= Seq::empty());
    }
}

proof fn lemma_write_from_writes(s: RunView, from: int)
    requires
        0 <= from <= s.batch.batch.len(),
        s.batch.batch.len() <= usize::MAX,
    ensures
        ({
            let t = sync::write_from(s, from).0;
            &&& still_to_write(t, done_until(t)) == still_to_write(s, from)
            &&& t.reading == s.reading
            &&& t.messages == s.messages
            &&& t.stage is Item || t.stage is Commit
        }),
    decreases s.batch.batch.len() - from,
{
    if from < s.batch.batch.len() {
        let t = RunView { batch: sync::reached(s.batch, from), ..s };
        if batch::action_of(s.batch.batch[from], s.batch.session_errors) is Nothing {
            lemma_messages_from(s.batch.batch, from);
            assert(seq![] + messages_in(s.batch.batch.skip(from + 1)) =~= messages_in(
                s.batch.batch.skip(from + 1),
            ));
            lemma_write_from_writes(t, from + 1);
        }
    }
}

/// At every point, what was found is what was to be written and what still is.
proof fn lemma_follow_writes(
    db_path: Seq<char>,
    file_modified: i64,
    found: Seq<(Seq<char>, i64)>,
    events: Seq<EventView>,
)
    requires
        accepted(sync::begun(db_path, file_modified, found), events),
        found.len() + SESSION_LOG_COMMIT_BATCH <= usize::MAX,
    ensures
        ({
            let s0 = sync::begun(db_path, file_modified, found);
            let s = follow(s0, events);
            let at = done_until(s);
            &&& s.stage is Finished && !no_stop(events) || messages_found(s0, events)
                == messages_written(s0, events) + still_to_write(s, at)
            &&& !s.reading ==> s.messages.len() == 0
            &&& s.stage is FileBegin || s.stage is File || s.stage is FileCommit || (s.stage
                is Finished && no_stop(events)) ==> still_to_write(s, at) == Seq::<ItemView>::empty()
        }),
    decreases events.len(),
{
    let s0 = sync::begun(db_path, file_modified, found);
    let s = follow(s0, events);
    if events.len() == 0 {
        assert(s0.batch.batch.skip(0) =~= Seq::empty());
        assert(still_to_write(s0, 0) =~= Seq::empty());
        assert(messages_written(s0, events) + still_to_write(s0, 0) =~= Seq::empty());
    } else {
        let head = events.drop_last();
        let event = events.last();
        let b = follow(s0, head);
        lemma_follow(db_path, file_modified, found, head);
        lemma_follow_writes(db_path, file_modified, found, head);
        assert(events[events.len() - 1] == event);
        assert(no_stop(events) <==> no_stop(head) && !is_stop(event)) by {
            if no_stop(events) {
                assert forall|i: int| 0 <= i < head.len() implies !is_stop(#[trigger] head[i]) by {
                    assert(head[i] == events[i]);
                }
            }
            if no_stop(head) && !is_stop(event) {
                assert forall|i: int| 0 <= i < events.len() implies !is_stop(#[trigger] events[i]) by {
                    if i < head.len() {
                        assert(head[i] == events[i]);
                    }
                }
            }
        }
        let none = Seq::<(Seq<char>, MessageView)>::empty();
        match (b.stage, event) {
            (Stage::Start, EventView::Start) => {
                lemma_go_on_writes(b);
            },
            (Stage::State, EventView::State { last_modified }) => {
                let t = sync::passed(b);
                assert(b.messages =~= none);
                assert(as_items(t.sessions[0].0, none) =~= as_items(b.sessions[0].0, none));
                lemma_go_on_writes(t);
            },
            (Stage::Messages, EventView::Messages { messages, incomplete }) => {
                let t = RunView {
                    reading: true,
                    messages,
                    incomplete,
                    batch: BatchView {
                        saw_incomplete: b.batch.saw_incomplete || incomplete,
                        ..b.batch
                    },
                    ..b
                };
                assert(b.messages =~= none);
                lemma_go_on_writes(t);
                let own = as_items(b.sessions[0].0, messages);
                assert((messages_written(s0, head) + still_to_write(b, 0)) + own
                    =~= messages_written(s0, head) + still_to_write(t, 0));
            },
            (Stage::Messages, EventView::MessagesFailed(error)) => {
                let t = sync::passed(
                    RunView {
                        batch: batch::with_error(
                            b.batch,
                            "OpenCode 会话消息查询失败 "@ + b.sessions[0].0 + ": "@ + error,
                        ),
                        ..b
                    },
                );
                assert(b.messages =~= none);
                assert(as_items(t.sessions[0].0, none) =~= as_items(b.sessions[0].0, none));
                lemma_go_on_writes(t);
            },
            (Stage::Begin, EventView::Begun(Outcome::Done)) => {
                lemma_write_from_writes(b, 0);
            },
            (Stage::Item { item }, EventView::Inserted(outcome)) => {
                let t = RunView {
                    batch: batch::with_insert(
                        b.batch,
                        b.batch.batch[item as int]->Message_session_id,
                        b.batch.batch[item as int]->request_id,
                        outcome,
                    ),
                    ..b
                };
                lemma_messages_from(b.batch.batch, item as int);
                lemma_write_from_writes(t, item + 1);
                assert(messages_written(s0, head) + still_to_write(b, item as int)
                    =~= messages_written(s0, events) + still_to_write(t, item + 1));
            },
            (Stage::Item { item }, EventView::Advanced(Outcome::Done)) => {
                lemma_messages_from(b.batch.batch, item as int);
                assert(still_to_write(b, item as int) =~= still_to_write(b, item + 1));
                lemma_write_from_writes(b, item + 1);
            },
            (Stage::Item { item }, EventView::Advanced(Outcome::Failed(error))) => {
                let t = RunView {
                    batch: batch::with_error(
                        b.batch,
                        "OpenCode 会话同步状态更新失败 "@ + b.batch.batch[item as int]->sync_key
                            + ": "@ + error,
                    ),
                    ..b
                };
                lemma_messages_from(b.batch.batch, item as int);
                assert(still_to_write(b, item as int) =~= still_to_write(t, item + 1));
                lemma_write_from_writes(t, item + 1);
            },
            (Stage::Commit, EventView::Committed(Outcome::Done)) => {
                let t = RunView { batch: BatchView { batch: Seq::empty(), ..b.batch }, ..b };
                let n = b.batch.batch.len() as int;
                assert(b.batch.batch.skip(n) =~= t.batch.batch.skip(0));
                lemma_go_on_writes(t);
            },
            _ => {},
        }
    }
}

/// Every message that is found is to be written, once and in the order in which it was
/// found: at every point what has been is the beginning of what was found, and once the
/// synchronisation is through it is all of it. (The number of sessions is one that can be
/// counted; a synchronisation that a transaction ended early is left out.)
pub proof fn law_every_message_is_written_once(
    db_path: Seq<char>,
    file_modified: i64,
    found: Seq<(Seq<char>, i64)>,
    events: Seq<EventView>,
)
    requires
        accepted(sync::begun(db_path, file_modified, found), events),
        found.len() + SESSION_LOG_COMMIT_BATCH <= usize::MAX,
        no_stop(events),
    ensures
        ({
            let s0 = sync::begun(db_path, file_modified, found);
            &&& messages_written(s0, events).is_prefix_of(messages_found(s0, events))
            &&& follow(s0, events).stage is Finished ==> messages_written(s0, events)
                == messages_found(s0, events)
        }),
{
    let s0 = sync::begun(db_path, file_modified, found);
    lemma_follow_writes(db_path, file_modified, found, events);
    let written = messages_written(s0, events);
    if follow(s0, events).stage is Finished {
        assert(written + Seq::<ItemView>::empty() =~= written);
    }
}

} // verus!
