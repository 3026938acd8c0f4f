//! Which sessions are read, and what is put into a batch of them.

use vstd::prelude::*;
use vstd::string::*;
#[allow(unused_imports)]
use crate::services::session_usage_opencode::batch;
#[allow(unused_imports)]
use crate::services::session_usage_opencode::batch::{BatchView, FlushAction, InsertView, ItemView};
#[allow(unused_imports)]
use crate::services::session_usage_opencode::message::MessageView;
use crate::services::session_usage_opencode::sessions;
#[allow(unused_imports)]
use crate::services::session_usage_opencode::sessions::SessionTime;
use crate::services::session_usage_opencode::sync;
#[allow(unused_imports)]
use crate::services::session_usage_opencode::sync::{EventView, RunView, Stage, StepView};

verus! {

proof fn lemma_latest(id: Seq<char>, rows: Seq<SessionTime>)
    ensures
        forall|i: int|
            0 <= i < rows.len() && (#[trigger] rows[i]).session_id@ == id ==> (sessions::latest(
                id,
                rows,
            ) matches Some(time) && rows[i].time <= time),
        sessions::latest(id, rows) matches Some(time) ==> exists|i: int|
            0 <= i < rows.len() && (#[trigger] rows[i]).session_id@ == id && rows[i].time == time,
    decreases rows.len(),
{
    if rows.len() > 0 {
        let head = rows.drop_last();
        lemma_latest(id, head);
        assert forall|i: int| 0 <= i < rows.len() && (#[trigger] rows[i]).session_id@ == id implies (
        sessions::latest(id, rows) matches Some(time) && rows[i].time <= time) by {
            if i < head.len() {
                assert(head[i] == rows[i]);
            }
        }
        if let Some(time) = sessions::latest(id, rows) {
            let last = rows[rows.len() - 1];
            if !(last.session_id@ == id && last.time == time) {
                let i = choose|i: int|
                    0 <= i < head.len() && (#[trigger] head[i]).session_id@ == id && head[i].time
                        == time;
                assert(rows[i] == head[i]);
            }
        }
    }
}

/// A session is as new as the latest change of it or of one of its messages: no change is
/// later, and there is one at that time.
pub proof fn law_the_latest_change_counts(
    id: Seq<char>,
    own: Seq<SessionTime>,
    messages: Seq<SessionTime>,
    k: int,
)
    requires
        0 <= k < own.len(),
        own[k].session_id@ == id,
    ensures
        ({
            let time = sessions::watermark(id, own, messages);
            &&& forall|i: int|
                0 <= i < own.len() && (#[trigger] own[i]).session_id@ == id ==> own[i].time <= time
            &&& forall|i: int|
                0 <= i < messages.len() && (#[trigger] messages[i]).session_id@ == id
                    ==> messages[i].time <= time
            &&& (exists|i: int|
                0 <= i < own.len() && (#[trigger] own[i]).session_id@ == id && own[i].time == time)
                || (exists|i: int|
                0 <= i < messages.len() && (#[trigger] messages[i]).session_id@ == id
                    && messages[i].time == time)
        }),
{
    lemma_latest(id, own);
    lemma_latest(id, messages);
    assert(own[k].session_id@ == id);
}

/// A session is read just where it has changed since it was last read.
pub proof fn law_a_changed_session_is_read(s: RunView, last_modified: i64)
    requires
        s.stage is State,
        s.sessions.len() > 0,
        !s.reading,
    ensures
        ({
            let then = sync::step(s, EventView::State { last_modified });
            &&& s.sessions[0].1 > last_modified ==> then.1 == (StepView::ReadMessages {
                session_id: s.sessions[0].0,
            }) && then.0.sessions == s.sessions
            &&& s.sessions[0].1 <= last_modified ==> !(then.1 is ReadMessages) && then.0.sessions
                == s.sessions.drop_first() && then.0.batch == s.batch
        }),
{
}

/// How far a session has been read is asked for under the path of the database and the
/// session's id.
pub proof fn law_a_session_is_known_by_path_and_id(s: RunView)
    requires
        s.stage is Start,
        !s.reading,
        s.sessions.len() > 0,
    ensures
        sync::step(s, EventView::Start).1 == (StepView::FindState {
            sync_key: s.db_path + ":"@ + s.sessions[0].0,
        }),
{
}

/// Whether an item is a message of a session, under the id of one of its messages.
pub open spec fn is_message_of(
    item: ItemView,
    session: Seq<char>,
    messages: Seq<(Seq<char>, MessageView)>,
) -> bool {
    exists|k: int|
        0 <= k < messages.len() && item == (ItemView::Message {
            session_id: session,
            request_id: "opencode_session:"@ + session + ":"@ + (#[trigger] messages[k]).0,
            msg_data: messages[k].1,
        })
}

/// What the batch is filled with are messages of the session.
proof fn lemma_filled(s: RunView, all: Seq<(Seq<char>, MessageView)>)
    requires
        forall|k: int| 0 <= k < s.messages.len() ==> all.contains(#[trigger] s.messages[k]),
    ensures
        ({
            let t = sync::filled(s);
            &&& t.batch.batch.len() >= s.batch.batch.len()
            &&& t.batch.batch.take(s.batch.batch.len() as int) == s.batch.batch
            &&& forall|i: int|
                s.batch.batch.len() <= i < t.batch.batch.len() ==> is_message_of(
                    #[trigger] t.batch.batch[i],
                    s.sessions[0].0,
                    all,
                )
            &&& t.sessions == s.sessions
            &&& t.db_path == s.db_path
            &&& t.incomplete == s.incomplete
            &&& !sync::is_full(t.batch) ==> t.batch.batch.len() == s.batch.batch.len()
                + s.messages.len()
        }),
    decreases s.messages.len(),
{
    if sync::is_full(s.batch) || s.messages.len() == 0 {
        assert(s.batch.batch.take(s.batch.batch.len() as int) =~= s.batch.batch);
    } else {
        let (id, msg_data) = s.messages[0];
        let item = ItemView::Message {
            session_id: s.sessions[0].0,
            request_id: batch::request_id(s.sessions[0].0, id),
            msg_data,
        };
        let u = RunView {
            messages: s.messages.drop_first(),
            batch: sync::with_item(s.batch, item),
            ..s
        };
        assert forall|k: int| 0 <= k < u.messages.len() implies all.contains(
            #[trigger] u.messages[k],
        ) by {
            assert(u.messages[k] == s.messages[k + 1]);
        }
        lemma_filled(u, all);
        let t = sync::filled(s);
        let n = s.batch.batch.len() as int;
        assert(all.contains(s.messages[0]));
        let k = choose|k: int| 0 <= k < all.len() && all[k] == s.messages[0];
        assert(all[k].0 == id);
        assert(is_message_of(item, s.sessions[0].0, all));
        assert(t.batch.batch[n] == u.batch.batch[n]) by {
            assert(t.batch.batch.take(n + 1)[n] == u.batch.batch[n]);
        }
        assert(t.batch.batch.take(n) =~= s.batch.batch) by {
            assert(t.batch.batch.take(n) =~= t.batch.batch.take(n + 1).take(n));
            assert(u.batch.batch.take(n) =~= s.batch.batch);
        }
    }
}

/// The messages of a session are put into the batch under ids made of the session's and their
/// own, and after all of them, where there is room, the end of the session: under the key of
/// the session, with the time that it was found with, and as one that counts as read only
/// where no message is still under way. What was in the batch stays there.
pub proof fn law_a_session_is_put_into_the_batch_whole(
    s: RunView,
    messages: Seq<(Seq<char>, MessageView)>,
    incomplete: bool,
)
    requires
        s.stage is Messages,
        s.sessions.len() > 0,
    ensures
        ({
            let then = sync::step(s, EventView::Messages { messages, incomplete }).0;
            let n = s.batch.batch.len() as int;
            let session = s.sessions[0].0;
            &&& n <= then.batch.batch.len()
            &&& then.batch.batch.take(n) == s.batch.batch
            &&& forall|i: int|
                n <= i < then.batch.batch.len() ==> is_message_of(
                    #[trigger] then.batch.batch[i],
                    session,
                    messages,
                ) || then.batch.batch[i] == (ItemView::SessionFinalize {
                    session_id: session,
                    sync_key: s.db_path + ":"@ + session,
                    time_updated: s.sessions[0].1,
                    advance_state: !incomplete,
                })
            &&& !then.reading ==> {
                &&& then.batch.batch.len() == n + messages.len() + 1
                &&& then.batch.batch.last() is SessionFinalize
                &&& then.sessions == s.sessions.drop_first()
            }
            &&& then.batch.saw_incomplete == (s.batch.saw_incomplete || incomplete)
        }),
{
    let u = RunView {
        reading: true,
        messages,
        incomplete,
        batch: BatchView { saw_incomplete: s.batch.saw_incomplete || incomplete, ..s.batch },
        ..s
    };
    assert forall|k: int| 0 <= k < u.messages.len() implies messages.contains(
        #[trigger] u.messages[k],
    ) by {
        assert(messages[k] == u.messages[k]);
    }
    lemma_filled(u, messages);
    lemma_flags(u);
    let t = sync::filled(u);
    let n = s.batch.batch.len() as int;
    let then = sync::step(s, EventView::Messages { messages, incomplete }).0;
    if !sync::is_full(t.batch) {
        assert(then.batch.batch =~= sync::ended(t).batch.batch);
        assert(then.batch.batch.take(n) =~= t.batch.batch.take(n));
        assert forall|i: int| n <= i < then.batch.batch.len() implies is_message_of(
            #[trigger] then.batch.batch[i],
            s.sessions[0].0,
            messages,
        ) || then.batch.batch[i] is SessionFinalize by {
            if i < t.batch.batch.len() {
                assert(then.batch.batch[i] == t.batch.batch[i]);
            }
        }
    }
}

proof fn lemma_flags(s: RunView)
    ensures
        sync::filled(s).reading == s.reading,
        sync::filled(s).batch.saw_incomplete == s.batch.saw_incomplete,
    decreases s.messages.len(),
{
    if !(sync::is_full(s.batch) || s.messages.len() == 0) {
        let (id, msg_data) = s.messages[0];
        lemma_flags(
            RunView {
                messages: s.messages.drop_first(),
                batch: sync::with_item(
                    s.batch,
                    ItemView::Message {
                        session_id: s.sessions[0].0,
                        request_id: batch::request_id(s.sessions[0].0, id),
                        msg_data,
                    },
                ),
                ..s
            },
        );
    }
}

/// A message that was written is counted as imported and any other as skipped; one that could
/// not be written is noted, with its id and the reason, and keeps its session from counting
/// as read.
pub proof fn law_each_message_is_counted_once(
    b: BatchView,
    session: Seq<char>,
    request: Seq<char>,
    error: Seq<char>,
)
    requires
        b.result.imported < u32::MAX,
        b.result.skipped < u32::MAX,
    ensures
        ({
            let imported = batch::with_insert(b, session, request, InsertView::Imported);
            let skipped = batch::with_insert(b, session, request, InsertView::Skipped);
            let failed = batch::with_insert(b, session, request, InsertView::Failed(error));
            &&& imported.result.imported == b.result.imported + 1
            &&& imported.result.skipped == b.result.skipped
            &&& imported.session_errors == b.session_errors
            &&& imported.has_sync_errors == b.has_sync_errors
            &&& imported.result.errors == b.result.errors
            &&& skipped.result.skipped == b.result.skipped + 1
            &&& skipped.result.imported == b.result.imported
            &&& skipped.session_errors == b.session_errors
            &&& skipped.has_sync_errors == b.has_sync_errors
            &&& skipped.result.errors == b.result.errors
            &&& failed.result.skipped == b.result.skipped + 1
            &&& failed.result.imported == b.result.imported
            &&& failed.has_sync_errors
            &&& failed.session_errors.contains(session)
            &&& failed.result.errors == b.result.errors.push(
                "OpenCode 消息插入失败 "@ + request + ": "@ + error,
            )
        }),
{
}

/// When a batch is written, messages are written, and a session counts as read just where
/// none of its messages failed and none is still under way.
pub proof fn law_a_session_counts_as_read_where_nothing_failed(
    session: Seq<char>,
    key: Seq<char>,
    time: i64,
    advance: bool,
    errors: Set<Seq<char>>,
    message: ItemView,
)
    requires
        message is Message,
    ensures
        batch::action_of(message, errors) is Insert,
        batch::action_of(
            ItemView::SessionFinalize {
                session_id: session,
                sync_key: key,
                time_updated: time,
                advance_state: advance,
            },
            errors,
        ) is Advance <==> advance && !errors.contains(session),
{
}

/// Each session is told with its own time of change.
pub proof fn law_each_session_is_told_with_its_own_time(
    sessions: Seq<SessionTime>,
    messages: Seq<SessionTime>,
    i: int,
)
    requires
        0 <= i < sessions::session_ids(sessions).len(),
    ensures
        sessions::watermarks(sessions, messages).len() == sessions::session_ids(sessions).len(),
        sessions::watermarks(sessions, messages)[i].0 == sessions::session_ids(sessions)[i],
        sessions::watermarks(sessions, messages)[i].1 == sessions::watermark(
            sessions::session_ids(sessions)[i],
            sessions,
            messages,
        ),
{
}

} // verus!
