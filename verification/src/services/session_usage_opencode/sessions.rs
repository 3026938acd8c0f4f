//! Which sessions are read, and in which order.

use vstd::prelude::*;
use vstd::string::*;
use crate::services::session_usage;
use crate::services::session_usage::SessionSyncResult;
use crate::text;

verus! {

/// A session and the time at which it was last changed.
#[derive(Debug)]
pub struct SessionTime {
    pub session_id: String,
    pub time: i64,
}

/// The later of two times.
pub open spec fn later(a: i64, b: i64) -> i64 {
    if a < b {
        b
    } else {
        a
    }
}

/// The latest time at which something of a session was changed, where there is one.
pub open spec fn latest(id: Seq<char>, rows: Seq<SessionTime>) -> Option<i64>
    decreases rows.len(),
{
    if rows.len() == 0 {
        None
    } else {
        let before = latest(id, rows.drop_last());
        if rows.last().session_id@ == id {
            Some(
                match before {
                    Some(time) => later(time, rows.last().time),
                    None => rows.last().time,
                },
            )
        } else {
            before
        }
    }
}

/// The time at which a session or one of its messages was last changed.
pub open spec fn watermark(
    id: Seq<char>,
    sessions: Seq<SessionTime>,
    messages: Seq<SessionTime>,
) -> i64 {
    let own = latest(id, sessions).unwrap();
    match latest(id, messages) {
        Some(time) => later(own, time),
        None => own,
    }
}

/// The ids of sessions, each of them once.
pub open spec fn session_ids(sessions: Seq<SessionTime>) -> Seq<Seq<char>>
    decreases sessions.len(),
{
    if sessions.len() == 0 {
        Seq::empty()
    } else {
        let before = session_ids(sessions.drop_last());
        if before.contains(sessions.last().session_id@) {
            before
        } else {
            before.push(sessions.last().session_id@)
        }
    }
}

/// The ids and times of sessions.
pub open spec fn session_views(sessions: Seq<SessionTime>) -> Seq<(Seq<char>, i64)> {
    Seq::new(sessions.len(), |i: int| (sessions[i].session_id@, sessions[i].time))
}

/// The ids of sessions, each of them once, with the time at which it or one of its
/// messages was last changed.
pub open spec fn watermarks(sessions: Seq<SessionTime>, messages: Seq<SessionTime>) -> Seq<
    (Seq<char>, i64),
> {
    let ids = session_ids(sessions);
    Seq::new(ids.len(), |i: int| (ids[i], watermark(ids[i], sessions, messages)))
}

/// Every session stands once among the ids, however many rows are about it, and nothing
/// else does.
pub proof fn law_one_row_for_each_session(sessions: Seq<SessionTime>)
    ensures
        session_ids(sessions).no_duplicates(),
        forall|i: int|
            0 <= i < sessions.len() ==> session_ids(sessions).contains(
                (#[trigger] sessions[i]).session_id@,
            ),
        forall|k: int|
            0 <= k < session_ids(sessions).len() ==> latest(
                #[trigger] session_ids(sessions)[k],
                sessions,
            ) is Some,
    decreases sessions.len(),
{
    if sessions.len() > 0 {
        let head = sessions.drop_last();
        let last = sessions.last().session_id@;
        let before = session_ids(head);
        let all = session_ids(sessions);
        law_one_row_for_each_session(head);
        assert forall|i: int| 0 <= i < sessions.len() implies all.contains(
            (#[trigger] sessions[i]).session_id@,
        ) by {
            let id = sessions[i].session_id@;
            if i < head.len() {
                assert(head[i] == sessions[i]);
                let k = choose|k: int| 0 <= k < before.len() && before[k] == id;
                assert(all[k] == id);
            } else if !before.contains(last) {
                assert(all[before.len() as int] == last);
            }
        }
        assert forall|k: int| 0 <= k < all.len() implies latest(#[trigger] all[k], sessions) is Some by {
            if k < before.len() {
                assert(all[k] == before[k]);
            }
        }
        if !before.contains(last) {
            assert forall|i: int, j: int| 0 <= i < all.len() && 0 <= j < all.len() && i != j implies all[i]
                != all[j] by {
                if i < before.len() && j < before.len() {
                    assert(before[i] != before[j]);
                } else if i < before.len() {
                    assert(before.contains(before[i]));
                } else {
                    assert(before.contains(before[j]));
                }
            }
        }
    }
}

/// Whether sessions stand with the last changed first.
pub open spec fn newest_first(sessions: Seq<(Seq<char>, i64)>) -> bool {
    forall|i: int, j: int|
        0 <= i <= j < sessions.len() ==> (#[trigger] sessions[i]).1 >= (#[trigger] sessions[j]).1
}

/// The latest time at which something of a session was changed, where there is one.
fn latest_time(id: &str, rows: &Vec<SessionTime>) -> (r: Option<i64>)
    ensures
        r == latest(id@, rows@),
{
    let mut r: Option<i64> = None;
    let mut i: usize = 0;
    while i < rows.len()
        invariant
            i <= rows@.len(),
            r == latest(id@, rows@.take(i as int)),
        decreases rows@.len() - i,
    {
        assert(rows@.take(i + 1).drop_last() == rows@.take(i as int));
        assert(rows@.take(i + 1).last() == rows@[i as int]);
        if text::same_text(rows[i].session_id.as_str(), id) {
            let time: i64 = match r {
                Some(before) => if before < rows[i].time {
                    rows[i].time
                } else {
                    before
                },
                None => rows[i].time,
            };
            r = Some(time);
        }
        i = i + 1;
    }
    assert(rows@.take(i as int) == rows@);
    r
}

/// The texts of ids.
spec fn id_views(ids: Seq<String>) -> Seq<Seq<char>> {
    Seq::new(ids.len(), |i: int| ids[i]@)
}

/// The ids of sessions, each of them once.
fn distinct_ids(sessions: &Vec<SessionTime>) -> (r: Vec<String>)
    ensures
        id_views(r@) == session_ids(sessions@),
{
    let mut r: Vec<String> = Vec::new();
    let mut i: usize = 0;
    assert(id_views(r@) =~= session_ids(sessions@.take(0)));
    while i < sessions.len()
        invariant
            i <= sessions@.len(),
            id_views(r@) == session_ids(sessions@.take(i as int)),
        decreases sessions@.len() - i,
    {
        assert(sessions@.take(i + 1).drop_last() == sessions@.take(i as int));
        assert(sessions@.take(i + 1).last() == sessions@[i as int]);
        let ghost id = sessions@[i as int].session_id@;
        let mut known = false;
        let mut k: usize = 0;
        while k < r.len()
            invariant
                i < sessions@.len(),
                k <= r@.len(),
                id == sessions@[i as int].session_id@,
                known <==> id_views(r@).take(k as int).contains(id),
            decreases r@.len() - k,
        {
            let ghost seen = id_views(r@).take(k as int);
            let ghost more = id_views(r@).take(k + 1);
            assert(more =~= seen.push(r@[k as int]@));
            let same = text::same_text(r[k].as_str(), sessions[i].session_id.as_str());
            proof {
                assert(more[k as int] == r@[k as int]@);
                if seen.contains(id) {
                    let j = choose|j: int| 0 <= j < seen.len() && seen[j] == id;
                    assert(more[j] == id);
                }
            }
            if same {
                known = true;
            }
            k = k + 1;
        }
        assert(id_views(r@).take(k as int) == id_views(r@));
        if !known {
            let ghost before = id_views(r@);
            r.push(sessions[i].session_id.clone());
            assert(id_views(r@) =~= before.push(id));
        }
        i = i + 1;
    }
    assert(sessions@.take(i as int) == sessions@);
    r
}

/// The sessions, each of them once, with the time at which it or one of its messages was
/// last changed, the last changed first.
pub fn query_sessions(sessions: &Vec<SessionTime>, messages: &Vec<SessionTime>) -> (r: Vec<
    SessionTime,
>)
    ensures
        newest_first(session_views(r@)),
        session_views(r@).to_multiset() == watermarks(sessions@, messages@).to_multiset(),
{
    let ghost all = watermarks(sessions@, messages@);
    let ids = distinct_ids(sessions);
    let mut r: Vec<SessionTime> = Vec::new();
    let mut i: usize = 0;
    assert(session_views(r@) =~= all.take(0));
    proof {
        law_one_row_for_each_session(sessions@);
    }
    while i < ids.len()
        invariant
            i <= ids@.len() == all.len(),
            all == watermarks(sessions@, messages@),
            id_views(ids@) == session_ids(sessions@),
            forall|k: int|
                0 <= k < session_ids(sessions@).len() ==> latest(
                    #[trigger] session_ids(sessions@)[k],
                    sessions@,
                ) is Some,
            newest_first(session_views(r@)),
            session_views(r@).to_multiset() == all.take(i as int).to_multiset(),
        decreases ids@.len() - i,
    {
        assert(id_views(ids@)[i as int] == ids@[i as int]@);
        if let Some(own) = latest_time(ids[i].as_str(), sessions) {
            let time: i64 = match latest_time(ids[i].as_str(), messages) {
                Some(time) => if own < time {
                    time
                } else {
                    own
                },
                None => own,
            };
            let session = SessionTime { session_id: ids[i].clone(), time };
            assert((session.session_id@, session.time) == all[i as int]);
            assert(all.take(i + 1) == all.take(i as int).push(all[i as int]));
            proof {
                vstd::seq_lib::to_multiset_build(all.take(i as int), all[i as int]);
            }
            insert_newest_first(&mut r, session);
        }
        i = i + 1;
    }
    assert(all.take(i as int) == all);
    r
}

/// Puts a session where it belongs among sessions with the last changed first.
fn insert_newest_first(sessions: &mut Vec<SessionTime>, session: SessionTime)
    requires
        newest_first(session_views(old(sessions)@)),
    ensures
        newest_first(session_views(final(sessions)@)),
        session_views(final(sessions)@).to_multiset() == session_views(
            old(sessions)@,
        ).to_multiset().insert((session.session_id@, session.time)),
{
    let ghost before = session_views(sessions@);
    let ghost own = (session.session_id@, session.time);
    let mut i: usize = 0;
    while i < sessions.len() && sessions[i].time >= session.time
        invariant
            i <= sessions@.len() == before.len(),
            before == session_views(sessions@),
            sessions@ == old(sessions)@,
            forall|k: int| 0 <= k < i ==> (#[trigger] before[k]).1 >= session.time,
        decreases sessions@.len() - i,
    {
        assert(before[i as int].1 == sessions@[i as int].time);
        i = i + 1;
    }
    proof {
        if i < before.len() {
            assert(before[i as int].1 == sessions@[i as int].time);
        }
    }
    sessions.insert(i, session);
    proof {
        let after = session_views(sessions@);
        assert(after =~= before.insert(i as int, own));
        vstd::seq_lib::to_multiset_insert(before, i as int, own);
        assert forall|a: int, b: int| 0 <= a <= b < after.len() implies (#[trigger] after[a]).1 >= (
        #[trigger] after[b]).1 by {
            if a < i {
                assert(after[a] == before[a]);
            } else if a > i {
                assert(after[a] == before[a - 1]);
            }
            if b < i {
                assert(after[b] == before[b]);
            } else if b > i {
                assert(after[b] == before[b - 1]);
            }
        }
    }
}

/// Whether a session has changed since it was last read.
pub fn needs_sync(time_updated: i64, last_modified: i64) -> (r: bool)
    ensures
        r == (time_updated > last_modified),
{
    time_updated > last_modified
}

/// What is done with the database.
#[derive(Debug)]
pub enum OpenCodeStart {
    /// Nothing, with this result.
    Skip(SessionSyncResult),
    /// It is read, as the database of this time.
    Read { file_modified: i64 },
}

/// What is done with the database, by the times of its file and of the log beside
/// it, where new data stands first. A database that is not there, or has not
/// changed since it was last read, is not read.
pub fn sync_opencode_usage(db_modified: Option<i64>, wal_modified: Option<i64>, last_modified: i64) -> (r:
    OpenCodeStart)
    ensures
        match db_modified {
            Some(own) => {
                let modified = match wal_modified {
                    Some(wal) => later(own, wal),
                    None => own,
                };
                if modified <= last_modified {
                    r matches OpenCodeStart::Skip(result) && result@
                        == session_usage::nothing_found(1)
                } else {
                    r == (OpenCodeStart::Read { file_modified: modified })
                }
            },
            None => r matches OpenCodeStart::Skip(result) && result@
                == session_usage::nothing_found(0),
        },
{
    let own: i64 = match db_modified {
        Some(own) => own,
        None => {
            return OpenCodeStart::Skip(SessionSyncResult::empty(0));
        },
    };
    let file_modified: i64 = match wal_modified {
        Some(wal) => if own < wal {
            wal
        } else {
            own
        },
        None => own,
    };
    if file_modified <= last_modified {
        return OpenCodeStart::Skip(SessionSyncResult::empty(1));
    }
    OpenCodeStart::Read { file_modified }
}

} // verus!
