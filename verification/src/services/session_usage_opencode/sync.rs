//! A synchronisation, from the first session to the last.
//!
//! [`OpenCodeSync`] decides; it does nothing by itself. It is asked for the first step
//! and then told what came of each, and gives the next one, until there is none left.
//! The sessions that have changed are read one after the other, and their messages are
//! written in batches, each in one transaction. The database as a whole counts as read
//! when all is written, nothing went wrong and no message is still under way.

use vstd::prelude::*;
use vstd::string::*;
use crate::services::session_usage;
use crate::services::session_usage::{SessionSyncResult, SESSION_LOG_COMMIT_BATCH};
use crate::services::session_usage_opencode::batch;
use crate::services::session_usage_opencode::batch::{
    FlushAction, OpenCodeBatch, PendingOpenCodeItem,
};
#[allow(unused_imports)]
use crate::services::session_usage_opencode::batch::{BatchView, InsertView, ItemView};
use crate::services::session_usage_opencode::message;
use crate::services::session_usage_opencode::message::OpenCodeMessageData;
#[allow(unused_imports)]
use crate::services::session_usage_opencode::message::MessageView;
use crate::services::session_usage_opencode::sessions;
use crate::services::session_usage_opencode::sessions::SessionTime;
use crate::text;

verus! {

/// What is waited for.
#[derive(Debug, Clone, Copy, PartialEq, Eq, Structural)]
pub enum Stage {
    Start,
    /// How far a session has been read.
    State,
    /// The messages of a session.
    Messages,
    /// The beginning of a transaction for a batch.
    Begin,
    /// What comes of an item of the batch.
    Item { item: usize },
    /// The end of the transaction for a batch.
    Commit,
    /// The beginning of the transaction in which the database as a whole comes to count
    /// as read.
    FileBegin,
    File,
    FileCommit,
    Finished,
}

/// What came of a step.
#[derive(Debug)]
pub enum SyncEvent {
    /// Nothing has been done yet.
    Start,
    /// The time as of which the session has been read.
    State { last_modified: i64 },
    /// The ids and the data of the messages of the session; `now` is the time.
    Messages { rows: Result<Vec<(String, String)>, String>, now: i64 },
    Begun(Result<(), String>),
    /// Whether the message was written; it is not where it is known already.
    Inserted(Result<bool, String>),
    Advanced(Result<(), String>),
    Committed(Result<(), String>),
    FileAdvanced(Result<(), String>),
}

/// What is done next.
#[derive(Debug)]
pub enum SyncStep {
    /// It is looked up as of which time a session has been read.
    FindState { sync_key: String },
    /// The messages of a session are read.
    ReadMessages { session_id: String },
    /// A transaction is begun.
    Begin,
    /// The message of an item of the batch is written.
    Insert { item: usize },
    /// The session of an item of the batch comes to count as read.
    Advance { item: usize },
    /// The transaction is committed.
    Commit,
    /// The database as a whole comes to count as read, as of its time.
    AdvanceFile { file_modified: i64 },
    /// Nothing is left to do.
    Done,
    /// The synchronisation ends here, with an error.
    Fail { message: String },
}

/// What came of something that either is done or fails.
pub enum Outcome {
    Done,
    Failed(Seq<char>),
}

/// What came of something that either is done or fails.
pub open spec fn outcome(result: Result<(), String>) -> Outcome {
    match result {
        Ok(_) => Outcome::Done,
        Err(error) => Outcome::Failed(error@),
    }
}

/// The model of [`SyncEvent`]: of the rows of a session, the messages that are billed and
/// whether others are still under way.
pub enum EventView {
    Start,
    State { last_modified: i64 },
    Messages { messages: Seq<(Seq<char>, MessageView)>, incomplete: bool },
    MessagesFailed(Seq<char>),
    Begun(Outcome),
    Inserted(InsertView),
    Advanced(Outcome),
    Committed(Outcome),
    FileAdvanced(Outcome),
}

impl View for SyncEvent {
    type V = EventView;

    open spec fn view(&self) -> EventView {
        match *self {
            SyncEvent::Start => EventView::Start,
            SyncEvent::State { last_modified } => EventView::State { last_modified },
            SyncEvent::Messages { rows, now } => match rows {
                Ok(rows) => EventView::Messages {
                    messages: message::billed_rows(rows@, now),
                    incomplete: message::has_incomplete(rows@, now),
                },
                Err(error) => EventView::MessagesFailed(error@),
            },
            SyncEvent::Begun(result) => EventView::Begun(outcome(result)),
            SyncEvent::Inserted(result) => EventView::Inserted(batch::insert_view(result)),
            SyncEvent::Advanced(result) => EventView::Advanced(outcome(result)),
            SyncEvent::Committed(result) => EventView::Committed(outcome(result)),
            SyncEvent::FileAdvanced(result) => EventView::FileAdvanced(outcome(result)),
        }
    }
}

/// The model of [`SyncStep`].
pub enum StepView {
    FindState { sync_key: Seq<char> },
    ReadMessages { session_id: Seq<char> },
    Begin,
    Insert { item: usize },
    Advance { item: usize },
    Commit,
    AdvanceFile { file_modified: i64 },
    Done,
    Fail { message: Seq<char> },
}

impl View for SyncStep {
    type V = StepView;

    open spec fn view(&self) -> StepView {
        match *self {
            SyncStep::FindState { sync_key } => StepView::FindState { sync_key: sync_key@ },
            SyncStep::ReadMessages { session_id } => StepView::ReadMessages {
                session_id: session_id@,
            },
            SyncStep::Begin => StepView::Begin,
            SyncStep::Insert { item } => StepView::Insert { item },
            SyncStep::Advance { item } => StepView::Advance { item },
            SyncStep::Commit => StepView::Commit,
            SyncStep::AdvanceFile { file_modified } => StepView::AdvanceFile { file_modified },
            SyncStep::Done => StepView::Done,
            SyncStep::Fail { message } => StepView::Fail { message: message@ },
        }
    }
}

/// The model of [`OpenCodeSync`].
pub struct RunView {
    pub stage: Stage,
    pub db_path: Seq<char>,
    pub file_modified: i64,
    /// The sessions that are left; the first is the one that is read.
    pub sessions: Seq<(Seq<char>, i64)>,
    /// Whether the messages of the first session have been read.
    pub reading: bool,
    /// Those of them that have not been put into a batch yet.
    pub messages: Seq<(Seq<char>, MessageView)>,
    /// Whether others of that session are still under way.
    pub incomplete: bool,
    pub batch: BatchView,
}

/// A synchronisation that begins.
pub open spec fn begun(db_path: Seq<char>, file_modified: i64, found: Seq<(Seq<char>, i64)>) -> RunView {
    RunView {
        stage: Stage::Start,
        db_path,
        file_modified,
        sessions: found,
        reading: false,
        messages: Seq::empty(),
        incomplete: false,
        batch: BatchView {
            batch: Seq::empty(),
            session_errors: Set::empty(),
            has_sync_errors: false,
            saw_incomplete: false,
            result: session_usage::nothing_found(1),
        },
    }
}

/// Whether as many messages are in the batch as are written in one transaction.
pub open spec fn is_full(b: BatchView) -> bool {
    batch::message_count(b.batch) >= SESSION_LOG_COMMIT_BATCH
}

/// A batch with one more item.
pub open spec fn with_item(b: BatchView, item: ItemView) -> BatchView {
    BatchView { batch: b.batch.push(item), ..b }
}

/// Puts messages of the first session into the batch, until it is full or none is left.
pub open spec fn filled(s: RunView) -> RunView
    decreases s.messages.len(),
{
    if is_full(s.batch) || s.messages.len() == 0 {
        s
    } else {
        let (id, msg_data) = s.messages[0];
        filled(
            RunView {
                messages: s.messages.drop_first(),
                batch: with_item(
                    s.batch,
                    ItemView::Message {
                        session_id: s.sessions[0].0,
                        request_id: batch::request_id(s.sessions[0].0, id),
                        msg_data,
                    },
                ),
                ..s
            },
        )
    }
}

/// Puts the end of the first session into the batch, and is done with that session.
pub open spec fn ended(s: RunView) -> RunView {
    let (session_id, time_updated) = s.sessions[0];
    RunView {
        reading: false,
        sessions: s.sessions.drop_first(),
        batch: with_item(
            s.batch,
            ItemView::SessionFinalize {
                session_id,
                sync_key: batch::sync_key(s.db_path, session_id),
                time_updated,
                advance_state: !s.incomplete,
            },
        ),
        ..s
    }
}

/// Whether nothing went wrong and no message is still under way.
pub open spec fn all_well(s: RunView) -> bool {
    !s.batch.has_sync_errors && !s.batch.saw_incomplete
}

/// Goes on to a stage by a step.
pub open spec fn go(s: RunView, stage: Stage, step: StepView) -> (RunView, StepView) {
    (RunView { stage, ..s }, step)
}

/// Goes on to the next session, or to the end: what is left in the batch is written, and
/// the database as a whole comes to count as read where all is well.
pub open spec fn next_session(s: RunView) -> (RunView, StepView) {
    if s.sessions.len() > 0 {
        go(
            s,
            Stage::State,
            StepView::FindState { sync_key: batch::sync_key(s.db_path, s.sessions[0].0) },
        )
    } else if s.batch.batch.len() > 0 {
        go(s, Stage::Begin, StepView::Begin)
    } else if all_well(s) {
        go(s, Stage::FileBegin, StepView::Begin)
    } else {
        go(s, Stage::Finished, StepView::Done)
    }
}

/// Goes on with the messages of the first session, where it has been read: a full batch
/// is written first.
pub open spec fn go_on(s: RunView) -> (RunView, StepView) {
    if s.reading {
        let t = filled(s);
        if is_full(t.batch) {
            go(t, Stage::Begin, StepView::Begin)
        } else {
            next_session(ended(t))
        }
    } else {
        next_session(s)
    }
}

/// A batch of which an item is reached: at its end a session is forgotten as one of which
/// a message could not be written.
pub open spec fn reached(b: BatchView, item: int) -> BatchView {
    match b.batch[item] {
        ItemView::Message { .. } => b,
        ItemView::SessionFinalize { session_id, .. } => BatchView {
            session_errors: b.session_errors.remove(session_id),
            ..b
        },
    }
}

/// Goes on with the items of the batch, from one of them.
pub open spec fn write_from(s: RunView, item: int) -> (RunView, StepView)
    decreases s.batch.batch.len() - item,
{
    if item < 0 || item >= s.batch.batch.len() {
        go(s, Stage::Commit, StepView::Commit)
    } else {
        let t = RunView { batch: reached(s.batch, item), ..s };
        match batch::action_of(s.batch.batch[item], s.batch.session_errors) {
            FlushAction::Insert => go(
                t,
                Stage::Item { item: item as usize },
                StepView::Insert { item: item as usize },
            ),
            FlushAction::Advance => go(
                t,
                Stage::Item { item: item as usize },
                StepView::Advance { item: item as usize },
            ),
            FlushAction::Nothing => write_from(t, item + 1),
        }
    }
}

/// Is done with the first session.
pub open spec fn passed(s: RunView) -> RunView {
    RunView { sessions: s.sessions.drop_first(), ..s }
}

/// Ends with an error.
pub open spec fn fail(s: RunView, message: Seq<char>) -> (RunView, StepView) {
    go(s, Stage::Finished, StepView::Fail { message })
}

/// Whether an event is what is waited for.
pub open spec fn accepts(s: RunView, event: EventView) -> bool {
    match s.stage {
        Stage::Start => event is Start,
        Stage::State => event is State,
        Stage::Messages => event is Messages || event is MessagesFailed,
        Stage::Begin => event is Begun,
        Stage::Item { item } => if s.batch.batch[item as int] is Message {
            event is Inserted && batch::can_count_more(s.batch)
        } else {
            event is Advanced
        },
        Stage::Commit => event is Committed,
        Stage::FileBegin => event is Begun,
        Stage::File => event is FileAdvanced,
        Stage::FileCommit => event is Committed,
        Stage::Finished => false,
    }
}

/// What is done when an event comes that is waited for.
pub open spec fn step(s: RunView, event: EventView) -> (RunView, StepView) {
    match (s.stage, event) {
        (Stage::Start, EventView::Start) => go_on(s),
        (Stage::State, EventView::State { last_modified }) => if s.sessions[0].1 > last_modified {
            go(s, Stage::Messages, StepView::ReadMessages { session_id: s.sessions[0].0 })
        } else {
            go_on(passed(s))
        },
        (Stage::Messages, EventView::Messages { messages, incomplete }) => go_on(
            RunView {
                reading: true,
                messages,
                incomplete,
                batch: BatchView {
                    saw_incomplete: s.batch.saw_incomplete || incomplete,
                    ..s.batch
                },
                ..s
            },
        ),
        (Stage::Messages, EventView::MessagesFailed(error)) => go_on(
            passed(
                RunView {
                    batch: batch::with_error(
                        s.batch,
                        "OpenCode 会话消息查询失败 "@ + s.sessions[0].0 + ": "@ + error,
                    ),
                    ..s
                },
            ),
        ),
        (Stage::Begin, EventView::Begun(Outcome::Done)) => write_from(s, 0),
        (Stage::Item { item }, EventView::Inserted(outcome)) => write_from(
            RunView {
                batch: batch::with_insert(
                    s.batch,
                    s.batch.batch[item as int]->Message_session_id,
                    s.batch.batch[item as int]->request_id,
                    outcome,
                ),
                ..s
            },
            item + 1,
        ),
        (Stage::Item { item }, EventView::Advanced(Outcome::Done)) => write_from(s, item + 1),
        (Stage::Item { item }, EventView::Advanced(Outcome::Failed(error))) => write_from(
            RunView {
                batch: batch::with_error(
                    s.batch,
                    "OpenCode 会话同步状态更新失败 "@ + s.batch.batch[item as int]->sync_key
                        + ": "@ + error,
                ),
                ..s
            },
            item + 1,
        ),
        (Stage::Commit, EventView::Committed(Outcome::Done)) => go_on(
            RunView { batch: BatchView { batch: Seq::empty(), ..s.batch }, ..s },
        ),
        (Stage::FileBegin, EventView::Begun(Outcome::Done)) => go(
            s,
            Stage::File,
            StepView::AdvanceFile { file_modified: s.file_modified },
        ),
        (Stage::File, EventView::FileAdvanced(Outcome::Done)) => go(
            s,
            Stage::FileCommit,
            StepView::Commit,
        ),
        (Stage::FileCommit, EventView::Committed(Outcome::Done)) => go(
            s,
            Stage::Finished,
            StepView::Done,
        ),
        (_, EventView::Begun(Outcome::Failed(error))) => fail(s, "开启事务失败: "@ + error),
        (_, EventView::Committed(Outcome::Failed(error))) => fail(s, "提交事务失败: "@ + error),
        (_, EventView::FileAdvanced(Outcome::Failed(error))) => fail(s, error),
        _ => (s, StepView::Done),
    }
}

/// Whether the batch is written.
pub open spec fn is_written(stage: Stage) -> bool {
    stage is Begin || stage is Item || stage is Commit
}

/// What holds of every synchronisation: no batch holds more messages than are written in
/// one transaction, a batch to which messages can be added is not full, and when the
/// database as a whole comes to count as read all is well and nothing is left.
pub open spec fn is_sound(s: RunView) -> bool {
    &&& batch::message_count(s.batch.batch) <= SESSION_LOG_COMMIT_BATCH
    &&& !is_written(s.stage) && !(s.stage is Finished) ==> !is_full(s.batch)
    &&& s.reading ==> s.sessions.len() > 0
    &&& s.stage is Start ==> !s.reading
    &&& (s.stage is State || s.stage is Messages) ==> !s.reading && s.sessions.len() > 0
    &&& (s.stage matches Stage::Item { item } ==> item < s.batch.batch.len())
    &&& (s.stage is FileBegin || s.stage is File || s.stage is FileCommit) ==> {
        &&& all_well(s)
        &&& s.sessions.len() == 0
        &&& s.batch.batch.len() == 0
    }
}

/// A synchronisation of the sessions of a database.
pub struct OpenCodeSync {
    stage: Stage,
    db_path: String,
    file_modified: i64,
    sessions: Vec<SessionTime>,
    next: usize,
    reading: bool,
    /// The last of them is put into a batch first.
    messages: Vec<(String, OpenCodeMessageData)>,
    incomplete: bool,
    batch: OpenCodeBatch,
}

/// The models of messages of which the last is put into a batch first.
spec fn queue_views(messages: Seq<(String, OpenCodeMessageData)>) -> Seq<(Seq<char>, MessageView)> {
    Seq::new(
        messages.len(),
        |i: int| (messages[messages.len() - 1 - i].0@, messages[messages.len() - 1 - i].1@),
    )
}

impl View for OpenCodeSync {
    type V = RunView;

    closed spec fn view(&self) -> RunView {
        RunView {
            stage: self.stage,
            db_path: self.db_path@,
            file_modified: self.file_modified,
            sessions: sessions::session_views(self.sessions@).skip(self.next as int),
            reading: self.reading,
            messages: queue_views(self.messages@),
            incomplete: self.incomplete,
            batch: self.batch@,
        }
    }
}

/// Turns messages around, so that the first comes out first.
fn queued(messages: Vec<(String, OpenCodeMessageData)>) -> (r: Vec<(String, OpenCodeMessageData)>)
    ensures
        queue_views(r@) == message::message_views(messages@),
{
    let ghost all = messages@;
    let mut left = messages;
    let mut r: Vec<(String, OpenCodeMessageData)> = Vec::new();
    while left.len() > 0
        invariant
            left@.len() + r@.len() == all.len(),
            left@ == all.take(left@.len() as int),
            forall|i: int| 0 <= i < r@.len() ==> #[trigger] r@[i] == all[all.len() - 1 - i],
        decreases left@.len(),
    {
        let ghost before = left@;
        if let Some(message) = left.pop() {
            assert(message == before[before.len() - 1]);
            r.push(message);
        }
    }
    assert(queue_views(r@) =~= message::message_views(all));
    r
}

impl OpenCodeSync {
    /// What the fields have in common.
    pub closed spec fn wf(self) -> bool {
        &&& self.batch.wf()
        &&& self.next <= self.sessions@.len()
        &&& is_sound(self@)
    }

    /// A synchronisation of sessions that have been found, of a database of that time.
    pub fn new(db_path: &str, file_modified: i64, found: Vec<SessionTime>) -> (r: OpenCodeSync)
        ensures
            r.wf(),
            r@ == begun(db_path@, file_modified, sessions::session_views(found@)),
    {
        let r = OpenCodeSync {
            stage: Stage::Start,
            db_path: db_path.to_owned(),
            file_modified,
            sessions: found,
            next: 0,
            reading: false,
            messages: Vec::new(),
            incomplete: false,
            batch: OpenCodeBatch::new(),
        };
        assert(r@.sessions =~= sessions::session_views(found@));
        assert(r@.messages =~= Seq::empty());
        r
    }

    /// Puts messages of the first session into the batch, until it is full or none is
    /// left, and tells whether it is full.
    fn fill(&mut self) -> (full: bool)
        requires
            old(self).batch.wf(),
            old(self).next < old(self).sessions@.len(),
            !is_full(old(self)@.batch),
        ensures
            final(self).batch.wf(),
            final(self).next == old(self).next,
            final(self).sessions == old(self).sessions,
            final(self)@ == filled(old(self)@),
            full == is_full(final(self)@.batch),
            batch::message_count(final(self)@.batch.batch) <= SESSION_LOG_COMMIT_BATCH,
    {
        let mut full = false;
        while !full && self.messages.len() > 0
            invariant
                self.batch.wf(),
                self.next == old(self).next,
                self.sessions == old(self).sessions,
                self.next < self.sessions@.len(),
                full == is_full(self@.batch),
                batch::message_count(self@.batch.batch) <= SESSION_LOG_COMMIT_BATCH,
                filled(self@) == filled(old(self)@),
            decreases self.messages@.len(),
        {
            let ghost before = self@;
            let ghost queue = self.messages@;
            assert(before.sessions[0] == sessions::session_views(self.sessions@)[self.next as int]);
            if let Some((message_id, msg_data)) = self.messages.pop() {
                proof {
                    assert(before.messages[0] == (message_id@, msg_data@));
                    assert(queue_views(self.messages@) =~= before.messages.drop_first());
                    let item = ItemView::Message {
                        session_id: before.sessions[0].0,
                        request_id: batch::request_id(before.sessions[0].0, message_id@),
                        msg_data: msg_data@,
                    };
                    batch::law_batches_are_bounded(
                        before.batch.batch,
                        item,
                        SESSION_LOG_COMMIT_BATCH as nat,
                    );
                }
                full = self.batch.push_message(
                    self.sessions[self.next].session_id.as_str(),
                    message_id.as_str(),
                    msg_data,
                    SESSION_LOG_COMMIT_BATCH as usize,
                );
            }
        }
        assert(self@.messages.len() == self.messages@.len());
        full
    }

    /// Puts the end of the first session into the batch, and is done with that session.
    fn end_session(&mut self)
        requires
            old(self).batch.wf(),
            old(self).next < old(self).sessions@.len(),
        ensures
            final(self).batch.wf(),
            final(self).next <= final(self).sessions@.len(),
            final(self)@ == ended(old(self)@),
    {
        let ghost before = self@;
        assert(before.sessions[0] == sessions::session_views(self.sessions@)[self.next as int]);
        let key = batch::session_sync_key(
            self.db_path.as_str(),
            self.sessions[self.next].session_id.as_str(),
        );
        self.batch.finish_session(
            self.sessions[self.next].session_id.as_str(),
            key,
            self.sessions[self.next].time,
            self.incomplete,
        );
        self.reading = false;
        assert(self.next < self.sessions.len());
        self.next = self.next + 1;
        assert(self@.sessions =~= before.sessions.drop_first());
    }

    /// Goes on to the next session, or to the end.
    fn next_session(&mut self) -> (r: SyncStep)
        requires
            old(self).batch.wf(),
            old(self).next <= old(self).sessions@.len(),
            !old(self)@.reading,
            !is_full(old(self)@.batch),
        ensures
            final(self).wf(),
            (final(self)@, r@) == next_session(old(self)@),
    {
        if self.next < self.sessions.len() {
            assert(self@.sessions[0] == sessions::session_views(self.sessions@)[self.next as int]);
            self.stage = Stage::State;
            SyncStep::FindState {
                sync_key: batch::session_sync_key(
                    self.db_path.as_str(),
                    self.sessions[self.next].session_id.as_str(),
                ),
            }
        } else if self.batch.batch_len() > 0 {
            self.stage = Stage::Begin;
            SyncStep::Begin
        } else if self.batch.advances_file() {
            self.stage = Stage::FileBegin;
            SyncStep::Begin
        } else {
            self.stage = Stage::Finished;
            SyncStep::Done
        }
    }

    /// Goes on with the messages of the first session, where it has been read.
    fn go_on(&mut self) -> (r: SyncStep)
        requires
            old(self).batch.wf(),
            old(self).next <= old(self).sessions@.len(),
            old(self)@.reading ==> old(self).next < old(self).sessions@.len(),
            !is_full(old(self)@.batch),
        ensures
            final(self).wf(),
            (final(self)@, r@) == go_on(old(self)@),
    {
        if self.reading {
            proof {
                lemma_filled(self@);
            }
            if self.fill() {
                self.stage = Stage::Begin;
                return SyncStep::Begin;
            }
            proof {
                batch::law_batches_are_bounded(
                    self@.batch.batch,
                    ended(self@).batch.batch.last(),
                    SESSION_LOG_COMMIT_BATCH as nat,
                );
            }
            self.end_session();
        }
        self.next_session()
    }

    /// Goes on with the items of the batch, from one of them.
    fn write_from(&mut self, item: usize) -> (r: SyncStep)
        requires
            old(self).batch.wf(),
            old(self).next <= old(self).sessions@.len(),
            old(self)@.reading ==> old(self).next < old(self).sessions@.len(),
            batch::message_count(old(self)@.batch.batch) <= SESSION_LOG_COMMIT_BATCH,
        ensures
            final(self).wf(),
            (final(self)@, r@) == write_from(old(self)@, item as int),
    {
        let mut i: usize = item;
        while i < self.batch.batch_len()
            invariant
                self.batch.wf(),
                self.next <= self.sessions@.len(),
                self@.reading ==> self.next < self.sessions@.len(),
                batch::message_count(self@.batch.batch) <= SESSION_LOG_COMMIT_BATCH,
                write_from(self@, i as int) == write_from(old(self)@, item as int),
            decreases self@.batch.batch.len() - i,
        {
            match self.batch.flush_action(i) {
                FlushAction::Insert => {
                    self.stage = Stage::Item { item: i };
                    return SyncStep::Insert { item: i };
                },
                FlushAction::Advance => {
                    self.stage = Stage::Item { item: i };
                    return SyncStep::Advance { item: i };
                },
                FlushAction::Nothing => {},
            }
            i = i + 1;
        }
        self.stage = Stage::Commit;
        SyncStep::Commit
    }

    /// Is done with the first session.
    fn pass(&mut self)
        requires
            old(self).next < old(self).sessions@.len(),
        ensures
            final(self).batch == old(self).batch,
            final(self).next <= final(self).sessions@.len(),
            final(self)@ == passed(old(self)@),
    {
        let ghost before = self@;
        assert(self.next < self.sessions.len());
        self.next = self.next + 1;
        assert(self@.sessions =~= before.sessions.drop_first());
    }

    /// Ends with an error.
    fn fail(&mut self, message: String) -> (r: SyncStep)
        requires
            old(self).wf(),
        ensures
            final(self).wf(),
            (final(self)@, r@) == fail(old(self)@, message@),
    {
        self.stage = Stage::Finished;
        SyncStep::Fail { message }
    }

    /// What is done next, by what came of the step before.
    pub fn next(&mut self, event: SyncEvent) -> (r: SyncStep)
        requires
            old(self).wf(),
            accepts(old(self)@, event@),
        ensures
            final(self).wf(),
            (final(self)@, r@) == step(old(self)@, event@),
    {
        let ghost before = self@;
        proof {
            self.batch.lemma_batch_fits();
        }
        match event {
            SyncEvent::Start => self.go_on(),
            SyncEvent::State { last_modified } => {
                assert(before.sessions[0] == sessions::session_views(self.sessions@)[self.next as int]);
                if sessions::needs_sync(self.sessions[self.next].time, last_modified) {
                    self.stage = Stage::Messages;
                    SyncStep::ReadMessages {
                        session_id: self.sessions[self.next].session_id.clone(),
                    }
                } else {
                    self.pass();
                    self.go_on()
                }
            },
            SyncEvent::Messages { rows, now } => {
                assert(before.sessions[0] == sessions::session_views(self.sessions@)[self.next as int]);
                match rows {
                    Ok(rows) => {
                        let read = message::query_assistant_messages(&rows, now);
                        self.batch.note_incomplete(read.has_incomplete_usage);
                        self.reading = true;
                        self.incomplete = read.has_incomplete_usage;
                        self.messages = queued(read.messages);
                    },
                    Err(error) => {
                        self.batch.query_failed(
                            self.sessions[self.next].session_id.as_str(),
                            error.as_str(),
                        );
                        self.pass();
                    },
                }
                self.go_on()
            },
            SyncEvent::Begun(result) => match result {
                Ok(_) => if let Stage::FileBegin = self.stage {
                    self.stage = Stage::File;
                    SyncStep::AdvanceFile { file_modified: self.file_modified }
                } else {
                    self.write_from(0)
                },
                Err(error) => self.fail(text::concat2("开启事务失败: ", error.as_str())),
            },
            SyncEvent::Inserted(outcome) => {
                let item: usize = match self.stage {
                    Stage::Item { item } => item,
                    _ => 0,
                };
                self.batch.inserted(item, outcome);
                self.write_from(item + 1)
            },
            SyncEvent::Advanced(result) => {
                let item: usize = match self.stage {
                    Stage::Item { item } => item,
                    _ => 0,
                };
                if let Err(error) = result {
                    self.batch.advance_failed(item, error.as_str());
                }
                self.write_from(item + 1)
            },
            SyncEvent::Committed(result) => match result {
                Ok(_) => if let Stage::FileCommit = self.stage {
                    self.stage = Stage::Finished;
                    SyncStep::Done
                } else {
                    self.batch.end_flush();
                    self.go_on()
                },
                Err(error) => self.fail(text::concat2("提交事务失败: ", error.as_str())),
            },
            SyncEvent::FileAdvanced(result) => match result {
                Ok(_) => {
                    self.stage = Stage::FileCommit;
                    SyncStep::Commit
                },
                Err(error) => self.fail(error),
            },
        }
    }

    /// Whether what comes of writing one more message can be counted.
    pub fn can_count(&self) -> (r: bool)
        ensures
            r == batch::can_count_more(self@.batch),
    {
        self.batch.can_count()
    }

    /// An item of the batch that is written.
    pub fn item(&self, item: usize) -> (r: &PendingOpenCodeItem)
        requires
            item < self@.batch.batch.len(),
        ensures
            r@ == self@.batch.batch[item as int],
    {
        self.batch.item(item)
    }

    /// What the synchronisation came to.
    pub fn into_result(self) -> (r: SessionSyncResult)
        ensures
            r@ == self@.batch.result,
    {
        self.batch.into_result()
    }
}

/// Putting messages into the batch changes nothing else.
proof fn lemma_filled(s: RunView)
    ensures
        ({
            let t = filled(s);
            &&& t.sessions == s.sessions
            &&& t.stage == s.stage
            &&& t.reading == s.reading
            &&& t.incomplete == s.incomplete
            &&& t.db_path == s.db_path
            &&& t.file_modified == s.file_modified
            &&& t.batch == (BatchView { batch: t.batch.batch, ..s.batch })
            &&& is_full(t.batch) || t.messages.len() == 0
        }),
    decreases s.messages.len(),
{
    if !is_full(s.batch) && s.messages.len() > 0 {
        let (id, msg_data) = s.messages[0];
        lemma_filled(
            RunView {
                messages: s.messages.drop_first(),
                batch: with_item(
                    s.batch,
                    ItemView::Message {
                        session_id: s.sessions[0].0,
                        request_id: batch::request_id(s.sessions[0].0, id),
                        msg_data,
                    },
                ),
                ..s
            },
        );
    }
}

} // verus!
