//! Writing the messages of all sessions, a batch at a time.
//!
//! Messages are put into a batch one by one. When a batch is full it is written,
//! in one transaction. After the last message of a session a mark is put into the
//! batch; when it is reached, the session counts as read, unless one of its
//! messages could not be written or is still under way.

use vstd::prelude::*;
use vstd::string::*;
use crate::services::session_usage;
use crate::services::session_usage::{SessionSyncResult, SyncResultView};
use crate::services::session_usage_opencode::message::{MessageView, OpenCodeMessageData};
use crate::text;
use crate::text_set::TextSet;

verus! {

/// What is put into a batch.
#[derive(Debug)]
pub enum PendingOpenCodeItem {
    /// A message to write.
    Message { session_id: String, request_id: String, msg_data: OpenCodeMessageData },
    /// The end of the messages of a session.
    SessionFinalize {
        session_id: String,
        sync_key: String,
        time_updated: i64,
        /// Whether none of its messages is still under way.
        advance_state: bool,
    },
}

/// The model of [`PendingOpenCodeItem`].
pub enum ItemView {
    Message { session_id: Seq<char>, request_id: Seq<char>, msg_data: MessageView },
    SessionFinalize {
        session_id: Seq<char>,
        sync_key: Seq<char>,
        time_updated: i64,
        advance_state: bool,
    },
}

impl View for PendingOpenCodeItem {
    type V = ItemView;

    open spec fn view(&self) -> ItemView {
        match *self {
            PendingOpenCodeItem::Message { session_id, request_id, msg_data } => ItemView::Message {
                session_id: session_id@,
                request_id: request_id@,
                msg_data: msg_data@,
            },
            PendingOpenCodeItem::SessionFinalize {
                session_id,
                sync_key,
                time_updated,
                advance_state,
            } => ItemView::SessionFinalize {
                session_id: session_id@,
                sync_key: sync_key@,
                time_updated,
                advance_state,
            },
        }
    }
}

/// The models of the items of a batch.
pub open spec fn item_views(items: Seq<PendingOpenCodeItem>) -> Seq<ItemView> {
    Seq::new(items.len(), |i: int| items[i]@)
}

/// The number of messages in a batch.
pub open spec fn message_count(items: Seq<ItemView>) -> nat
    decreases items.len(),
{
    if items.len() == 0 {
        0
    } else {
        message_count(items.drop_last()) + if items.last() is Message {
            1nat
        } else {
            0nat
        }
    }
}

/// A batch, and what has come of the batches before it.
pub struct OpenCodeBatch {
    batch: Vec<PendingOpenCodeItem>,
    batch_messages: usize,
    session_errors: TextSet,
    has_sync_errors: bool,
    saw_incomplete: bool,
    result: SessionSyncResult,
}

/// The model of [`OpenCodeBatch`].
pub struct BatchView {
    /// The batch.
    pub batch: Seq<ItemView>,
    /// The sessions of which a message could not be written.
    pub session_errors: Set<Seq<char>>,
    /// Whether anything went wrong.
    pub has_sync_errors: bool,
    /// Whether a message is still under way.
    pub saw_incomplete: bool,
    pub result: SyncResultView,
}

impl View for OpenCodeBatch {
    type V = BatchView;

    closed spec fn view(&self) -> BatchView {
        BatchView {
            batch: item_views(self.batch@),
            session_errors: self.session_errors@,
            has_sync_errors: self.has_sync_errors,
            saw_incomplete: self.saw_incomplete,
            result: self.result@,
        }
    }
}

/// The id of the request of a message.
pub open spec fn request_id(session_id: Seq<char>, message_id: Seq<char>) -> Seq<char> {
    "opencode_session:"@ + session_id + ":"@ + message_id
}

/// The key under which it is kept how far a session has been read.
pub open spec fn sync_key(db_path: Seq<char>, session_id: Seq<char>) -> Seq<char> {
    db_path + ":"@ + session_id
}

/// The key under which it is kept how far a session has been read.
pub fn session_sync_key(db_path: &str, session_id: &str) -> (r: String)
    ensures
        r@ == sync_key(db_path@, session_id@),
{
    text::concat3(db_path, ":", session_id)
}

/// What is done with an item of a batch when the batch is written.
#[derive(Debug, Clone, Copy, PartialEq, Eq, Structural)]
pub enum FlushAction {
    /// Its message is written.
    Insert,
    /// Its session counts as read.
    Advance,
    Nothing,
}

/// What is done with an item when the batch is written.
pub open spec fn action_of(item: ItemView, session_errors: Set<Seq<char>>) -> FlushAction {
    match item {
        ItemView::Message { .. } => FlushAction::Insert,
        ItemView::SessionFinalize { session_id, advance_state, .. } => if session_errors.contains(
            session_id,
        ) || !advance_state {
            FlushAction::Nothing
        } else {
            FlushAction::Advance
        },
    }
}

/// What came of writing a message.
pub enum InsertView {
    Imported,
    Skipped,
    Failed(Seq<char>),
}

/// What came of writing a message.
pub open spec fn insert_view(outcome: Result<bool, String>) -> InsertView {
    match outcome {
        Ok(imported) => if imported {
            InsertView::Imported
        } else {
            InsertView::Skipped
        },
        Err(error) => InsertView::Failed(error@),
    }
}

/// What a synchronisation comes to with one more message of a session written.
pub open spec fn with_insert(
    s: BatchView,
    session_id: Seq<char>,
    request_id: Seq<char>,
    outcome: InsertView,
) -> BatchView {
    match outcome {
        InsertView::Imported => BatchView {
            result: SyncResultView { imported: (s.result.imported + 1) as u32, ..s.result },
            ..s
        },
        InsertView::Skipped => BatchView {
            result: SyncResultView { skipped: (s.result.skipped + 1) as u32, ..s.result },
            ..s
        },
        InsertView::Failed(error) => BatchView {
            session_errors: s.session_errors.insert(session_id),
            has_sync_errors: true,
            result: SyncResultView {
                skipped: (s.result.skipped + 1) as u32,
                errors: s.result.errors.push(
                    "OpenCode 消息插入失败 "@ + request_id + ": "@ + error,
                ),
                ..s.result
            },
            ..s
        },
    }
}

/// Whether one more message can be counted.
pub open spec fn can_count_more(s: BatchView) -> bool {
    s.result.imported < u32::MAX && s.result.skipped < u32::MAX
}

/// A synchronisation with one more error.
pub open spec fn with_error(s: BatchView, error: Seq<char>) -> BatchView {
    BatchView {
        has_sync_errors: true,
        result: SyncResultView { errors: s.result.errors.push(error), ..s.result },
        ..s
    }
}

impl OpenCodeBatch {
    /// Whether the messages in the batch have been counted.
    pub closed spec fn wf(self) -> bool {
        self.batch_messages == message_count(self@.batch)
    }

    /// A synchronisation that begins.
    pub fn new() -> (r: OpenCodeBatch)
        ensures
            r.wf(),
            r@ == (BatchView {
                batch: Seq::empty(),
                session_errors: Set::empty(),
                has_sync_errors: false,
                saw_incomplete: false,
                result: session_usage::nothing_found(1),
            }),
    {
        let r = OpenCodeBatch {
            batch: Vec::new(),
            batch_messages: 0,
            session_errors: TextSet::new(),
            has_sync_errors: false,
            saw_incomplete: false,
            result: SessionSyncResult::empty(1),
        };
        assert(item_views(r.batch@) =~= Seq::empty());
        r
    }

    /// Puts a message into the batch, and tells whether the batch is full.
    pub fn push_message(
        &mut self,
        session_id: &str,
        message_id: &str,
        msg_data: OpenCodeMessageData,
        batch_size: usize,
    ) -> (full: bool)
        requires
            old(self).wf(),
            message_count(old(self)@.batch) < usize::MAX,
        ensures
            final(self).wf(),
            final(self)@ == (BatchView {
                batch: old(self)@.batch.push(
                    ItemView::Message {
                        session_id: session_id@,
                        request_id: request_id(session_id@, message_id@),
                        msg_data: msg_data@,
                    },
                ),
                ..old(self)@
            }),
            full == (message_count(final(self)@.batch) >= batch_size),
    {
        let ghost before = item_views(self.batch@);
        let request_id = text::concat2(
            text::concat3("opencode_session:", session_id, ":").as_str(),
            message_id,
        );
        let item = PendingOpenCodeItem::Message {
            session_id: session_id.to_owned(),
            request_id,
            msg_data,
        };
        let ghost added = item@;
        self.batch.push(item);
        assert(item_views(self.batch@) =~= before.push(added));
        assert(before.push(added).drop_last() =~= before);
        self.batch_messages = self.batch_messages + 1;
        self.batch_messages >= batch_size
    }

    /// Puts the end of the messages of a session into the batch.
    pub fn finish_session(
        &mut self,
        session_id: &str,
        sync_key: String,
        time_updated: i64,
        has_incomplete_usage: bool,
    )
        requires
            old(self).wf(),
        ensures
            final(self).wf(),
            final(self)@ == (BatchView {
                batch: old(self)@.batch.push(
                    ItemView::SessionFinalize {
                        session_id: session_id@,
                        sync_key: sync_key@,
                        time_updated,
                        advance_state: !has_incomplete_usage,
                    },
                ),
                ..old(self)@
            }),
    {
        let ghost before = item_views(self.batch@);
        let item = PendingOpenCodeItem::SessionFinalize {
            session_id: session_id.to_owned(),
            sync_key,
            time_updated,
            advance_state: !has_incomplete_usage,
        };
        let ghost added = item@;
        self.batch.push(item);
        assert(item_views(self.batch@) =~= before.push(added));
        assert(before.push(added).drop_last() =~= before);
    }

    /// Takes note of whether messages of a session are still under way.
    pub fn note_incomplete(&mut self, has_incomplete_usage: bool)
        requires
            old(self).wf(),
        ensures
            final(self).wf(),
            final(self)@ == (BatchView {
                saw_incomplete: old(self)@.saw_incomplete || has_incomplete_usage,
                ..old(self)@
            }),
    {
        self.saw_incomplete = self.saw_incomplete || has_incomplete_usage;
    }

    /// Takes note of a session whose messages could not be read.
    pub fn query_failed(&mut self, session_id: &str, error: &str)
        requires
            old(self).wf(),
        ensures
            final(self).wf(),
            final(self)@ == with_error(
                old(self)@,
                "OpenCode 会话消息查询失败 "@ + session_id@ + ": "@ + error@,
            ),
    {
        let head = text::concat3("OpenCode 会话消息查询失败 ", session_id, ": ");
        self.result.push_error(text::concat2(head.as_str(), error));
        self.has_sync_errors = true;
    }

    /// The number of items in a batch can be counted.
    pub proof fn lemma_batch_fits(self)
        ensures
            self@.batch.len() <= usize::MAX,
    {
        assert(self.batch@.len() == self.batch.len());
    }

    /// The number of items in the batch.
    pub fn batch_len(&self) -> (r: usize)
        ensures
            r == self@.batch.len(),
    {
        self.batch.len()
    }

    /// An item of the batch.
    pub fn item(&self, i: usize) -> (r: &PendingOpenCodeItem)
        requires
            i < self@.batch.len(),
        ensures
            r@ == self@.batch[i as int],
    {
        &self.batch[i]
    }

    /// What is done with an item of the batch. A session is forgotten as one of
    /// which a message could not be written when its end is reached.
    pub fn flush_action(&mut self, i: usize) -> (r: FlushAction)
        requires
            old(self).wf(),
            i < old(self)@.batch.len(),
        ensures
            final(self).wf(),
            r == action_of(old(self)@.batch[i as int], old(self)@.session_errors),
            final(self)@ == (BatchView {
                session_errors: match old(self)@.batch[i as int] {
                    ItemView::Message { .. } => old(self)@.session_errors,
                    ItemView::SessionFinalize { session_id, .. } => old(
                        self,
                    )@.session_errors.remove(session_id),
                },
                ..old(self)@
            }),
    {
        match &self.batch[i] {
            PendingOpenCodeItem::Message { .. } => FlushAction::Insert,
            PendingOpenCodeItem::SessionFinalize { session_id, advance_state, .. } => {
                let failed = self.session_errors.remove(session_id.as_str());
                if failed || !*advance_state {
                    FlushAction::Nothing
                } else {
                    FlushAction::Advance
                }
            },
        }
    }

    /// Whether one more message can be counted.
    pub fn can_count(&self) -> (r: bool)
        ensures
            r == can_count_more(self@),
    {
        self.result.imported < u32::MAX && self.result.skipped < u32::MAX
    }

    /// Takes note of what came of writing the message of an item.
    pub fn inserted(&mut self, i: usize, outcome: Result<bool, String>)
        requires
            old(self).wf(),
            i < old(self)@.batch.len(),
            old(self)@.batch[i as int] is Message,
            can_count_more(old(self)@),
        ensures
            final(self).wf(),
            final(self)@ == with_insert(
                old(self)@,
                old(self)@.batch[i as int]->Message_session_id,
                old(self)@.batch[i as int]->request_id,
                insert_view(outcome),
            ),
    {
        match outcome {
            Ok(imported) => {
                if imported {
                    self.result.imported = self.result.imported + 1;
                } else {
                    self.result.skipped = self.result.skipped + 1;
                }
            },
            Err(error) => {
                if let PendingOpenCodeItem::Message { session_id, request_id, .. } = &self.batch[i] {
                    let head = text::concat3(
                        "OpenCode 消息插入失败 ",
                        request_id.as_str(),
                        ": ",
                    );
                    self.result.push_error(text::concat2(head.as_str(), error.as_str()));
                    self.session_errors.insert(session_id.as_str());
                }
                self.result.skipped = self.result.skipped + 1;
                self.has_sync_errors = true;
            },
        }
    }

    /// Takes note of a session that could not be made to count as read.
    pub fn advance_failed(&mut self, i: usize, error: &str)
        requires
            old(self).wf(),
            i < old(self)@.batch.len(),
            old(self)@.batch[i as int] is SessionFinalize,
        ensures
            final(self).wf(),
            final(self)@ == with_error(
                old(self)@,
                "OpenCode 会话同步状态更新失败 "@ + old(self)@.batch[i as int]->sync_key + ": "@
                    + error@,
            ),
    {
        if let PendingOpenCodeItem::SessionFinalize { sync_key, .. } = &self.batch[i] {
            let head = text::concat3(
                "OpenCode 会话同步状态更新失败 ",
                sync_key.as_str(),
                ": ",
            );
            self.result.push_error(text::concat2(head.as_str(), error));
        }
        self.has_sync_errors = true;
    }

    /// Empties the batch, which has been written.
    pub fn end_flush(&mut self)
        requires
            old(self).wf(),
        ensures
            final(self).wf(),
            final(self)@ == (BatchView { batch: Seq::empty(), ..old(self)@ }),
    {
        self.batch = Vec::new();
        self.batch_messages = 0;
        assert(item_views(self.batch@) =~= Seq::empty());
    }

    /// Whether the database as a whole counts as read: nothing went wrong, and no
    /// message is still under way.
    pub fn advances_file(&self) -> (r: bool)
        ensures
            r == (!self@.has_sync_errors && !self@.saw_incomplete),
    {
        !self.has_sync_errors && !self.saw_incomplete
    }

    /// What the synchronisation came to.
    pub fn into_result(self) -> (r: SessionSyncResult)
        ensures
            r@ == self@.result,
    {
        self.result
    }
}

/// A batch that is written as soon as it is full never holds more messages than it
/// may, however many a session has.
pub proof fn law_batches_are_bounded(batch: Seq<ItemView>, item: ItemView, batch_size: nat)
    requires
        message_count(batch) < batch_size,
    ensures
        message_count(batch.push(item)) <= batch_size,
        item is Message ==> message_count(batch.push(item)) == message_count(batch) + 1,
        item is SessionFinalize ==> message_count(batch.push(item)) == message_count(batch),
        message_count(Seq::<ItemView>::empty()) == 0,
{
    assert(batch.push(item).drop_last() =~= batch);
}

/// A session of which a message could not be written does not count as read,
/// whatever comes of the messages between that one and the end of the session.
pub proof fn law_failed_sessions_are_not_advanced(
    s: BatchView,
    session_id: Seq<char>,
    other: Seq<char>,
    other_request: Seq<char>,
    outcome: InsertView,
    end: ItemView,
)
    requires
        s.session_errors.contains(session_id),
        end matches ItemView::SessionFinalize { session_id: own, .. } && own == session_id,
    ensures
        with_insert(s, other, other_request, outcome).session_errors.contains(session_id),
        action_of(end, s.session_errors) == FlushAction::Nothing,
{
}

/// A message that could not be written is taken note of: in its session, and for
/// the database as a whole.
pub proof fn law_failures_are_noted(
    s: BatchView,
    session_id: Seq<char>,
    request_id: Seq<char>,
    error: Seq<char>,
)
    ensures
        with_insert(s, session_id, request_id, InsertView::Failed(error)).session_errors.contains(
            session_id,
        ),
        with_insert(s, session_id, request_id, InsertView::Failed(error)).has_sync_errors,
        with_error(s, error).has_sync_errors,
{
}

/// Once anything went wrong, the database as a whole does not count as read,
/// whatever comes after.
pub proof fn law_errors_are_not_forgotten(
    s: BatchView,
    session_id: Seq<char>,
    request_id: Seq<char>,
    outcome: InsertView,
)
    requires
        s.has_sync_errors,
    ensures
        with_insert(s, session_id, request_id, outcome).has_sync_errors,
{
}

} // verus!
