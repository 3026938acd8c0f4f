//! What a message used and cost.

use vstd::prelude::*;
use vstd::string::*;
use crate::json;
use crate::json::{Json, JsonView};
use crate::services::session_usage;
use crate::services::session_usage::{
    CallTokens, CostTexts, CostView, DedupKey, KeyView, LogRow, RowView,
};
use crate::services::session_usage_codex::tokens;
use crate::text;

verus! {

/// What a message used and cost.
#[derive(Debug)]
pub struct OpenCodeMessageData {
    pub input_tokens: u32,
    pub output_tokens: u32,
    pub reasoning_tokens: u32,
    pub cache_read_tokens: u32,
    pub cache_write_tokens: u32,
    /// The decimal numeral of the cost in US dollars.
    pub cost: String,
    pub model_id: String,
    /// Seconds since the Unix epoch.
    pub created_at: i64,
}

/// The model of [`OpenCodeMessageData`].
pub struct MessageView {
    pub input_tokens: u32,
    pub output_tokens: u32,
    pub reasoning_tokens: u32,
    pub cache_read_tokens: u32,
    pub cache_write_tokens: u32,
    pub cost: Seq<char>,
    pub model_id: Seq<char>,
    pub created_at: i64,
}

impl View for OpenCodeMessageData {
    type V = MessageView;

    open spec fn view(&self) -> MessageView {
        MessageView {
            input_tokens: self.input_tokens,
            output_tokens: self.output_tokens,
            reasoning_tokens: self.reasoning_tokens,
            cache_read_tokens: self.cache_read_tokens,
            cache_write_tokens: self.cache_write_tokens,
            cost: self.cost@,
            model_id: self.model_id@,
            created_at: self.created_at,
        }
    }
}

/// A count by its low 32 bits; zero where it is not given.
pub open spec fn count_in(value: JsonView, name: Seq<char>) -> u32 {
    tokens::low32(tokens::or_zero(json::field_unsigned(value, name)))
}

/// A count in the `cache` of token counts.
pub open spec fn cache_count(counts: JsonView, name: Seq<char>) -> u32 {
    match counts.field("cache"@) {
        Some(cache) => count_in(cache, name),
        None => 0,
    }
}

/// The decimal numeral of the cost of a message.
pub open spec fn cost_of(value: JsonView) -> Seq<char> {
    match value.field("cost"@) {
        Some(JsonView::Number(n)) => n.decimal,
        _ => "0"@,
    }
}

/// The model of a message.
pub open spec fn model_of(value: JsonView) -> Seq<char> {
    match json::field_text(value, "modelID"@) {
        Some(model) => model,
        None => "unknown"@,
    }
}

/// When a message was created, in seconds; `now` where it does not say.
pub open spec fn created_at_of(value: JsonView, now: i64) -> i64 {
    match json::field_of_field(value, "time"@, "created"@) {
        Some(created) => match created.signed() {
            Some(millis) => if millis > 0 {
                (millis as int / 1000) as i64
            } else {
                now
            },
            None => now,
        },
        None => now,
    }
}

/// What a message with token counts used and cost.
pub open spec fn message_of(value: JsonView, counts: JsonView, now: i64) -> MessageView {
    MessageView {
        input_tokens: count_in(counts, "input"@),
        output_tokens: count_in(counts, "output"@),
        reasoning_tokens: count_in(counts, "reasoning"@),
        cache_read_tokens: cache_count(counts, "read"@),
        cache_write_tokens: cache_count(counts, "write"@),
        cost: cost_of(value),
        model_id: model_of(value),
        created_at: created_at_of(value, now),
    }
}

/// Whether a message used nothing.
pub open spec fn used_nothing(message: MessageView) -> bool {
    &&& message.input_tokens == 0
    &&& message.output_tokens == 0
    &&& message.reasoning_tokens == 0
    &&& message.cache_read_tokens == 0
    &&& message.cache_write_tokens == 0
}

/// What a message used and cost; nothing where it has no token counts or used
/// nothing.
pub open spec fn billed_message(value: JsonView, now: i64) -> Option<MessageView> {
    match value.field("tokens"@) {
        Some(counts) => {
            let message = message_of(value, counts, now);
            if used_nothing(message) {
                None
            } else {
                Some(message)
            }
        },
        None => None,
    }
}

/// A count by its low 32 bits.
fn count(value: &Json, name: &str) -> (r: u32)
    ensures
        r == count_in(value@, name@),
{
    tokens::low_bits(value.get_u64(name).unwrap_or(0))
}

/// A count in the `cache` of token counts.
fn count_in_cache(counts: &Json, name: &str) -> (r: u32)
    ensures
        r == cache_count(counts@, name@),
{
    match counts.get("cache") {
        Some(cache) => count(cache, name),
        None => 0,
    }
}

/// When a message was created, in seconds.
fn created_at(value: &Json, now: i64) -> (r: i64)
    ensures
        r == created_at_of(value@, now),
{
    let millis = match value.get("time") {
        Some(time) => time.get_i64("created"),
        None => None,
    };
    match millis {
        Some(millis) => if millis > 0 {
            millis / 1000
        } else {
            now
        },
        None => now,
    }
}

/// The model of an optional message.
pub open spec fn message_view(message: Option<OpenCodeMessageData>) -> Option<MessageView> {
    match message {
        Some(message) => Some(message@),
        None => None,
    }
}

/// What a message used and cost, where it used anything.
pub fn parse_message_data(value: &Json, now: i64) -> (r: Option<OpenCodeMessageData>)
    ensures
        message_view(r) == billed_message(value@, now),
{
    let counts = match value.get("tokens") {
        Some(counts) => counts,
        None => {
            return None;
        },
    };
    let input_tokens: u32 = count(counts, "input");
    let output_tokens: u32 = count(counts, "output");
    let reasoning_tokens: u32 = count(counts, "reasoning");
    let cache_read_tokens: u32 = count_in_cache(counts, "read");
    let cache_write_tokens: u32 = count_in_cache(counts, "write");
    if input_tokens == 0 && output_tokens == 0 && reasoning_tokens == 0 && cache_read_tokens == 0
        && cache_write_tokens == 0 {
        return None;
    }
    let cost = match value.get("cost") {
        Some(Json::Number(n)) => n.decimal.clone(),
        _ => "0".to_owned(),
    };
    let model_id = match value.get_str("modelID") {
        Some(model) => model.to_owned(),
        None => "unknown".to_owned(),
    };
    Some(
        OpenCodeMessageData {
            input_tokens,
            output_tokens,
            reasoning_tokens,
            cache_read_tokens,
            cache_write_tokens,
            cost,
            model_id,
            created_at: created_at(value, now),
        },
    )
}

/// What a row of the table of messages is.
pub enum RowKind {
    /// Nothing to bill.
    Other,
    /// A message of an assistant that is still under way.
    Incomplete,
    /// A completed message of an assistant.
    Complete(Option<MessageView>),
}

/// What a row of the table of messages is.
pub open spec fn row_kind(data: Seq<char>, now: i64) -> RowKind {
    match json::json_parsed(data) {
        Some(value) => if json::field_text(value, "role"@) != Some("assistant"@) || value.field(
            "tokens"@,
        ) is None {
            RowKind::Other
        } else if json::field_of_field(value, "time"@, "completed"@) is None {
            RowKind::Incomplete
        } else {
            RowKind::Complete(billed_message(value, now))
        },
        None => RowKind::Other,
    }
}

/// The billed messages among the rows of a session, by their ids.
pub open spec fn billed_rows(rows: Seq<(String, String)>, now: i64) -> Seq<(Seq<char>, MessageView)>
    decreases rows.len(),
{
    if rows.len() == 0 {
        Seq::empty()
    } else {
        let before = billed_rows(rows.drop_last(), now);
        match row_kind(rows.last().1@, now) {
            RowKind::Complete(Some(message)) => before.push((rows.last().0@, message)),
            _ => before,
        }
    }
}

/// Whether a message among the rows of a session is still under way.
pub open spec fn has_incomplete(rows: Seq<(String, String)>, now: i64) -> bool {
    exists|i: int| 0 <= i < rows.len() && row_kind((#[trigger] rows[i]).1@, now) is Incomplete
}

/// The billed messages of a session, and whether others are still under way.
#[derive(Debug)]
pub struct OpenCodeMessageQueryResult {
    pub messages: Vec<(String, OpenCodeMessageData)>,
    pub has_incomplete_usage: bool,
}

/// The ids and models of messages.
pub open spec fn message_views(messages: Seq<(String, OpenCodeMessageData)>) -> Seq<
    (Seq<char>, MessageView),
> {
    Seq::new(messages.len(), |i: int| (messages[i].0@, messages[i].1@))
}

/// The billed messages among the rows of a session, each with its id and data, and
/// whether others are still under way.
pub fn query_assistant_messages(rows: &Vec<(String, String)>, now: i64) -> (r:
    OpenCodeMessageQueryResult)
    ensures
        message_views(r.messages@) == billed_rows(rows@, now),
        r.has_incomplete_usage == has_incomplete(rows@, now),
{
    let mut messages: Vec<(String, OpenCodeMessageData)> = Vec::new();
    let mut has_incomplete_usage = false;
    let mut i: usize = 0;
    assert(message_views(messages@) =~= Seq::empty());
    while i < rows.len()
        invariant
            i <= rows@.len(),
            message_views(messages@) == billed_rows(rows@.take(i as int), now),
            has_incomplete_usage == has_incomplete(rows@.take(i as int), now),
        decreases rows@.len() - i,
    {
        let ghost seen = rows@.take(i as int);
        let ghost more = rows@.take(i + 1);
        let ghost before = message_views(messages@);
        assert(more.drop_last() == seen);
        assert(more.last() == rows@[i as int]);
        let ghost was_incomplete = has_incomplete_usage;
        if let Some(value) = json::parse_json(rows[i].1.as_str()) {
            let is_assistant = match value.get_str("role") {
                Some(role) => text::same_text(role, "assistant"),
                None => false,
            };
            if is_assistant && value.get("tokens").is_some() {
                let completed = match value.get("time") {
                    Some(time) => time.get("completed").is_some(),
                    None => false,
                };
                if !completed {
                    has_incomplete_usage = true;
                } else if let Some(message) = parse_message_data(&value, now) {
                    messages.push((rows[i].0.clone(), message));
                    assert(message_views(messages@) =~= before.push((rows@[i as int].0@, message@)));
                }
            }
        }
        assert(has_incomplete_usage == has_incomplete(more, now)) by {
            assert(more[i as int] == rows@[i as int]);
            if was_incomplete {
                let k = choose|k: int|
                    0 <= k < seen.len() && row_kind((#[trigger] seen[k]).1@, now) is Incomplete;
                assert(more[k] == seen[k]);
            }
            if has_incomplete(more, now) {
                let k = choose|k: int|
                    0 <= k < more.len() && row_kind((#[trigger] more[k]).1@, now) is Incomplete;
                if k < i {
                    assert(seen[k] == more[k]);
                }
            }
        }
        i = i + 1;
    }
    assert(rows@.take(i as int) == rows@);
    OpenCodeMessageQueryResult { messages, has_incomplete_usage }
}

/// Whether a decimal numeral is that of a number above zero.
pub open spec fn is_positive(numeral: Seq<char>) -> bool {
    &&& numeral.len() > 0 && numeral[0] != '-'
    &&& exists|i: int| 0 <= i < numeral.len() && '1' <= #[trigger] numeral[i] <= '9'
}

/// Whether a decimal numeral is that of a number above zero.
fn above_zero(numeral: &str) -> (r: bool)
    ensures
        r == is_positive(numeral@),
{
    let chars = text::chars_of(numeral);
    if chars.len() == 0 || chars[0] == '-' {
        return false;
    }
    let mut i: usize = 0;
    while i < chars.len()
        invariant
            i <= chars@.len(),
            chars@ == numeral@,
            chars@.len() > 0,
            chars@[0] != '-',
            forall|k: int| 0 <= k < i ==> !('1' <= #[trigger] chars@[k] <= '9'),
        decreases chars@.len() - i,
    {
        if '1' <= chars[i] && chars[i] <= '9' {
            return true;
        }
        i = i + 1;
    }
    false
}

/// The tokens of a message. Reasoning is billed as output.
pub open spec fn call_tokens(message: MessageView) -> CallTokens {
    CallTokens {
        input: message.input_tokens,
        output: (message.output_tokens + message.reasoning_tokens) as u32,
        cache_read: message.cache_read_tokens,
        cache_creation: message.cache_write_tokens,
    }
}

/// The cost of a message: the one that it gives, or else the one by the price of
/// its model, or else nothing.
pub open spec fn message_cost(message: MessageView, priced: Option<CostView>) -> CostView {
    if is_positive(message.cost) {
        session_usage::only_total(message.cost)
    } else {
        match priced {
            Some(costs) => costs,
            None => session_usage::only_total("0"@),
        }
    }
}

/// The row of a message of a session.
pub open spec fn message_row(
    request_id: Seq<char>,
    session_id: Seq<char>,
    message: MessageView,
    priced: Option<CostView>,
) -> RowView {
    session_usage::session_row(
        "opencode"@,
        request_id,
        session_id,
        message.model_id,
        call_tokens(message),
        message_cost(message, priced),
        message.created_at,
    )
}

/// Whether the output and the reasoning of a message can be counted together.
pub open spec fn output_fits(message: MessageView) -> bool {
    message.output_tokens + message.reasoning_tokens <= u32::MAX
}

/// By what other records of a message are recognised.
pub open spec fn message_key(msg: MessageView) -> KeyView {
    KeyView {
        app_type: "opencode"@,
        model: msg.model_id,
        tokens: call_tokens(msg),
        created_at: msg.created_at,
    }
}

impl OpenCodeMessageData {
    /// Whether the output and the reasoning of the message can be counted together.
    pub fn output_fits(&self) -> (r: bool)
        ensures
            r == output_fits(self@),
    {
        self.output_tokens <= u32::MAX - self.reasoning_tokens
    }

    /// The tokens of the message.
    pub fn tokens(&self) -> (r: CallTokens)
        requires
            output_fits(self@),
        ensures
            r == call_tokens(self@),
            r.output == self.output_tokens + self.reasoning_tokens,
            r.input + r.output + r.cache_read + r.cache_creation == self.input_tokens
                + self.output_tokens + self.reasoning_tokens + self.cache_read_tokens
                + self.cache_write_tokens,
    {
        CallTokens {
            input: self.input_tokens,
            output: self.output_tokens + self.reasoning_tokens,
            cache_read: self.cache_read_tokens,
            cache_creation: self.cache_write_tokens,
        }
    }

    /// By what other records of the message are recognised.
    pub fn dedup_key(&self) -> (r: DedupKey)
        requires
            output_fits(self@),
        ensures
            r@ == message_key(self@),
            r.tokens.output == self.output_tokens + self.reasoning_tokens,
    {
        DedupKey {
            app_type: "opencode".to_owned(),
            model: self.model_id.clone(),
            tokens: self.tokens(),
            created_at: self.created_at,
        }
    }

    /// Whether the message gives its cost, so that no price is needed.
    pub fn gives_cost(&self) -> (r: bool)
        ensures
            r == is_positive(self@.cost),
    {
        above_zero(self.cost.as_str())
    }

    /// The row of the message; `priced` is its cost by the price of its model.
    pub fn log_row(&self, request_id: &str, session_id: &str, priced: Option<CostTexts>) -> (r: LogRow)
        requires
            output_fits(self@),
        ensures
            r@ == message_row(request_id@, session_id@, self@, session_usage::cost_view(priced)),
            r.tokens.output == self.output_tokens + self.reasoning_tokens,
            r.tokens.input + r.tokens.output + r.tokens.cache_read + r.tokens.cache_creation
                == self.input_tokens + self.output_tokens + self.reasoning_tokens
                + self.cache_read_tokens + self.cache_write_tokens,
    {
        let costs = if self.gives_cost() {
            session_usage::only_total_cost(self.cost.as_str())
        } else {
            match priced {
                Some(costs) => costs,
                None => session_usage::only_total_cost("0"),
            }
        };
        session_usage::session_log_row(
            "opencode",
            request_id,
            session_id,
            self.model_id.as_str(),
            self.tokens(),
            costs,
            self.created_at,
        )
    }
}

/// What has been found out of a message that is being written.
#[derive(Debug)]
pub struct InsertProgress {
    /// Whether it had been written before.
    pub known: Option<Result<bool, String>>,
    /// What it cost by the price of its model, if that has one.
    pub priced: Option<Option<CostTexts>>,
    /// How many rows were written.
    pub rows: Option<Result<usize, String>>,
}

/// What is done next to write a message.
#[derive(Debug)]
pub enum InsertStep {
    /// See whether it has been written before.
    FindKnown(DedupKey),
    /// See what it cost by the price of its model.
    FindCosts(CallTokens),
    /// Write this row.
    Write(LogRow),
    /// Nothing: whether a row was written, or why none could be.
    Done(Result<bool, String>),
}

/// The model of [`InsertStep`].
pub enum InsertView {
    FindKnown(KeyView),
    FindCosts(CallTokens),
    Write(RowView),
    Written(bool),
    Failed(Seq<char>),
}

impl View for InsertStep {
    type V = InsertView;

    open spec fn view(&self) -> InsertView {
        match *self {
            InsertStep::FindKnown(key) => InsertView::FindKnown(key@),
            InsertStep::FindCosts(tokens) => InsertView::FindCosts(tokens),
            InsertStep::Write(row) => InsertView::Write(row@),
            InsertStep::Done(Ok(written)) => InsertView::Written(written),
            InsertStep::Done(Err(error)) => InsertView::Failed(error@),
        }
    }
}

/// What is done next to write a message: one that has been written before is left
/// alone, and the price of its model is asked for only where it does not give its cost.
pub open spec fn insert_step(
    request_id: Seq<char>,
    session_id: Seq<char>,
    msg: MessageView,
    found: InsertProgress,
) -> InsertView {
    match found.known {
        None => InsertView::FindKnown(message_key(msg)),
        Some(Ok(true)) => InsertView::Written(false),
        Some(Err(error)) => InsertView::Failed(error@),
        Some(Ok(false)) => if !is_positive(msg.cost) && found.priced is None {
            InsertView::FindCosts(call_tokens(msg))
        } else {
            match found.rows {
                None => InsertView::Write(
                    message_row(
                        request_id,
                        session_id,
                        msg,
                        match found.priced {
                            Some(costs) => session_usage::cost_view(costs),
                            None => None,
                        },
                    ),
                ),
                Some(Ok(rows)) => InsertView::Written(rows > 0),
                Some(Err(error)) => InsertView::Failed(
                    "插入 OpenCode 会话日志失败: "@ + error@,
                ),
            }
        },
    }
}

/// What is done next to write a message, by what has been found out so far.
pub fn insert_opencode_message(
    request_id: &str,
    session_id: &str,
    msg: &OpenCodeMessageData,
    found: &InsertProgress,
) -> (r: InsertStep)
    requires
        output_fits(msg@),
    ensures
        r@ == insert_step(request_id@, session_id@, msg@, *found),
{
    match &found.known {
        None => {
            return InsertStep::FindKnown(msg.dedup_key());
        },
        Some(Ok(known)) => {
            if *known {
                return InsertStep::Done(Ok(false));
            }
        },
        Some(Err(error)) => {
            return InsertStep::Done(Err(error.clone()));
        },
    }
    if !msg.gives_cost() && found.priced.is_none() {
        return InsertStep::FindCosts(msg.tokens());
    }
    match &found.rows {
        None => {
            let priced = match &found.priced {
                Some(costs) => session_usage::copy_costs(costs),
                None => None,
            };
            InsertStep::Write(msg.log_row(request_id, session_id, priced))
        },
        Some(Ok(rows)) => InsertStep::Done(Ok(*rows > 0)),
        Some(Err(error)) => InsertStep::Done(
            Err(text::concat2("插入 OpenCode 会话日志失败: ", error.as_str())),
        ),
    }
}

} // verus!
