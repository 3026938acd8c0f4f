//! What a message is billed with, told from what the message says.

use vstd::prelude::*;
use vstd::string::*;
#[allow(unused_imports)]
use crate::json;
#[allow(unused_imports)]
use crate::json::JsonView;
#[allow(unused_imports)]
use crate::services::session_usage::{CallTokens, CostView, KeyView, RowView};
use crate::services::session_usage_opencode::message;
#[allow(unused_imports)]
use crate::services::session_usage_opencode::message::{
    InsertProgress, InsertView, MessageView, OpenCodeMessageData,
};

verus! {

/// Whether tokens are those of a message: input and what the cache took and gave as they
/// are, and as output what it put out and what it reasoned with.
pub open spec fn are_those_of(tokens: CallTokens, msg: MessageView) -> bool {
    &&& tokens.input == msg.input_tokens
    &&& tokens.output == msg.output_tokens + msg.reasoning_tokens
    &&& tokens.cache_read == msg.cache_read_tokens
    &&& tokens.cache_creation == msg.cache_write_tokens
}

/// No token of a message is lost: the counts of its row add up to its own, and reasoning is
/// billed as output.
pub proof fn law_no_token_is_lost(
    request_id: Seq<char>,
    session_id: Seq<char>,
    msg: MessageView,
    priced: Option<CostView>,
)
    requires
        msg.output_tokens + msg.reasoning_tokens <= u32::MAX,
    ensures
        ({
            let row = message::message_row(request_id, session_id, msg, priced);
            &&& row.tokens.input + row.tokens.output + row.tokens.cache_read
                + row.tokens.cache_creation == msg.input_tokens + msg.output_tokens
                + msg.reasoning_tokens + msg.cache_read_tokens + msg.cache_write_tokens
            &&& are_those_of(row.tokens, msg)
        }),
{
}

/// What a message is recognised by, what its price is asked for with, and what is written of
/// it all count the same tokens, those of the message.
pub proof fn law_every_step_counts_the_same_tokens(
    request_id: Seq<char>,
    session_id: Seq<char>,
    msg: MessageView,
    found: InsertProgress,
)
    requires
        msg.output_tokens + msg.reasoning_tokens <= u32::MAX,
    ensures
        match message::insert_step(request_id, session_id, msg, found) {
            InsertView::FindKnown(key) => {
                &&& are_those_of(key.tokens, msg)
                &&& key.model == msg.model_id
                &&& key.created_at == msg.created_at
                &&& key.app_type == "opencode"@
            },
            InsertView::FindCosts(tokens) => are_those_of(tokens, msg),
            InsertView::Write(row) => {
                &&& are_those_of(row.tokens, msg)
                &&& row.request_id == request_id
                &&& row.session_id == session_id
                &&& row.model == msg.model_id
                &&& row.request_model == msg.model_id
                &&& row.created_at == msg.created_at
                &&& row.app_type == "opencode"@
                &&& row.data_source == "opencode"@ + "_session"@
                &&& row.provider_id == "_"@ + ("opencode"@ + "_session"@)
                &&& row.status_code == 200
                &&& row.error_message is None
            },
            _ => true,
        },
{
}

/// Whether a numeral is that of a number above zero: it has no sign, and a digit other than
/// zero.
pub open spec fn is_above_zero(numeral: Seq<char>) -> bool {
    &&& numeral.len() > 0
    &&& numeral.first() != '-'
    &&& exists|i: int| 0 <= i < numeral.len() && '0' < #[trigger] numeral[i] <= '9'
}

/// A message that gives a cost above zero is billed at that cost, whatever the price of its
/// model; any other is billed by the price of its model, or not at all where that has none.
pub proof fn law_a_cost_that_is_given_counts(
    request_id: Seq<char>,
    session_id: Seq<char>,
    msg: MessageView,
    priced: Option<CostView>,
)
    ensures
        ({
            let costs = message::message_row(request_id, session_id, msg, priced).costs;
            if is_above_zero(msg.cost) {
                costs.total == msg.cost
            } else {
                match priced {
                    Some(price) => costs == price,
                    None => costs.total == "0"@,
                }
            }
        }),
{
    if is_above_zero(msg.cost) {
        let i = choose|i: int| 0 <= i < msg.cost.len() && '0' < #[trigger] msg.cost[i] <= '9';
        assert('1' <= msg.cost[i] <= '9');
    }
    if message::is_positive(msg.cost) {
        let i = choose|i: int| 0 <= i < msg.cost.len() && '1' <= #[trigger] msg.cost[i] <= '9';
        assert('0' < msg.cost[i] <= '9');
    }
}

/// A message is looked for before anything else, and written only where it was not found.
/// Its price is asked for only where it gives no cost, and then before it is written.
pub proof fn law_a_known_message_is_left_alone(
    request_id: Seq<char>,
    session_id: Seq<char>,
    msg: MessageView,
    found: InsertProgress,
)
    ensures
        ({
            let step = message::insert_step(request_id, session_id, msg, found);
            &&& found.known is None <==> step is FindKnown
            &&& found.known matches Some(Ok(known)) ==> known ==> step == InsertView::Written(false)
            &&& found.known matches Some(Err(error)) ==> step == InsertView::Failed(error@)
            &&& step is Write ==> (found.known matches Some(Ok(known)) && !known) && (is_above_zero(
                msg.cost,
            ) || found.priced is Some) && found.rows is None
            &&& step is FindCosts ==> !is_above_zero(msg.cost) && found.priced is None
            &&& step matches InsertView::Written(written) ==> written ==> (
            found.rows matches Some(Ok(rows)) && rows > 0)
        }),
{
    if is_above_zero(msg.cost) {
        let i = choose|i: int| 0 <= i < msg.cost.len() && '0' < #[trigger] msg.cost[i] <= '9';
        assert('1' <= msg.cost[i] <= '9');
    }
    if message::is_positive(msg.cost) {
        let i = choose|i: int| 0 <= i < msg.cost.len() && '1' <= #[trigger] msg.cost[i] <= '9';
        assert('0' < msg.cost[i] <= '9');
    }
}

/// A whole number in a field, or zero.
pub open spec fn given(value: JsonView, name: Seq<char>) -> int {
    match value.field(name) {
        Some(JsonView::Number(n)) => match n.unsigned {
            Some(count) => count as int,
            None => 0,
        },
        _ => 0,
    }
}

/// A whole number in a field of a field, or zero.
pub open spec fn given_in(value: JsonView, outer: Seq<char>, name: Seq<char>) -> int {
    match value.field(outer) {
        Some(inner) => given(inner, name),
        None => 0,
    }
}

/// A message says each of its counts under its own name, and which model it is of.
pub proof fn law_counts_are_read_where_they_stand(value: JsonView, tokens: JsonView, now: i64)
    requires
        value.field("tokens"@) == Some(tokens),
        given(tokens, "input"@) < 0x1_0000_0000,
        given(tokens, "output"@) < 0x1_0000_0000,
        given(tokens, "reasoning"@) < 0x1_0000_0000,
        given_in(tokens, "cache"@, "read"@) < 0x1_0000_0000,
        given_in(tokens, "cache"@, "write"@) < 0x1_0000_0000,
    ensures
        match message::billed_message(value, now) {
            Some(msg) => {
                &&& msg.input_tokens == given(tokens, "input"@)
                &&& msg.output_tokens == given(tokens, "output"@)
                &&& msg.reasoning_tokens == given(tokens, "reasoning"@)
                &&& msg.cache_read_tokens == given_in(tokens, "cache"@, "read"@)
                &&& msg.cache_write_tokens == given_in(tokens, "cache"@, "write"@)
                &&& msg.model_id == match value.field("modelID"@) {
                    Some(JsonView::Text(model)) => model,
                    _ => "unknown"@,
                }
                &&& msg.cost == match value.field("cost"@) {
                    Some(JsonView::Number(n)) => n.decimal,
                    _ => "0"@,
                }
            },
            None => given(tokens, "input"@) == 0 && given(tokens, "output"@) == 0 && given(
                tokens,
                "reasoning"@,
            ) == 0 && given_in(tokens, "cache"@, "read"@) == 0 && given_in(
                tokens,
                "cache"@,
                "write"@,
            ) == 0,
        },
{
}

/// A message is dated in seconds by the milliseconds that it gives, or else by the present.
pub proof fn law_messages_are_dated_in_seconds(value: JsonView, now: i64, msg: MessageView)
    requires
        message::billed_message(value, now) == Some(msg),
    ensures
        match value.field("time"@) {
            Some(time) => match time.field("created"@) {
                Some(JsonView::Number(n)) => match n.signed {
                    Some(millis) => if millis > 0 {
                        msg.created_at * 1000 <= millis < (msg.created_at + 1) * 1000
                    } else {
                        msg.created_at == now
                    },
                    None => msg.created_at == now,
                },
                _ => msg.created_at == now,
            },
            None => msg.created_at == now,
        },
{
}

/// Only completed messages of an assistant are billed, each under the id of its row; one
/// that is still under way is noted, whatever the others are.
pub proof fn law_only_completed_answers_are_billed(rows: Seq<(String, String)>, now: i64, i: int)
    requires
        0 <= i < message::billed_rows(rows, now).len(),
    ensures
        exists|k: int|
            #![trigger rows[k]]
            0 <= k < rows.len() && {
                &&& message::billed_rows(rows, now)[i].0 == rows[k].0@
                &&& json::json_parsed(rows[k].1@) matches Some(value) && {
                    &&& value.field("role"@) == Some(JsonView::Text("assistant"@))
                    &&& value.field("time"@) matches Some(time) && time.field("completed"@) is Some
                    &&& message::billed_message(value, now) == Some(
                        message::billed_rows(rows, now)[i].1,
                    )
                }
            },
    decreases rows.len(),
{
    let before = message::billed_rows(rows.drop_last(), now);
    if i < before.len() {
        law_only_completed_answers_are_billed(rows.drop_last(), now, i);
        let k = choose|k: int|
            #![trigger rows.drop_last()[k]]
            0 <= k < rows.drop_last().len() && {
                &&& before[i].0 == rows.drop_last()[k].0@
                &&& json::json_parsed(rows.drop_last()[k].1@) matches Some(value) && {
                    &&& value.field("role"@) == Some(JsonView::Text("assistant"@))
                    &&& value.field("time"@) matches Some(time) && time.field("completed"@) is Some
                    &&& message::billed_message(value, now) == Some(before[i].1)
                }
            };
        assert(rows[k] == rows.drop_last()[k]);
        assert(message::billed_rows(rows, now)[i] == before[i]);
    } else {
        assert(rows[rows.len() - 1] == rows.last());
    }
}

/// Every completed message of an assistant that used anything is billed.
pub proof fn law_every_completed_answer_is_billed(
    rows: Seq<(String, String)>,
    now: i64,
    k: int,
    value: JsonView,
    time: JsonView,
    msg: MessageView,
)
    requires
        0 <= k < rows.len(),
        json::json_parsed(rows[k].1@) == Some(value),
        value.field("role"@) == Some(JsonView::Text("assistant"@)),
        value.field("time"@) == Some(time),
        time.field("completed"@) is Some,
        message::billed_message(value, now) == Some(msg),
    ensures
        message::billed_rows(rows, now).contains((rows[k].0@, msg)),
    decreases rows.len(),
{
    let all = message::billed_rows(rows, now);
    if k < rows.len() - 1 {
        law_every_completed_answer_is_billed(rows.drop_last(), now, k, value, time, msg);
        let before = message::billed_rows(rows.drop_last(), now);
        let i = choose|i: int| 0 <= i < before.len() && before[i] == (rows[k].0@, msg);
        assert(all[i] == (rows[k].0@, msg));
    } else {
        assert(all.last() == (rows[k].0@, msg));
        assert(all[all.len() - 1] == (rows[k].0@, msg));
    }
}

/// A session is known to be unfinished just where a message of an assistant with token
/// counts has not been completed.
pub proof fn law_unfinished_answers_are_noted(rows: Seq<(String, String)>, now: i64)
    ensures
        message::has_incomplete(rows, now) <==> exists|k: int|
            #![trigger rows[k]]
            0 <= k < rows.len() && {
                &&& json::json_parsed(rows[k].1@) matches Some(value) && {
                    &&& value.field("role"@) == Some(JsonView::Text("assistant"@))
                    &&& value.field("tokens"@) is Some
                    &&& !(value.field("time"@) matches Some(time) && time.field("completed"@) is Some)
                }
            },
{
    if message::has_incomplete(rows, now) {
        let k = choose|k: int|
            0 <= k < rows.len() && message::row_kind((#[trigger] rows[k]).1@, now) is Incomplete;
        assert(json::json_parsed(rows[k].1@) is Some);
    }
}

/// A message is modelled by what stands in it.
pub proof fn law_a_message_is_modelled_by_what_stands_in_it(message: OpenCodeMessageData)
    ensures
        message@.input_tokens == message.input_tokens,
        message@.output_tokens == message.output_tokens,
        message@.reasoning_tokens == message.reasoning_tokens,
        message@.cache_read_tokens == message.cache_read_tokens,
        message@.cache_write_tokens == message.cache_write_tokens,
        message@.model_id == message.model_id@,
        message@.created_at == message.created_at,
{
}

} // verus!
