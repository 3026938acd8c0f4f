//! What each upstream event is turned into, told from the event's JSON.

use vstd::prelude::*;
use vstd::string::*;
#[allow(unused_imports)]
use crate::json;
#[allow(unused_imports)]
use crate::json::JsonView;
#[allow(unused_imports)]
use crate::proxy::providers::anthropic_events;
#[allow(unused_imports)]
use crate::proxy::providers::anthropic_events::{BlockView, DeltaView, EventView, UsageView};
#[allow(unused_imports)]
use crate::proxy::providers::responses_reader;
use crate::proxy::providers::streaming_responses;
#[allow(unused_imports)]
use crate::proxy::providers::streaming_responses::StreamView;
use crate::text;

verus! {

/// Each upstream event is dealt with by what is meant for it.
proof fn lemma_by_name(s: StreamView, data: JsonView)
    ensures
        streaming_responses::step(s, "response.created"@, data) == streaming_responses::on_created(
            s,
            data,
        ),
        streaming_responses::step(s, "response.content_part.added"@, data)
            == streaming_responses::on_part_added(s, data),
        streaming_responses::step(s, "response.output_text.delta"@, data)
            == streaming_responses::on_text_delta(s, data),
        streaming_responses::step(s, "response.refusal.delta"@, data)
            == streaming_responses::on_text_delta(s, data),
        streaming_responses::step(s, "response.content_part.done"@, data)
            == streaming_responses::on_part_done(s, data),
        streaming_responses::step(s, "response.refusal.done"@, data)
            == streaming_responses::on_part_done(s, data),
        streaming_responses::step(s, "response.reasoning.done"@, data)
            == streaming_responses::on_part_done(s, data),
        streaming_responses::step(s, "response.output_item.added"@, data)
            == streaming_responses::on_item_added(s, data),
        streaming_responses::step(s, "response.function_call_arguments.delta"@, data)
            == streaming_responses::on_arguments_delta(s, data),
        streaming_responses::step(s, "response.function_call_arguments.done"@, data)
            == streaming_responses::on_arguments_done(s, data),
        streaming_responses::step(s, "response.reasoning.delta"@, data)
            == streaming_responses::on_reasoning_delta(s, data),
        streaming_responses::step(s, "response.completed"@, data)
            == streaming_responses::on_completed(s, data),
{
    reveal_strlit("response.created");
    reveal_strlit("response.content_part.added");
    reveal_strlit("response.output_text.delta");
    reveal_strlit("response.refusal.delta");
    reveal_strlit("response.content_part.done");
    reveal_strlit("response.refusal.done");
    reveal_strlit("response.reasoning.done");
    reveal_strlit("response.output_item.added");
    reveal_strlit("response.function_call_arguments.delta");
    reveal_strlit("response.function_call_arguments.done");
    reveal_strlit("response.reasoning.delta");
    reveal_strlit("response.completed");
    assert("response.created"@.len() == 16);
    assert("response.content_part.added"@.len() == 27);
    assert("response.output_text.delta"@.len() == 26);
    assert("response.refusal.delta"@.len() == 22);
    assert("response.content_part.done"@.len() == 26);
    assert("response.refusal.done"@.len() == 21);
    assert("response.reasoning.done"@.len() == 23);
    assert("response.output_item.added"@.len() == 26);
    assert("response.function_call_arguments.delta"@.len() == 38);
    assert("response.function_call_arguments.done"@.len() == 37);
    assert("response.reasoning.delta"@.len() == 24);
    assert("response.completed"@.len() == 18);
    assert("response.output_text.delta"@[9] == 'o');
    assert("response.content_part.done"@[9] == 'c');
    assert("response.output_item.added"@[16] == 'i');
    assert("response.output_text.delta"@[16] == 't');
    assert("response.output_item.added"@[9] == 'o');
}

/// The text in a field, or the empty one.
pub open spec fn text_or_empty(value: JsonView, name: Seq<char>) -> Seq<char> {
    match value.field(name) {
        Some(JsonView::Text(t)) => t,
        _ => Seq::empty(),
    }
}

/// Whether a key is the one under which the tool call that an item adds is known: that of the
/// item's own id, or else of the event's `item_id`, or else of its `output_index`.
pub open spec fn is_added_key(data: JsonView, item: JsonView, key: Seq<char>) -> bool {
    match item.field("id"@) {
        Some(JsonView::Text(id)) => key == "tool:"@ + id,
        _ => match data.field("item_id"@) {
            Some(JsonView::Text(id)) => key == "tool:"@ + id,
            _ => match data.field("output_index"@) {
                Some(JsonView::Number(n)) => n.unsigned matches Some(output) && key == "tool:out:"@
                    + text::decimal(output as nat),
                _ => false,
            },
        },
    }
}

/// Whether the block of the tool call that an item adds is open already.
pub open spec fn is_open_already(s: StreamView, data: JsonView, item: JsonView) -> bool {
    exists|key: Seq<char>| #[trigger]
        is_added_key(data, item, key) && s.index_by_key.dom().contains(key)
            && s.open_indices.contains(s.index_by_key[key])
}

proof fn lemma_added_key(s: StreamView, data: JsonView, item: JsonView)
    ensures
        is_open_already(s, data, item) == (streaming_responses::added_tool_key(data, item)
            matches Some(key) && s.index_by_key.dom().contains(key) && s.open_indices.contains(
            s.index_by_key[key],
        )),
{
    if let Some(key) = streaming_responses::added_tool_key(data, item) {
        assert(is_added_key(data, item, key));
    }
}

/// A function call that is added opens a block of a tool call, with the call's own `call_id`
/// as its id and with its name, unless its block is open already. The message is started
/// before, where it has not been.
pub proof fn law_a_tool_call_keeps_its_call_id_and_name(
    s: StreamView,
    data: JsonView,
    item: JsonView,
    call_id: Seq<char>,
    name: Seq<char>,
)
    requires
        streaming_responses::indices_are_taken(s),
        data.field("item"@) == Some(item),
        item.field("type"@) == Some(JsonView::Text("function_call"@)),
        item.field("call_id"@) == Some(JsonView::Text(call_id)),
        item.field("name"@) == Some(JsonView::Text(name)),
    ensures
        ({
            let (after, sent) = streaming_responses::step(
                s,
                "response.output_item.added"@,
                data,
            );
            &&& after.has_tool_use
            &&& after.has_sent_message_start
            &&& forall|i: int|
                0 <= i < sent.len() ==> match #[trigger] sent[i] {
                    EventView::ContentBlockStart { index, block } => block == (BlockView::ToolUse {
                        id: call_id,
                        name,
                    }) && after.open_indices.contains(index),
                    EventView::MessageStart { .. } => i == 0 && !s.has_sent_message_start,
                    _ => false,
                }
            &&& !is_open_already(s, data, item) ==> sent.len() > 0 && sent.last() is ContentBlockStart
            &&& is_open_already(s, data, item) ==> forall|i: int|
                0 <= i < sent.len() ==> !(#[trigger] sent[i] is ContentBlockStart)
            &&& !s.has_sent_message_start ==> sent.len() > 0 && sent[0] is MessageStart
        }),
{
    lemma_by_name(s, data);
    lemma_added_key(s, data, item);
}

/// What is opened for a tool call says that it is one, with its id and its name.
pub proof fn law_a_tool_call_is_sent_with_id_and_name(
    index: u32,
    id: Seq<char>,
    name: Seq<char>,
    usage: JsonView,
    stop_reason: JsonView,
)
    ensures
        ({
            let event = EventView::ContentBlockStart { index, block: BlockView::ToolUse { id, name } };
            let payload = event.payload(usage, stop_reason);
            &&& payload.field("type"@) == Some(JsonView::Text("content_block_start"@))
            &&& payload.field("index"@) == Some(JsonView::number(index))
            &&& payload.field("content_block"@) matches Some(block) && {
                &&& block.field("type"@) == Some(JsonView::Text("tool_use"@))
                &&& block.field("id"@) == Some(JsonView::Text(id))
                &&& block.field("name"@) == Some(JsonView::Text(name))
            }
        }),
{
    lemma_field_names();
}

/// The names of the fields that are sent differ.
proof fn lemma_field_names()
    ensures
        "type"@ != "index"@,
        "type"@ != "content_block"@,
        "index"@ != "content_block"@,
        "type"@ != "id"@,
        "type"@ != "name"@,
        "id"@ != "name"@,
        "type"@ != "delta"@,
        "index"@ != "delta"@,
        "type"@ != "text"@,
        "type"@ != "thinking"@,
        "type"@ != "partial_json"@,
        "type"@ != "message"@,
        "type"@ != "usage"@,
        "delta"@ != "usage"@,
        "stop_reason"@ != "stop_sequence"@,
        "id"@ != "role"@,
        "id"@ != "model"@,
        "id"@ != "usage"@,
        "type"@ != "role"@,
        "type"@ != "model"@,
        "role"@ != "model"@,
        "role"@ != "usage"@,
        "model"@ != "usage"@,
        "type"@ != "error"@,
        "input_tokens"@ != "output_tokens"@,
{
    reveal_strlit("type");
    reveal_strlit("index");
    reveal_strlit("content_block");
    reveal_strlit("id");
    reveal_strlit("name");
    reveal_strlit("delta");
    reveal_strlit("text");
    reveal_strlit("thinking");
    reveal_strlit("partial_json");
    reveal_strlit("message");
    reveal_strlit("usage");
    reveal_strlit("stop_reason");
    reveal_strlit("stop_sequence");
    reveal_strlit("role");
    reveal_strlit("model");
    reveal_strlit("error");
    reveal_strlit("input_tokens");
    reveal_strlit("output_tokens");
    assert("stop_reason"@.len() == 11 && "stop_sequence"@.len() == 13);
    assert("input_tokens"@.len() == 12 && "output_tokens"@.len() == 13);
    assert("type"@[0] == 't' && "name"@[0] == 'n' && "role"@[0] == 'r');
    assert("type"@[1] == 'y' && "text"@[1] == 'e');
    assert("index"@[0] == 'i' && "delta"@[0] == 'd' && "usage"@[0] == 'u' && "model"@[0] == 'm');
}

/// What a block grows by is sent under its index, by the name that fits it: text as text,
/// thinking as thinking, and arguments as a part of JSON.
pub proof fn law_deltas_are_sent_as_what_they_are(
    index: u32,
    t: Seq<char>,
    usage: JsonView,
    stop_reason: JsonView,
)
    ensures
        ({
            let text = EventView::ContentBlockDelta { index, delta: DeltaView::Text(t) }.payload(
                usage,
                stop_reason,
            );
            let thinking = EventView::ContentBlockDelta { index, delta: DeltaView::Thinking(t) }.payload(
                usage,
                stop_reason,
            );
            let input = EventView::ContentBlockDelta { index, delta: DeltaView::InputJson(t) }.payload(
                usage,
                stop_reason,
            );
            &&& text.field("index"@) == Some(JsonView::number(index))
            &&& thinking.field("index"@) == Some(JsonView::number(index))
            &&& input.field("index"@) == Some(JsonView::number(index))
            &&& text.field("type"@) == Some(JsonView::Text("content_block_delta"@))
            &&& text.field("delta"@) matches Some(delta) && {
                &&& delta.field("type"@) == Some(JsonView::Text("text_delta"@))
                &&& delta.field("text"@) == Some(JsonView::Text(t))
            }
            &&& thinking.field("delta"@) matches Some(delta) && {
                &&& delta.field("type"@) == Some(JsonView::Text("thinking_delta"@))
                &&& delta.field("thinking"@) == Some(JsonView::Text(t))
            }
            &&& input.field("delta"@) matches Some(delta) && {
                &&& delta.field("type"@) == Some(JsonView::Text("input_json_delta"@))
                &&& delta.field("partial_json"@) == Some(JsonView::Text(t))
            }
        }),
{
    lemma_field_names();
}

/// A block is opened as what it is, and empty; it is closed under its index.
pub proof fn law_blocks_are_sent_as_what_they_are(index: u32, usage: JsonView, stop_reason: JsonView)
    ensures
        ({
            let text = EventView::ContentBlockStart { index, block: BlockView::Text }.payload(
                usage,
                stop_reason,
            );
            let thinking = EventView::ContentBlockStart { index, block: BlockView::Thinking }.payload(
                usage,
                stop_reason,
            );
            let stop = EventView::ContentBlockStop { index }.payload(usage, stop_reason);
            &&& text.field("index"@) == Some(JsonView::number(index))
            &&& text.field("content_block"@) matches Some(block) && {
                &&& block.field("type"@) == Some(JsonView::Text("text"@))
                &&& block.field("text"@) == Some(JsonView::Text(""@))
            }
            &&& thinking.field("content_block"@) matches Some(block) && {
                &&& block.field("type"@) == Some(JsonView::Text("thinking"@))
                &&& block.field("thinking"@) == Some(JsonView::Text(""@))
            }
            &&& stop.field("type"@) == Some(JsonView::Text("content_block_stop"@))
            &&& stop.field("index"@) == Some(JsonView::number(index))
        }),
{
    lemma_field_names();
}

/// A message is started with its id and model and with the upstream counts, or with none
/// where nothing has been counted.
pub proof fn law_a_message_start_says_id_and_model(
    id: Seq<char>,
    model: Seq<char>,
    start_usage: UsageView,
    usage: JsonView,
    stop_reason: JsonView,
)
    ensures
        ({
            let payload = EventView::MessageStart { id, model, start_usage }.payload(
                usage,
                stop_reason,
            );
            &&& payload.field("type"@) == Some(JsonView::Text("message_start"@))
            &&& payload.field("message"@) matches Some(message) && {
                &&& message.field("id"@) == Some(JsonView::Text(id))
                &&& message.field("type"@) == Some(JsonView::Text("message"@))
                &&& message.field("role"@) == Some(JsonView::Text("assistant"@))
                &&& message.field("model"@) == Some(JsonView::Text(model))
                &&& message.field("usage"@) matches Some(counts) && match start_usage {
                    UsageView::Zero => counts.field("input_tokens"@) == Some(JsonView::number(0))
                        && counts.field("output_tokens"@) == Some(JsonView::number(0)),
                    UsageView::Upstream(_) => counts == usage,
                }
            }
        }),
{
    lemma_field_names();
}

/// The end of a message says why it ended and what was counted, if anything was.
pub proof fn law_a_message_end_says_why(
    status: Option<Seq<char>>,
    has_tool_use: bool,
    incomplete_reason: Option<Seq<char>>,
    counted: Option<JsonView>,
    usage: JsonView,
    stop_reason: JsonView,
)
    ensures
        ({
            let payload = (EventView::MessageDelta {
                status,
                has_tool_use,
                incomplete_reason,
                usage: counted,
            }).payload(usage, stop_reason);
            &&& payload.field("type"@) == Some(JsonView::Text("message_delta"@))
            &&& payload.field("delta"@) matches Some(delta) && {
                &&& delta.field("stop_reason"@) == Some(stop_reason)
                &&& delta.field("stop_sequence"@) == Some(JsonView::Null)
            }
            &&& payload.field("usage"@) == Some(
                if counted is Some {
                    usage
                } else {
                    JsonView::Null
                },
            )
        }),
        EventView::MessageStop.payload(usage, stop_reason).field("type"@) == Some(
            JsonView::Text("message_stop"@),
        ),
{
    lemma_field_names();
}

/// An error of the stream is sent as one, with what went wrong.
pub proof fn law_an_error_says_what_went_wrong(message: Seq<char>, usage: JsonView, stop_reason: JsonView)
    ensures
        ({
            let payload = (EventView::Error { message }).payload(usage, stop_reason);
            &&& payload.field("type"@) == Some(JsonView::Text("error"@))
            &&& payload.field("error"@) matches Some(error) && {
                &&& error.field("type"@) == Some(JsonView::Text("stream_error"@))
                &&& error.field("message"@) == Some(JsonView::Text("Stream error: "@ + message))
            }
        }),
{
    lemma_field_names();
    reveal_strlit("type");
    reveal_strlit("message");
}

/// An event is sent as two lines, its name and its JSON, with an empty line after them.
pub proof fn law_a_frame_is_a_name_and_json(event: EventView, usage: JsonView, stop_reason: JsonView)
    ensures
        ({
            let name = match event {
                EventView::MessageStart { .. } => "message_start"@,
                EventView::ContentBlockStart { .. } => "content_block_start"@,
                EventView::ContentBlockDelta { .. } => "content_block_delta"@,
                EventView::ContentBlockStop { .. } => "content_block_stop"@,
                EventView::MessageDelta { .. } => "message_delta"@,
                EventView::MessageStop => "message_stop"@,
                EventView::Error { .. } => "error"@,
            };
            &&& event.payload(usage, stop_reason).field("type"@) == Some(JsonView::Text(name))
            &&& event.frame(usage, stop_reason) == "event: "@ + name + "\ndata: "@
                + json::json_written(event.payload(usage, stop_reason)) + "\n\n"@
        }),
{
    lemma_field_names();
}

/// Whether a key is that of the content part that an event is about: by its `item_id`, or
/// else by its `output_index`, and by its `content_index`.
pub open spec fn is_part_key(data: JsonView, key: Seq<char>) -> bool {
    data.field("content_index"@) matches Some(JsonView::Number(c)) && c.unsigned matches Some(
        content,
    ) && match data.field("item_id"@) {
        Some(JsonView::Text(id)) => key == "part:"@ + id + ":"@ + text::decimal(content as nat),
        _ => data.field("output_index"@) matches Some(JsonView::Number(o))
            && o.unsigned matches Some(output) && key == "part:out:"@ + text::decimal(output as nat)
            + ":"@ + text::decimal(content as nat),
    }
}

proof fn lemma_part_key(data: JsonView)
    ensures
        forall|key: Seq<char>| #[trigger]
            is_part_key(data, key) <==> streaming_responses::part_key(data) == Some(key),
{
}

/// Whether what is sent is one delta for a block, after the opening of that block where it
/// was not open.
pub open spec fn grows_a_block(
    s: StreamView,
    after: StreamView,
    sent: Seq<EventView>,
    block: BlockView,
    delta: DeltaView,
) -> bool {
    &&& sent.len() > 0
    &&& sent.last() matches EventView::ContentBlockDelta { index, delta: d } && {
        &&& d == delta
        &&& after.open_indices.contains(index)
        &&& if s.open_indices.contains(index) {
            sent.len() == 1
        } else {
            sent.len() == 2 && sent[0] == (EventView::ContentBlockStart { index, block })
        }
    }
}

/// The index under which a delta is sent.
pub open spec fn grown_index(sent: Seq<EventView>) -> u32 {
    sent.last()->ContentBlockDelta_index
}

/// Text and refusals are sent on as they come, each delta whole, in a block of text.
pub proof fn law_text_is_sent_on_as_it_comes(
    s: StreamView,
    name: Seq<char>,
    data: JsonView,
    t: Seq<char>,
)
    requires
        name == "response.output_text.delta"@ || name == "response.refusal.delta"@,
        data.field("delta"@) == Some(JsonView::Text(t)),
    ensures
        ({
            let (after, sent) = streaming_responses::step(s, name, data);
            &&& grows_a_block(s, after, sent, BlockView::Text, DeltaView::Text(t))
            &&& forall|key: Seq<char>| #[trigger]
                is_part_key(data, key) ==> after.index_by_key.dom().contains(key)
                    && after.index_by_key[key] == grown_index(sent)
                    && (s.index_by_key.dom().contains(key) ==> grown_index(sent)
                    == s.index_by_key[key])
        }),
{
    lemma_by_name(s, data);
    lemma_part_key(data);
}

/// Reasoning is sent on as it comes, from `delta` or, where there is none, from `text`, in a
/// block of thinking.
pub proof fn law_thinking_is_sent_on_as_it_comes(s: StreamView, data: JsonView, t: Seq<char>)
    requires
        data.field("delta"@) == Some(JsonView::Text(t)) || (data.field("delta"@) is None
            && data.field("text"@) == Some(JsonView::Text(t))),
    ensures
        ({
            let (after, sent) = streaming_responses::step(s, "response.reasoning.delta"@, data);
            &&& grows_a_block(s, after, sent, BlockView::Thinking, DeltaView::Thinking(t))
            &&& forall|key: Seq<char>| #[trigger]
                is_part_key(data, key) ==> after.index_by_key.dom().contains(key)
                    && after.index_by_key[key] == grown_index(sent)
                    && (s.index_by_key.dom().contains(key) ==> grown_index(sent)
                    == s.index_by_key[key])
        }),
{
    lemma_by_name(s, data);
    lemma_part_key(data);
}

/// A text or a refusal that is announced opens a block of text, once; other parts open
/// nothing.
pub proof fn law_an_announced_text_opens_a_block(s: StreamView, data: JsonView, part: JsonView)
    requires
        data.field("part"@) == Some(part),
        s.has_sent_message_start,
    ensures
        ({
            let (after, sent) = streaming_responses::step(
                s,
                "response.content_part.added"@,
                data,
            );
            let is_text = part.field("type"@) == Some(JsonView::Text("output_text"@)) || part.field(
                "type"@,
            ) == Some(JsonView::Text("refusal"@));
            &&& !is_text ==> sent.len() == 0 && after == s
            &&& sent.len() <= 1
            &&& sent.len() == 1 ==> (sent[0] matches EventView::ContentBlockStart { index, block }
                && block is Text && !s.open_indices.contains(index) && after.open_indices.contains(
                index,
            ))
            &&& is_text ==> forall|key: Seq<char>| #[trigger]
                is_part_key(data, key) ==> after.index_by_key.dom().contains(key)
                    && after.open_indices.contains(after.index_by_key[key])
        }),
{
    lemma_by_name(s, data);
    lemma_part_key(data);
}

/// The end of a part closes the block of that part, where it is open, and no other.
pub proof fn law_the_end_of_a_part_closes_its_block(
    s: StreamView,
    name: Seq<char>,
    data: JsonView,
    key: Seq<char>,
)
    requires
        name == "response.content_part.done"@ || name == "response.refusal.done"@ || name
            == "response.reasoning.done"@,
        is_part_key(data, key),
    ensures
        ({
            let (after, sent) = streaming_responses::step(s, name, data);
            if s.index_by_key.dom().contains(key) && s.open_indices.contains(s.index_by_key[key]) {
                &&& sent == seq![EventView::ContentBlockStop { index: s.index_by_key[key] }]
                &&& after.open_indices == s.open_indices.remove(s.index_by_key[key])
            } else {
                sent.len() == 0 && after == s
            }
        }),
{
    lemma_by_name(s, data);
    lemma_part_key(data);
}

/// A message is started with the id and the model of the upstream response and with what it
/// counts, or with what was known before where it does not say.
pub proof fn law_a_message_starts_as_upstream_says(s: StreamView, data: JsonView, response: JsonView)
    requires
        match data.field("response"@) {
            Some(inner) => response == inner,
            None => response == data,
        },
    ensures
        ({
            let (after, sent) = streaming_responses::step(s, "response.created"@, data);
            &&& after.has_sent_message_start
            &&& sent.len() == 1
            &&& sent[0] matches EventView::MessageStart { id, model, start_usage } && {
                &&& response.field("id"@) matches Some(JsonView::Text(given)) ==> id == given
                &&& response.field("model"@) matches Some(JsonView::Text(given)) ==> model == given
                &&& !(response.field("id"@) matches Some(JsonView::Text(_))) ==> id
                    == match s.message_id {
                    Some(known) => known,
                    None => Seq::empty(),
                }
                &&& !(response.field("model"@) matches Some(JsonView::Text(_))) ==> model
                    == match s.current_model {
                    Some(known) => known,
                    None => Seq::empty(),
                }
                &&& start_usage == UsageView::Upstream(response.field("usage"@))
                &&& after.message_id == Some(id) || after.message_id is None
                &&& after.current_model == Some(model) || after.current_model is None
            }
        }),
{
    lemma_by_name(s, data);
}

/// Whether an event is about the item with an id.
pub open spec fn is_about(data: JsonView, id: Seq<char>) -> bool {
    data.field("item_id"@) == Some(JsonView::Text(id))
}

/// The arguments of a tool call other than `Read` are sent on as they come, each delta
/// whole, in the block that was opened when the call was added.
pub proof fn law_arguments_follow_their_call(
    s: StreamView,
    added: JsonView,
    item: JsonView,
    more: JsonView,
    id: Seq<char>,
    name: Seq<char>,
    part: Seq<char>,
)
    requires
        streaming_responses::indices_are_taken(s),
        added.field("item"@) == Some(item),
        item.field("type"@) == Some(JsonView::Text("function_call"@)),
        item.field("id"@) == Some(JsonView::Text(id)),
        item.field("name"@) == Some(JsonView::Text(name)),
        name != "Read"@,
        !is_open_already(s, added, item),
        is_about(more, id),
        more.field("delta"@) == Some(JsonView::Text(part)),
        !(more.field("name"@) matches Some(JsonView::Text(_))),
    ensures
        ({
            let (opened, first) = streaming_responses::step(
                s,
                "response.output_item.added"@,
                added,
            );
            let (after, second) = streaming_responses::step(
                opened,
                "response.function_call_arguments.delta"@,
                more,
            );
            let (closed, third) = streaming_responses::step(
                after,
                "response.function_call_arguments.done"@,
                more,
            );
            &&& first.len() > 0
            &&& first.last() matches EventView::ContentBlockStart { index, .. } && {
                &&& second == seq![
                    EventView::ContentBlockDelta { index, delta: DeltaView::InputJson(part) },
                ]
                &&& third == seq![EventView::ContentBlockStop { index }]
                &&& !closed.open_indices.contains(index)
                &&& closed.open_indices == s.open_indices
            }
        }),
{
    lemma_by_name(s, added);
    lemma_added_key(s, added, item);
    let (opened, first) = streaming_responses::step(s, "response.output_item.added"@, added);
    lemma_by_name(opened, more);
    let (after, second) = streaming_responses::step(
        opened,
        "response.function_call_arguments.delta"@,
        more,
    );
    lemma_by_name(after, more);
    let (closed, third) = streaming_responses::step(
        after,
        "response.function_call_arguments.done"@,
        more,
    );
    assert(opened.tool_index_by_item_id.dom().contains(id));
    let index = opened.tool_index_by_item_id[id];
    assert(second =~= seq![
        EventView::ContentBlockDelta { index, delta: DeltaView::InputJson(part) },
    ]);
    assert(third =~= seq![EventView::ContentBlockStop { index }]);
    assert(!s.open_indices.contains(index));
    assert(closed.open_indices =~= s.open_indices);
}

/// The input of a call of `Read` as a client takes it: without `pages` where that is an empty
/// text, and otherwise as it came.
pub open spec fn is_sanitized(input: JsonView, r: JsonView) -> bool {
    if input.field("pages"@) == Some(JsonView::Text(Seq::empty())) {
        &&& r.field("pages"@) is None
        &&& forall|name: Seq<char>| name != "pages"@ ==> #[trigger] r.field(name) == input.field(
            name,
        )
    } else {
        r == input
    }
}

/// The arguments of any tool but `Read` are sent with all that they hold; of those of `Read` an
/// empty `pages` is left out, and nothing else.
pub proof fn law_only_an_empty_pages_is_left_out(tool: Seq<char>, arguments: Seq<char>, input: JsonView)
    requires
        json::json_parsed(arguments) == Some(input),
    ensures
        tool != "Read"@ ==> streaming_responses::sanitized_arguments(tool, arguments)
            == json::json_written(input),
        exists|r: JsonView| #[trigger]
            is_sanitized(input, r) && streaming_responses::sanitized_arguments("Read"@, arguments)
                == json::json_written(r),
{
    let r = streaming_responses::sanitized_input("Read"@, input);
    assert(is_sanitized(input, r));
}

/// Arguments that are not JSON are sent as they came.
pub proof fn law_what_is_not_json_is_sent_as_it_came(tool: Seq<char>, arguments: Seq<char>)
    requires
        json::json_parsed(arguments) is None,
    ensures
        streaming_responses::sanitized_arguments(tool, arguments) == arguments,
{
}

/// The arguments of a call of `Read` are held back until the call is complete. Then they are
/// sent at once, all that has come of them, sanitized where they are JSON, and the block is
/// closed.
pub proof fn law_read_arguments_are_sent_at_the_end(
    s: StreamView,
    added: JsonView,
    item: JsonView,
    more: JsonView,
    last: JsonView,
    id: Seq<char>,
    part: Seq<char>,
)
    requires
        streaming_responses::indices_are_taken(s),
        added.field("item"@) == Some(item),
        item.field("type"@) == Some(JsonView::Text("function_call"@)),
        item.field("id"@) == Some(JsonView::Text(id)),
        item.field("name"@) == Some(JsonView::Text("Read"@)),
        !is_open_already(s, added, item),
        is_about(more, id),
        is_about(last, id),
        more.field("delta"@) == Some(JsonView::Text(part)),
        !(more.field("name"@) matches Some(JsonView::Text(_))),
        forall|i: u32| #[trigger]
            s.read_arguments_by_index.dom().contains(i) ==> s.open_indices.contains(i),
    ensures
        ({
            let (opened, first) = streaming_responses::step(
                s,
                "response.output_item.added"@,
                added,
            );
            let (after, second) = streaming_responses::step(
                opened,
                "response.function_call_arguments.delta"@,
                more,
            );
            let (closed, third) = streaming_responses::step(
                after,
                "response.function_call_arguments.done"@,
                last,
            );
            let arguments = match last.field("arguments"@) {
                Some(JsonView::Text(given)) => given,
                _ => part,
            };
            &&& first.len() > 0
            &&& second.len() == 0
            &&& first.last() matches EventView::ContentBlockStart { index, .. } && {
                &&& third.len() == 2
                &&& third[0] == (EventView::ContentBlockDelta {
                    index,
                    delta: DeltaView::InputJson(
                        streaming_responses::sanitized_arguments("Read"@, arguments),
                    ),
                })
                &&& third[1] == (EventView::ContentBlockStop { index })
                &&& closed.open_indices == s.open_indices
            }
        }),
{
    lemma_by_name(s, added);
    lemma_added_key(s, added, item);
    let (opened, first) = streaming_responses::step(s, "response.output_item.added"@, added);
    lemma_by_name(opened, more);
    let (after, second) = streaming_responses::step(
        opened,
        "response.function_call_arguments.delta"@,
        more,
    );
    lemma_by_name(after, last);
    let (closed, third) = streaming_responses::step(
        after,
        "response.function_call_arguments.done"@,
        last,
    );
    assert(opened.tool_index_by_item_id.dom().contains(id));
    let index = opened.tool_index_by_item_id[id];
    assert(!s.open_indices.contains(index));
    assert(after.read_arguments_by_index[index] =~= part);
    assert(closed.open_indices =~= s.open_indices);
}

/// The end of the upstream response ends the message: all but the last two events send what
/// was held back and close blocks, and the last two say how the response ended, whether a
/// tool was called, and what was counted.
pub proof fn law_the_end_says_what_upstream_said(s: StreamView, data: JsonView, response: JsonView)
    requires
        match data.field("response"@) {
            Some(inner) => response == inner,
            None => response == data,
        },
    ensures
        ({
            let (after, sent) = streaming_responses::step(s, "response.completed"@, data);
            let n = sent.len() as int;
            &&& after.finished
            &&& n >= 2
            &&& sent[n - 1] is MessageStop
            &&& sent[n - 2] == (EventView::MessageDelta {
                status: match response.field("status"@) {
                    Some(JsonView::Text(status)) => Some(status),
                    _ => None,
                },
                has_tool_use: s.has_tool_use,
                incomplete_reason: match response.field("incomplete_details"@) {
                    Some(details) => match details.field("reason"@) {
                        Some(JsonView::Text(reason)) => Some(reason),
                        _ => None,
                    },
                    None => None,
                },
                usage: response.field("usage"@),
            })
        }),
{
    lemma_by_name(s, data);
}

/// Whether an upstream event adds a function call.
pub open spec fn adds_a_call(name: Seq<char>, data: JsonView) -> bool {
    &&& name == "response.output_item.added"@
    &&& data.field("item"@) matches Some(item)
    &&& item.field("type"@) == Some(JsonView::Text("function_call"@))
}

/// A tool counts as called from the first function call on, and not before.
pub proof fn law_only_a_function_call_is_a_tool_call(s: StreamView, name: Seq<char>, data: JsonView)
    ensures
        streaming_responses::step(s, name, data).0.has_tool_use == (s.has_tool_use || adds_a_call(
            name,
            data,
        )),
{
    lemma_by_name(s, data);
}

/// Only the end of the response ends the message, and only it and the events of the blocks
/// and of the message's beginning send anything.
pub proof fn law_other_events_do_nothing(s: StreamView, name: Seq<char>, data: JsonView)
    requires
        name != "response.created"@,
        name != "response.content_part.added"@,
        name != "response.output_text.delta"@,
        name != "response.refusal.delta"@,
        name != "response.content_part.done"@,
        name != "response.refusal.done"@,
        name != "response.reasoning.done"@,
        name != "response.output_item.added"@,
        name != "response.function_call_arguments.delta"@,
        name != "response.function_call_arguments.done"@,
        name != "response.reasoning.delta"@,
        name != "response.completed"@,
    ensures
        streaming_responses::step(s, name, data).0 == s,
        streaming_responses::step(s, name, data).1.len() == 0,
{
}

/// A text in which a character does not occur is one piece.
proof fn lemma_one_piece(t: Seq<char>, separator: char)
    requires
        !t.contains(separator),
    ensures
        text::split_on(t, separator) == seq![t],
    decreases t.len(),
{
    if t.len() == 0 {
        assert(t =~= Seq::empty());
    } else {
        let head = t.drop_last();
        assert(t.contains(t[t.len() - 1]));
        assert(!head.contains(separator)) by {
            if head.contains(separator) {
                let i = choose|i: int| 0 <= i < head.len() && head[i] == separator;
                assert(t[i] == separator);
            }
        }
        lemma_one_piece(head, separator);
        assert(head.push(t.last()) =~= t);
        assert(text::split_on(t, separator) =~= seq![t]);
    }
}

/// What follows a separator without holding one is one more piece.
proof fn lemma_one_more_piece(head: Seq<char>, t: Seq<char>, separator: char)
    requires
        !t.contains(separator),
    ensures
        text::split_on(head + seq![separator] + t, separator) == text::split_on(
            head,
            separator,
        ).push(t),
    decreases t.len(),
{
    let all = head + seq![separator] + t;
    let before = text::split_on(head, separator);
    if t.len() == 0 {
        assert(t =~= Seq::empty());
        assert(all.drop_last() =~= head);
        assert(all.last() == separator);
    } else {
        let less = t.drop_last();
        assert(t.contains(t[t.len() - 1]));
        assert(!less.contains(separator)) by {
            if less.contains(separator) {
                let i = choose|i: int| 0 <= i < less.len() && less[i] == separator;
                assert(t[i] == separator);
            }
        }
        lemma_one_more_piece(head, less, separator);
        assert(all.drop_last() =~= head + seq![separator] + less);
        assert(less.push(t.last()) =~= t);
        assert(before.push(less).drop_last() =~= before);
    }
}

/// Whether a text holds no line feed, and no white space at either end.
pub open spec fn is_plain_name(name: Seq<char>) -> bool {
    &&& name.len() > 0
    &&& !name.contains('\n')
    &&& !text::is_white_space(name.first())
    &&& !text::is_white_space(name.last())
}

/// A block of two lines, with a name and with JSON, is the upstream event of that name with
/// that JSON.
pub proof fn law_a_block_is_a_name_and_json(
    s: StreamView,
    name: Seq<char>,
    data: Seq<char>,
    value: JsonView,
)
    requires
        is_plain_name(name),
        data.len() > 0,
        !data.contains('\n'),
        json::json_parsed(data) == Some(value),
    ensures
        responses_reader::block_step(s, "event: "@ + name + seq!['\n'] + ("data: "@ + data))
            == streaming_responses::step(s, name, value),
{
    reveal_strlit("event: ");
    reveal_strlit("data: ");
    let first = "event: "@ + name;
    let second = "data: "@ + data;
    let block = first + seq!['\n'] + second;
    assert(!first.contains('\n')) by {
        if first.contains('\n') {
            let i = choose|i: int| 0 <= i < first.len() && first[i] == '\n';
            if i >= 7 {
                assert(name[i - 7] == '\n');
            }
        }
    }
    assert(!second.contains('\n')) by {
        if second.contains('\n') {
            let i = choose|i: int| 0 <= i < second.len() && second[i] == '\n';
            if i >= 6 {
                assert(data[i - 6] == '\n');
            }
        }
    }
    lemma_one_piece(first, '\n');
    lemma_one_more_piece(first, second, '\n');
    assert(first.last() == name.last());
    let lines = text::lines(block);
    assert(lines =~= seq![first, second]);
    assert(first.skip(7) =~= name);
    assert(second.skip(6) =~= data);
    assert(first.subrange(0, 7) =~= "event: "@);
    assert(second.subrange(0, 6) =~= "data: "@);
    assert(text::starts_with(first, "event: "@));
    assert(text::starts_with(second, "data: "@));
    assert(!text::starts_with(second, "event: "@)) by {
        if text::starts_with(second, "event: "@) {
            assert(second.subrange(0, 7)[0] == 'd');
            assert("event: "@[0] == 'e');
        }
    }
    assert(!text::starts_with(first, "data: "@)) by {
        if text::starts_with(first, "data: "@) {
            assert(first.subrange(0, 6)[0] == 'e');
            assert("data: "@[0] == 'd');
        }
    }
    assert(text::trim(name) == name);
    assert(lines.drop_last() =~= seq![first]);
    assert(lines.drop_last().drop_last() =~= Seq::empty());
    assert(responses_reader::event_name(lines.drop_last()) == name);
    assert(responses_reader::event_name(lines) == name);
    assert(responses_reader::data_lines(lines.drop_last().drop_last()) =~= Seq::empty());
    assert(responses_reader::data_lines(lines.drop_last()) =~= Seq::empty());
    assert(responses_reader::data_lines(lines) =~= seq![data]);
    assert(block[0] == 'e');
    assert(text::trim_start(block) == block);
    assert(!text::is_blank(block)) by {
        lemma_ends_in_text(block, 0);
    }
}

/// A text with a character that is no white space is not empty without the white space at
/// its end.
proof fn lemma_ends_in_text(t: Seq<char>, i: int)
    requires
        0 <= i < t.len(),
        !text::is_white_space(t[i]),
    ensures
        text::trim_end(t).len() > 0,
    decreases t.len(),
{
    if text::is_white_space(t.last()) {
        lemma_ends_in_text(t.drop_last(), i);
    }
}

/// The text of one complete block is read as soon as it has come: the events that its event
/// sends are sent, and nothing is left.
pub proof fn law_a_complete_block_is_read(s: StreamView, block: Seq<char>)
    requires
        !s.finished,
        !text::contains(block + seq!['\n'], seq!['\n', '\n']),
        responses_reader::block_has_room(s, block),
    ensures
        ({
            let (after, sent, rest) = responses_reader::run(s, block + seq!['\n', '\n']);
            &&& (after, sent) == responses_reader::block_step(s, block)
            &&& rest.len() == 0
        }),
{
    let input = block + seq!['\n', '\n'];
    let end = responses_reader::block_end();
    text::lemma_find_from(input, end, 0);
    assert(text::occurs_at(input, end, block.len() as int)) by {
        assert(input.subrange(block.len() as int, block.len() as int + 2) =~= end);
    }
    let i = text::find_from(input, end, 0)->0;
    if i < block.len() {
        let short = block + seq!['\n'];
        assert(input.subrange(i, i + 2) =~= short.subrange(i, i + 2));
        assert(text::occurs_at(short, seq!['\n', '\n'], i));
    }
    assert(i == block.len());
    assert(input.take(i) =~= block);
    assert(input.skip(i + 2) =~= Seq::empty());
    let s1 = responses_reader::block_step(s, block).0;
    text::lemma_find_from(Seq::<char>::empty(), end, 0);
    assert(responses_reader::run(s1, Seq::empty()).1 =~= Seq::empty());
    assert(responses_reader::block_step(s, block).1 + Seq::<EventView>::empty()
        =~= responses_reader::block_step(s, block).1);
}

/// The last line of a block that names an event names it, without white space around the name.
pub proof fn law_the_last_name_counts(lines: Seq<Seq<char>>, name: Seq<char>, line: Seq<char>)
    requires
        !text::starts_with(line, "event: "@),
    ensures
        responses_reader::event_name(lines.push("event: "@ + name)) == text::trim(name),
        responses_reader::event_name(lines.push(line)) == responses_reader::event_name(lines),
{
    let named = "event: "@ + name;
    assert(lines.push(named).drop_last() =~= lines);
    assert(lines.push(line).drop_last() =~= lines);
    assert(named.subrange(0, 0int + "event: "@.len()) =~= "event: "@);
    assert(named.skip("event: "@.len() as int) =~= name);
}

/// Each line of data is data, as it stands, and no other line is.
pub proof fn law_every_line_of_data_counts(lines: Seq<Seq<char>>, data: Seq<char>, line: Seq<char>)
    requires
        !text::starts_with(line, "data: "@),
    ensures
        responses_reader::data_lines(lines.push("data: "@ + data)) == responses_reader::data_lines(
            lines,
        ).push(data),
        responses_reader::data_lines(lines.push(line)) == responses_reader::data_lines(lines),
{
    reveal_strlit("data: ");
    reveal_strlit("event: ");
    let told = "data: "@ + data;
    assert(lines.push(told).drop_last() =~= lines);
    assert(lines.push(line).drop_last() =~= lines);
    assert(told.subrange(0, 0int + "data: "@.len()) =~= "data: "@);
    assert(told.skip("data: "@.len() as int) =~= data);
    assert(told[0] == 'd');
    if text::starts_with(told, "event: "@) {
        assert(told.subrange(0, 0int + "event: "@.len())[0] == "event: "@[0]);
        assert("event: "@[0] == 'e');
    }
}

} // verus!
