//! Turning a stream of OpenAI Responses events into one of Anthropic Messages
//! events.
//!
//! [`ResponsesStream`] takes one upstream event after the other and hands out the
//! events to send on. What it does is stated by [`step`], which says for one
//! upstream event which events are sent and what is remembered.

use std::collections::HashSet;
use vstd::hash_map::StringHashMap;
use vstd::prelude::*;
use vstd::string::*;
use crate::json;
use crate::json::{Json, JsonView};
use crate::proxy::providers::anthropic_events;
use crate::proxy::providers::anthropic_events::{
    BlockDelta, BlockView, ContentBlock, DeltaView, EventView, StartUsage, StreamEvent,
    UsageView,
};
use crate::proxy::providers::index_texts::IndexTexts;
use crate::text;

verus! {

broadcast use vstd::std_specs::hash::group_hash_axioms;

/// What is remembered between one upstream event and the next.
pub struct StreamView {
    pub message_id: Option<Seq<char>>,
    pub current_model: Option<Seq<char>>,
    pub has_sent_message_start: bool,
    pub has_tool_use: bool,
    pub next_content_index: u32,
    pub index_by_key: Map<Seq<char>, u32>,
    pub open_indices: Set<u32>,
    pub fallback_open_index: Option<u32>,
    pub tool_index_by_item_id: Map<Seq<char>, u32>,
    pub tool_name_by_index: Map<u32, Seq<char>>,
    pub read_arguments_by_index: Map<u32, Seq<char>>,
    pub last_tool_index: Option<u32>,
    /// Whether the message has ended.
    pub finished: bool,
}

/// A text, or the empty one.
pub open spec fn or_empty(t: Option<Seq<char>>) -> Seq<char> {
    match t {
        Some(t) => t,
        None => Seq::empty(),
    }
}

/// The first of two values that is there.
pub open spec fn or_else<T>(first: Option<T>, second: Option<T>) -> Option<T> {
    if first is Some {
        first
    } else {
        second
    }
}

/// What stands under a key.
pub open spec fn lookup<K, V>(map: Map<K, V>, key: K) -> Option<V> {
    if map.dom().contains(key) {
        Some(map[key])
    } else {
        None
    }
}

/// The response that an event is about: its `response` field, or else itself.
pub open spec fn response_object(data: JsonView) -> JsonView {
    match data.field("response"@) {
        Some(response) => response,
        None => data,
    }
}

/// The key of the content part that an event is about.
pub open spec fn part_key(data: JsonView) -> Option<Seq<char>> {
    let content_index = json::field_unsigned(data, "content_index"@);
    match (json::field_text(data, "item_id"@), content_index) {
        (Some(item), Some(content)) => Some(
            "part:"@ + item + ":"@ + text::decimal(content as nat),
        ),
        _ => match (json::field_unsigned(data, "output_index"@), content_index) {
            (Some(output), Some(content)) => Some(
                "part:out:"@ + text::decimal(output as nat) + ":"@ + text::decimal(content as nat),
            ),
            _ => None,
        },
    }
}

/// The key of a tool call, by the `item_id` or the `output_index` of an event.
pub open spec fn event_tool_key(data: JsonView) -> Option<Seq<char>> {
    match json::field_text(data, "item_id"@) {
        Some(item) => Some("tool:"@ + item),
        None => match json::field_unsigned(data, "output_index"@) {
            Some(output) => Some("tool:out:"@ + text::decimal(output as nat)),
            None => None,
        },
    }
}

/// The key of a tool call that an event adds: by the item's own `id`, or else as
/// for any other event.
pub open spec fn added_tool_key(data: JsonView, item: JsonView) -> Option<Seq<char>> {
    match json::field_text(item, "id"@) {
        Some(id) => Some("tool:"@ + id),
        None => event_tool_key(data),
    }
}

/// Takes the next content-block index.
pub open spec fn fresh(s: StreamView) -> (StreamView, u32) {
    (
        StreamView { next_content_index: (s.next_content_index + 1) as u32, ..s },
        s.next_content_index,
    )
}

/// The content-block index under `key`, which takes the next one when it has
/// none.
pub open spec fn index_for_key(s: StreamView, key: Seq<char>) -> (StreamView, u32) {
    match lookup(s.index_by_key, key) {
        Some(index) => (s, index),
        None => {
            let (s1, index) = fresh(s);
            (StreamView { index_by_key: s1.index_by_key.insert(key, index), ..s1 }, index)
        },
    }
}

/// The content-block index of the part that an event is about. Parts without a
/// key share one block until it is closed.
pub open spec fn content_index(s: StreamView, data: JsonView) -> (StreamView, u32) {
    match part_key(data) {
        Some(key) => index_for_key(s, key),
        None => match s.fallback_open_index {
            Some(index) => (s, index),
            None => {
                let (s1, index) = fresh(s);
                (StreamView { fallback_open_index: Some(index), ..s1 }, index)
            },
        },
    }
}

/// Sends a `message_start` if none has been sent.
pub open spec fn ensure_started(s: StreamView) -> (StreamView, Seq<EventView>) {
    if s.has_sent_message_start {
        (s, seq![])
    } else {
        (
            StreamView { has_sent_message_start: true, ..s },
            seq![
                EventView::MessageStart {
                    id: or_empty(s.message_id),
                    model: or_empty(s.current_model),
                    start_usage: UsageView::Zero,
                },
            ],
        )
    }
}

/// Opens the block `index` if it is not open.
pub open spec fn ensure_open(s: StreamView, index: u32, block: BlockView) -> (
    StreamView,
    Seq<EventView>,
) {
    if s.open_indices.contains(index) {
        (s, seq![])
    } else {
        (
            StreamView { open_indices: s.open_indices.insert(index), ..s },
            seq![EventView::ContentBlockStart { index, block }],
        )
    }
}

/// `response.created`: the message starts, with the upstream id and model.
pub open spec fn on_created(s: StreamView, data: JsonView) -> (StreamView, Seq<EventView>) {
    let response = response_object(data);
    let message_id = or_else(json::field_text(response, "id"@), s.message_id);
    let current_model = or_else(json::field_text(response, "model"@), s.current_model);
    (
        StreamView { message_id, current_model, has_sent_message_start: true, ..s },
        seq![
            EventView::MessageStart {
                id: or_empty(message_id),
                model: or_empty(current_model),
                start_usage: UsageView::Upstream(response.field("usage"@)),
            },
        ],
    )
}

/// `response.content_part.added`: a text or a refusal opens its block.
pub open spec fn on_part_added(s: StreamView, data: JsonView) -> (StreamView, Seq<EventView>) {
    let (s1, started) = ensure_started(s);
    match data.field("part"@) {
        Some(part) => {
            let kind = json::field_text(part, "type"@);
            if kind == Some("output_text"@) || kind == Some("refusal"@) {
                let (s2, index) = content_index(s1, data);
                let (s3, opened) = ensure_open(s2, index, BlockView::Text);
                (s3, started + opened)
            } else {
                (s1, started)
            }
        },
        None => (s1, started),
    }
}

/// More text of a block, which is opened first if it is not open.
pub open spec fn grow(
    s: StreamView,
    data: JsonView,
    block: BlockView,
    delta: DeltaView,
) -> (StreamView, Seq<EventView>) {
    let (s1, index) = content_index(s, data);
    let (s2, opened) = ensure_open(s1, index, block);
    (s2, opened.push(EventView::ContentBlockDelta { index, delta }))
}

/// `response.output_text.delta` and `response.refusal.delta`: more text.
pub open spec fn on_text_delta(s: StreamView, data: JsonView) -> (StreamView, Seq<EventView>) {
    match json::field_text(data, "delta"@) {
        Some(delta) => grow(s, data, BlockView::Text, DeltaView::Text(delta)),
        None => (s, seq![]),
    }
}

/// `response.reasoning.delta`: more thinking, from `delta` or else from `text`.
pub open spec fn on_reasoning_delta(s: StreamView, data: JsonView) -> (
    StreamView,
    Seq<EventView>,
) {
    match or_else(data.field("delta"@), data.field("text"@)) {
        Some(JsonView::Text(delta)) => grow(
            s,
            data,
            BlockView::Thinking,
            DeltaView::Thinking(delta),
        ),
        _ => (s, seq![]),
    }
}

/// The end of a text, a refusal or a piece of reasoning: its block is closed if
/// it is open.
pub open spec fn on_part_done(s: StreamView, data: JsonView) -> (StreamView, Seq<EventView>) {
    let known = match part_key(data) {
        Some(key) => lookup(s.index_by_key, key),
        None => s.fallback_open_index,
    };
    match known {
        Some(index) => if s.open_indices.contains(index) {
            (
                StreamView {
                    open_indices: s.open_indices.remove(index),
                    fallback_open_index: if s.fallback_open_index == Some(index) {
                        None
                    } else {
                        s.fallback_open_index
                    },
                    ..s
                },
                seq![EventView::ContentBlockStop { index }],
            )
        } else {
            (s, seq![])
        },
        None => (s, seq![]),
    }
}

/// `response.output_item.added`: a function call opens its block.
pub open spec fn on_item_added(s: StreamView, data: JsonView) -> (StreamView, Seq<EventView>) {
    match data.field("item"@) {
        Some(item) => if json::field_text(item, "type"@) == Some("function_call"@) {
            let (s1, started) = ensure_started(StreamView { has_tool_use: true, ..s });
            let id = or_empty(json::field_text(item, "call_id"@));
            let name = or_empty(json::field_text(item, "name"@));
            let (s2, index) = match added_tool_key(data, item) {
                Some(key) => index_for_key(s1, key),
                None => fresh(s1),
            };
            let item_id = or_else(
                json::field_text(item, "id"@),
                json::field_text(data, "item_id"@),
            );
            let s3 = StreamView {
                tool_index_by_item_id: match item_id {
                    Some(item_id) => s2.tool_index_by_item_id.insert(item_id, index),
                    None => s2.tool_index_by_item_id,
                },
                last_tool_index: Some(index),
                tool_name_by_index: s2.tool_name_by_index.insert(index, name),
                ..s2
            };
            let (s4, opened) = ensure_open(s3, index, BlockView::ToolUse { id, name });
            (s4, started + opened)
        } else {
            (s, seq![])
        },
        None => (s, seq![]),
    }
}

/// The block of the tool call that an event is about: by its item, by its key, or
/// else the last one.
pub open spec fn known_tool_index(s: StreamView, data: JsonView) -> Option<u32> {
    let by_item = match json::field_text(data, "item_id"@) {
        Some(item_id) => lookup(s.tool_index_by_item_id, item_id),
        None => None,
    };
    let by_key = match event_tool_key(data) {
        Some(key) => lookup(s.index_by_key, key),
        None => None,
    };
    or_else(or_else(by_item, by_key), s.last_tool_index)
}

/// Whether the block `index` belongs to the tool `Read`, whose arguments are held
/// back until they are complete.
pub open spec fn is_read_tool(s: StreamView, index: u32) -> bool {
    lookup(s.tool_name_by_index, index) == Some("Read"@)
}

/// `response.function_call_arguments.delta`: more arguments of a tool call.
pub open spec fn on_arguments_delta(s: StreamView, data: JsonView) -> (
    StreamView,
    Seq<EventView>,
) {
    match json::field_text(data, "delta"@) {
        Some(delta) => {
            let item_id = json::field_text(data, "item_id"@);
            let given_name = json::field_text(data, "name"@);
            let (s1, index) = match known_tool_index(s, data) {
                Some(index) => (s, index),
                None => fresh(s),
            };
            let s2 = StreamView {
                tool_index_by_item_id: match item_id {
                    Some(item_id) => if s1.tool_index_by_item_id.dom().contains(item_id) {
                        s1.tool_index_by_item_id
                    } else {
                        s1.tool_index_by_item_id.insert(item_id, index)
                    },
                    None => s1.tool_index_by_item_id,
                },
                last_tool_index: Some(index),
                tool_name_by_index: match given_name {
                    Some(name) => s1.tool_name_by_index.insert(index, name),
                    None => s1.tool_name_by_index,
                },
                ..s1
            };
            let block = BlockView::ToolUse {
                id: or_empty(or_else(json::field_text(data, "call_id"@), item_id)),
                name: or_empty(given_name),
            };
            let (s3, opened) = ensure_open(s2, index, block);
            if is_read_tool(s3, index) {
                let held = or_empty(lookup(s3.read_arguments_by_index, index));
                (
                    StreamView {
                        read_arguments_by_index: s3.read_arguments_by_index.insert(
                            index,
                            held + delta,
                        ),
                        ..s3
                    },
                    opened,
                )
            } else {
                (
                    s3,
                    opened.push(
                        EventView::ContentBlockDelta { index, delta: DeltaView::InputJson(delta) },
                    ),
                )
            }
        },
        None => (s, seq![]),
    }
}

/// The input of a tool call as it is sent on: an empty `pages` of the tool `Read`
/// is left out.
pub open spec fn sanitized_input(tool: Seq<char>, input: JsonView) -> JsonView {
    if tool == "Read"@ && json::field_text(input, "pages"@) == Some(Seq::<char>::empty()) {
        input.without("pages"@)
    } else {
        input
    }
}

/// The arguments of a tool call as they are sent on: sanitized where they are
/// JSON, as they came where they are not.
pub open spec fn sanitized_arguments(tool: Seq<char>, arguments: Seq<char>) -> Seq<char> {
    match json::json_parsed(arguments) {
        Some(input) => json::json_written(sanitized_input(tool, input)),
        None => arguments,
    }
}

/// The one delta in which the held-back arguments of the tool `Read` are sent.
pub open spec fn read_delta(index: u32, arguments: Seq<char>) -> EventView {
    EventView::ContentBlockDelta {
        index,
        delta: DeltaView::InputJson(sanitized_arguments("Read"@, arguments)),
    }
}

/// `response.function_call_arguments.done`: a tool call is complete, and its
/// block is closed if it is open.
pub open spec fn on_arguments_done(s: StreamView, data: JsonView) -> (
    StreamView,
    Seq<EventView>,
) {
    match known_tool_index(s, data) {
        Some(index) => if s.open_indices.contains(index) {
            let arguments = or_empty(
                or_else(
                    json::field_text(data, "arguments"@),
                    lookup(s.read_arguments_by_index, index),
                ),
            );
            let held = if is_read_tool(s, index) {
                seq![read_delta(index, arguments)]
            } else {
                seq![]
            };
            (
                StreamView {
                    open_indices: s.open_indices.remove(index),
                    tool_name_by_index: s.tool_name_by_index.remove(index),
                    read_arguments_by_index: s.read_arguments_by_index.remove(index),
                    tool_index_by_item_id: match json::field_text(data, "item_id"@) {
                        Some(item_id) => s.tool_index_by_item_id.remove(item_id),
                        None => s.tool_index_by_item_id,
                    },
                    ..s
                },
                held.push(EventView::ContentBlockStop { index }),
            )
        } else {
            (s, seq![])
        },
        None => (s, seq![]),
    }
}

/// Whether the block `index` is an open block of the tool `Read` with arguments
/// held back.
pub open spec fn holds_arguments(s: StreamView, index: u32) -> bool {
    &&& s.read_arguments_by_index.dom().contains(index)
    &&& s.open_indices.contains(index)
    &&& is_read_tool(s, index)
}

/// The deltas of the held-back arguments in the blocks below `end`, in order.
pub open spec fn held_deltas(s: StreamView, end: u32) -> Seq<EventView>
    decreases end,
{
    if end == 0 {
        seq![]
    } else {
        let before = held_deltas(s, (end - 1) as u32);
        let index = (end - 1) as u32;
        if holds_arguments(s, index) {
            before.push(read_delta(index, s.read_arguments_by_index[index]))
        } else {
            before
        }
    }
}

/// The held-back arguments that stay when those below `end` have been sent.
pub open spec fn unsent_arguments(s: StreamView, end: u32) -> Map<u32, Seq<char>>
    decreases end,
{
    if end == 0 {
        s.read_arguments_by_index
    } else {
        let before = unsent_arguments(s, (end - 1) as u32);
        if holds_arguments(s, (end - 1) as u32) {
            before.remove((end - 1) as u32)
        } else {
            before
        }
    }
}

/// The closing of the open blocks below `end`, in order.
pub open spec fn stops(open: Set<u32>, end: u32) -> Seq<EventView>
    decreases end,
{
    if end == 0 {
        seq![]
    } else {
        let before = stops(open, (end - 1) as u32);
        let index = (end - 1) as u32;
        if open.contains(index) {
            before.push(EventView::ContentBlockStop { index })
        } else {
            before
        }
    }
}

/// `response.completed`: what is held back is sent, every open block is closed,
/// and the message ends.
pub open spec fn on_completed(s: StreamView, data: JsonView) -> (StreamView, Seq<EventView>) {
    let response = response_object(data);
    let end = s.next_content_index;
    (
        StreamView {
            read_arguments_by_index: unsent_arguments(s, end),
            open_indices: Set::empty(),
            finished: true,
            ..s
        },
        held_deltas(s, end) + stops(s.open_indices, end) + seq![
            EventView::MessageDelta {
                status: json::field_text(response, "status"@),
                has_tool_use: s.has_tool_use,
                incomplete_reason: match json::field_of_field(
                    response,
                    "incomplete_details"@,
                    "reason"@,
                ) {
                    Some(reason) => reason.text(),
                    None => None,
                },
                usage: response.field("usage"@),
            },
            EventView::MessageStop,
        ],
    )
}

/// What one upstream event does: what is remembered after it, and the events that
/// it sends.
pub open spec fn step(s: StreamView, name: Seq<char>, data: JsonView) -> (
    StreamView,
    Seq<EventView>,
) {
    if name == "response.created"@ {
        on_created(s, data)
    } else if name == "response.content_part.added"@ {
        on_part_added(s, data)
    } else if name == "response.output_text.delta"@ || name == "response.refusal.delta"@ {
        on_text_delta(s, data)
    } else if name == "response.content_part.done"@ || name == "response.refusal.done"@ || name
        == "response.reasoning.done"@ {
        on_part_done(s, data)
    } else if name == "response.output_item.added"@ {
        on_item_added(s, data)
    } else if name == "response.function_call_arguments.delta"@ {
        on_arguments_delta(s, data)
    } else if name == "response.function_call_arguments.done"@ {
        on_arguments_done(s, data)
    } else if name == "response.reasoning.delta"@ {
        on_reasoning_delta(s, data)
    } else if name == "response.completed"@ {
        on_completed(s, data)
    } else {
        (s, seq![])
    }
}

/// Whether the part that an event is about takes the next content-block index: it has
/// none yet.
pub open spec fn part_takes(s: StreamView, data: JsonView) -> bool {
    match part_key(data) {
        Some(key) => !s.index_by_key.dom().contains(key),
        None => s.fallback_open_index is None,
    }
}

/// Whether `response.content_part.added` takes the next content-block index.
pub open spec fn part_added_takes(s: StreamView, data: JsonView) -> bool {
    match data.field("part"@) {
        Some(part) => {
            let kind = json::field_text(part, "type"@);
            (kind == Some("output_text"@) || kind == Some("refusal"@)) && part_takes(s, data)
        },
        None => false,
    }
}

/// Whether more text takes the next content-block index.
pub open spec fn text_delta_takes(s: StreamView, data: JsonView) -> bool {
    json::field_text(data, "delta"@) is Some && part_takes(s, data)
}

/// Whether more thinking takes the next content-block index.
pub open spec fn reasoning_delta_takes(s: StreamView, data: JsonView) -> bool {
    match or_else(data.field("delta"@), data.field("text"@)) {
        Some(JsonView::Text(_)) => part_takes(s, data),
        _ => false,
    }
}

/// Whether `response.output_item.added` takes the next content-block index.
pub open spec fn item_added_takes(s: StreamView, data: JsonView) -> bool {
    match data.field("item"@) {
        Some(item) => json::field_text(item, "type"@) == Some("function_call"@) && match added_tool_key(
            data,
            item,
        ) {
            Some(key) => !s.index_by_key.dom().contains(key),
            None => true,
        },
        None => false,
    }
}

/// Whether more arguments take the next content-block index.
pub open spec fn arguments_delta_takes(s: StreamView, data: JsonView) -> bool {
    json::field_text(data, "delta"@) is Some && known_tool_index(s, data) is None
}

/// Whether an upstream event takes the next content-block index.
pub open spec fn takes_index(s: StreamView, name: Seq<char>, data: JsonView) -> bool {
    if name == "response.content_part.added"@ {
        part_added_takes(s, data)
    } else if name == "response.output_text.delta"@ || name == "response.refusal.delta"@ {
        text_delta_takes(s, data)
    } else if name == "response.output_item.added"@ {
        item_added_takes(s, data)
    } else if name == "response.function_call_arguments.delta"@ {
        arguments_delta_takes(s, data)
    } else if name == "response.reasoning.delta"@ {
        reasoning_delta_takes(s, data)
    } else {
        false
    }
}

/// Whether there is a content-block index left for an upstream event that takes one.
pub open spec fn has_room(s: StreamView, name: Seq<char>, data: JsonView) -> bool {
    takes_index(s, name, data) ==> s.next_content_index < u32::MAX
}

/// Every index that is remembered has been taken.
pub open spec fn indices_are_taken(s: StreamView) -> bool {
    let end = s.next_content_index;
    &&& forall|k: Seq<char>|
        #[trigger] s.index_by_key.dom().contains(k) ==> s.index_by_key[k] < end
    &&& forall|k: Seq<char>|
        #[trigger] s.tool_index_by_item_id.dom().contains(k) ==> s.tool_index_by_item_id[k] < end
    &&& forall|i: u32| #[trigger] s.open_indices.contains(i) ==> i < end
    &&& forall|i: u32| #[trigger] s.read_arguments_by_index.dom().contains(i) ==> i < end
    &&& s.fallback_open_index matches Some(i) ==> i < end
    &&& s.last_tool_index matches Some(i) ==> i < end
}

/// No two keys share a content-block index, and none has that of the block for parts
/// without a key.
pub open spec fn indices_are_distinct(s: StreamView) -> bool {
    &&& forall|a: Seq<char>, b: Seq<char>|
        #[trigger] s.index_by_key.dom().contains(a) && #[trigger] s.index_by_key.dom().contains(b)
            && a != b ==> s.index_by_key[a] != s.index_by_key[b]
    &&& s.fallback_open_index matches Some(i) ==> forall|k: Seq<char>|
        #[trigger] s.index_by_key.dom().contains(k) ==> s.index_by_key[k] != i
}

/// What has an index keeps it.
pub open spec fn keeps_indices(s: StreamView, after: StreamView) -> bool {
    forall|k: Seq<char>| #[trigger]
        s.index_by_key.dom().contains(k) ==> after.index_by_key.dom().contains(k)
            && after.index_by_key[k] == s.index_by_key[k]
}

/// What is remembered before anything has come.
pub open spec fn initial() -> StreamView {
    StreamView {
        message_id: None,
        current_model: None,
        has_sent_message_start: false,
        has_tool_use: false,
        next_content_index: 0,
        index_by_key: Map::empty(),
        open_indices: Set::empty(),
        fallback_open_index: None,
        tool_index_by_item_id: Map::empty(),
        tool_name_by_index: Map::empty(),
        read_arguments_by_index: Map::empty(),
        last_tool_index: None,
        finished: false,
    }
}

/// A stream of upstream events, by what is remembered of those that came.
pub struct ResponsesStream {
    message_id: Option<String>,
    current_model: Option<String>,
    has_sent_message_start: bool,
    has_tool_use: bool,
    next_content_index: u32,
    index_by_key: StringHashMap<u32>,
    open_indices: HashSet<u32>,
    fallback_open_index: Option<u32>,
    tool_index_by_item_id: StringHashMap<u32>,
    tool_name_by_index: IndexTexts,
    read_arguments_by_index: IndexTexts,
    last_tool_index: Option<u32>,
    finished: bool,
}

impl View for ResponsesStream {
    type V = StreamView;

    closed spec fn view(&self) -> StreamView {
        StreamView {
            message_id: text::option_view(self.message_id),
            current_model: text::option_view(self.current_model),
            has_sent_message_start: self.has_sent_message_start,
            has_tool_use: self.has_tool_use,
            next_content_index: self.next_content_index,
            index_by_key: self.index_by_key@,
            open_indices: self.open_indices@,
            fallback_open_index: self.fallback_open_index,
            tool_index_by_item_id: self.tool_index_by_item_id@,
            tool_name_by_index: self.tool_name_by_index@,
            read_arguments_by_index: self.read_arguments_by_index@,
            last_tool_index: self.last_tool_index,
            finished: self.finished,
        }
    }
}

/// The key of the content part that an event is about.
fn content_part_key(data: &Json) -> (r: Option<String>)
    ensures
        text::option_view(r) == part_key(data@),
{
    let content = match data.get_u64("content_index") {
        Some(content) => content,
        None => {
            return None;
        },
    };
    if let Some(item) = data.get_str("item_id") {
        let key = text::concat2(text::concat3("part:", item, ":").as_str(), text::number_text(content).as_str());
        return Some(key);
    }
    if let Some(output) = data.get_u64("output_index") {
        let head = text::concat3("part:out:", text::number_text(output).as_str(), ":");
        return Some(text::concat2(head.as_str(), text::number_text(content).as_str()));
    }
    None
}

/// The key of a tool call, by the `item_id` or the `output_index` of an event.
fn tool_item_key_from_event(data: &Json) -> (r: Option<String>)
    ensures
        text::option_view(r) == event_tool_key(data@),
{
    if let Some(item) = data.get_str("item_id") {
        return Some(text::concat2("tool:", item));
    }
    if let Some(output) = data.get_u64("output_index") {
        return Some(text::concat2("tool:out:", text::number_text(output).as_str()));
    }
    None
}

/// The key of a tool call that an event adds.
fn tool_item_key_from_added(data: &Json, item: &Json) -> (r: Option<String>)
    ensures
        text::option_view(r) == added_tool_key(data@, item@),
{
    if let Some(id) = item.get_str("id") {
        return Some(text::concat2("tool:", id));
    }
    tool_item_key_from_event(data)
}

/// The response that an event is about.
fn response_object_from_event(data: &Json) -> (r: &Json)
    ensures
        r@ == response_object(data@),
{
    match data.get("response") {
        Some(response) => response,
        None => data,
    }
}

/// The arguments of a tool call as they are sent on.
pub fn sanitize_tool_arguments_json(tool_name: &str, arguments: &str) -> (r: String)
    ensures
        r@ == sanitized_arguments(tool_name@, arguments@),
{
    match json::parse_json(arguments) {
        Some(input) => {
            let drops = match input.get_str("pages") {
                Some(pages) => {
                    assert(pages@.len() == 0 ==> pages@ =~= Seq::<char>::empty());
                    text::same_text(tool_name, "Read") && pages.is_empty()
                },
                None => false,
            };
            if drops {
                json::write_json(&input.without("pages"))
            } else {
                json::write_json(&input)
            }
        },
        None => arguments.to_owned(),
    }
}

/// The text, or the empty one.
fn text_or_empty(t: Option<&str>) -> (r: String)
    ensures
        r@ == or_empty(json::option_text(t)),
{
    match t {
        Some(t) => t.to_owned(),
        None => String::new(),
    }
}

/// A copy of a text, or the empty one.
fn copy_or_empty(t: &Option<String>) -> (r: String)
    ensures
        r@ == or_empty(text::option_view(*t)),
{
    match t {
        Some(t) => t.clone(),
        None => String::new(),
    }
}

/// A copy of what stands under a key.
fn key_index(map: &StringHashMap<u32>, key: &str) -> (r: Option<u32>)
    ensures
        r == lookup(map@, key@),
{
    match map.get(key) {
        Some(index) => Some(*index),
        None => None,
    }
}

impl ResponsesStream {
    /// A stream of which nothing has come.
    pub fn new() -> (r: ResponsesStream)
        ensures
            r@ == initial(),
    {
        ResponsesStream {
            message_id: None,
            current_model: None,
            has_sent_message_start: false,
            has_tool_use: false,
            next_content_index: 0,
            index_by_key: StringHashMap::new(),
            open_indices: HashSet::new(),
            fallback_open_index: None,
            tool_index_by_item_id: StringHashMap::new(),
            tool_name_by_index: IndexTexts::new(),
            read_arguments_by_index: IndexTexts::new(),
            last_tool_index: None,
            finished: false,
        }
    }

    /// Whether the message has ended.
    pub fn is_finished(&self) -> (r: bool)
        ensures
            r == self@.finished,
    {
        self.finished
    }

    /// The content-block index that is taken next.
    pub fn next_content_index(&self) -> (r: u32)
        ensures
            r == self@.next_content_index,
    {
        self.next_content_index
    }

    /// Takes the next content-block index.
    fn take_index(&mut self) -> (index: u32)
        requires
            old(self)@.next_content_index < u32::MAX,
        ensures
            (final(self)@, index) == fresh(old(self)@),
    {
        let index: u32 = self.next_content_index;
        self.next_content_index = index + 1;
        index
    }

    /// The content-block index under `key`.
    fn index_of_key(&mut self, key: String) -> (index: u32)
        requires
            !old(self)@.index_by_key.dom().contains(key@) ==> old(self)@.next_content_index
                < u32::MAX,
        ensures
            (final(self)@, index) == index_for_key(old(self)@, key@),
    {
        if let Some(index) = key_index(&self.index_by_key, key.as_str()) {
            return index;
        }
        let index: u32 = self.take_index();
        self.index_by_key.insert(key, index);
        index
    }

    /// The content-block index of the part that an event is about. It stays the same when
    /// it is asked for again, and no part with another key has it; what has an index keeps
    /// it.
    pub fn resolve_content_index(&mut self, data: &Json) -> (index: u32)
        requires
            part_takes(old(self)@, data@) ==> old(self)@.next_content_index < u32::MAX,
        ensures
            (final(self)@, index) == content_index(old(self)@, data@),
            content_index(final(self)@, data@) == (final(self)@, index),
            keeps_indices(old(self)@, final(self)@),
            indices_are_taken(old(self)@) ==> indices_are_taken(final(self)@),
            indices_are_taken(old(self)@) ==> index < final(self)@.next_content_index,
            indices_are_taken(old(self)@) && indices_are_distinct(old(self)@) ==> {
                &&& indices_are_distinct(final(self)@)
                &&& forall|other: JsonView| #[trigger]
                    part_key(other) != part_key(data@) ==> content_index(final(self)@, other).1
                        != index
            },
    {
        if let Some(key) = content_part_key(data) {
            return self.index_of_key(key);
        }
        if let Some(index) = self.fallback_open_index {
            return index;
        }
        let index: u32 = self.take_index();
        self.fallback_open_index = Some(index);
        index
    }

    /// Sends a `message_start` if none has been sent.
    fn start_message(&mut self, events: &mut Vec<StreamEvent>)
        ensures
            final(self)@ == ensure_started(old(self)@).0,
            anthropic_events::event_views(final(events)@) == anthropic_events::event_views(old(events)@) + ensure_started(old(self)@).1,
    {
        if !self.has_sent_message_start {
            let event = StreamEvent::MessageStart {
                id: copy_or_empty(&self.message_id),
                model: copy_or_empty(&self.current_model),
                start_usage: StartUsage::Zero,
            };
            events.push(event);
            self.has_sent_message_start = true;
        }
        assert(anthropic_events::event_views(events@) =~= anthropic_events::event_views(old(events)@) + ensure_started(old(self)@).1);
    }

    /// Opens the block `index` if it is not open.
    fn open_block(&mut self, index: u32, block: ContentBlock, events: &mut Vec<StreamEvent>)
        ensures
            final(self)@ == ensure_open(old(self)@, index, block@).0,
            anthropic_events::event_views(final(events)@) == anthropic_events::event_views(old(events)@) + ensure_open(
                old(self)@,
                index,
                block@,
            ).1,
    {
        if !self.open_indices.contains(&index) {
            events.push(StreamEvent::ContentBlockStart { index, block });
            self.open_indices.insert(index);
        }
        assert(anthropic_events::event_views(events@) =~= anthropic_events::event_views(old(events)@) + ensure_open(
            old(self)@,
            index,
            block@,
        ).1);
    }

    /// Takes the block `index` for closed, and tells whether it was open.
    fn close_block(&mut self, index: u32) -> (r: bool)
        ensures
            r == old(self)@.open_indices.contains(index),
            final(self)@ == (StreamView {
                open_indices: old(self)@.open_indices.remove(index),
                ..old(self)@
            }),
            !r ==> final(self)@ == old(self)@,
    {
        let r = self.open_indices.remove(&index);
        assert(self.open_indices@ =~= old(self).open_indices@.remove(index));
        assert(!r ==> self.open_indices@ =~= old(self).open_indices@);
        r
    }

    /// `response.created`.
    fn handle_created(&mut self, data: &Json) -> (events: Vec<StreamEvent>)
        ensures
            (final(self)@, anthropic_events::event_views(events@)) == on_created(old(self)@, data@),
    {
        let response = response_object_from_event(data);
        if let Some(id) = response.get_str("id") {
            self.message_id = Some(id.to_owned());
        }
        if let Some(model) = response.get_str("model") {
            self.current_model = Some(model.to_owned());
        }
        self.has_sent_message_start = true;
        let usage = match response.get("usage") {
            Some(usage) => Some(usage.duplicate()),
            None => None,
        };
        let mut events: Vec<StreamEvent> = Vec::new();
        events.push(
            StreamEvent::MessageStart {
                id: copy_or_empty(&self.message_id),
                model: copy_or_empty(&self.current_model),
                start_usage: StartUsage::Upstream(usage),
            },
        );
        assert(anthropic_events::event_views(events@) =~= on_created(old(self)@, data@).1);
        events
    }

    /// `response.content_part.added`.
    fn handle_part_added(&mut self, data: &Json) -> (events: Vec<StreamEvent>)
        requires
            part_added_takes(old(self)@, data@) ==> old(self)@.next_content_index < u32::MAX,
        ensures
            (final(self)@, anthropic_events::event_views(events@)) == on_part_added(old(self)@, data@),
    {
        let mut events: Vec<StreamEvent> = Vec::new();
        self.start_message(&mut events);
        if let Some(part) = data.get("part") {
            let opens = match part.get_str("type") {
                Some(kind) => text::same_text(kind, "output_text") || text::same_text(kind, "refusal"),
                None => false,
            };
            if opens {
                let index: u32 = self.resolve_content_index(data);
                self.open_block(index, ContentBlock::Text, &mut events);
            }
        }
        assert(anthropic_events::event_views(events@) =~= on_part_added(old(self)@, data@).1);
        events
    }

    /// More text of a block.
    fn grow_block(&mut self, data: &Json, block: ContentBlock, delta: BlockDelta) -> (events: Vec<
        StreamEvent,
    >)
        requires
            part_takes(old(self)@, data@) ==> old(self)@.next_content_index < u32::MAX,
        ensures
            (final(self)@, anthropic_events::event_views(events@)) == grow(old(self)@, data@, block@, delta@),
    {
        let mut events: Vec<StreamEvent> = Vec::new();
        let index: u32 = self.resolve_content_index(data);
        self.open_block(index, block, &mut events);
        events.push(StreamEvent::ContentBlockDelta { index, delta });
        assert(anthropic_events::event_views(events@) =~= grow(old(self)@, data@, block@, delta@).1);
        events
    }

    /// `response.output_text.delta` and `response.refusal.delta`.
    fn handle_text_delta(&mut self, data: &Json) -> (events: Vec<StreamEvent>)
        requires
            text_delta_takes(old(self)@, data@) ==> old(self)@.next_content_index < u32::MAX,
        ensures
            (final(self)@, anthropic_events::event_views(events@)) == on_text_delta(old(self)@, data@),
    {
        match data.get_str("delta") {
            Some(delta) => self.grow_block(
                data,
                ContentBlock::Text,
                BlockDelta::Text(delta.to_owned()),
            ),
            None => {
                let events: Vec<StreamEvent> = Vec::new();
                assert(anthropic_events::event_views(events@) =~= seq![]);
                events
            },
        }
    }

    /// `response.reasoning.delta`.
    fn handle_reasoning_delta(&mut self, data: &Json) -> (events: Vec<StreamEvent>)
        requires
            reasoning_delta_takes(old(self)@, data@) ==> old(self)@.next_content_index < u32::MAX,
        ensures
            (final(self)@, anthropic_events::event_views(events@)) == on_reasoning_delta(old(self)@, data@),
    {
        let source = match data.get("delta") {
            Some(delta) => Some(delta),
            None => data.get("text"),
        };
        if let Some(source) = source {
            if let Some(delta) = source.as_str() {
                return self.grow_block(
                    data,
                    ContentBlock::Thinking,
                    BlockDelta::Thinking(delta.to_owned()),
                );
            }
        }
        let events: Vec<StreamEvent> = Vec::new();
        assert(anthropic_events::event_views(events@) =~= seq![]);
        events
    }

    /// The end of a text, a refusal or a piece of reasoning.
    fn handle_part_done(&mut self, data: &Json) -> (events: Vec<StreamEvent>)
        ensures
            (final(self)@, anthropic_events::event_views(events@)) == on_part_done(old(self)@, data@),
    {
        let known = match content_part_key(data) {
            Some(key) => key_index(&self.index_by_key, key.as_str()),
            None => self.fallback_open_index,
        };
        let mut events: Vec<StreamEvent> = Vec::new();
        if let Some(index) = known {
            if self.close_block(index) {
                events.push(StreamEvent::ContentBlockStop { index });
                if self.fallback_open_index == Some(index) {
                    self.fallback_open_index = None;
                }
            }
        }
        assert(anthropic_events::event_views(events@) =~= on_part_done(old(self)@, data@).1);
        events
    }

    /// `response.output_item.added`.
    fn handle_item_added(&mut self, data: &Json) -> (events: Vec<StreamEvent>)
        requires
            item_added_takes(old(self)@, data@) ==> old(self)@.next_content_index < u32::MAX,
        ensures
            (final(self)@, anthropic_events::event_views(events@)) == on_item_added(old(self)@, data@),
    {
        let mut events: Vec<StreamEvent> = Vec::new();
        if let Some(item) = data.get("item") {
            let is_call = match item.get_str("type") {
                Some(kind) => text::same_text(kind, "function_call"),
                None => false,
            };
            if is_call {
                self.has_tool_use = true;
                self.start_message(&mut events);
                let id = text_or_empty(item.get_str("call_id"));
                let name = text_or_empty(item.get_str("name"));
                let index: u32 = match tool_item_key_from_added(data, item) {
                    Some(key) => self.index_of_key(key),
                    None => self.take_index(),
                };
                let item_id = match item.get_str("id") {
                    Some(id) => Some(id),
                    None => data.get_str("item_id"),
                };
                if let Some(item_id) = item_id {
                    self.tool_index_by_item_id.insert(item_id.to_owned(), index);
                }
                self.last_tool_index = Some(index);
                self.tool_name_by_index.insert(index, name.clone());
                self.open_block(index, ContentBlock::ToolUse { id, name }, &mut events);
            }
        }
        assert(anthropic_events::event_views(events@) =~= on_item_added(old(self)@, data@).1);
        events
    }

    /// The block of the tool call that an event is about.
    fn find_tool_index(&self, data: &Json) -> (index: Option<u32>)
        ensures
            index == known_tool_index(self@, data@),
    {
        if let Some(item_id) = data.get_str("item_id") {
            if let Some(index) = key_index(&self.tool_index_by_item_id, item_id) {
                return Some(index);
            }
        }
        if let Some(key) = tool_item_key_from_event(data) {
            if let Some(index) = key_index(&self.index_by_key, key.as_str()) {
                return Some(index);
            }
        }
        self.last_tool_index
    }

    /// Whether the block `index` belongs to the tool `Read`.
    fn is_read(&self, index: u32) -> (r: bool)
        ensures
            r == is_read_tool(self@, index),
    {
        match self.tool_name_by_index.get(index) {
            Some(name) => text::same_text(name.as_str(), "Read"),
            None => false,
        }
    }


    /// `response.function_call_arguments.delta`.
    fn handle_arguments_delta(&mut self, data: &Json) -> (events: Vec<StreamEvent>)
        requires
            arguments_delta_takes(old(self)@, data@) ==> old(self)@.next_content_index < u32::MAX,
        ensures
            (final(self)@, anthropic_events::event_views(events@)) == on_arguments_delta(old(self)@, data@),
    {
        let mut events: Vec<StreamEvent> = Vec::new();
        if let Some(delta) = data.get_str("delta") {
            let item_id = data.get_str("item_id");
            let given_name = data.get_str("name");
            let index: u32 = match self.find_tool_index(data) {
                Some(index) => index,
                None => self.take_index(),
            };
            if let Some(item_id) = item_id {
                if !self.tool_index_by_item_id.contains_key(item_id) {
                    self.tool_index_by_item_id.insert(item_id.to_owned(), index);
                }
            }
            self.last_tool_index = Some(index);
            if let Some(name) = given_name {
                self.tool_name_by_index.insert(index, name.to_owned());
            }
            let is_read_tool = self.is_read(index);
            let id = match data.get_str("call_id") {
                Some(call_id) => Some(call_id),
                None => item_id,
            };
            let block = ContentBlock::ToolUse {
                id: text_or_empty(id),
                name: text_or_empty(given_name),
            };
            self.open_block(index, block, &mut events);
            if is_read_tool {
                let mut held = match self.read_arguments_by_index.get(index) {
                    Some(held) => held.clone(),
                    None => String::new(),
                };
                held.append(delta);
                self.read_arguments_by_index.insert(index, held);
            } else {
                events.push(
                    StreamEvent::ContentBlockDelta {
                        index,
                        delta: BlockDelta::InputJson(delta.to_owned()),
                    },
                );
            }
        }
        assert(anthropic_events::event_views(events@) =~= on_arguments_delta(old(self)@, data@).1);
        events
    }

    /// `response.function_call_arguments.done`.
    fn handle_arguments_done(&mut self, data: &Json) -> (events: Vec<StreamEvent>)
        ensures
            (final(self)@, anthropic_events::event_views(events@)) == on_arguments_done(old(self)@, data@),
    {
        let mut events: Vec<StreamEvent> = Vec::new();
        if let Some(index) = self.find_tool_index(data) {
            if self.close_block(index) {
                if self.is_read(index) {
                    let arguments = match data.get_str("arguments") {
                        Some(arguments) => arguments.to_owned(),
                        None => match self.read_arguments_by_index.get(index) {
                            Some(held) => held.clone(),
                            None => String::new(),
                        },
                    };
                    let sanitized = sanitize_tool_arguments_json("Read", arguments.as_str());
                    events.push(
                        StreamEvent::ContentBlockDelta {
                            index,
                            delta: BlockDelta::InputJson(sanitized),
                        },
                    );
                }
                events.push(StreamEvent::ContentBlockStop { index });
                self.tool_name_by_index.remove(index);
                self.read_arguments_by_index.remove(index);
                if let Some(item_id) = data.get_str("item_id") {
                    self.tool_index_by_item_id.remove(item_id);
                }
            }
        }
        assert(anthropic_events::event_views(events@) =~= on_arguments_done(old(self)@, data@).1);
        events
    }

    /// Sends the arguments that are held back in open blocks, in order.
    fn send_held_arguments(&mut self, events: &mut Vec<StreamEvent>)
        ensures
            final(self)@ == (StreamView {
                read_arguments_by_index: unsent_arguments(
                    old(self)@,
                    old(self)@.next_content_index,
                ),
                ..old(self)@
            }),
            anthropic_events::event_views(final(events)@) == anthropic_events::event_views(old(events)@) + held_deltas(
                old(self)@,
                old(self)@.next_content_index,
            ),
    {
        let ghost start = self@;
        let ghost sent = anthropic_events::event_views(events@);
        let end: u32 = self.next_content_index;
        let mut index: u32 = 0;
        assert(anthropic_events::event_views(events@) =~= sent + held_deltas(start, 0));
        while index < end
            invariant
                index <= end,
                self@ == (StreamView {
                    read_arguments_by_index: unsent_arguments(start, index),
                    ..start
                }),
                forall|k: u32|
                    index <= k ==> (#[trigger] self@.read_arguments_by_index.dom().contains(k)
                        <==> start.read_arguments_by_index.dom().contains(k)) && (
                    start.read_arguments_by_index.dom().contains(k)
                        ==> self@.read_arguments_by_index[k] == start.read_arguments_by_index[k]),
                anthropic_events::event_views(events@) == sent + held_deltas(start, index),
            decreases end - index,
        {
            let ghost before = anthropic_events::event_views(events@);
            assert(self@.read_arguments_by_index.dom().contains(index)
                == start.read_arguments_by_index.dom().contains(index));
            if self.read_arguments_by_index.holds(index) && self.open_indices.contains(&index)
                && self.is_read(index) {
                let arguments = match self.read_arguments_by_index.remove(index) {
                    Some(arguments) => arguments,
                    None => String::new(),
                };
                let sanitized = sanitize_tool_arguments_json("Read", arguments.as_str());
                events.push(
                    StreamEvent::ContentBlockDelta {
                        index,
                        delta: BlockDelta::InputJson(sanitized),
                    },
                );
                assert(anthropic_events::event_views(events@) =~= before.push(
                    read_delta(index, start.read_arguments_by_index[index]),
                ));
            }
            assert(anthropic_events::event_views(events@) =~= sent + held_deltas(start, (index + 1) as u32));
            index = index + 1;
        }
    }

    /// Closes the open blocks, in order.
    fn close_open_blocks(&mut self, events: &mut Vec<StreamEvent>)
        ensures
            final(self)@ == (StreamView { open_indices: Set::empty(), ..old(self)@ }),
            anthropic_events::event_views(final(events)@) == anthropic_events::event_views(old(events)@) + stops(
                old(self)@.open_indices,
                old(self)@.next_content_index,
            ),
    {
        let ghost sent = anthropic_events::event_views(events@);
        let end: u32 = self.next_content_index;
        let mut index: u32 = 0;
        assert(anthropic_events::event_views(events@) =~= sent + stops(self@.open_indices, 0));
        while index < end
            invariant
                index <= end,
                self@ == old(self)@,
                anthropic_events::event_views(events@) == sent + stops(self@.open_indices, index),
            decreases end - index,
        {
            let ghost before = anthropic_events::event_views(events@);
            if self.open_indices.contains(&index) {
                events.push(StreamEvent::ContentBlockStop { index });
                assert(anthropic_events::event_views(events@) =~= before.push(EventView::ContentBlockStop { index }));
            }
            assert(anthropic_events::event_views(events@) =~= sent + stops(
                self@.open_indices,
                (index + 1) as u32,
            ));
            index = index + 1;
        }
        self.open_indices.clear();
    }

    /// `response.completed`.
    fn handle_completed(&mut self, data: &Json) -> (events: Vec<StreamEvent>)
        ensures
            (final(self)@, anthropic_events::event_views(events@)) == on_completed(old(self)@, data@),
    {
        let response = response_object_from_event(data);
        let mut events: Vec<StreamEvent> = Vec::new();
        let status = match response.get_str("status") {
            Some(status) => Some(status.to_owned()),
            None => None,
        };
        let incomplete_reason = match response.get("incomplete_details") {
            Some(details) => match details.get_str("reason") {
                Some(reason) => Some(reason.to_owned()),
                None => None,
            },
            None => None,
        };
        let usage = match response.get("usage") {
            Some(usage) => Some(usage.duplicate()),
            None => None,
        };
        self.send_held_arguments(&mut events);
        self.close_open_blocks(&mut events);
        events.push(
            StreamEvent::MessageDelta {
                status,
                has_tool_use: self.has_tool_use,
                incomplete_reason,
                usage,
            },
        );
        events.push(StreamEvent::MessageStop);
        self.finished = true;
        assert(anthropic_events::event_views(events@) =~= on_completed(old(self)@, data@).1);
        events
    }

    /// Whether the part that an event is about takes the next content-block index.
    fn part_needs_index(&self, data: &Json) -> (r: bool)
        ensures
            r == part_takes(self@, data@),
    {
        match content_part_key(data) {
            Some(key) => !self.index_by_key.contains_key(key.as_str()),
            None => self.fallback_open_index.is_none(),
        }
    }

    /// Whether an upstream event takes the next content-block index.
    pub fn needs_index(&self, name: &str, data: &Json) -> (r: bool)
        ensures
            r == takes_index(self@, name@, data@),
    {
        if text::same_text(name, "response.content_part.added") {
            match data.get("part") {
                Some(part) => {
                    let opens = match part.get_str("type") {
                        Some(kind) => text::same_text(kind, "output_text") || text::same_text(
                            kind,
                            "refusal",
                        ),
                        None => false,
                    };
                    opens && self.part_needs_index(data)
                },
                None => false,
            }
        } else if text::same_text(name, "response.output_text.delta") || text::same_text(
            name,
            "response.refusal.delta",
        ) {
            data.get_str("delta").is_some() && self.part_needs_index(data)
        } else if text::same_text(name, "response.output_item.added") {
            match data.get("item") {
                Some(item) => {
                    let is_call = match item.get_str("type") {
                        Some(kind) => text::same_text(kind, "function_call"),
                        None => false,
                    };
                    is_call && match tool_item_key_from_added(data, item) {
                        Some(key) => !self.index_by_key.contains_key(key.as_str()),
                        None => true,
                    }
                },
                None => false,
            }
        } else if text::same_text(name, "response.function_call_arguments.delta") {
            data.get_str("delta").is_some() && self.find_tool_index(data).is_none()
        } else if text::same_text(name, "response.reasoning.delta") {
            let source = match data.get("delta") {
                Some(delta) => Some(delta),
                None => data.get("text"),
            };
            match source {
                Some(source) => source.as_str().is_some() && self.part_needs_index(data),
                None => false,
            }
        } else {
            false
        }
    }

    /// What one upstream event does.
    pub fn handle_event(&mut self, name: &str, data: &Json) -> (events: Vec<StreamEvent>)
        requires
            has_room(old(self)@, name@, data@),
        ensures
            (final(self)@, anthropic_events::event_views(events@)) == step(old(self)@, name@, data@),
    {
        if text::same_text(name, "response.created") {
            self.handle_created(data)
        } else if text::same_text(name, "response.content_part.added") {
            self.handle_part_added(data)
        } else if text::same_text(name, "response.output_text.delta") || text::same_text(
            name,
            "response.refusal.delta",
        ) {
            self.handle_text_delta(data)
        } else if text::same_text(name, "response.content_part.done") || text::same_text(
            name,
            "response.refusal.done",
        ) || text::same_text(name, "response.reasoning.done") {
            self.handle_part_done(data)
        } else if text::same_text(name, "response.output_item.added") {
            self.handle_item_added(data)
        } else if text::same_text(name, "response.function_call_arguments.delta") {
            self.handle_arguments_delta(data)
        } else if text::same_text(name, "response.function_call_arguments.done") {
            self.handle_arguments_done(data)
        } else if text::same_text(name, "response.reasoning.delta") {
            self.handle_reasoning_delta(data)
        } else if text::same_text(name, "response.completed") {
            self.handle_completed(data)
        } else {
            let events: Vec<StreamEvent> = Vec::new();
            assert(anthropic_events::event_views(events@) =~= seq![]);
            events
        }
    }
}

} // verus!
