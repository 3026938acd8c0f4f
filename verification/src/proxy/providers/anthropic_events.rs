//! The events of an Anthropic Messages stream, and how they are written.

use vstd::prelude::*;
use vstd::string::*;
use crate::json;
use crate::json::{Json, JsonView};
use crate::text;

verus! {

/// Where the token counts of a `message_start` come from.
#[derive(Debug)]
pub enum StartUsage {
    /// Nothing has been counted yet.
    Zero,
    /// The upstream response, with its `usage` field if it has one.
    Upstream(Option<Json>),
}

/// What a content block holds when it is opened.
#[derive(Debug)]
pub enum ContentBlock {
    Text,
    Thinking,
    ToolUse { id: String, name: String },
}

/// What a content block grows by.
#[derive(Debug)]
pub enum BlockDelta {
    Text(String),
    Thinking(String),
    InputJson(String),
}

/// An event to send on.
#[derive(Debug)]
pub enum StreamEvent {
    MessageStart { id: String, model: String, start_usage: StartUsage },
    ContentBlockStart { index: u32, block: ContentBlock },
    ContentBlockDelta { index: u32, delta: BlockDelta },
    ContentBlockStop { index: u32 },
    /// The end of the message: the upstream status and the reason for an early
    /// end, from which the stop reason is told, and the upstream token counts.
    MessageDelta {
        status: Option<String>,
        has_tool_use: bool,
        incomplete_reason: Option<String>,
        usage: Option<Json>,
    },
    MessageStop,
    Error { message: String },
}

/// The model of [`StartUsage`].
pub enum UsageView {
    Zero,
    Upstream(Option<JsonView>),
}

/// The model of [`ContentBlock`].
pub enum BlockView {
    Text,
    Thinking,
    ToolUse { id: Seq<char>, name: Seq<char> },
}

/// The model of [`BlockDelta`].
pub enum DeltaView {
    Text(Seq<char>),
    Thinking(Seq<char>),
    InputJson(Seq<char>),
}

/// The model of [`StreamEvent`].
pub enum EventView {
    MessageStart { id: Seq<char>, model: Seq<char>, start_usage: UsageView },
    ContentBlockStart { index: u32, block: BlockView },
    ContentBlockDelta { index: u32, delta: DeltaView },
    ContentBlockStop { index: u32 },
    MessageDelta {
        status: Option<Seq<char>>,
        has_tool_use: bool,
        incomplete_reason: Option<Seq<char>>,
        usage: Option<JsonView>,
    },
    MessageStop,
    Error { message: Seq<char> },
}

/// The model of an optional owned value.
pub open spec fn owned_model(value: Option<Json>) -> Option<JsonView> {
    match value {
        Some(v) => Some(v@),
        None => None,
    }
}

impl View for StartUsage {
    type V = UsageView;

    open spec fn view(&self) -> UsageView {
        match *self {
            StartUsage::Zero => UsageView::Zero,
            StartUsage::Upstream(usage) => UsageView::Upstream(owned_model(usage)),
        }
    }
}

impl View for ContentBlock {
    type V = BlockView;

    open spec fn view(&self) -> BlockView {
        match *self {
            ContentBlock::Text => BlockView::Text,
            ContentBlock::Thinking => BlockView::Thinking,
            ContentBlock::ToolUse { id, name } => BlockView::ToolUse { id: id@, name: name@ },
        }
    }
}

impl View for BlockDelta {
    type V = DeltaView;

    open spec fn view(&self) -> DeltaView {
        match *self {
            BlockDelta::Text(t) => DeltaView::Text(t@),
            BlockDelta::Thinking(t) => DeltaView::Thinking(t@),
            BlockDelta::InputJson(t) => DeltaView::InputJson(t@),
        }
    }
}

impl View for StreamEvent {
    type V = EventView;

    open spec fn view(&self) -> EventView {
        match *self {
            StreamEvent::MessageStart { id, model, start_usage } => EventView::MessageStart {
                id: id@,
                model: model@,
                start_usage: start_usage@,
            },
            StreamEvent::ContentBlockStart { index, block } => EventView::ContentBlockStart {
                index,
                block: block@,
            },
            StreamEvent::ContentBlockDelta { index, delta } => EventView::ContentBlockDelta {
                index,
                delta: delta@,
            },
            StreamEvent::ContentBlockStop { index } => EventView::ContentBlockStop { index },
            StreamEvent::MessageDelta { status, has_tool_use, incomplete_reason, usage } =>
                EventView::MessageDelta {
                status: text::option_view(status),
                has_tool_use,
                incomplete_reason: text::option_view(incomplete_reason),
                usage: owned_model(usage),
            },
            StreamEvent::MessageStop => EventView::MessageStop,
            StreamEvent::Error { message } => EventView::Error { message: message@ },
        }
    }
}

/// The models of a list of events.
pub open spec fn event_views(events: Seq<StreamEvent>) -> Seq<EventView> {
    Seq::new(events.len(), |i: int| events[i]@)
}

impl EventView {
    /// The name under which the event is sent.
    pub open spec fn name(self) -> Seq<char> {
        match self {
            EventView::MessageStart { .. } => "message_start"@,
            EventView::ContentBlockStart { .. } => "content_block_start"@,
            EventView::ContentBlockDelta { .. } => "content_block_delta"@,
            EventView::ContentBlockStop { .. } => "content_block_stop"@,
            EventView::MessageDelta { .. } => "message_delta"@,
            EventView::MessageStop => "message_stop"@,
            EventView::Error { .. } => "error"@,
        }
    }

    /// What the event says, with `usage` as the upstream token counts and
    /// `stop_reason` as the reason for the end of the message, both as an
    /// Anthropic client reads them.
    pub open spec fn payload(self, usage: JsonView, stop_reason: JsonView) -> JsonView {
        let event = JsonView::empty_object().with("type"@, JsonView::Text(self.name()));
        match self {
            EventView::MessageStart { id, model, start_usage } => event.with(
                "message"@,
                JsonView::empty_object().with("id"@, JsonView::Text(id)).with(
                    "type"@,
                    JsonView::Text("message"@),
                ).with("role"@, JsonView::Text("assistant"@)).with(
                    "model"@,
                    JsonView::Text(model),
                ).with(
                    "usage"@,
                    match start_usage {
                        UsageView::Zero => JsonView::empty_object().with(
                            "input_tokens"@,
                            JsonView::number(0),
                        ).with("output_tokens"@, JsonView::number(0)),
                        UsageView::Upstream(_) => usage,
                    },
                ),
            ),
            EventView::ContentBlockStart { index, block } => event.with(
                "index"@,
                JsonView::number(index),
            ).with("content_block"@, block_payload(block)),
            EventView::ContentBlockDelta { index, delta } => event.with(
                "index"@,
                JsonView::number(index),
            ).with("delta"@, delta_payload(delta)),
            EventView::ContentBlockStop { index } => event.with("index"@, JsonView::number(index)),
            EventView::MessageDelta { usage: counted, .. } => event.with(
                "delta"@,
                JsonView::empty_object().with("stop_reason"@, stop_reason).with(
                    "stop_sequence"@,
                    JsonView::Null,
                ),
            ).with(
                "usage"@,
                match counted {
                    Some(_) => usage,
                    None => JsonView::Null,
                },
            ),
            EventView::MessageStop => event,
            EventView::Error { message } => event.with(
                "error"@,
                JsonView::empty_object().with("type"@, JsonView::Text("stream_error"@)).with(
                    "message"@,
                    JsonView::Text("Stream error: "@ + message),
                ),
            ),
        }
    }

    /// The event as it is sent.
    pub open spec fn frame(self, usage: JsonView, stop_reason: JsonView) -> Seq<char> {
        "event: "@ + self.name() + "\ndata: "@ + json::json_written(
            self.payload(usage, stop_reason),
        ) + "\n\n"@
    }
}

/// An opened block as it is sent.
pub open spec fn block_payload(block: BlockView) -> JsonView {
    match block {
        BlockView::Text => JsonView::empty_object().with("type"@, JsonView::Text("text"@)).with(
            "text"@,
            JsonView::Text(""@),
        ),
        BlockView::Thinking => JsonView::empty_object().with(
            "type"@,
            JsonView::Text("thinking"@),
        ).with("thinking"@, JsonView::Text(""@)),
        BlockView::ToolUse { id, name } => JsonView::empty_object().with(
            "type"@,
            JsonView::Text("tool_use"@),
        ).with("id"@, JsonView::Text(id)).with("name"@, JsonView::Text(name)),
    }
}

/// What a block grows by, as it is sent.
pub open spec fn delta_payload(delta: DeltaView) -> JsonView {
    match delta {
        DeltaView::Text(t) => JsonView::empty_object().with(
            "type"@,
            JsonView::Text("text_delta"@),
        ).with("text"@, JsonView::Text(t)),
        DeltaView::Thinking(t) => JsonView::empty_object().with(
            "type"@,
            JsonView::Text("thinking_delta"@),
        ).with("thinking"@, JsonView::Text(t)),
        DeltaView::InputJson(t) => JsonView::empty_object().with(
            "type"@,
            JsonView::Text("input_json_delta"@),
        ).with("partial_json"@, JsonView::Text(t)),
    }
}

impl ContentBlock {
    /// The opened block as it is sent.
    fn payload(&self) -> (r: Json)
        ensures
            r@ == block_payload(self@),
    {
        match self {
            ContentBlock::Text => Json::empty_object().with("type", Json::from_text("text")).with(
                "text",
                Json::from_text(""),
            ),
            ContentBlock::Thinking => Json::empty_object().with(
                "type",
                Json::from_text("thinking"),
            ).with("thinking", Json::from_text("")),
            ContentBlock::ToolUse { id, name } => Json::empty_object().with(
                "type",
                Json::from_text("tool_use"),
            ).with("id", Json::from_text(id.as_str())).with(
                "name",
                Json::from_text(name.as_str()),
            ),
        }
    }
}

impl BlockDelta {
    /// What a block grows by, as it is sent.
    fn payload(&self) -> (r: Json)
        ensures
            r@ == delta_payload(self@),
    {
        match self {
            BlockDelta::Text(t) => Json::empty_object().with(
                "type",
                Json::from_text("text_delta"),
            ).with("text", Json::from_text(t.as_str())),
            BlockDelta::Thinking(t) => Json::empty_object().with(
                "type",
                Json::from_text("thinking_delta"),
            ).with("thinking", Json::from_text(t.as_str())),
            BlockDelta::InputJson(t) => Json::empty_object().with(
                "type",
                Json::from_text("input_json_delta"),
            ).with("partial_json", Json::from_text(t.as_str())),
        }
    }
}

impl StreamEvent {
    /// The name under which the event is sent.
    pub fn name(&self) -> (r: &'static str)
        ensures
            r@ == self@.name(),
    {
        match self {
            StreamEvent::MessageStart { .. } => "message_start",
            StreamEvent::ContentBlockStart { .. } => "content_block_start",
            StreamEvent::ContentBlockDelta { .. } => "content_block_delta",
            StreamEvent::ContentBlockStop { .. } => "content_block_stop",
            StreamEvent::MessageDelta { .. } => "message_delta",
            StreamEvent::MessageStop => "message_stop",
            StreamEvent::Error { .. } => "error",
        }
    }

    /// What the event says, with `usage` as the upstream token counts and
    /// `stop_reason` as the reason for the end of the message.
    pub fn payload(&self, usage: &Json, stop_reason: &Json) -> (r: Json)
        ensures
            r@ == self@.payload(usage@, stop_reason@),
    {
        let event = Json::empty_object().with("type", Json::from_text(self.name()));
        match self {
            StreamEvent::MessageStart { id, model, start_usage } => {
                let counts = match start_usage {
                    StartUsage::Zero => Json::empty_object().with(
                        "input_tokens",
                        Json::from_number(0),
                    ).with("output_tokens", Json::from_number(0)),
                    StartUsage::Upstream(_) => usage.duplicate(),
                };
                let message = Json::empty_object().with("id", Json::from_text(id.as_str())).with(
                    "type",
                    Json::from_text("message"),
                ).with("role", Json::from_text("assistant")).with(
                    "model",
                    Json::from_text(model.as_str()),
                ).with("usage", counts);
                event.with("message", message)
            },
            StreamEvent::ContentBlockStart { index, block } => event.with(
                "index",
                Json::from_number(*index),
            ).with("content_block", block.payload()),
            StreamEvent::ContentBlockDelta { index, delta } => event.with(
                "index",
                Json::from_number(*index),
            ).with("delta", delta.payload()),
            StreamEvent::ContentBlockStop { index } => event.with(
                "index",
                Json::from_number(*index),
            ),
            StreamEvent::MessageDelta { usage: counted, .. } => {
                let delta = Json::empty_object().with("stop_reason", stop_reason.duplicate()).with(
                    "stop_sequence",
                    Json::Null,
                );
                let counts = match counted {
                    Some(_) => usage.duplicate(),
                    None => Json::Null,
                };
                event.with("delta", delta).with("usage", counts)
            },
            StreamEvent::MessageStop => event,
            StreamEvent::Error { message } => {
                let text = text::concat2("Stream error: ", message.as_str());
                let error = Json::empty_object().with(
                    "type",
                    Json::from_text("stream_error"),
                ).with("message", Json::Text(text));
                event.with("error", error)
            },
        }
    }

    /// The event as it is sent.
    pub fn frame(&self, usage: &Json, stop_reason: &Json) -> (r: String)
        ensures
            r@ == self@.frame(usage@, stop_reason@),
    {
        let mut r = text::concat3("event: ", self.name(), "\ndata: ");
        r.append(json::write_json(&self.payload(usage, stop_reason)).as_str());
        r.append("\n\n");
        r
    }
}

} // verus!
