use cc_switch::json::{parse_json, write_json, Json};
use cc_switch::proxy::providers::anthropic_events::{BlockDelta, ContentBlock, StreamEvent};
use cc_switch::proxy::providers::responses_reader::ResponsesReader;
use cc_switch::proxy::providers::streaming_responses::{
    sanitize_tool_arguments_json, ResponsesStream,
};

fn value(text: &str) -> Json {
    parse_json(text).expect("JSON")
}

fn convert(input: &str) -> (ResponsesReader, Vec<StreamEvent>) {
    let mut reader = ResponsesReader::new();
    let events = reader.push_bytes(input.as_bytes());
    (reader, events)
}

fn partial_json(events: &[StreamEvent]) -> Option<String> {
    events.iter().find_map(|event| match event {
        StreamEvent::ContentBlockDelta { delta: BlockDelta::InputJson(text), .. } => {
            Some(text.clone())
        }
        _ => None,
    })
}

fn framed(events: &[StreamEvent]) -> String {
    events.iter().map(|event| event.frame(&Json::Null, &Json::Null)).collect()
}

fn read_tool_input() -> String {
    [
        "event: response.created\ndata: {\"response\":{\"id\":\"resp_1\",\"model\":\"gpt-4.1-mini\"}}\n\n",
        "event: response.output_item.added\ndata: {\"output_index\":0,\"item\":{\"id\":\"fc_1\",\"type\":\"function_call\",\"call_id\":\"call_read\",\"name\":\"Read\"}}\n\n",
        "event: response.function_call_arguments.delta\ndata: {\"item_id\":\"fc_1\",\"delta\":\"{\\\"file_path\\\":\"}\n\n",
        "event: response.function_call_arguments.delta\ndata: {\"item_id\":\"fc_1\",\"delta\":\"\\\"/tmp/example.txt\\\",\\\"pages\\\":\\\"\\\"}\"}\n\n",
        "event: response.function_call_arguments.done\ndata: {\"item_id\":\"fc_1\"}\n\n",
        "event: response.completed\ndata: {\"response\":{\"status\":\"completed\",\"usage\":{\"input_tokens\":2,\"output_tokens\":1}}}\n\n",
    ]
    .join("")
}

#[test]
fn streaming_responses_buffers_and_sanitizes_read_tool_arguments() {
    let (_, events) = convert(&read_tool_input());
    let arguments = value(&partial_json(&events).expect("sanitized input_json_delta"));
    assert_eq!(write_json(&arguments), r#"{"file_path":"/tmp/example.txt"}"#);
}

#[test]
fn streaming_responses_preserves_non_read_tool_argument_deltas() {
    let input = [
        "event: response.created\ndata: {\"response\":{\"id\":\"resp_1\",\"model\":\"gpt-4.1-mini\"}}\n\n",
        "event: response.output_item.added\ndata: {\"output_index\":0,\"item\":{\"id\":\"fc_1\",\"type\":\"function_call\",\"call_id\":\"call_other\",\"name\":\"OtherTool\"}}\n\n",
        "event: response.function_call_arguments.delta\ndata: {\"item_id\":\"fc_1\",\"delta\":\"{\\\"pages\\\":\\\"\\\"}\"}\n\n",
        "event: response.function_call_arguments.done\ndata: {\"item_id\":\"fc_1\"}\n\n",
        "event: response.completed\ndata: {\"response\":{\"status\":\"completed\"}}\n\n",
    ]
    .join("");
    let (_, events) = convert(&input);
    assert_eq!(partial_json(&events).expect("forwarded input_json_delta"), "{\"pages\":\"\"}");
}

#[test]
fn completed_event_ends_stream_without_waiting_for_upstream_eof() {
    let input = [
        "event: response.created\ndata: {\"response\":{\"id\":\"resp_1\",\"model\":\"gpt-4.1-mini\",\"usage\":{\"input_tokens\":2,\"output_tokens\":0}}}\n\n",
        "event: response.completed\ndata: {\"response\":{\"status\":\"completed\",\"usage\":{\"input_tokens\":2,\"output_tokens\":1}}}\n\n",
    ]
    .join("");
    let (mut reader, events) = convert(&input);
    let merged = framed(&events);
    assert!(merged.contains("event: message_stop"));
    assert!(reader.is_finished());
    assert!(matches!(events.last(), Some(StreamEvent::MessageStop)));
    let late = reader.push_bytes(b"event: response.output_text.delta\ndata: {\"delta\":\"x\"}\n\n");
    assert!(late.is_empty());
    assert!(!reader.is_stuck());
}

#[test]
fn how_the_bytes_are_cut_does_not_matter() {
    let input = read_tool_input();
    let (_, whole) = convert(&input);
    let bytes = input.as_bytes();
    for cut in [1, 7, 40, bytes.len() - 1] {
        let mut reader = ResponsesReader::new();
        let mut events = reader.push_bytes(&bytes[..cut]);
        events.extend(reader.push_bytes(&bytes[cut..]));
        assert_eq!(framed(&events), framed(&whole));
    }
}

#[test]
fn text_is_streamed_in_a_block_of_its_own() {
    let mut stream = ResponsesStream::new();
    let mut events = stream.handle_event(
        "response.created",
        &value(r#"{"response":{"id":"resp_1","model":"m"}}"#),
    );
    events.extend(stream.handle_event(
        "response.content_part.added",
        &value(r#"{"output_index":0,"content_index":0,"part":{"type":"output_text"}}"#),
    ));
    events.extend(stream.handle_event(
        "response.output_text.delta",
        &value(r#"{"output_index":0,"content_index":0,"delta":"Hi"}"#),
    ));
    events.extend(stream.handle_event(
        "response.completed",
        &value(r#"{"response":{"status":"completed"}}"#),
    ));
    assert!(matches!(&events[0], StreamEvent::MessageStart { id, model, .. } if id == "resp_1" && model == "m"));
    assert!(matches!(
        &events[1],
        StreamEvent::ContentBlockStart { index: 0, block: ContentBlock::Text }
    ));
    assert!(matches!(
        &events[2],
        StreamEvent::ContentBlockDelta { index: 0, delta: BlockDelta::Text(text) } if text == "Hi"
    ));
    assert!(matches!(&events[3], StreamEvent::ContentBlockStop { index: 0 }));
    assert!(matches!(&events[4], StreamEvent::MessageDelta { .. }));
    assert!(matches!(&events[5], StreamEvent::MessageStop));
    assert!(stream.is_finished());
    assert_eq!(stream.next_content_index(), 1);
}

#[test]
fn only_the_read_tool_is_sanitized() {
    assert_eq!(
        sanitize_tool_arguments_json("Other", "{\"pages\":\"\"}"),
        "{\"pages\":\"\"}"
    );
    assert_eq!(sanitize_tool_arguments_json("Read", "not json"), "not json");
    assert_eq!(
        sanitize_tool_arguments_json("Read", "{\"pages\":\"\",\"file_path\":\"a\"}"),
        "{\"file_path\":\"a\"}"
    );
}

#[test]
fn broken_bytes_are_replaced() {
    let mut reader = ResponsesReader::new();
    let mut bytes =
        b"event: response.created\ndata: {\"response\":{\"id\":\"r".to_vec();
    bytes.push(0xff);
    bytes.extend_from_slice(b"\",\"model\":\"m\"}}\n\n");
    let events = reader.push_bytes(&bytes);
    assert!(matches!(&events[0], StreamEvent::MessageStart { id, .. } if id == "r\u{fffd}"));
}

fn text_input() -> String {
    [
        "event: response.created\ndata: {\"response\":{\"id\":\"r\",\"model\":\"m\"}}\n\n",
        "event: response.output_text.delta\ndata: {\"item_id\":\"a\",\"content_index\":0,\"delta\":\"é\"}\n\n",
        "event: response.output_text.delta\ndata: {\"item_id\":\"b\",\"content_index\":0,\"delta\":\"本\"}\n\n",
        "event: response.output_text.delta\ndata: {\"delta\":\"x\"}\n\n",
        "event: response.content_part.done\ndata: {\"item_id\":\"a\",\"content_index\":0}\n\n",
        "event: response.output_text.delta\ndata: {\"item_id\":\"a\",\"content_index\":0,\"delta\":\"y\"}\n\n",
        "event: response.completed\ndata: {\"response\":{\"status\":\"completed\"}}\n\n",
    ]
    .join("")
}

#[test]
fn cuts_between_characters_do_not_matter() {
    let input = text_input();
    let (_, whole) = convert(&input);
    for (cut, _) in input.char_indices() {
        let mut reader = ResponsesReader::new();
        let mut events = reader.push_bytes(&input.as_bytes()[..cut]);
        events.extend(reader.push_bytes(&input.as_bytes()[cut..]));
        assert_eq!(framed(&events), framed(&whole));
    }
    let texts: Vec<&str> = whole
        .iter()
        .filter_map(|event| match event {
            StreamEvent::ContentBlockDelta { delta: BlockDelta::Text(text), .. } => {
                Some(text.as_str())
            }
            _ => None,
        })
        .collect();
    assert_eq!(texts, vec!["é", "本", "x", "y"]);
}

#[test]
fn each_part_has_an_index_of_its_own() {
    let (_, events) = convert(&text_input());
    let indices: Vec<u32> = events
        .iter()
        .filter_map(|event| match event {
            StreamEvent::ContentBlockDelta { index, .. } => Some(*index),
            _ => None,
        })
        .collect();
    assert_eq!(indices, vec![0, 1, 2, 0]);
}

#[test]
fn blocks_alternate_and_are_closed_before_the_end() {
    for input in [text_input(), read_tool_input()] {
        let (_, events) = convert(&input);
        let mut open: Vec<u32> = Vec::new();
        let mut ended = false;
        for event in &events {
            assert!(!ended);
            match event {
                StreamEvent::ContentBlockStart { index, .. } => {
                    assert!(!open.contains(index));
                    open.push(*index);
                }
                StreamEvent::ContentBlockDelta { index, .. } => assert!(open.contains(index)),
                StreamEvent::ContentBlockStop { index } => {
                    assert!(open.contains(index));
                    open.retain(|other| other != index);
                }
                StreamEvent::MessageDelta { .. } => assert!(open.is_empty()),
                StreamEvent::MessageStop => ended = true,
                _ => {}
            }
        }
        assert!(ended);
        let last = &events[events.len() - 2];
        assert!(matches!(last, StreamEvent::MessageDelta { .. }));
    }
}

#[test]
fn asking_for_an_index_again_gives_the_same_one() {
    let mut stream = ResponsesStream::new();
    let first = value(r#"{"item_id":"a","content_index":0}"#);
    let second = value(r#"{"item_id":"a","content_index":1}"#);
    let keyless = value("{}");
    assert_eq!(stream.resolve_content_index(&first), 0);
    assert_eq!(stream.resolve_content_index(&second), 1);
    assert_eq!(stream.resolve_content_index(&keyless), 2);
    assert_eq!(stream.resolve_content_index(&first), 0);
    assert_eq!(stream.resolve_content_index(&second), 1);
    assert_eq!(stream.resolve_content_index(&keyless), 2);
    assert_eq!(stream.next_content_index(), 3);
}

#[test]
fn few_events_take_an_index() {
    let mut stream = ResponsesStream::new();
    let delta = value(r#"{"item_id":"a","content_index":0,"delta":"x"}"#);
    assert!(stream.needs_index("response.output_text.delta", &delta));
    stream.handle_event("response.output_text.delta", &delta);
    assert!(!stream.needs_index("response.output_text.delta", &delta));
    assert!(!stream.needs_index("response.created", &value("{}")));
    assert!(!stream.needs_index("response.completed", &value("{}")));
    let call = value(r#"{"item":{"type":"function_call","id":"f"}}"#);
    assert!(stream.needs_index("response.output_item.added", &call));
    let message = value(r#"{"item":{"type":"message","id":"f"}}"#);
    assert!(!stream.needs_index("response.output_item.added", &message));
    let arguments = value(r#"{"item_id":"f","delta":"{"}"#);
    assert!(stream.needs_index("response.function_call_arguments.delta", &arguments));
    let thought = value(r#"{"output_index":1,"content_index":0,"text":"t"}"#);
    assert!(stream.needs_index("response.reasoning.delta", &thought));
    let part = value(r#"{"output_index":1,"content_index":1,"part":{"type":"refusal"}}"#);
    assert!(stream.needs_index("response.content_part.added", &part));
}
