//! What holds of every stream that is sent on.

use vstd::prelude::*;
use crate::json;
use crate::json::JsonView;
use crate::proxy::providers::anthropic_events::EventView;
use crate::proxy::providers::responses_reader;
use crate::proxy::providers::streaming_responses;
use crate::proxy::providers::streaming_responses::StreamView;
use crate::text;

verus! {

/// The blocks that are open after an event, unless the event opens an open block,
/// or closes or grows one that is not open.
pub open spec fn open_after(open: Set<u32>, event: EventView) -> Option<Set<u32>> {
    match event {
        EventView::ContentBlockStart { index, .. } => if open.contains(index) {
            None
        } else {
            Some(open.insert(index))
        },
        EventView::ContentBlockDelta { index, .. } => if open.contains(index) {
            Some(open)
        } else {
            None
        },
        EventView::ContentBlockStop { index } => if open.contains(index) {
            Some(open.remove(index))
        } else {
            None
        },
        _ => Some(open),
    }
}

/// The blocks that are open after a list of events, unless one of them does not
/// fit those before it.
pub open spec fn open_after_all(open: Set<u32>, events: Seq<EventView>) -> Option<Set<u32>>
    decreases events.len(),
{
    if events.len() == 0 {
        Some(open)
    } else {
        match open_after_all(open, events.drop_last()) {
            Some(before) => open_after(before, events.last()),
            None => None,
        }
    }
}

/// Two lists of events, one after the other.
proof fn lemma_open_after_append(open: Set<u32>, a: Seq<EventView>, b: Seq<EventView>)
    ensures
        open_after_all(open, a + b) == match open_after_all(open, a) {
            Some(between) => open_after_all(between, b),
            None => None,
        },
    decreases b.len(),
{
    if b.len() == 0 {
        assert(a + b =~= a);
    } else {
        assert((a + b).drop_last() == a + b.drop_last());
        lemma_open_after_append(open, a, b.drop_last());
    }
}

/// One event, and two.
proof fn lemma_open_after_few(open: Set<u32>, a: EventView, b: EventView)
    ensures
        open_after_all(open, seq![a]) == open_after(open, a),
        open_after_all(open, seq![a, b]) == match open_after(open, a) {
            Some(between) => open_after(between, b),
            None => None,
        },
{
    assert(seq![a].drop_last() =~= Seq::<EventView>::empty());
    assert(open_after_all(open, Seq::<EventView>::empty()) == Some(open));
    assert(open_after_all(open, seq![a]) == open_after(open, a));
    assert(seq![a, b].drop_last() =~= seq![a]);
}

/// The held-back arguments go to open blocks.
proof fn lemma_held_deltas_fit(s: StreamView, end: u32)
    ensures
        open_after_all(s.open_indices, streaming_responses::held_deltas(s, end)) == Some(
            s.open_indices,
        ),
    decreases end,
{
    if end > 0 {
        let before = streaming_responses::held_deltas(s, (end - 1) as u32);
        let index = (end - 1) as u32;
        lemma_held_deltas_fit(s, index);
        if streaming_responses::holds_arguments(s, index) {
            let event = streaming_responses::read_delta(index, s.read_arguments_by_index[index]);
            assert(before.push(event).drop_last() =~= before);
        }
    }
}

/// The closing events close the open blocks below `end`, and no other.
proof fn lemma_stops_fit(open: Set<u32>, end: u32)
    ensures
        open_after_all(open, streaming_responses::stops(open, end)) == Some(
            open.filter(|i: u32| i >= end),
        ),
    decreases end,
{
    if end == 0 {
        assert(open.filter(|i: u32| i >= end) =~= open);
    } else {
        let before = streaming_responses::stops(open, (end - 1) as u32);
        let index = (end - 1) as u32;
        lemma_stops_fit(open, index);
        let left = open.filter(|i: u32| i >= index);
        if open.contains(index) {
            let event = EventView::ContentBlockStop { index };
            assert(before.push(event).drop_last() =~= before);
            assert(left.remove(index) =~= open.filter(|i: u32| i >= end));
        } else {
            assert(left =~= open.filter(|i: u32| i >= end));
        }
    }
}

/// Whether what an upstream event does fits the open blocks, and leaves every
/// index that is remembered taken.
pub open spec fn fits(s: StreamView, result: (StreamView, Seq<EventView>)) -> bool {
    &&& streaming_responses::indices_are_taken(result.0)
    &&& open_after_all(s.open_indices, result.1) == Some(result.0.open_indices)
}

/// What is unsent was held back before.
proof fn lemma_unsent_is_less(s: StreamView, end: u32)
    ensures
        streaming_responses::unsent_arguments(s, end).dom().subset_of(
            s.read_arguments_by_index.dom(),
        ),
    decreases end,
{
    if end > 0 {
        lemma_unsent_is_less(s, (end - 1) as u32);
    }
}

/// The start of the message leaves the blocks as they are.
proof fn lemma_created_fits(s: StreamView, data: JsonView)
    requires
        streaming_responses::indices_are_taken(s),
    ensures
        fits(s, streaming_responses::on_created(s, data)),
{
    let (after, sent) = streaming_responses::on_created(s, data);
    if sent.len() == 1 {
        assert(sent =~= seq![sent[0]]);
        lemma_open_after_few(s.open_indices, sent[0], sent[0]);
    } else if sent.len() == 2 {
        assert(sent =~= seq![sent[0], sent[1]]);
        lemma_open_after_few(s.open_indices, sent[0], sent[1]);
    }
}

/// A part opens a block that is not open.
proof fn lemma_part_added_fits(s: StreamView, data: JsonView)
    requires
        streaming_responses::indices_are_taken(s),
        streaming_responses::part_added_takes(s, data) ==> s.next_content_index < u32::MAX,
    ensures
        fits(s, streaming_responses::on_part_added(s, data)),
{
    let (after, sent) = streaming_responses::on_part_added(s, data);
    if sent.len() == 1 {
        assert(sent =~= seq![sent[0]]);
        lemma_open_after_few(s.open_indices, sent[0], sent[0]);
    } else if sent.len() == 2 {
        assert(sent =~= seq![sent[0], sent[1]]);
        lemma_open_after_few(s.open_indices, sent[0], sent[1]);
    }
}

/// A text grows an open block.
proof fn lemma_text_delta_fits(s: StreamView, data: JsonView)
    requires
        streaming_responses::indices_are_taken(s),
        streaming_responses::text_delta_takes(s, data) ==> s.next_content_index < u32::MAX,
    ensures
        fits(s, streaming_responses::on_text_delta(s, data)),
{
    let (after, sent) = streaming_responses::on_text_delta(s, data);
    if sent.len() == 1 {
        assert(sent =~= seq![sent[0]]);
        lemma_open_after_few(s.open_indices, sent[0], sent[0]);
    } else if sent.len() == 2 {
        assert(sent =~= seq![sent[0], sent[1]]);
        lemma_open_after_few(s.open_indices, sent[0], sent[1]);
    }
}

/// A piece of reasoning grows an open block.
proof fn lemma_reasoning_delta_fits(s: StreamView, data: JsonView)
    requires
        streaming_responses::indices_are_taken(s),
        streaming_responses::reasoning_delta_takes(s, data) ==> s.next_content_index < u32::MAX,
    ensures
        fits(s, streaming_responses::on_reasoning_delta(s, data)),
{
    let (after, sent) = streaming_responses::on_reasoning_delta(s, data);
    if sent.len() == 1 {
        assert(sent =~= seq![sent[0]]);
        lemma_open_after_few(s.open_indices, sent[0], sent[0]);
    } else if sent.len() == 2 {
        assert(sent =~= seq![sent[0], sent[1]]);
        lemma_open_after_few(s.open_indices, sent[0], sent[1]);
    }
}

/// The end of a part closes an open block.
proof fn lemma_part_done_fits(s: StreamView, data: JsonView)
    requires
        streaming_responses::indices_are_taken(s),
    ensures
        fits(s, streaming_responses::on_part_done(s, data)),
{
    let (after, sent) = streaming_responses::on_part_done(s, data);
    if sent.len() == 1 {
        assert(sent =~= seq![sent[0]]);
        lemma_open_after_few(s.open_indices, sent[0], sent[0]);
    } else if sent.len() == 2 {
        assert(sent =~= seq![sent[0], sent[1]]);
        lemma_open_after_few(s.open_indices, sent[0], sent[1]);
    }
}

/// A tool call opens a block that is not open.
proof fn lemma_item_added_fits(s: StreamView, data: JsonView)
    requires
        streaming_responses::indices_are_taken(s),
        streaming_responses::item_added_takes(s, data) ==> s.next_content_index < u32::MAX,
    ensures
        fits(s, streaming_responses::on_item_added(s, data)),
{
    let (after, sent) = streaming_responses::on_item_added(s, data);
    if sent.len() == 1 {
        assert(sent =~= seq![sent[0]]);
        lemma_open_after_few(s.open_indices, sent[0], sent[0]);
    } else if sent.len() == 2 {
        assert(sent =~= seq![sent[0], sent[1]]);
        lemma_open_after_few(s.open_indices, sent[0], sent[1]);
    }
}

/// Arguments grow an open block.
proof fn lemma_arguments_delta_fits(s: StreamView, data: JsonView)
    requires
        streaming_responses::indices_are_taken(s),
        streaming_responses::arguments_delta_takes(s, data) ==> s.next_content_index < u32::MAX,
    ensures
        fits(s, streaming_responses::on_arguments_delta(s, data)),
{
    let (after, sent) = streaming_responses::on_arguments_delta(s, data);
    if sent.len() == 1 {
        assert(sent =~= seq![sent[0]]);
        lemma_open_after_few(s.open_indices, sent[0], sent[0]);
    } else if sent.len() == 2 {
        assert(sent =~= seq![sent[0], sent[1]]);
        lemma_open_after_few(s.open_indices, sent[0], sent[1]);
    }
}

/// The end of a tool call closes an open block.
proof fn lemma_arguments_done_fits(s: StreamView, data: JsonView)
    requires
        streaming_responses::indices_are_taken(s),
    ensures
        fits(s, streaming_responses::on_arguments_done(s, data)),
{
    let (after, sent) = streaming_responses::on_arguments_done(s, data);
    if sent.len() == 1 {
        assert(sent =~= seq![sent[0]]);
        lemma_open_after_few(s.open_indices, sent[0], sent[0]);
    } else if sent.len() == 2 {
        assert(sent =~= seq![sent[0], sent[1]]);
        lemma_open_after_few(s.open_indices, sent[0], sent[1]);
    }
}

/// The end of the message closes every block.
proof fn lemma_completed_fits(s: StreamView, data: JsonView)
    requires
        streaming_responses::indices_are_taken(s),
    ensures
        fits(s, streaming_responses::on_completed(s, data)),
{
    let (after, sent) = streaming_responses::on_completed(s, data);
    lemma_unsent_is_less(s, s.next_content_index);
    let end = s.next_content_index;
    let held = streaming_responses::held_deltas(s, end);
    let stops = streaming_responses::stops(s.open_indices, end);
    let n = sent.len();
    let tail = seq![sent[n - 2], sent[n - 1]];
    assert(sent =~= held + stops + tail);
    lemma_held_deltas_fit(s, end);
    lemma_stops_fit(s.open_indices, end);
    assert(s.open_indices.filter(|i: u32| i >= end) =~= Set::empty());
    lemma_open_after_append(s.open_indices, held, stops);
    lemma_open_after_append(s.open_indices, held + stops, tail);
    lemma_open_after_few(Set::empty(), sent[n - 2], sent[n - 1]);
}

/// The events that an upstream event sends fit the blocks that are open: none
/// opens an open block, and none closes or grows one that is not open. What is
/// remembered as open is what is open, and nothing is remembered of an index that
/// has not been taken.
pub proof fn law_events_fit_open_blocks(s: StreamView, name: Seq<char>, data: JsonView)
    requires
        streaming_responses::indices_are_taken(s),
        streaming_responses::has_room(s, name, data),
    ensures
        fits(s, streaming_responses::step(s, name, data)),
{
    lemma_created_fits(s, data);
    lemma_part_done_fits(s, data);
    lemma_arguments_done_fits(s, data);
    lemma_completed_fits(s, data);
    if name == "response.content_part.added"@ {
        lemma_part_added_fits(s, data);
    } else if name == "response.output_text.delta"@ || name == "response.refusal.delta"@ {
        lemma_text_delta_fits(s, data);
    } else if name == "response.output_item.added"@ {
        lemma_item_added_fits(s, data);
    } else if name == "response.function_call_arguments.delta"@ {
        lemma_arguments_delta_fits(s, data);
    } else if name == "response.reasoning.delta"@ {
        lemma_reasoning_delta_fits(s, data);
    }
}

/// Whatever upstream text comes, the events that are sent fit the blocks that are
/// open.
pub proof fn law_stream_fits_open_blocks(s: StreamView, input: Seq<char>)
    requires
        streaming_responses::indices_are_taken(s),
    ensures
        ({
            let (after, sent, _) = responses_reader::run(s, input);
            fits(s, (after, sent))
        }),
    decreases input.len(),
{
    let end = responses_reader::block_end();
    if !s.finished {
        if let Some(i) = text::find_from(input, end, 0) {
            text::lemma_find_from(input, end, 0);
            let (s1, sent) = responses_reader::block_step(s, input.take(i));
            let rest = input.skip(i + 2);
            if responses_reader::block_has_room(s, input.take(i)) {
                lemma_block_fits(s, input.take(i));
                law_stream_fits_open_blocks(s1, rest);
                lemma_open_after_append(
                    s.open_indices,
                    sent,
                    responses_reader::run(s1, rest).1,
                );
            }
        }
    }
}

/// What one block sends fits the blocks that are open.
pub proof fn lemma_block_fits(s: StreamView, block: Seq<char>)
    requires
        streaming_responses::indices_are_taken(s),
        responses_reader::block_has_room(s, block),
    ensures
        fits(s, responses_reader::block_step(s, block)),
{
    let lines = text::lines(block);
    let data = responses_reader::data_lines(lines);
    if !text::is_blank(block) && data.len() > 0 {
        if let Some(value) = json::json_parsed(text::join(data, "\n"@)) {
            law_events_fit_open_blocks(s, responses_reader::event_name(lines), value);
        }
    }
}

/// A new stream remembers no index.
pub proof fn law_new_stream_has_no_indices()
    ensures
        streaming_responses::indices_are_taken(streaming_responses::initial()),
        streaming_responses::initial().open_indices == Set::<u32>::empty(),
{
}

/// Whether the end of the message is sent at the end of a list of events, and
/// only there, or not at all.
pub open spec fn ends_message(sent: Seq<EventView>, finished: bool) -> bool {
    &&& finished ==> sent.len() > 0 && sent.last() == EventView::MessageStop
    &&& forall|i: int|
        0 <= i < sent.len() && #[trigger] sent[i] == EventView::MessageStop ==> finished && i
            == sent.len() - 1
}

/// The held-back arguments do not end the message.
proof fn lemma_held_deltas_are_deltas(s: StreamView, end: u32)
    ensures
        forall|i: int|
            0 <= i < streaming_responses::held_deltas(s, end).len()
                ==> streaming_responses::held_deltas(s, end)[i] is ContentBlockDelta,
    decreases end,
{
    if end > 0 {
        lemma_held_deltas_are_deltas(s, (end - 1) as u32);
    }
}

/// The closing of blocks does not end the message.
proof fn lemma_stops_are_stops(open: Set<u32>, end: u32)
    ensures
        forall|i: int|
            0 <= i < streaming_responses::stops(open, end).len() ==> streaming_responses::stops(
                open,
                end,
            )[i] is ContentBlockStop,
    decreases end,
{
    if end > 0 {
        lemma_stops_are_stops(open, (end - 1) as u32);
    }
}

/// `response.completed` ends the message.
proof fn lemma_completed_ends_message(s: StreamView, data: JsonView)
    ensures
        ends_message(streaming_responses::on_completed(s, data).1, true),
{
    lemma_held_deltas_are_deltas(s, s.next_content_index);
    lemma_stops_are_stops(s.open_indices, s.next_content_index);
}

/// Whether what an upstream event does leaves the message unfinished.
spec fn goes_on(result: (StreamView, Seq<EventView>)) -> bool {
    &&& !result.0.finished
    &&& forall|i: int|
        0 <= i < result.1.len() ==> #[trigger] result.1[i] != EventView::MessageStop
            && !(result.1[i] is MessageDelta)
}

proof fn lemma_created_goes_on(s: StreamView, data: JsonView)
    requires
        !s.finished,
    ensures
        goes_on(streaming_responses::on_created(s, data)),
{
}

proof fn lemma_part_added_goes_on(s: StreamView, data: JsonView)
    requires
        !s.finished,
    ensures
        goes_on(streaming_responses::on_part_added(s, data)),
{
}

proof fn lemma_text_delta_goes_on(s: StreamView, data: JsonView)
    requires
        !s.finished,
    ensures
        goes_on(streaming_responses::on_text_delta(s, data)),
{
}

proof fn lemma_reasoning_delta_goes_on(s: StreamView, data: JsonView)
    requires
        !s.finished,
    ensures
        goes_on(streaming_responses::on_reasoning_delta(s, data)),
{
}

proof fn lemma_part_done_goes_on(s: StreamView, data: JsonView)
    requires
        !s.finished,
    ensures
        goes_on(streaming_responses::on_part_done(s, data)),
{
}

proof fn lemma_item_added_goes_on(s: StreamView, data: JsonView)
    requires
        !s.finished,
    ensures
        goes_on(streaming_responses::on_item_added(s, data)),
{
}

proof fn lemma_arguments_delta_goes_on(s: StreamView, data: JsonView)
    requires
        !s.finished,
    ensures
        goes_on(streaming_responses::on_arguments_delta(s, data)),
{
}

proof fn lemma_arguments_done_goes_on(s: StreamView, data: JsonView)
    requires
        !s.finished,
    ensures
        goes_on(streaming_responses::on_arguments_done(s, data)),
{
}

/// One upstream event ends the message at most at the end of what it sends.
proof fn lemma_step_ends_message(s: StreamView, name: Seq<char>, data: JsonView)
    requires
        !s.finished,
    ensures
        ({
            let (after, sent) = streaming_responses::step(s, name, data);
            ends_message(sent, after.finished)
        }),
{
    let result = streaming_responses::step(s, name, data);
    lemma_completed_ends_message(s, data);
    lemma_created_goes_on(s, data);
    lemma_part_added_goes_on(s, data);
    lemma_text_delta_goes_on(s, data);
    lemma_reasoning_delta_goes_on(s, data);
    lemma_part_done_goes_on(s, data);
    lemma_item_added_goes_on(s, data);
    lemma_arguments_delta_goes_on(s, data);
    lemma_arguments_done_goes_on(s, data);
    assert(goes_on(result) || result == streaming_responses::on_completed(s, data));
}

/// One block ends the message at most at the end of what it sends.
proof fn lemma_block_ends_message(s: StreamView, block: Seq<char>)
    requires
        !s.finished,
    ensures
        ({
            let (after, sent) = responses_reader::block_step(s, block);
            ends_message(sent, after.finished)
        }),
{
    let lines = text::lines(block);
    if let Some(value) = json::json_parsed(
        text::join(responses_reader::data_lines(lines), "\n"@),
    ) {
        lemma_step_ends_message(s, responses_reader::event_name(lines), value);
    }
}

/// `message_stop` is the last event that is ever sent, and it is sent exactly when
/// the message ends.
pub proof fn law_message_stop_is_last(s: StreamView, input: Seq<char>)
    requires
        !s.finished,
    ensures
        ({
            let (after, sent, _) = responses_reader::run(s, input);
            ends_message(sent, after.finished)
        }),
    decreases input.len(),
{
    let end = responses_reader::block_end();
    if let Some(i) = text::find_from(input, end, 0) {
        text::lemma_find_from(input, end, 0);
        let (s1, sent) = responses_reader::block_step(s, input.take(i));
        let rest = input.skip(i + 2);
        lemma_block_ends_message(s, input.take(i));
        let more = responses_reader::run(s1, rest).1;
        if responses_reader::block_has_room(s, input.take(i)) {
            if s1.finished {
                assert(sent + more =~= sent);
            } else {
                law_message_stop_is_last(s1, rest);
            }
        }
    }
}

/// Once the message has ended nothing is sent, whatever comes.
pub proof fn law_nothing_follows_the_end(s: StreamView, input: Seq<char>)
    requires
        s.finished,
    ensures
        responses_reader::run(s, input).0 == s,
        responses_reader::run(s, input).1 == Seq::<EventView>::empty(),
{
}

/// When the message ends, no block stays open and no arguments stay held back in
/// an open block.
pub proof fn law_completion_closes_everything(s: StreamView, data: JsonView)
    requires
        streaming_responses::indices_are_taken(s),
    ensures
        ({
            let (after, sent) = streaming_responses::on_completed(s, data);
            &&& after.finished
            &&& after.open_indices == Set::<u32>::empty()
            &&& open_after_all(s.open_indices, sent) == Some(Set::<u32>::empty())
            &&& forall|i: u32|
                streaming_responses::holds_arguments(s, i)
                    ==> !#[trigger] after.read_arguments_by_index.dom().contains(i)
                    && sent.contains(
                    streaming_responses::read_delta(i, s.read_arguments_by_index[i]),
                )
        }),
{
    let (after, sent) = streaming_responses::on_completed(s, data);
    let end = s.next_content_index;
    let held = streaming_responses::held_deltas(s, end);
    lemma_completed_fits(s, data);
    assert forall|i: u32| streaming_responses::holds_arguments(s, i) implies !(
    #[trigger] after.read_arguments_by_index.dom().contains(i)) && sent.contains(
        streaming_responses::read_delta(i, s.read_arguments_by_index[i]),
    ) by {
        lemma_held_arguments_are_sent(s, end, i);
        let event = streaming_responses::read_delta(i, s.read_arguments_by_index[i]);
        let k = choose|k: int| 0 <= k < held.len() && held[k] == event;
        assert(sent[k] == event);
    }
}

/// Arguments held back below `end` are sent and no longer held back.
proof fn lemma_held_arguments_are_sent(s: StreamView, end: u32, i: u32)
    requires
        i < end,
        streaming_responses::holds_arguments(s, i),
    ensures
        !streaming_responses::unsent_arguments(s, end).dom().contains(i),
        streaming_responses::held_deltas(s, end).contains(
            streaming_responses::read_delta(i, s.read_arguments_by_index[i]),
        ),
    decreases end,
{
    let before = streaming_responses::held_deltas(s, (end - 1) as u32);
    let event = streaming_responses::read_delta(i, s.read_arguments_by_index[i]);
    let all = streaming_responses::held_deltas(s, end);
    if i == end - 1 {
        assert(all[before.len() as int] == event);
    } else {
        lemma_held_arguments_are_sent(s, (end - 1) as u32, i);
        let k = choose|k: int| 0 <= k < before.len() && before[k] == event;
        assert(all[k] == event);
    }
}

/// The arguments of the tool `Read` are held back: a delta of them sends none of
/// its text, and is added to what is held back for its block.
pub proof fn law_read_arguments_are_held_back(s: StreamView, data: JsonView, index: u32)
    requires
        streaming_responses::known_tool_index(s, data) == Some(index),
        streaming_responses::is_read_tool(s, index),
        json::field_text(data, "name"@) is None,
        json::field_text(data, "delta"@) is Some,
    ensures
        ({
            let (after, sent) = streaming_responses::on_arguments_delta(s, data);
            &&& forall|i: int| 0 <= i < sent.len() ==> !(#[trigger] sent[i] is ContentBlockDelta)
            &&& streaming_responses::lookup(after.read_arguments_by_index, index) == Some(
                streaming_responses::or_empty(
                    streaming_responses::lookup(s.read_arguments_by_index, index),
                ) + json::field_text(data, "delta"@).unwrap(),
            )
        }),
{
}

/// What comes of chunks of bytes, one after the other.
pub open spec fn receive_all(s: StreamView, pending: Seq<char>, chunks: Seq<Seq<u8>>) -> (
    StreamView,
    Seq<EventView>,
    Seq<char>,
)
    decreases chunks.len(),
{
    if chunks.len() == 0 {
        (s, seq![], pending)
    } else {
        let (s1, sent, rest) = receive_all(s, pending, chunks.drop_last());
        let (s2, more, left) = responses_reader::run(s1, rest + text::bytes_text(chunks.last()));
        (s2, sent + more, left)
    }
}

/// Whether a block is open after a list of events: it was started, and not stopped since.
pub open spec fn is_open(sent: Seq<EventView>, index: u32) -> bool
    decreases sent.len(),
{
    if sent.len() == 0 {
        false
    } else {
        match sent.last() {
            EventView::ContentBlockStart { index: i, .. } => i == index || is_open(
                sent.drop_last(),
                index,
            ),
            EventView::ContentBlockStop { index: i } => i != index && is_open(
                sent.drop_last(),
                index,
            ),
            _ => is_open(sent.drop_last(), index),
        }
    }
}

/// Whether the events of each block alternate: it is started only when it is not open,
/// and stopped and grown only when it is.
pub open spec fn alternates(sent: Seq<EventView>) -> bool {
    forall|n: int|
        0 <= n < sent.len() ==> match #[trigger] sent[n] {
            EventView::ContentBlockStart { index, .. } => !is_open(sent.take(n), index),
            EventView::ContentBlockDelta { index, .. } => is_open(sent.take(n), index),
            EventView::ContentBlockStop { index } => is_open(sent.take(n), index),
            _ => true,
        }
}

/// Events that fit the open blocks alternate.
proof fn lemma_fitting_events_alternate(sent: Seq<EventView>, open: Set<u32>)
    requires
        open_after_all(Set::empty(), sent) == Some(open),
    ensures
        alternates(sent),
        forall|i: u32| open.contains(i) <==> #[trigger] is_open(sent, i),
    decreases sent.len(),
{
    if sent.len() > 0 {
        let head = sent.drop_last();
        let before = open_after_all(Set::empty(), head).unwrap();
        lemma_fitting_events_alternate(head, before);
        assert forall|n: int| 0 <= n < sent.len() implies match #[trigger] sent[n] {
            EventView::ContentBlockStart { index, .. } => !is_open(sent.take(n), index),
            EventView::ContentBlockDelta { index, .. } => is_open(sent.take(n), index),
            EventView::ContentBlockStop { index } => is_open(sent.take(n), index),
            _ => true,
        } by {
            if n < head.len() {
                assert(head[n] == sent[n]);
                assert(head.take(n) =~= sent.take(n));
            } else {
                assert(sent.take(n) =~= head);
            }
        }
        assert forall|i: u32| open.contains(i) <==> #[trigger] is_open(sent, i) by {
            assert(before.contains(i) <==> is_open(head, i));
        }
    }
}

/// Whether a list of events ends as a message does: after `message_delta` nothing but
/// `message_stop` is sent, and before it every block has been closed.
pub open spec fn ends_in_order(open: Set<u32>, sent: Seq<EventView>, finished: bool) -> bool {
    let n = sent.len();
    &&& finished ==> {
        &&& n >= 2
        &&& sent[n - 2] is MessageDelta
        &&& sent[n - 1] == EventView::MessageStop
        &&& open_after_all(open, sent.take(n - 2)) == Some(Set::<u32>::empty())
    }
    &&& forall|i: int|
        0 <= i < n && #[trigger] sent[i] is MessageDelta ==> finished && i == n - 2
}

/// One upstream event ends the message in order.
proof fn lemma_step_ends_in_order(s: StreamView, name: Seq<char>, data: JsonView)
    requires
        streaming_responses::indices_are_taken(s),
        !s.finished,
    ensures
        ({
            let (after, sent) = streaming_responses::step(s, name, data);
            ends_in_order(s.open_indices, sent, after.finished)
        }),
{
    let result = streaming_responses::step(s, name, data);
    lemma_created_goes_on(s, data);
    lemma_part_added_goes_on(s, data);
    lemma_text_delta_goes_on(s, data);
    lemma_reasoning_delta_goes_on(s, data);
    lemma_part_done_goes_on(s, data);
    lemma_item_added_goes_on(s, data);
    lemma_arguments_delta_goes_on(s, data);
    lemma_arguments_done_goes_on(s, data);
    if !goes_on(result) {
        assert(result == streaming_responses::on_completed(s, data));
        let end = s.next_content_index;
        let held = streaming_responses::held_deltas(s, end);
        let stops = streaming_responses::stops(s.open_indices, end);
        let sent = result.1;
        let n = sent.len();
        assert(sent.take(n - 2) =~= held + stops);
        lemma_held_deltas_fit(s, end);
        lemma_stops_fit(s.open_indices, end);
        assert(s.open_indices.filter(|i: u32| i >= end) =~= Set::empty());
        lemma_open_after_append(s.open_indices, held, stops);
        lemma_held_deltas_are_deltas(s, end);
        lemma_stops_are_stops(s.open_indices, end);
        assert forall|i: int| 0 <= i < n && #[trigger] sent[i] is MessageDelta implies i == n - 2 by {
            if i < held.len() {
                assert(held[i] == sent[i]);
            } else if i < n - 2 {
                assert(stops[i - held.len()] == sent[i]);
            }
        }
    }
}

/// One block ends the message in order.
proof fn lemma_block_ends_in_order(s: StreamView, block: Seq<char>)
    requires
        streaming_responses::indices_are_taken(s),
        !s.finished,
    ensures
        ({
            let (after, sent) = responses_reader::block_step(s, block);
            ends_in_order(s.open_indices, sent, after.finished)
        }),
{
    let lines = text::lines(block);
    if let Some(value) = json::json_parsed(
        text::join(responses_reader::data_lines(lines), "\n"@),
    ) {
        lemma_step_ends_in_order(s, responses_reader::event_name(lines), value);
    }
}

/// Events that do not end the message, and those that come after them.
proof fn lemma_ends_in_order_append(
    open: Set<u32>,
    between: Set<u32>,
    sent: Seq<EventView>,
    more: Seq<EventView>,
    finished: bool,
)
    requires
        open_after_all(open, sent) == Some(between),
        ends_in_order(open, sent, false),
        ends_in_order(between, more, finished),
    ensures
        ends_in_order(open, sent + more, finished),
{
    let all = sent + more;
    let n = all.len();
    if finished {
        let m = more.len();
        assert(all.take(n - 2) =~= sent + more.take(m - 2));
        lemma_open_after_append(open, sent, more.take(m - 2));
    }
    assert forall|i: int| 0 <= i < n && #[trigger] all[i] is MessageDelta implies finished && i == n
        - 2 by {
        if i < sent.len() {
            assert(sent[i] == all[i]);
        } else {
            assert(more[i - sent.len()] == all[i]);
        }
    }
}

/// Whatever upstream text comes, the message ends in order.
proof fn lemma_run_ends_in_order(s: StreamView, input: Seq<char>)
    requires
        streaming_responses::indices_are_taken(s),
        !s.finished,
    ensures
        ({
            let (after, sent, _) = responses_reader::run(s, input);
            ends_in_order(s.open_indices, sent, after.finished)
        }),
    decreases input.len(),
{
    let end = responses_reader::block_end();
    if let Some(i) = text::find_from(input, end, 0) {
        text::lemma_find_from(input, end, 0);
        let (s1, sent) = responses_reader::block_step(s, input.take(i));
        let rest = input.skip(i + 2);
        let more = responses_reader::run(s1, rest).1;
        if responses_reader::block_has_room(s, input.take(i)) {
            lemma_block_fits(s, input.take(i));
            lemma_block_ends_in_order(s, input.take(i));
            if s1.finished {
                assert(sent + more =~= sent);
            } else {
                lemma_run_ends_in_order(s1, rest);
                lemma_ends_in_order_append(
                    s.open_indices,
                    s1.open_indices,
                    sent,
                    more,
                    responses_reader::run(s1, rest).0.finished,
                );
            }
        }
    }
}

/// What holds of all that is sent, whatever bytes come.
proof fn lemma_receive_all(chunks: Seq<Seq<u8>>)
    ensures
        ({
            let (after, sent, _) = receive_all(streaming_responses::initial(), Seq::empty(), chunks);
            &&& streaming_responses::indices_are_taken(after)
            &&& open_after_all(Set::empty(), sent) == Some(after.open_indices)
            &&& ends_message(sent, after.finished)
            &&& ends_in_order(Set::empty(), sent, after.finished)
        }),
    decreases chunks.len(),
{
    let s = streaming_responses::initial();
    if chunks.len() > 0 {
        let (s1, sent, rest) = receive_all(s, Seq::empty(), chunks.drop_last());
        let input = rest + text::bytes_text(chunks.last());
        let (s2, more, left) = responses_reader::run(s1, input);
        let all = sent + more;
        lemma_receive_all(chunks.drop_last());
        law_stream_fits_open_blocks(s1, input);
        lemma_open_after_append(Set::empty(), sent, more);
        if s1.finished {
            law_nothing_follows_the_end(s1, input);
            assert(all =~= sent);
        } else {
            law_message_stop_is_last(s1, input);
            lemma_run_ends_in_order(s1, input);
            lemma_ends_in_order_append(Set::empty(), s1.open_indices, sent, more, s2.finished);
            assert(ends_message(all, s2.finished)) by {
                assert forall|i: int|
                    0 <= i < all.len() && #[trigger] all[i]
                        == EventView::MessageStop implies s2.finished && i == all.len() - 1 by {
                    if i < sent.len() {
                        assert(sent[i] == all[i]);
                    } else {
                        assert(more[i - sent.len()] == all[i]);
                    }
                }
            }
        }
    }
}

/// Of all that is sent from the beginning of a stream, whatever bytes come and however
/// they are cut: the events of each block alternate, beginning with its start, and every
/// piece of it comes between its start and its stop.
pub proof fn law_blocks_alternate(chunks: Seq<Seq<u8>>)
    ensures
        alternates(receive_all(streaming_responses::initial(), Seq::empty(), chunks).1),
{
    let (after, sent, _) = receive_all(streaming_responses::initial(), Seq::empty(), chunks);
    lemma_receive_all(chunks);
    lemma_fitting_events_alternate(sent, after.open_indices);
}

/// Of all that is sent from the beginning of a stream, whatever bytes come and however
/// they are cut: when the message ends, every block that was started has been stopped
/// before `message_delta`, which is sent once, and `message_stop` is sent right after it,
/// once and last of all. While the message has not ended neither of the two is sent.
pub proof fn law_a_message_ends_in_order(chunks: Seq<Seq<u8>>)
    ensures
        ({
            let (after, sent, _) = receive_all(streaming_responses::initial(), Seq::empty(), chunks);
            let n = sent.len();
            &&& after.finished ==> {
                &&& n >= 2
                &&& sent[n - 2] is MessageDelta
                &&& sent[n - 1] == EventView::MessageStop
                &&& forall|i: u32| !#[trigger] is_open(sent.take(n - 2), i)
            }
            &&& forall|i: int|
                0 <= i < n ==> {
                    &&& #[trigger] sent[i] is MessageDelta ==> after.finished && i == n - 2
                    &&& sent[i] == EventView::MessageStop ==> after.finished && i == n - 1
                }
        }),
{
    let (after, sent, _) = receive_all(streaming_responses::initial(), Seq::empty(), chunks);
    lemma_receive_all(chunks);
    if after.finished {
        lemma_fitting_events_alternate(sent.take(sent.len() - 2), Set::empty());
    }
}

/// Chunks of bytes, put together.
pub open spec fn joined(chunks: Seq<Seq<u8>>) -> Seq<u8>
    decreases chunks.len(),
{
    if chunks.len() == 0 {
        Seq::empty()
    } else {
        joined(chunks.drop_last()) + chunks.last()
    }
}

/// Whether the bytes were cut between characters alone.
pub open spec fn cut_between_characters(chunks: Seq<Seq<u8>>) -> bool {
    forall|i: int| 0 <= i < chunks.len() ==> vstd::utf8::valid_utf8(#[trigger] chunks[i])
}

/// Texts that are put together as bytes are put together as texts.
proof fn lemma_decode_append(a: Seq<u8>, b: Seq<u8>)
    requires
        vstd::utf8::valid_utf8(a),
        vstd::utf8::valid_utf8(b),
    ensures
        vstd::utf8::valid_utf8(a + b),
        vstd::utf8::decode_utf8(a + b) == vstd::utf8::decode_utf8(a) + vstd::utf8::decode_utf8(b),
    decreases a.len(),
{
    vstd::utf8::valid_utf8_concat(a, b);
    if a.len() == 0 {
        assert(a + b =~= b);
        assert(vstd::utf8::decode_utf8(a) + vstd::utf8::decode_utf8(b)
            =~= vstd::utf8::decode_utf8(b));
    } else {
        let rest = vstd::utf8::pop_first_scalar(a);
        assert(vstd::utf8::pop_first_scalar(a + b) =~= rest + b);
        assert(rest.len() < a.len());
        lemma_decode_append(rest, b);
        assert(vstd::utf8::decode_first_scalar(a + b) == vstd::utf8::decode_first_scalar(a));
        let first = seq![vstd::utf8::decode_first_scalar(a) as char];
        assert(first + (vstd::utf8::decode_utf8(rest) + vstd::utf8::decode_utf8(b)) =~= (first
            + vstd::utf8::decode_utf8(rest)) + vstd::utf8::decode_utf8(b));
    }
}

/// Chunks that were cut between characters make a text together.
proof fn lemma_joined_is_valid(chunks: Seq<Seq<u8>>)
    requires
        cut_between_characters(chunks),
    ensures
        vstd::utf8::valid_utf8(joined(chunks)),
    decreases chunks.len(),
{
    if chunks.len() > 0 {
        let head = chunks.drop_last();
        assert forall|i: int| 0 <= i < head.len() implies vstd::utf8::valid_utf8(
            #[trigger] head[i],
        ) by {
            assert(chunks[i] == head[i]);
        }
        lemma_joined_is_valid(head);
        assert(chunks[chunks.len() - 1] == chunks.last());
        vstd::utf8::valid_utf8_concat(joined(head), chunks.last());
    }
}

/// Where the upstream bytes are cut makes no difference as long as no character is cut
/// through: the chunks send, one after the other, what their text sends at once, and leave
/// the same behind.
pub proof fn law_cuts_between_characters_do_not_matter(chunks: Seq<Seq<u8>>)
    requires
        cut_between_characters(chunks),
    ensures
        vstd::utf8::valid_utf8(joined(chunks)),
        receive_all(streaming_responses::initial(), Seq::empty(), chunks) == responses_reader::run(
            streaming_responses::initial(),
            vstd::utf8::decode_utf8(joined(chunks)),
        ),
    decreases chunks.len(),
{
    let s = streaming_responses::initial();
    lemma_joined_is_valid(chunks);
    if chunks.len() == 0 {
        let none = vstd::utf8::decode_utf8(Seq::<u8>::empty());
        assert(none =~= Seq::empty());
        assert(text::find_from(none, responses_reader::block_end(), 0) is None) by {
            text::lemma_find_from(none, responses_reader::block_end(), 0);
        }
    } else {
        let head = chunks.drop_last();
        let last = chunks.last();
        assert forall|i: int| 0 <= i < head.len() implies vstd::utf8::valid_utf8(
            #[trigger] head[i],
        ) by {
            assert(chunks[i] == head[i]);
        }
        assert(chunks[chunks.len() - 1] == last);
        lemma_joined_is_valid(head);
        law_cuts_between_characters_do_not_matter(head);
        lemma_decode_append(joined(head), last);
        responses_reader::law_chunks_do_not_matter(
            s,
            vstd::utf8::decode_utf8(joined(head)),
            vstd::utf8::decode_utf8(last),
        );
    }
}

/// The text that is sent on for events, one after the other; `usage` and `stop_reason` are
/// what the token counts and the reason for the end of an event are rewritten to.
pub open spec fn output(
    sent: Seq<EventView>,
    usage: spec_fn(EventView) -> JsonView,
    stop_reason: spec_fn(EventView) -> JsonView,
) -> Seq<char>
    decreases sent.len(),
{
    if sent.len() == 0 {
        Seq::empty()
    } else {
        output(sent.drop_last(), usage, stop_reason) + sent.last().frame(
            usage(sent.last()),
            stop_reason(sent.last()),
        )
    }
}

/// Two ways to cut the same bytes between characters send the same events, and so the same
/// text, and leave the same behind, whatever the bytes are and wherever they are cut, even
/// inside an event or between the two line feeds that end it.
pub proof fn law_two_cuts_of_the_same_bytes_agree(
    a: Seq<Seq<u8>>,
    b: Seq<Seq<u8>>,
    usage: spec_fn(EventView) -> JsonView,
    stop_reason: spec_fn(EventView) -> JsonView,
)
    requires
        cut_between_characters(a),
        cut_between_characters(b),
        joined(a) == joined(b),
    ensures
        ({
            let first = receive_all(streaming_responses::initial(), Seq::empty(), a);
            let second = receive_all(streaming_responses::initial(), Seq::empty(), b);
            &&& first == second
            &&& output(first.1, usage, stop_reason) == output(second.1, usage, stop_reason)
        }),
{
    law_cuts_between_characters_do_not_matter(a);
    law_cuts_between_characters_do_not_matter(b);
}

/// A complete block is left unread only where it takes a content-block index and there is
/// none left.
pub proof fn law_only_a_lack_of_indices_stops_a_stream(s: StreamView, input: Seq<char>)
    ensures
        ({
            let (after, _, rest) = responses_reader::run(s, input);
            text::find_from(rest, responses_reader::block_end(), 0) matches Some(i) ==> {
                &&& !after.finished
                &&& after.next_content_index == u32::MAX
                &&& responses_reader::block_takes(after, rest.take(i))
            }
        }),
    decreases input.len(),
{
    let end = responses_reader::block_end();
    if s.finished {
        text::lemma_find_from(Seq::<char>::empty(), end, 0);
    } else if let Some(i) = text::find_from(input, end, 0) {
        text::lemma_find_from(input, end, 0);
        if responses_reader::block_has_room(s, input.take(i)) {
            law_only_a_lack_of_indices_stops_a_stream(
                responses_reader::block_step(s, input.take(i)).0,
                input.skip(i + 2),
            );
        }
    }
}

} // verus!
