//! What holds of the content-block indices of a stream.

use vstd::prelude::*;
use crate::json;
#[allow(unused_imports)]
use crate::json::JsonView;
use crate::proxy::providers::responses_reader;
use crate::proxy::providers::streaming_laws;
use crate::proxy::providers::streaming_responses;
#[allow(unused_imports)]
use crate::proxy::providers::streaming_responses::StreamView;
use crate::text;

verus! {

/// The part that an event is about has one content-block index: asked for it twice, the
/// same one is given, and nothing changes the second time. A part with another key, or one
/// without a key, has another index.
pub proof fn law_one_index_for_each_key(s: StreamView, data: JsonView, other: JsonView)
    requires
        streaming_responses::indices_are_taken(s),
        streaming_responses::indices_are_distinct(s),
        streaming_responses::part_takes(s, data) ==> s.next_content_index < u32::MAX,
    ensures
        ({
            let (s1, index) = streaming_responses::content_index(s, data);
            &&& streaming_responses::content_index(s1, data) == (s1, index)
            &&& streaming_responses::part_key(other) != streaming_responses::part_key(data)
                ==> streaming_responses::content_index(s1, other).1 != index
            &&& streaming_responses::indices_are_taken(s1)
            &&& streaming_responses::indices_are_distinct(s1)
            &&& streaming_responses::keeps_indices(s, s1)
        }),
{
}

/// The index of a part with a key stays the same, whatever text comes after.
pub proof fn law_a_key_keeps_its_index(s: StreamView, data: JsonView, input: Seq<char>)
    requires
        streaming_responses::part_key(data) is Some,
    ensures
        ({
            let (s1, index) = streaming_responses::content_index(s, data);
            let after = responses_reader::run(s1, input).0;
            streaming_responses::content_index(after, data) == (after, index)
        }),
{
    let (s1, index) = streaming_responses::content_index(s, data);
    lemma_run_keeps(s1, input);
    let key = streaming_responses::part_key(data).unwrap();
    assert(s1.index_by_key.dom().contains(key));
}

/// What an upstream event does to the indices: none is taken away, and distinct ones stay
/// distinct where there was room.
spec fn is_orderly(s: StreamView, after: StreamView, room: bool) -> bool {
    &&& streaming_responses::keeps_indices(s, after)
    &&& room && streaming_responses::indices_are_taken(s)
        && streaming_responses::indices_are_distinct(s)
        ==> streaming_responses::indices_are_distinct(after)
}

proof fn lemma_created_is_orderly(s: StreamView, data: JsonView)
    ensures
        is_orderly(
            s,
            streaming_responses::on_created(s, data).0,
            true,
        ),
{
}

proof fn lemma_part_added_is_orderly(s: StreamView, data: JsonView)
    ensures
        is_orderly(
            s,
            streaming_responses::on_part_added(s, data).0,
            streaming_responses::part_added_takes(s, data) ==> s.next_content_index < u32::MAX,
        ),
{
}

proof fn lemma_text_delta_is_orderly(s: StreamView, data: JsonView)
    ensures
        is_orderly(
            s,
            streaming_responses::on_text_delta(s, data).0,
            streaming_responses::text_delta_takes(s, data) ==> s.next_content_index < u32::MAX,
        ),
{
}

proof fn lemma_reasoning_delta_is_orderly(s: StreamView, data: JsonView)
    ensures
        is_orderly(
            s,
            streaming_responses::on_reasoning_delta(s, data).0,
            streaming_responses::reasoning_delta_takes(s, data) ==> s.next_content_index < u32::MAX,
        ),
{
}

proof fn lemma_part_done_is_orderly(s: StreamView, data: JsonView)
    ensures
        is_orderly(
            s,
            streaming_responses::on_part_done(s, data).0,
            true,
        ),
{
}

proof fn lemma_item_added_is_orderly(s: StreamView, data: JsonView)
    ensures
        is_orderly(
            s,
            streaming_responses::on_item_added(s, data).0,
            streaming_responses::item_added_takes(s, data) ==> s.next_content_index < u32::MAX,
        ),
{
}

proof fn lemma_arguments_delta_is_orderly(s: StreamView, data: JsonView)
    ensures
        is_orderly(
            s,
            streaming_responses::on_arguments_delta(s, data).0,
            streaming_responses::arguments_delta_takes(s, data) ==> s.next_content_index < u32::MAX,
        ),
{
}

proof fn lemma_arguments_done_is_orderly(s: StreamView, data: JsonView)
    ensures
        is_orderly(
            s,
            streaming_responses::on_arguments_done(s, data).0,
            true,
        ),
{
}

proof fn lemma_completed_is_orderly(s: StreamView, data: JsonView)
    ensures
        is_orderly(
            s,
            streaming_responses::on_completed(s, data).0,
            true,
        ),
{
}

/// An upstream event leaves the indices in order.
proof fn lemma_step_is_orderly(s: StreamView, name: Seq<char>, data: JsonView)
    ensures
        is_orderly(
            s,
            streaming_responses::step(s, name, data).0,
            streaming_responses::has_room(s, name, data),
        ),
{
    if name == "response.created"@ {
        lemma_created_is_orderly(s, data);
    } else if name == "response.content_part.added"@ {
        lemma_part_added_is_orderly(s, data);
    } else if name == "response.output_text.delta"@ || name == "response.refusal.delta"@ {
        lemma_text_delta_is_orderly(s, data);
    } else if name == "response.content_part.done"@ || name == "response.refusal.done"@ || name
        == "response.reasoning.done"@ {
        lemma_part_done_is_orderly(s, data);
    } else if name == "response.output_item.added"@ {
        lemma_item_added_is_orderly(s, data);
    } else if name == "response.function_call_arguments.delta"@ {
        lemma_arguments_delta_is_orderly(s, data);
    } else if name == "response.function_call_arguments.done"@ {
        lemma_arguments_done_is_orderly(s, data);
    } else if name == "response.reasoning.delta"@ {
        lemma_reasoning_delta_is_orderly(s, data);
    } else if name == "response.completed"@ {
        lemma_completed_is_orderly(s, data);
    }
}

/// Whatever text comes, no index is taken away.
proof fn lemma_run_keeps(s: StreamView, input: Seq<char>)
    ensures
        streaming_responses::keeps_indices(s, responses_reader::run(s, input).0),
    decreases input.len(),
{
    let end = responses_reader::block_end();
    if !s.finished {
        if let Some(i) = text::find_from(input, end, 0) {
            text::lemma_find_from(input, end, 0);
            let s1 = responses_reader::block_step(s, input.take(i)).0;
            let lines = text::lines(input.take(i));
            if let Some(value) = json::json_parsed(
                text::join(responses_reader::data_lines(lines), "\n"@),
            ) {
                lemma_step_is_orderly(s, responses_reader::event_name(lines), value);
            }
            assert(streaming_responses::keeps_indices(s, s1));
            let after = responses_reader::run(s1, input.skip(i + 2)).0;
            lemma_run_keeps(s1, input.skip(i + 2));
            assert forall|k: Seq<char>| #[trigger] s.index_by_key.dom().contains(k) implies
                after.index_by_key.dom().contains(k) && after.index_by_key[k]
                == s.index_by_key[k] by {
                assert(s1.index_by_key.dom().contains(k));
            }
        }
    }
}

/// Whatever text comes, no two keys come to share an index, and what has one keeps it.
pub proof fn law_indices_stay_distinct(s: StreamView, input: Seq<char>)
    requires
        streaming_responses::indices_are_taken(s),
        streaming_responses::indices_are_distinct(s),
    ensures
        streaming_responses::indices_are_taken(responses_reader::run(s, input).0),
        streaming_responses::indices_are_distinct(responses_reader::run(s, input).0),
        streaming_responses::keeps_indices(s, responses_reader::run(s, input).0),
    decreases input.len(),
{
    lemma_run_keeps(s, input);
    streaming_laws::law_stream_fits_open_blocks(s, input);
    let end = responses_reader::block_end();
    if !s.finished {
        if let Some(i) = text::find_from(input, end, 0) {
            text::lemma_find_from(input, end, 0);
            let block = input.take(i);
            let s1 = responses_reader::block_step(s, block).0;
            if responses_reader::block_has_room(s, block) {
                streaming_laws::lemma_block_fits(s, block);
                let lines = text::lines(block);
                if let Some(value) = json::json_parsed(
                    text::join(responses_reader::data_lines(lines), "\n"@),
                ) {
                    lemma_step_is_orderly(s, responses_reader::event_name(lines), value);
                }
                law_indices_stay_distinct(s1, input.skip(i + 2));
            }
        }
    }
}

/// In a new stream the indices are distinct.
pub proof fn law_a_new_stream_has_distinct_indices()
    ensures
        streaming_responses::indices_are_distinct(streaming_responses::initial()),
{
}

} // verus!
