//! Reading upstream events out of the text of a Responses stream.
//!
//! Upstream events are blocks of lines with an empty line after each. A block is
//! dealt with as soon as it is complete; where the text was cut into chunks on its
//! way makes no difference ([`law_chunks_do_not_matter`]).

use vstd::prelude::*;
use vstd::string::*;
use crate::json;
use crate::proxy::providers::anthropic_events;
use crate::proxy::providers::anthropic_events::{EventView, StreamEvent};
use crate::proxy::providers::streaming_responses;
use crate::proxy::providers::streaming_responses::{ResponsesStream, StreamView};
use crate::text;

verus! {

/// What ends a block: the end of its last line and an empty line.
pub open spec fn block_end() -> Seq<char> {
    seq!['\n', '\n']
}

/// The name that the lines of a block give: the last one that they give, or none.
pub open spec fn event_name(lines: Seq<Seq<char>>) -> Seq<char>
    decreases lines.len(),
{
    if lines.len() == 0 {
        Seq::empty()
    } else {
        match text::strip_prefix(lines.last(), "event: "@) {
            Some(name) => text::trim(name),
            None => event_name(lines.drop_last()),
        }
    }
}

/// The data that the lines of a block give, line by line.
pub open spec fn data_lines(lines: Seq<Seq<char>>) -> Seq<Seq<char>>
    decreases lines.len(),
{
    if lines.len() == 0 {
        Seq::empty()
    } else {
        let before = data_lines(lines.drop_last());
        match text::strip_prefix(lines.last(), "data: "@) {
            Some(data) => if text::starts_with(lines.last(), "event: "@) {
                before
            } else {
                before.push(data)
            },
            None => before,
        }
    }
}

/// What one block does. A block without data, or with data that is not JSON, does
/// nothing.
pub open spec fn block_step(s: StreamView, block: Seq<char>) -> (StreamView, Seq<EventView>) {
    let data = data_lines(text::lines(block));
    if text::is_blank(block) || data.len() == 0 {
        (s, seq![])
    } else {
        match json::json_parsed(text::join(data, "\n"@)) {
            Some(value) => streaming_responses::step(s, event_name(text::lines(block)), value),
            None => (s, seq![]),
        }
    }
}

/// Whether a block takes the next content-block index.
pub open spec fn block_takes(s: StreamView, block: Seq<char>) -> bool {
    let data = data_lines(text::lines(block));
    if text::is_blank(block) || data.len() == 0 {
        false
    } else {
        match json::json_parsed(text::join(data, "\n"@)) {
            Some(value) => streaming_responses::takes_index(
                s,
                event_name(text::lines(block)),
                value,
            ),
            None => false,
        }
    }
}

/// Whether there is a content-block index left for a block that takes one.
pub open spec fn block_has_room(s: StreamView, block: Seq<char>) -> bool {
    block_takes(s, block) ==> s.next_content_index < u32::MAX
}

/// What comes of a piece of text: what is remembered, the events that are sent,
/// and the text that is not read yet, as it does not make a block. Once the message has
/// ended nothing more is read, nor is anything from a block on for which there is no
/// content-block index left.
pub open spec fn run(s: StreamView, input: Seq<char>) -> (StreamView, Seq<EventView>, Seq<char>)
    decreases input.len(),
{
    if s.finished {
        (s, seq![], seq![])
    } else {
        match text::find_from(input, block_end(), 0) {
            Some(i) => {
                proof {
                    text::lemma_find_from(input, block_end(), 0);
                }
                let (s1, sent) = block_step(s, input.take(i));
                let (s2, more, rest) = run(s1, input.skip(i + 2));
                if block_has_room(s, input.take(i)) {
                    (s2, sent + more, rest)
                } else {
                    (s, seq![], input)
                }
            },
            None => (s, seq![], input),
        }
    }
}

/// The upstream text that has come and does not make a block yet, and what is
/// remembered of the blocks before it.
pub struct ResponsesReader {
    stream: ResponsesStream,
    buffer: String,
}

impl ResponsesReader {
    /// What is remembered.
    pub closed spec fn state(self) -> StreamView {
        self.stream@
    }

    /// The text that does not make a block yet.
    pub closed spec fn pending(self) -> Seq<char> {
        self.buffer@
    }

    /// A stream of which nothing has come.
    pub fn new() -> (r: ResponsesReader)
        ensures
            r.state() == streaming_responses::initial(),
            r.pending() == Seq::<char>::empty(),
    {
        ResponsesReader { stream: ResponsesStream::new(), buffer: String::new() }
    }

    /// Whether the message has ended.
    pub fn is_finished(&self) -> (r: bool)
        ensures
            r == self.state().finished,
    {
        self.stream.is_finished()
    }

    /// Whether a complete block is left unread: it takes a content-block index, and there
    /// is none left.
    pub fn is_stuck(&self) -> (r: bool)
        ensures
            r == (text::find_from(self.pending(), block_end(), 0) is Some),
    {
        let input = text::chars_of(self.buffer.as_str());
        assert(input@.skip(0) =~= input@);
        find_block_end(&input, 0).is_some()
    }

    /// Deals with the bytes that come next: the events that the blocks which are now
    /// complete send.
    pub fn push_bytes(&mut self, bytes: &[u8]) -> (events: Vec<StreamEvent>)
        ensures
            (final(self).state(), anthropic_events::event_views(events@), final(self).pending())
                == run(old(self).state(), old(self).pending() + text::bytes_text(bytes@)),
    {
        let chunk = text::lossy_text(bytes);
        self.push_text(chunk.as_str())
    }

    /// Deals with the text that comes next: the events that the blocks which are
    /// now complete send.
    pub fn push_text(&mut self, chunk: &str) -> (events: Vec<StreamEvent>)
        ensures
            (final(self).state(), anthropic_events::event_views(events@), final(self).pending())
                == run(old(self).state(), old(self).pending() + chunk@),
    {
        self.buffer.append(chunk);
        let input = text::chars_of(self.buffer.as_str());
        let ghost all = input@;
        let ghost start = self.state();
        let mut events: Vec<StreamEvent> = Vec::new();
        let size: usize = input.len();
        let mut from: usize = 0;
        assert(all.skip(0) == all);
        assert(anthropic_events::event_views(events@) + run(start, all).1 =~= run(start, all).1);
        loop
            invariant
                input@ == all,
                from <= size == input@.len(),
                run(start, all) == ({
                    let (s, sent, rest) = run(self.state(), all.skip(from as int));
                    (s, anthropic_events::event_views(events@) + sent, rest)
                }),
            ensures
                (self.state(), anthropic_events::event_views(events@), self.pending()) == run(
                    start,
                    all,
                ),
            decreases input@.len() - from,
        {
            let ghost before = anthropic_events::event_views(events@);
            if self.stream.is_finished() {
                self.buffer = String::new();
                assert(before + seq![] =~= before);
                break;
            }
            match find_block_end(&input, from) {
                Some(i) => {
                    let ghost s0 = self.state();
                    let ghost here = all.skip(from as int);
                    proof {
                        assert(here.take(i - from) == all.subrange(from as int, i as int));
                        assert(here.skip(i - from + 2) == all.skip(i + 2));
                    }
                    let block = text::text_of(&input, from, i);
                    let mut sent = match self.handle_block(block.as_str()) {
                        Some(sent) => sent,
                        None => {
                            self.buffer = text::text_of(&input, from, size);
                            assert(here == all.subrange(from as int, all.len() as int));
                            assert(before + seq![] =~= before);
                            break;
                        },
                    };
                    let ghost sent_views = anthropic_events::event_views(sent@);
                    events.append(&mut sent);
                    assert(anthropic_events::event_views(events@) =~= before + sent_views);
                    from = i + 2;
                    proof {
                        let (s, more, rest) = run(self.state(), all.skip(from as int));
                        assert(before + (sent_views + more) =~= (before + sent_views) + more);
                    }
                },
                None => {
                    self.buffer = text::text_of(&input, from, size);
                    assert(all.skip(from as int) == all.subrange(from as int, all.len() as int));
                    assert(before + seq![] =~= before);
                    break;
                },
            }
        }
        events
    }

    /// What one block does, where there is a content-block index left for it.
    fn handle_block(&mut self, block: &str) -> (events: Option<Vec<StreamEvent>>)
        ensures
            final(self).pending() == old(self).pending(),
            match events {
                Some(events) => {
                    &&& block_has_room(old(self).state(), block@)
                    &&& (final(self).state(), anthropic_events::event_views(events@))
                        == block_step(old(self).state(), block@)
                },
                None => {
                    &&& !block_has_room(old(self).state(), block@)
                    &&& *final(self) == *old(self)
                },
            },
    {
        if !text::blank(block) {
            let (name, data) = split_block(block);
            if data.len() > 0 {
                if let Some(value) = json::parse_json(text::joined(&data, "\n").as_str()) {
                    if self.stream.next_content_index() == u32::MAX && self.stream.needs_index(
                        name.as_str(),
                        &value,
                    ) {
                        return None;
                    }
                    return Some(self.stream.handle_event(name.as_str(), &value));
                }
            }
        }
        let events: Vec<StreamEvent> = Vec::new();
        assert(anthropic_events::event_views(events@) =~= seq![]);
        Some(events)
    }
}

/// The first block end from `from` on.
fn find_block_end(input: &Vec<char>, from: usize) -> (r: Option<usize>)
    requires
        from <= input@.len(),
    ensures
        match r {
            Some(i) => {
                &&& from <= i
                &&& i + 2 <= input@.len()
                &&& text::find_from(input@.skip(from as int), block_end(), 0) == Some(i - from)
            },
            None => text::find_from(input@.skip(from as int), block_end(), 0) is None,
        },
{
    proof {
        reveal_strlit("\n\n");
        assert("\n\n"@ =~= block_end());
        text::lemma_find_from_skip(input@, block_end(), from as int, 0);
        text::lemma_find_from(input@, block_end(), from as int);
    }
    text::find_in(input, "\n\n", from)
}

/// The name and the data that the lines of a block give.
fn split_block(block: &str) -> (r: (String, Vec<String>))
    ensures
        r.0@ == event_name(text::lines(block@)),
        text::views(r.1@) == data_lines(text::lines(block@)),
{
    let lines = text::lines_of(block);
    let ghost all = text::lines(block@);
    let mut name = String::new();
    let mut data: Vec<String> = Vec::new();
    let mut i: usize = 0;
    assert(text::views(data@) =~= data_lines(all.take(0)));
    while i < lines.len()
        invariant
            text::views(lines@) == all,
            i <= lines@.len() == all.len(),
            name@ == event_name(all.take(i as int)),
            text::views(data@) == data_lines(all.take(i as int)),
        decreases lines@.len() - i,
    {
        let line = lines[i].as_str();
        assert(text::views(lines@)[i as int] == line@);
        assert(all.take(i + 1).drop_last() == all.take(i as int));
        let ghost before = text::views(data@);
        if let Some(rest) = text::after_prefix(line, "event: ") {
            name = text::trimmed(rest).to_owned();
        } else if let Some(rest) = text::after_prefix(line, "data: ") {
            data.push(rest.to_owned());
            assert(text::views(data@) =~= before.push(rest@));
        }
        i = i + 1;
    }
    assert(all.take(i as int) == all);
    (name, data)
}

/// Where the upstream text is cut into chunks makes no difference: `a` and then
/// `b` send what `a + b` sends at once, and leave the same behind.
pub proof fn law_chunks_do_not_matter(s: StreamView, a: Seq<char>, b: Seq<char>)
    ensures
        run(s, a + b) == ({
            let (s1, sent1, rest1) = run(s, a);
            let (s2, sent2, rest2) = run(s1, rest1 + b);
            (s2, sent1 + sent2, rest2)
        }),
    decreases a.len(),
{
    let (s1, sent1, rest1) = run(s, a);
    let (s2, sent2, rest2) = run(s1, rest1 + b);
    if s.finished {
        assert(sent1 + sent2 =~= seq![]);
    } else {
        match text::find_from(a, block_end(), 0) {
            Some(i) => {
                text::lemma_find_from(a, block_end(), 0);
                text::lemma_find_from_append(a, b, block_end(), 0);
                assert((a + b).take(i) == a.take(i));
                assert((a + b).skip(i + 2) == a.skip(i + 2) + b);
                let (t, sent) = block_step(s, a.take(i));
                if block_has_room(s, a.take(i)) {
                    law_chunks_do_not_matter(t, a.skip(i + 2), b);
                    assert(sent + (run(t, a.skip(i + 2)).1 + sent2) =~= sent1 + sent2);
                } else {
                    assert(sent1 + sent2 =~= seq![]);
                }
            },
            None => {
                assert(sent1 + sent2 =~= sent2);
            },
        }
    }
}

} // verus!
