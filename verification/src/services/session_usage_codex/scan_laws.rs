//! What the calls out of a session log are billed with, told from the lines of the log.

use vstd::prelude::*;
use vstd::string::*;
use crate::json;
#[allow(unused_imports)]
use crate::json::JsonView;
#[allow(unused_imports)]
use crate::services::session_usage_codex::meta;
use crate::services::session_usage_codex::model;
#[allow(unused_imports)]
use crate::services::session_usage_codex::replay;
#[allow(unused_imports)]
use crate::services::session_usage_codex::replay::ReplayPhase;
use crate::services::session_usage_codex::scan;
#[allow(unused_imports)]
use crate::services::session_usage_codex::scan::{
    EntryView, LogContext, ParseView, PendingCodexEntry,
};
#[allow(unused_imports)]
use crate::services::session_usage_codex::tokens;
#[allow(unused_imports)]
use crate::services::session_usage_codex::tokens::CumulativeTokens;
use crate::text;

verus! {

/// Whether a line is looked at: it has one of the words `turn_context` and `session_meta`
/// in quotes, or, where it has `event_msg`, it also has `token_count`.
pub open spec fn is_looked_at(line: Seq<char>) -> bool {
    if text::contains(line, "\"event_msg\""@) {
        text::contains(line, "\"token_count\""@)
    } else {
        text::contains(line, "\"turn_context\""@) || text::contains(line, "\"session_meta\""@)
    }
}

/// The payload of a `turn_context` line.
pub open spec fn turn_payload(line: Seq<char>) -> Option<JsonView> {
    match json::json_parsed(line) {
        Some(value) => if is_looked_at(line) && value.field("type"@) == Some(
            JsonView::Text("turn_context"@),
        ) {
            value.field("payload"@)
        } else {
            None
        },
        None => None,
    }
}

/// The payload and the `info` of a `token_count` line that gives counts.
pub open spec fn count_payload(line: Seq<char>) -> Option<(JsonView, JsonView)> {
    match json::json_parsed(line) {
        Some(value) => match value.field("payload"@) {
            Some(payload) => match payload.field("info"@) {
                Some(info) => if is_looked_at(line) && value.field("type"@) == Some(
                    JsonView::Text("event_msg"@),
                ) && payload.field("type"@) == Some(JsonView::Text("token_count"@)) && (info.field(
                    "total_token_usage"@,
                ) matches Some(JsonView::Object(_)) || info.field(
                    "last_token_usage"@,
                ) matches Some(JsonView::Object(_))) {
                    Some((payload, info))
                } else {
                    None
                },
                None => None,
            },
            None => None,
        },
        None => None,
    }
}

/// Whether a `turn_context` line names a model: as the model of its payload, or, where the
/// payload has none, as that of the payload's info.
pub open spec fn turn_names(line: Seq<char>, name: Seq<char>) -> bool {
    &&& turn_payload(line) matches Some(payload)
    &&& match payload.field("model"@) {
        Some(given) => given == JsonView::Text(name),
        None => payload.field("info"@) matches Some(info) && info.field("model"@) == Some(
            JsonView::Text(name),
        ),
    }
}

/// Whether a `token_count` line names a model: as `model` or else `model_name` of its info,
/// or else as the model of its payload.
pub open spec fn count_names(line: Seq<char>, name: Seq<char>) -> bool {
    &&& count_payload(line) matches Some((payload, info))
    &&& match info.field("model"@) {
        Some(given) => given == JsonView::Text(name),
        None => match info.field("model_name"@) {
            Some(given) => given == JsonView::Text(name),
            None => payload.field("model"@) == Some(JsonView::Text(name)),
        },
    }
}

/// Whether a line names a model.
pub open spec fn names(line: Seq<char>, name: Seq<char>) -> bool {
    turn_names(line, name) || count_names(line, name)
}

/// Whether lines name no model.
pub open spec fn name_nothing(lines: Seq<Seq<char>>, from: int, to: int) -> bool {
    forall|i: int, name: Seq<char>| from <= i < to ==> !#[trigger] names(lines[i], name)
}

proof fn lemma_one_line(s: ParseView, log: LogContext, line: Seq<char>, is_new: bool)
    ensures
        forall|name: Seq<char>| #[trigger]
            names(line, name) ==> scan::scan_step(s, log, line, is_new).0.current_model
                == model::billed_name(name),
        (forall|name: Seq<char>| !#[trigger] names(line, name)) ==> scan::scan_step(
            s,
            log,
            line,
            is_new,
        ).0.current_model == s.current_model,
        scan::scan_step(s, log, line, is_new).1 matches Some(entry) ==> entry.model
            == scan::scan_step(s, log, line, is_new).0.current_model,
{
    reveal_strlit("turn_context");
    reveal_strlit("event_msg");
    assert("turn_context"@.len() != "event_msg"@.len());
    if let Some(value) = json::json_parsed(line) {
        if let Some(JsonView::Text(name)) = scan::turn_model(value) {
            if turn_payload(line) is Some {
                assert(names(line, name));
            }
        }
        if let Some((payload, info)) = count_payload(line) {
            if let Some(JsonView::Text(name)) = scan::count_model(value, info) {
                assert(names(line, name));
            }
        }
    }
}

proof fn lemma_model_then(
    s: ParseView,
    log: LogContext,
    lines: Seq<Seq<char>>,
    history: int,
    k: int,
    name: Seq<char>,
)
    requires
        -1 <= k < lines.len(),
        k >= 0 ==> names(lines[k], name),
        name_nothing(lines, k + 1, lines.len() as int),
    ensures
        scan::scan_all(s, log, lines, history).0.current_model == if k >= 0 {
            model::billed_name(name)
        } else {
            s.current_model
        },
    decreases lines.len(),
{
    if lines.len() > 0 {
        let head = lines.drop_last();
        let before = scan::scan_all(s, log, head, history).0;
        lemma_one_line(before, log, lines.last(), lines.len() - 1 >= history);
        if k < lines.len() - 1 {
            assert(name_nothing(head, k + 1, head.len() as int)) by {
                assert forall|i: int, other: Seq<char>|
                    k + 1 <= i < head.len() implies !#[trigger] names(head[i], other) by {
                    assert(head[i] == lines[i]);
                    assert(!names(lines[i], other));
                }
            }
            lemma_model_then(s, log, head, history, k, name);
            assert forall|other: Seq<char>| !#[trigger] names(lines.last(), other) by {
                assert(!names(lines[lines.len() - 1], other));
            }
        }
    }
}

/// The calls that the first lines of a log bill come first among all that the log bills.
proof fn lemma_first_calls(s: ParseView, log: LogContext, lines: Seq<Seq<char>>, history: int, n: int)
    requires
        0 <= n <= lines.len(),
    ensures
        ({
            let some = scan::scan_all(s, log, lines.take(n), history).1;
            let all = scan::scan_all(s, log, lines, history).1;
            &&& some.len() <= all.len()
            &&& all.take(some.len() as int) == some
        }),
    decreases lines.len() - n,
{
    let some = scan::scan_all(s, log, lines.take(n), history).1;
    if n == lines.len() {
        assert(lines.take(n) =~= lines);
        assert(some.take(some.len() as int) =~= some);
    } else {
        lemma_first_calls(s, log, lines, history, n + 1);
        let more = scan::scan_all(s, log, lines.take(n + 1), history).1;
        let all = scan::scan_all(s, log, lines, history).1;
        assert(lines.take(n + 1).drop_last() =~= lines.take(n));
        assert(more.take(some.len() as int) =~= some);
        assert(all.take(some.len() as int) =~= more.take(some.len() as int));
    }
}

/// The number of calls that the lines before one bill, which is the position of the call
/// that the line itself bills.
pub open spec fn calls_before(
    s: ParseView,
    log: LogContext,
    lines: Seq<Seq<char>>,
    history: int,
    n: int,
) -> int {
    scan::scan_all(s, log, lines.take(n), history).1.len() as int
}

/// Whether a line of a log bills a call.
pub open spec fn bills(
    s: ParseView,
    log: LogContext,
    lines: Seq<Seq<char>>,
    history: int,
    n: int,
) -> bool {
    calls_before(s, log, lines, history, n + 1) > calls_before(s, log, lines, history, n)
}

/// What a line of a log does, and where the call that it bills stands.
proof fn lemma_at(s: ParseView, log: LogContext, lines: Seq<Seq<char>>, history: int, n: int)
    requires
        0 <= n < lines.len(),
    ensures
        ({
            let at = calls_before(s, log, lines, history, n);
            let before = scan::scan_all(s, log, lines.take(n), history).0;
            let then = scan::scan_step(before, log, lines[n], n >= history);
            &&& bills(s, log, lines, history, n) == then.1 is Some
            &&& then.0 == scan::scan_all(s, log, lines.take(n + 1), history).0
            &&& bills(s, log, lines, history, n) ==> {
                &&& at < scan::scan_all(s, log, lines, history).1.len()
                &&& Some(scan::scan_all(s, log, lines, history).1[at]) == then.1
            }
        }),
{
    let at = calls_before(s, log, lines, history, n);
    let some = scan::scan_all(s, log, lines.take(n + 1), history).1;
    let all = scan::scan_all(s, log, lines, history).1;
    assert(lines.take(n + 1).drop_last() =~= lines.take(n));
    assert(lines.take(n + 1).last() == lines[n]);
    lemma_first_calls(s, log, lines, history, n + 1);
    if bills(s, log, lines, history, n) {
        assert(some[at] == all.take(some.len() as int)[at]);
    }
}

/// A call is billed under the model that was named last, by its own line or by one before
/// it (line `k`), however often the model has changed before.
pub proof fn law_calls_are_billed_under_the_model_named_last(
    phase: ReplayPhase,
    log: LogContext,
    lines: Seq<Seq<char>>,
    history: int,
    n: int,
    k: int,
    name: Seq<char>,
)
    requires
        0 <= k <= n < lines.len(),
        bills(scan::initial_state(phase), log, lines, history, n),
        names(lines[k], name),
        name_nothing(lines, k + 1, n + 1),
    ensures
        ({
            let at = calls_before(scan::initial_state(phase), log, lines, history, n);
            scan::scan_all(scan::initial_state(phase), log, lines, history).1[at].model
                == model::billed_name(name)
        }),
{
    let s = scan::initial_state(phase);
    lemma_at(s, log, lines, history, n);
    let some = lines.take(n + 1);
    assert(name_nothing(some, k + 1, n + 1)) by {
        assert forall|i: int, other: Seq<char>| k + 1 <= i < n + 1 implies !#[trigger] names(
            some[i],
            other,
        ) by {
            assert(some[i] == lines[i]);
            assert(!names(lines[i], other));
        }
    }
    lemma_model_then(s, log, some, history, k, name);
    lemma_one_line(scan::scan_all(s, log, lines.take(n), history).0, log, lines[n], n >= history);
}

/// A call whose line names no model is billed under the model that the last `turn_context`
/// line before it names, where no `token_count` line has named one since.
pub proof fn law_a_turn_sets_the_model_of_the_calls_after_it(
    phase: ReplayPhase,
    log: LogContext,
    lines: Seq<Seq<char>>,
    history: int,
    n: int,
    k: int,
    name: Seq<char>,
)
    requires
        0 <= k < n < lines.len(),
        bills(scan::initial_state(phase), log, lines, history, n),
        turn_names(lines[k], name),
        forall|i: int, other: Seq<char>|
            k < i <= n ==> !#[trigger] turn_names(lines[i], other) && !count_names(lines[i], other),
    ensures
        ({
            let at = calls_before(scan::initial_state(phase), log, lines, history, n);
            scan::scan_all(scan::initial_state(phase), log, lines, history).1[at].model
                == model::billed_name(name)
        }),
{
    assert(name_nothing(lines, k + 1, n + 1)) by {
        assert forall|i: int, other: Seq<char>| k + 1 <= i < n + 1 implies !#[trigger] names(
            lines[i],
            other,
        ) by {
            assert(!turn_names(lines[i], other));
        }
    }
    law_calls_are_billed_under_the_model_named_last(phase, log, lines, history, n, k, name);
}

/// A call before which no model has been named is billed as that of an unknown one.
pub proof fn law_a_model_that_was_not_named_is_unknown(
    phase: ReplayPhase,
    log: LogContext,
    lines: Seq<Seq<char>>,
    history: int,
    n: int,
)
    requires
        0 <= n < lines.len(),
        bills(scan::initial_state(phase), log, lines, history, n),
        name_nothing(lines, 0, n + 1),
    ensures
        ({
            let at = calls_before(scan::initial_state(phase), log, lines, history, n);
            scan::scan_all(scan::initial_state(phase), log, lines, history).1[at].model
                == "unknown"@
        }),
{
    let s = scan::initial_state(phase);
    lemma_at(s, log, lines, history, n);
    let some = lines.take(n + 1);
    assert(name_nothing(some, 0, n + 1)) by {
        assert forall|i: int, other: Seq<char>| 0 <= i < n + 1 implies !#[trigger] names(
            some[i],
            other,
        ) by {
            assert(some[i] == lines[i]);
            assert(!names(lines[i], other));
        }
    }
    lemma_model_then(s, log, some, history, -1, Seq::empty());
    lemma_one_line(scan::scan_all(s, log, lines.take(n), history).0, log, lines[n], n >= history);
}

/// A count among those that are given; zero where it is not given as a whole number.
pub open spec fn given(usage: JsonView, name: Seq<char>) -> int {
    match usage.field(name) {
        Some(JsonView::Number(n)) => match n.unsigned {
            Some(count) => count as int,
            None => 0,
        },
        _ => 0,
    }
}

/// The count of cached input, under the second of its names only where the first is missing.
pub open spec fn given_cached(usage: JsonView) -> int {
    if usage.field("cached_input_tokens"@) is Some {
        given(usage, "cached_input_tokens"@)
    } else {
        given(usage, "cache_read_input_tokens"@)
    }
}

/// The running totals that a `token_count` line gives.
pub open spec fn totals_in(line: Seq<char>) -> Option<JsonView> {
    match count_payload(line) {
        Some((_, info)) => match info.field("total_token_usage"@) {
            Some(JsonView::Object(fields)) => Some(JsonView::Object(fields)),
            _ => None,
        },
        None => None,
    }
}

/// The counts of its own call alone that a `token_count` line gives, where it gives no
/// running totals.
pub open spec fn own_counts_in(line: Seq<char>) -> Option<JsonView> {
    match count_payload(line) {
        Some((_, info)) => if info.field("total_token_usage"@) is None {
            info.field("last_token_usage"@)
        } else {
            None
        },
        None => None,
    }
}

/// By how much a count grows; by nothing where it falls.
pub open spec fn grown(from: int, to: int) -> int {
    if from < to {
        to - from
    } else {
        0
    }
}

/// Whether a use is just what counts have grown by, or what is left of that in 32 bits, with
/// no more of the input from a cache than there is input.
pub open spec fn uses(
    delta: tokens::DeltaTokens,
    input: int,
    cached: int,
    output: int,
) -> bool {
    let wide = 0x1_0000_0000int;
    &&& delta.input == input % wide
    &&& delta.output == output % wide
    &&& delta.cached_input == if cached % wide <= input % wide {
        cached % wide
    } else {
        input % wide
    }
}

proof fn lemma_totals_of_one_line(s: ParseView, log: LogContext, line: Seq<char>, is_new: bool)
    ensures
        scan::scan_step(s, log, line, is_new).0.prev_total == match totals_in(line) {
            Some(total) => Some(
                CumulativeTokens {
                    input: given(total, "input_tokens"@) as u64,
                    cached_input: given_cached(total) as u64,
                    output: given(total, "output_tokens"@) as u64,
                },
            ),
            None => s.prev_total,
        },
{
    reveal_strlit("turn_context");
    reveal_strlit("event_msg");
    assert("turn_context"@.len() != "event_msg"@.len());
}

proof fn lemma_totals_then(s: ParseView, log: LogContext, lines: Seq<Seq<char>>, history: int, k: int)
    requires
        -1 <= k < lines.len(),
        k >= 0 ==> totals_in(lines[k]) is Some,
        forall|i: int| k < i < lines.len() ==> totals_in(#[trigger] lines[i]) is None,
    ensures
        scan::scan_all(s, log, lines, history).0.prev_total == if k >= 0 {
            let total = totals_in(lines[k])->0;
            Some(
                CumulativeTokens {
                    input: given(total, "input_tokens"@) as u64,
                    cached_input: given_cached(total) as u64,
                    output: given(total, "output_tokens"@) as u64,
                },
            )
        } else {
            s.prev_total
        },
    decreases lines.len(),
{
    if lines.len() > 0 {
        let head = lines.drop_last();
        let before = scan::scan_all(s, log, head, history).0;
        lemma_totals_of_one_line(before, log, lines.last(), lines.len() - 1 >= history);
        if k < lines.len() - 1 {
            assert forall|i: int| k < i < head.len() implies totals_in(#[trigger] head[i]) is None by {
                assert(head[i] == lines[i]);
            }
            lemma_totals_then(s, log, head, history, k);
            assert(totals_in(lines[lines.len() - 1]) is None);
        }
    }
}

/// A call whose line gives running totals is billed with what they have grown by since the
/// line before it that gives any (line `k`): input, cached input and output each with its
/// own count, and none of them below zero.
pub proof fn law_calls_are_billed_with_what_the_totals_grew_by(
    s: ParseView,
    log: LogContext,
    lines: Seq<Seq<char>>,
    history: int,
    n: int,
    k: int,
    last: JsonView,
    total: JsonView,
)
    requires
        0 <= k < n < lines.len(),
        bills(s, log, lines, history, n),
        totals_in(lines[k]) == Some(last),
        totals_in(lines[n]) == Some(total),
        forall|i: int| k < i < n ==> totals_in(#[trigger] lines[i]) is None,
    ensures
        ({
            let at = calls_before(s, log, lines, history, n);
            uses(
                scan::scan_all(s, log, lines, history).1[at].delta,
                grown(given(last, "input_tokens"@), given(total, "input_tokens"@)),
                grown(given_cached(last), given_cached(total)),
                grown(given(last, "output_tokens"@), given(total, "output_tokens"@)),
            )
        }),
{
    lemma_at(s, log, lines, history, n);
    let some = lines.take(n);
    assert forall|i: int| k < i < some.len() implies totals_in(#[trigger] some[i]) is None by {
        assert(some[i] == lines[i]);
    }
    assert(some[k] == lines[k]);
    lemma_totals_then(s, log, some, history, k);
}

/// A call whose line gives the first running totals of a log is billed with all that they
/// count.
pub proof fn law_the_first_totals_are_billed_whole(
    phase: ReplayPhase,
    log: LogContext,
    lines: Seq<Seq<char>>,
    history: int,
    n: int,
    total: JsonView,
)
    requires
        0 <= n < lines.len(),
        bills(scan::initial_state(phase), log, lines, history, n),
        totals_in(lines[n]) == Some(total),
        forall|i: int| 0 <= i < n ==> totals_in(#[trigger] lines[i]) is None,
    ensures
        ({
            let at = calls_before(scan::initial_state(phase), log, lines, history, n);
            uses(
                scan::scan_all(scan::initial_state(phase), log, lines, history).1[at].delta,
                given(total, "input_tokens"@),
                given_cached(total),
                given(total, "output_tokens"@),
            )
        }),
{
    let s = scan::initial_state(phase);
    lemma_at(s, log, lines, history, n);
    let some = lines.take(n);
    assert forall|i: int| -1 < i < some.len() implies totals_in(#[trigger] some[i]) is None by {
        assert(some[i] == lines[i]);
    }
    lemma_totals_then(s, log, some, history, -1);
}

/// A call whose line gives no running totals is billed with all that the line counts, and
/// the running totals stay what they were.
pub proof fn law_own_counts_are_billed_whole(
    s: ParseView,
    log: LogContext,
    lines: Seq<Seq<char>>,
    history: int,
    n: int,
    counts: JsonView,
)
    requires
        0 <= n < lines.len(),
        bills(s, log, lines, history, n),
        own_counts_in(lines[n]) == Some(counts),
    ensures
        ({
            let at = calls_before(s, log, lines, history, n);
            uses(
                scan::scan_all(s, log, lines, history).1[at].delta,
                given(counts, "input_tokens"@),
                given_cached(counts),
                given(counts, "output_tokens"@),
            )
        }),
        scan::scan_all(s, log, lines.take(n + 1), history).0.prev_total == scan::scan_all(
            s,
            log,
            lines.take(n),
            history,
        ).0.prev_total,
{
    lemma_at(s, log, lines, history, n);
}

/// Every new use of a log that repeats nothing of a parent is billed: where running totals
/// have grown in input or output since the last ones, their line bills a call.
pub proof fn law_every_growth_of_a_live_log_is_billed(
    log: LogContext,
    lines: Seq<Seq<char>>,
    history: int,
    n: int,
    k: int,
    last: JsonView,
    total: JsonView,
)
    requires
        0 <= k < n < lines.len(),
        history <= n,
        totals_in(lines[k]) == Some(last),
        totals_in(lines[n]) == Some(total),
        forall|i: int| k < i < n ==> totals_in(#[trigger] lines[i]) is None,
        0 < given(total, "input_tokens"@) - given(last, "input_tokens"@) < 0x1_0000_0000 || 0
            < given(total, "output_tokens"@) - given(last, "output_tokens"@) < 0x1_0000_0000,
    ensures
        bills(scan::initial_state(ReplayPhase::Live), log, lines, history, n),
{
    reveal_strlit("turn_context");
    reveal_strlit("event_msg");
    assert("turn_context"@.len() != "event_msg"@.len());
    let s = scan::initial_state(ReplayPhase::Live);
    lemma_at(s, log, lines, history, n);
    let some = lines.take(n);
    assert forall|i: int| k < i < some.len() implies totals_in(#[trigger] some[i]) is None by {
        assert(some[i] == lines[i]);
    }
    assert(some[k] == lines[k]);
    lemma_totals_then(s, log, some, history, k);
    lemma_stays_live(s, log, some, history);
}

proof fn lemma_stays_live(s: ParseView, log: LogContext, lines: Seq<Seq<char>>, history: int)
    requires
        s.replay_phase is Live,
    ensures
        scan::scan_all(s, log, lines, history).0.replay_phase is Live,
        scan::scan_all(s, log, lines, history).2 == 0,
    decreases lines.len(),
{
    if lines.len() > 0 {
        lemma_stays_live(s, log, lines.drop_last(), history);
    }
}

/// A log that has left the replay of its parent behind leaves nothing out any more.
pub proof fn law_a_live_log_leaves_nothing_out(
    s: ParseView,
    log: LogContext,
    lines: Seq<Seq<char>>,
    history: int,
)
    requires
        s.replay_phase is Live,
    ensures
        scan::scan_all(s, log, lines, history).2 == 0,
{
    lemma_stays_live(s, log, lines, history);
}

/// Every use of a log is either billed or left out as a replayed one, and never both: the
/// two together are as many as the uses that are numbered.
pub proof fn law_every_use_is_billed_or_left_out(s: ParseView, log: LogContext, lines: Seq<Seq<char>>)
    requires
        scan::scan_all(s, log, lines, 0).0.event_index < u32::MAX,
    ensures
        s.event_index + scan::scan_all(s, log, lines, 0).1.len() + scan::scan_all(
            s,
            log,
            lines,
            0,
        ).2 == scan::scan_all(s, log, lines, 0).0.event_index,
    decreases lines.len(),
{
    if lines.len() > 0 {
        let before = scan::scan_all(s, log, lines.drop_last(), 0).0;
        assert(before.event_index <= scan::scan_all(s, log, lines, 0).0.event_index);
        law_every_use_is_billed_or_left_out(s, log, lines.drop_last());
    }
}

/// The id of the request of a call says the log's thread and the number of its use, counted
/// from the beginning of the log, whether the uses before it were billed or left out.
pub proof fn law_a_request_id_says_thread_and_number(
    s: ParseView,
    log: LogContext,
    lines: Seq<Seq<char>>,
    n: int,
)
    requires
        0 <= n < lines.len(),
        bills(s, log, lines, 0, n),
        scan::scan_all(s, log, lines.take(n + 1), 0).0.event_index < u32::MAX,
    ensures
        ({
            let at = calls_before(s, log, lines, 0, n);
            let number = s.event_index + at + scan::scan_all(s, log, lines.take(n), 0).2 + 1;
            scan::scan_all(s, log, lines, 0).1[at].request_id == "codex_session:thread-v1:"@
                + log.thread + ":"@ + text::decimal(number as nat)
        }),
{
    lemma_at(s, log, lines, 0, n);
    let before = scan::scan_all(s, log, lines.take(n), 0).0;
    let after = scan::scan_all(s, log, lines.take(n + 1), 0).0;
    assert(before.event_index <= after.event_index);
    law_every_use_is_billed_or_left_out(s, log, lines.take(n));
}

/// A call happened when its line says, or else now, and belongs to the log's thread.
pub proof fn law_a_call_happened_when_its_line_says(
    s: ParseView,
    log: LogContext,
    lines: Seq<Seq<char>>,
    history: int,
    n: int,
    value: JsonView,
)
    requires
        0 <= n < lines.len(),
        bills(s, log, lines, history, n),
        json::json_parsed(lines[n]) == Some(value),
    ensures
        ({
            let call = scan::scan_all(s, log, lines, history).1[calls_before(
                s,
                log,
                lines,
                history,
                n,
            )];
            &&& call.session_id == log.thread
            &&& call.created_at == match value.field("timestamp"@) {
                Some(JsonView::Text(time)) => match meta::rfc3339_instant(time) {
                    Some(instant) => instant.seconds,
                    None => log.now,
                },
                _ => log.now,
            }
        }),
{
    lemma_at(s, log, lines, history, n);
}

/// Only `token_count` lines bill, and only those that have not been read before.
pub proof fn law_only_new_counts_are_billed(
    s: ParseView,
    log: LogContext,
    lines: Seq<Seq<char>>,
    history: int,
    n: int,
)
    requires
        0 <= n < lines.len(),
        bills(s, log, lines, history, n),
    ensures
        history <= n,
        totals_in(lines[n]) is Some || own_counts_in(lines[n]) is Some,
{
    lemma_at(s, log, lines, history, n);
}

/// A call to bill is modelled by what stands in it.
pub proof fn law_a_call_is_modelled_by_what_stands_in_it(call: PendingCodexEntry)
    ensures
        call@.request_id == call.request_id@,
        call@.delta == call.delta,
        call@.model == call.model@,
        call@.session_id == call.session_id@,
        call@.created_at == call.created_at,
        scan::entry_view(Some(call)) == Some(call@),
        scan::entry_view(None) is None,
{
}

} // verus!
