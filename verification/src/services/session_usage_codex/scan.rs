//! Reading token usage out of the lines of a session log.

use vstd::prelude::*;
use vstd::string::*;
use crate::json;
use crate::json::{Json, JsonView};
use crate::services::session_usage_codex::meta;
use crate::services::session_usage_codex::model;
use crate::services::session_usage_codex::replay;
use crate::services::session_usage_codex::replay::ReplayPhase;
use crate::services::session_usage_codex::tokens;
use crate::services::session_usage_codex::tokens::{
    CumulativeTokens, DeltaTokens, TokenUsageSignature,
};
use crate::text;

verus! {

/// Whether a line can be one that counts, by the words in it.
pub open spec fn is_relevant(line: Seq<char>) -> bool {
    let is_event = text::contains(line, "\"event_msg\""@);
    &&& is_event || text::contains(line, "\"turn_context\""@) || text::contains(
        line,
        "\"session_meta\""@,
    )
    &&& is_event ==> text::contains(line, "\"token_count\""@)
}

/// Whether a line can be one that counts.
fn relevant(line: &str) -> (r: bool)
    ensures
        r == is_relevant(line@),
{
    let is_event_msg = text::has_part(line, "\"event_msg\"");
    if is_event_msg {
        return text::has_part(line, "\"token_count\"");
    }
    text::has_part(line, "\"turn_context\"") || text::has_part(line, "\"session_meta\"")
}

/// The counts in the `info` of a `token_count` line, and whether they are running
/// totals. Running totals go before the counts of the last call.
pub open spec fn usage_in(info: JsonView) -> Option<(CumulativeTokens, bool)> {
    match info.field("total_token_usage"@) {
        Some(total) => match tokens::cumulative_of(total) {
            Some(counts) => Some((counts, true)),
            None => None,
        },
        None => match info.field("last_token_usage"@) {
            Some(last) => match tokens::cumulative_of(last) {
                Some(counts) => Some((counts, false)),
                None => None,
            },
            None => None,
        },
    }
}

/// The counts in the `info` of a `token_count` line.
fn usage_of(info: &Json) -> (r: Option<(CumulativeTokens, bool)>)
    ensures
        r == usage_in(info@),
{
    match info.get("total_token_usage") {
        Some(total) => match tokens::parse_cumulative_tokens(total) {
            Some(counts) => Some((counts, true)),
            None => None,
        },
        None => match info.get("last_token_usage") {
            Some(last) => match tokens::parse_cumulative_tokens(last) {
                Some(counts) => Some((counts, false)),
                None => None,
            },
            None => None,
        },
    }
}

/// What counts use, after the totals `prev`: running totals use what they have
/// grown by, other counts all that they count.
pub open spec fn used_by(prev: Option<CumulativeTokens>, usage: (CumulativeTokens, bool)) -> DeltaTokens {
    tokens::clamped(
        tokens::delta_since(
            if usage.1 {
                prev
            } else {
                None
            },
            usage.0,
        ),
    )
}

/// The totals after counts.
pub open spec fn totals_after(prev: Option<CumulativeTokens>, usage: (CumulativeTokens, bool)) -> Option<
    CumulativeTokens,
> {
    if usage.1 {
        Some(usage.0)
    } else {
        prev
    }
}

/// What counts use, after the totals `prev`.
fn usage_delta(prev: &Option<CumulativeTokens>, usage: &(CumulativeTokens, bool)) -> (r: DeltaTokens)
    ensures
        r == used_by(*prev, *usage),
{
    if usage.1 {
        tokens::compute_delta(prev, &usage.0).clamp_cached()
    } else {
        tokens::compute_delta(&None, &usage.0).clamp_cached()
    }
}

/// The counts of a `token_count` line.
pub open spec fn line_usage(line: Option<Seq<char>>) -> Option<(CumulativeTokens, bool)> {
    match line {
        Some(line) => if is_relevant(line) {
            match json::json_parsed(line) {
                Some(value) => match replay::token_info(value) {
                    Some(info) => match tokens::signature_of(info) {
                        Some(_) => usage_in(info),
                        None => None,
                    },
                    None => None,
                },
                None => None,
            }
        } else {
            None
        },
        None => None,
    }
}

/// The running totals after the lines of a log, and whether any line uses
/// anything.
pub open spec fn counted(lines: Seq<Option<Seq<char>>>) -> (Option<CumulativeTokens>, bool)
    decreases lines.len(),
{
    if lines.len() == 0 {
        (None, false)
    } else {
        let (prev, used) = counted(lines.drop_last());
        match line_usage(lines.last()) {
            Some(usage) => (
                totals_after(prev, usage),
                used || !tokens::nothing_used(used_by(prev, usage)),
            ),
            None => (prev, used),
        }
    }
}

/// What a log comes to.
#[derive(Debug, Clone, Copy, PartialEq, Eq, Structural)]
pub struct ParsedCodexFile {
    /// The number of its lines.
    pub line_offset: i64,
    /// Whether it uses any tokens.
    pub has_billable_tokens: bool,
}

/// What a log comes to.
pub fn parse_codex_file(lines: &Vec<Option<String>>) -> (r: ParsedCodexFile)
    requires
        lines@.len() <= i64::MAX,
    ensures
        r.line_offset == lines@.len(),
        r.has_billable_tokens == counted(meta::line_views(lines@)).1,
{
    let ghost all = meta::line_views(lines@);
    let mut prev_total: Option<CumulativeTokens> = None;
    let mut has_billable_tokens = false;
    let mut i: usize = 0;
    while i < lines.len()
        invariant
            i <= lines@.len() == all.len(),
            all == meta::line_views(lines@),
            (prev_total, has_billable_tokens) == counted(all.take(i as int)),
        decreases lines@.len() - i,
    {
        assert(all.take(i + 1).drop_last() == all.take(i as int));
        assert(all.take(i + 1).last() == text::option_view(lines@[i as int]));
        if let Some(line) = &lines[i] {
            if relevant(line.as_str()) {
                if let Some(value) = json::parse_json(line.as_str()) {
                    if let Some(info) = replay::token_count_info(&value) {
                        if tokens::parse_token_signature(info).is_some() {
                            if let Some(usage) = usage_of(info) {
                                if !usage_delta(&prev_total, &usage).is_zero() {
                                    has_billable_tokens = true;
                                }
                                if usage.1 {
                                    prev_total = Some(usage.0);
                                }
                            }
                        }
                    }
                }
            }
        }
        i = i + 1;
    }
    assert(all.take(i as int) == all);
    ParsedCodexFile { line_offset: lines.len() as i64, has_billable_tokens }
}

/// What is remembered between one line of a log and the next.
#[derive(Debug)]
pub struct FileParseState {
    pub current_model: String,
    pub prev_total: Option<CumulativeTokens>,
    pub event_index: u32,
    pub replay_phase: ReplayPhase,
}

/// The model of [`FileParseState`].
pub struct ParseView {
    pub current_model: Seq<char>,
    pub prev_total: Option<CumulativeTokens>,
    pub event_index: u32,
    pub replay_phase: ReplayPhase,
}

impl View for FileParseState {
    type V = ParseView;

    open spec fn view(&self) -> ParseView {
        ParseView {
            current_model: self.current_model@,
            prev_total: self.prev_total,
            event_index: self.event_index,
            replay_phase: self.replay_phase,
        }
    }
}

/// One call to bill.
#[derive(Debug)]
pub struct PendingCodexEntry {
    pub request_id: String,
    pub delta: DeltaTokens,
    pub model: String,
    pub session_id: String,
    /// Seconds since the Unix epoch.
    pub created_at: i64,
}

/// The model of [`PendingCodexEntry`].
pub struct EntryView {
    pub request_id: Seq<char>,
    pub delta: DeltaTokens,
    pub model: Seq<char>,
    pub session_id: Seq<char>,
    pub created_at: i64,
}

impl View for PendingCodexEntry {
    type V = EntryView;

    open spec fn view(&self) -> EntryView {
        EntryView {
            request_id: self.request_id@,
            delta: self.delta,
            model: self.model@,
            session_id: self.session_id@,
            created_at: self.created_at,
        }
    }
}

/// What is known of a log before its lines are read: its thread, the events of its
/// parent, and the time that stands in where a line does not say when it was
/// written.
pub struct LogContext {
    pub thread: Seq<char>,
    pub parent: Seq<TokenUsageSignature>,
    pub now: i64,
}

/// What is remembered before the first line.
pub open spec fn initial_state(phase: ReplayPhase) -> ParseView {
    ParseView {
        current_model: "unknown"@,
        prev_total: None,
        event_index: 0,
        replay_phase: phase,
    }
}

/// What is remembered before the first line.
pub fn new_parse_state(phase: ReplayPhase) -> (r: FileParseState)
    ensures
        r@ == initial_state(phase),
{
    FileParseState {
        current_model: "unknown".to_owned(),
        prev_total: None,
        event_index: 0,
        replay_phase: phase,
    }
}

/// The first of two values that is there.
pub open spec fn either(first: Option<JsonView>, second: Option<JsonView>) -> Option<JsonView> {
    if first is Some {
        first
    } else {
        second
    }
}

/// The model after a value that may name one.
pub open spec fn model_after(current: Seq<char>, named: Option<JsonView>) -> Seq<char> {
    match named {
        Some(JsonView::Text(name)) => model::billed_name(name),
        _ => current,
    }
}

/// The model that a `turn_context` line names.
pub open spec fn turn_model(value: JsonView) -> Option<JsonView> {
    match value.field("payload"@) {
        Some(payload) => either(
            payload.field("model"@),
            json::field_of_field(payload, "info"@, "model"@),
        ),
        None => None,
    }
}

/// The model that a `token_count` line names.
pub open spec fn count_model(value: JsonView, info: JsonView) -> Option<JsonView> {
    either(
        either(info.field("model"@), info.field("model_name"@)),
        json::field_of_field(value, "payload"@, "model"@),
    )
}

/// When a line was written; `now` where it does not say.
pub open spec fn created_at_of(value: JsonView, now: i64) -> i64 {
    match meta::line_instant(value) {
        Some(instant) => instant.seconds,
        None => now,
    }
}

/// The id of the request with a number in a thread.
pub open spec fn request_id(thread: Seq<char>, index: u32) -> Seq<char> {
    "codex_session:thread-v1:"@ + thread + ":"@ + text::decimal(index as nat)
}

/// What a `token_count` line does: what is remembered after it, the call to bill,
/// and whether a new use was left out because it is a replayed one.
pub open spec fn count_step(
    s: ParseView,
    log: LogContext,
    value: JsonView,
    info: JsonView,
    signature: TokenUsageSignature,
    is_new: bool,
) -> (ParseView, Option<EntryView>, bool) {
    let (phase, replayed) = replay::consume(s.replay_phase, log.parent, signature);
    let current_model = model_after(s.current_model, count_model(value, info));
    match usage_in(info) {
        Some(usage) => {
            let delta = used_by(s.prev_total, usage);
            let used = !tokens::nothing_used(delta);
            let event_index = if used && s.event_index < u32::MAX {
                (s.event_index + 1) as u32
            } else {
                s.event_index
            };
            let after = ParseView {
                current_model,
                prev_total: totals_after(s.prev_total, usage),
                event_index,
                replay_phase: phase,
            };
            let entry = EntryView {
                request_id: request_id(log.thread, event_index),
                delta,
                model: current_model,
                session_id: log.thread,
                created_at: created_at_of(value, log.now),
            };
            (
                after,
                if used && is_new && !replayed {
                    Some(entry)
                } else {
                    None
                },
                used && is_new && replayed,
            )
        },
        None => (ParseView { current_model, replay_phase: phase, ..s }, None, false),
    }
}

/// What a line does. A line that is not new is read for what is remembered alone.
pub open spec fn scan_step(s: ParseView, log: LogContext, line: Seq<char>, is_new: bool) -> (
    ParseView,
    Option<EntryView>,
    bool,
) {
    if !is_relevant(line) {
        (s, None, false)
    } else {
        match json::json_parsed(line) {
            Some(value) => if json::field_text(value, "type"@) == Some("turn_context"@) {
                (
                    ParseView {
                        current_model: model_after(s.current_model, turn_model(value)),
                        ..s
                    },
                    None,
                    false,
                )
            } else {
                match replay::token_info(value) {
                    Some(info) => match tokens::signature_of(info) {
                        Some(signature) => count_step(s, log, value, info, signature, is_new),
                        None => (s, None, false),
                    },
                    None => (s, None, false),
                }
            },
            None => (s, None, false),
        }
    }
}

/// When a line was written; `now` where it does not say.
pub fn resolve_codex_created_at(value: &Json, now: i64) -> (r: i64)
    ensures
        r == created_at_of(value@, now),
{
    match meta::parse_timestamp(value) {
        Some(instant) => instant.seconds,
        None => now,
    }
}

impl FileParseState {
    /// Takes the model that a value names.
    fn take_model(&mut self, named: Option<&Json>)
        ensures
            final(self)@ == (ParseView {
                current_model: model_after(old(self)@.current_model, json::option_model(named)),
                ..old(self)@
            }),
    {
        if let Some(named) = named {
            if let Some(name) = named.as_str() {
                self.current_model = model::normalize_codex_model(name);
            }
        }
    }

    /// What a `token_count` line does.
    fn count_line(
        &mut self,
        root_thread_id: &str,
        parent: &Vec<TokenUsageSignature>,
        now: i64,
        value: &Json,
        info: &Json,
        signature: &TokenUsageSignature,
        is_new: bool,
    ) -> (r: (Option<PendingCodexEntry>, bool))
        requires
            replay::phase_fits(old(self)@.replay_phase, parent@),
        ensures
            (final(self)@, entry_view(r.0), r.1) == count_step(
                old(self)@,
                (LogContext { thread: root_thread_id@, parent: parent@, now }),
                value@,
                info@,
                *signature,
                is_new,
            ),
            replay::phase_fits(final(self)@.replay_phase, parent@),
    {
        let replayed = replay::consume_replay_signature(&mut self.replay_phase, parent, signature);
        let named = match info.get("model") {
            Some(named) => Some(named),
            None => match info.get("model_name") {
                Some(named) => Some(named),
                None => match value.get("payload") {
                    Some(payload) => payload.get("model"),
                    None => None,
                },
            },
        };
        self.take_model(named);
        let usage = match usage_of(info) {
            Some(usage) => usage,
            None => {
                return (None, false);
            },
        };
        let delta = usage_delta(&self.prev_total, &usage);
        if usage.1 {
            self.prev_total = Some(usage.0);
        }
        let used = !delta.is_zero();
        if used {
            self.event_index = self.event_index.saturating_add(1);
        }
        if !used || !is_new {
            return (None, false);
        }
        if replayed {
            return (None, true);
        }
        let mut request_id = text::concat3("codex_session:thread-v1:", root_thread_id, ":");
        request_id.append(text::number_text(self.event_index as u64).as_str());
        let entry = PendingCodexEntry {
            request_id,
            delta,
            model: self.current_model.clone(),
            session_id: root_thread_id.to_owned(),
            created_at: resolve_codex_created_at(value, now),
        };
        (Some(entry), false)
    }

    /// What a line does: the call to bill, and whether a new use was left out
    /// because it is a replayed one.
    pub fn scan_line(
        &mut self,
        root_thread_id: &str,
        parent: &Vec<TokenUsageSignature>,
        now: i64,
        line: &str,
        is_new: bool,
    ) -> (r: (Option<PendingCodexEntry>, bool))
        requires
            replay::phase_fits(old(self)@.replay_phase, parent@),
        ensures
            (final(self)@, entry_view(r.0), r.1) == scan_step(
                old(self)@,
                (LogContext { thread: root_thread_id@, parent: parent@, now }),
                line@,
                is_new,
            ),
            replay::phase_fits(final(self)@.replay_phase, parent@),
    {
        if !relevant(line) {
            return (None, false);
        }
        let value = match json::parse_json(line) {
            Some(value) => value,
            None => {
                return (None, false);
            },
        };
        let is_turn = match value.get_str("type") {
            Some(kind) => text::same_text(kind, "turn_context"),
            None => false,
        };
        if is_turn {
            let named = match value.get("payload") {
                Some(payload) => match payload.get("model") {
                    Some(named) => Some(named),
                    None => match payload.get("info") {
                        Some(info) => info.get("model"),
                        None => None,
                    },
                },
                None => None,
            };
            self.take_model(named);
            return (None, false);
        }
        if let Some(info) = replay::token_count_info(&value) {
            if let Some(signature) = tokens::parse_token_signature(info) {
                return self.count_line(root_thread_id, parent, now, &value, info, &signature, is_new);
            }
        }
        (None, false)
    }
}

/// The model of an optional call to bill.
pub open spec fn entry_view(entry: Option<PendingCodexEntry>) -> Option<EntryView> {
    match entry {
        Some(entry) => Some(entry@),
        None => None,
    }
}

/// What the lines of a log do, of which those from `history` on are new: what is
/// remembered after them, the calls to bill, and how many new uses were left out
/// because they are replayed ones.
pub open spec fn scan_all(s: ParseView, log: LogContext, lines: Seq<Seq<char>>, history: int) -> (
    ParseView,
    Seq<EntryView>,
    nat,
)
    decreases lines.len(),
{
    if lines.len() == 0 {
        (s, Seq::empty(), 0)
    } else {
        let (before, entries, skipped) = scan_all(s, log, lines.drop_last(), history);
        let (after, entry, left_out) = scan_step(
            before,
            log,
            lines.last(),
            lines.len() - 1 >= history,
        );
        (
            after,
            match entry {
                Some(entry) => entries.push(entry),
                None => entries,
            },
            if left_out {
                skipped + 1
            } else {
                skipped
            },
        )
    }
}

/// The models of a list of calls to bill.
pub open spec fn entry_views(entries: Seq<PendingCodexEntry>) -> Seq<EntryView> {
    Seq::new(entries.len(), |i: int| entries[i]@)
}

/// What the lines of a log come to.
#[derive(Debug)]
pub struct ScanOutcome {
    pub entries: Vec<PendingCodexEntry>,
    pub replay_skipped: u32,
}

impl FileParseState {
    /// What the lines of a log do, of which those from `history` on are new.
    pub fn scan_lines(
        &mut self,
        root_thread_id: &str,
        parent: &Vec<TokenUsageSignature>,
        now: i64,
        lines: &Vec<String>,
        history: usize,
    ) -> (r: ScanOutcome)
        requires
            replay::phase_fits(old(self)@.replay_phase, parent@),
        ensures
            ({
                let log = LogContext { thread: root_thread_id@, parent: parent@, now };
                let (after, entries, skipped) = scan_all(
                    old(self)@,
                    log,
                    text::views(lines@),
                    history as int,
                );
                &&& final(self)@ == after
                &&& entry_views(r.entries@) == entries
                &&& r.replay_skipped == if skipped < u32::MAX {
                    skipped as int
                } else {
                    u32::MAX as int
                }
            }),
            replay::phase_fits(final(self)@.replay_phase, parent@),
    {
        let ghost log = LogContext { thread: root_thread_id@, parent: parent@, now };
        let ghost all = text::views(lines@);
        let mut entries: Vec<PendingCodexEntry> = Vec::new();
        let mut replay_skipped: u32 = 0;
        let mut i: usize = 0;
        assert(entry_views(entries@) =~= Seq::empty());
        while i < lines.len()
            invariant
                i <= lines@.len() == all.len(),
                all == text::views(lines@),
                log == (LogContext { thread: root_thread_id@, parent: parent@, now }),
                replay::phase_fits(self@.replay_phase, parent@),
                ({
                    let (after, sent, skipped) = scan_all(
                        old(self)@,
                        log,
                        all.take(i as int),
                        history as int,
                    );
                    &&& self@ == after
                    &&& entry_views(entries@) == sent
                    &&& replay_skipped == if skipped < u32::MAX {
                        skipped as int
                    } else {
                        u32::MAX as int
                    }
                }),
            decreases lines@.len() - i,
        {
            assert(all.take(i + 1).drop_last() == all.take(i as int));
            assert(all.take(i + 1).last() == lines@[i as int]@);
            let ghost before = entry_views(entries@);
            let (entry, left_out) = self.scan_line(
                root_thread_id,
                parent,
                now,
                lines[i].as_str(),
                i >= history,
            );
            if left_out {
                replay_skipped = replay_skipped.saturating_add(1);
            }
            if let Some(entry) = entry {
                entries.push(entry);
                assert(entry_views(entries@) =~= before.push(entry@));
            }
            i = i + 1;
        }
        assert(all.take(i as int) == all);
        ScanOutcome { entries, replay_skipped }
    }
}

/// A line that is not new bills nothing and leaves nothing out, and is remembered
/// just as if it were new.
pub proof fn law_history_only_rebuilds_state(s: ParseView, log: LogContext, line: Seq<char>)
    ensures
        scan_step(s, log, line, false).0 == scan_step(s, log, line, true).0,
        scan_step(s, log, line, false).1 is None,
        !scan_step(s, log, line, false).2,
{
}

/// Whatever a log holds, a call that is billed uses tokens, reads no more of them from
/// a cache than it takes in, and is one of the log's own thread.
pub proof fn law_billed_calls_are_sound(
    s: ParseView,
    log: LogContext,
    lines: Seq<Seq<char>>,
    history: int,
)
    ensures
        forall|i: int|
            0 <= i < scan_all(s, log, lines, history).1.len() ==> {
                let entry = #[trigger] scan_all(s, log, lines, history).1[i];
                &&& !tokens::nothing_used(entry.delta)
                &&& entry.delta.cached_input <= entry.delta.input
                &&& entry.session_id == log.thread
            },
    decreases lines.len(),
{
    if lines.len() > 0 {
        law_billed_calls_are_sound(s, log, lines.drop_last(), history);
        let before = scan_all(s, log, lines.drop_last(), history);
        let all = scan_all(s, log, lines, history).1;
        assert forall|i: int| 0 <= i < all.len() implies {
            let entry = #[trigger] all[i];
            &&& !tokens::nothing_used(entry.delta)
            &&& entry.delta.cached_input <= entry.delta.input
            &&& entry.session_id == log.thread
        } by {
            if i < before.1.len() {
                assert(all[i] == before.1[i]);
            }
        }
    }
}

/// Lines that are not new bill nothing, and are remembered just as if they were.
proof fn lemma_history(s: ParseView, log: LogContext, lines: Seq<Seq<char>>, history: int)
    requires
        lines.len() <= history,
    ensures
        scan_all(s, log, lines, history).0 == scan_all(s, log, lines, 0).0,
        scan_all(s, log, lines, history).1 == Seq::<EntryView>::empty(),
        scan_all(s, log, lines, history).2 == 0,
    decreases lines.len(),
{
    if lines.len() > 0 {
        lemma_history(s, log, lines.drop_last(), history);
    }
}

/// Going on from what was remembered after `a` does the same as reading `a` again
/// and going on: the same calls are billed, and the same is remembered.
pub proof fn law_resuming_equals_replaying(
    s: ParseView,
    log: LogContext,
    a: Seq<Seq<char>>,
    b: Seq<Seq<char>>,
)
    ensures
        scan_all(s, log, a + b, a.len() as int) == scan_all(scan_all(s, log, a, 0).0, log, b, 0),
    decreases b.len(),
{
    if b.len() == 0 {
        assert(a + b =~= a);
        lemma_history(s, log, a, a.len() as int);
    } else {
        assert((a + b).drop_last() == a + b.drop_last());
        law_resuming_equals_replaying(s, log, a, b.drop_last());
    }
}

/// Reading a log in two goes bills what reading it in one go bills, nothing twice
/// and nothing not at all.
pub proof fn law_two_goes_bill_what_one_bills(
    s: ParseView,
    log: LogContext,
    a: Seq<Seq<char>>,
    b: Seq<Seq<char>>,
)
    ensures
        scan_all(s, log, a + b, 0).0 == scan_all(s, log, a + b, a.len() as int).0,
        scan_all(s, log, a + b, 0).1 == scan_all(s, log, a, 0).1 + scan_all(
            s,
            log,
            a + b,
            a.len() as int,
        ).1,
        scan_all(s, log, a + b, 0).2 == scan_all(s, log, a, 0).2 + scan_all(
            s,
            log,
            a + b,
            a.len() as int,
        ).2,
    decreases b.len(),
{
    if b.len() == 0 {
        assert(a + b =~= a);
        lemma_history(s, log, a, a.len() as int);
        assert(scan_all(s, log, a, 0).1 + Seq::<EntryView>::empty() =~= scan_all(s, log, a, 0).1);
    } else {
        assert((a + b).drop_last() == a + b.drop_last());
        law_two_goes_bill_what_one_bills(s, log, a, b.drop_last());
        let first = scan_all(s, log, a, 0).1;
        let whole = scan_all(s, log, a + b, a.len() as int).1;
        assert(scan_all(s, log, a + b, 0).1 =~= first + whole);
    }
}

/// Requests with different numbers have different ids.
proof fn lemma_request_id_injective(thread: Seq<char>, a: u32, b: u32)
    requires
        request_id(thread, a) == request_id(thread, b),
    ensures
        a == b,
{
    let head = "codex_session:thread-v1:"@ + thread + ":"@;
    let n = head.len() as int;
    assert(request_id(thread, a).skip(n) =~= text::decimal(a as nat));
    assert(request_id(thread, b).skip(n) =~= text::decimal(b as nat));
    text::lemma_decimal_injective(a as nat, b as nat);
}

/// Whether an id is that of a request with a number above `low` and up to `high`.
spec fn numbered(id: Seq<char>, thread: Seq<char>, low: u32, high: u32) -> bool {
    exists|k: u32| low < k <= high && id == #[trigger] request_id(thread, k)
}

/// The numbers of the calls to bill grow with the events.
proof fn lemma_request_numbers(s: ParseView, log: LogContext, lines: Seq<Seq<char>>, history: int)
    requires
        scan_all(s, log, lines, history).0.event_index < u32::MAX,
    ensures
        s.event_index <= scan_all(s, log, lines, history).0.event_index,
        forall|i: int|
            0 <= i < scan_all(s, log, lines, history).1.len() ==> numbered(
                (#[trigger] scan_all(s, log, lines, history).1[i]).request_id,
                log.thread,
                s.event_index,
                scan_all(s, log, lines, history).0.event_index,
            ),
        forall|i: int, j: int|
            0 <= i < j < scan_all(s, log, lines, history).1.len() ==> (#[trigger] scan_all(
                s,
                log,
                lines,
                history,
            ).1[i]).request_id != (#[trigger] scan_all(s, log, lines, history).1[j]).request_id,
    decreases lines.len(),
{
    if lines.len() > 0 {
        let (before, entries, _) = scan_all(s, log, lines.drop_last(), history);
        let (after, entry, _) = scan_step(before, log, lines.last(), lines.len() - 1 >= history);
        assert(before.event_index <= after.event_index);
        lemma_request_numbers(s, log, lines.drop_last(), history);
        let all = scan_all(s, log, lines, history).1;
        assert forall|i: int| 0 <= i < all.len() implies numbered(
            (#[trigger] all[i]).request_id,
            log.thread,
            s.event_index,
            after.event_index,
        ) by {
            if i < entries.len() {
                assert(all[i] == entries[i]);
                let k = choose|k: u32|
                    s.event_index < k <= before.event_index && entries[i].request_id
                        == #[trigger] request_id(log.thread, k);
                assert(all[i].request_id == request_id(log.thread, k));
            } else {
                assert(all[i].request_id == request_id(log.thread, after.event_index));
            }
        }
        if let Some(entry) = entry {
            assert(after.event_index == before.event_index + 1);
            assert(entry.request_id == request_id(log.thread, after.event_index));
            assert forall|i: int, j: int| 0 <= i < j < all.len() implies (
            #[trigger] all[i]).request_id != (#[trigger] all[j]).request_id by {
                assert(all[i] == entries[i]);
                if j < entries.len() {
                    assert(all[j] == entries[j]);
                } else {
                    assert(numbered(
                        entries[i].request_id,
                        log.thread,
                        s.event_index,
                        before.event_index,
                    ));
                    let k = choose|k: u32|
                        s.event_index < k <= before.event_index && entries[i].request_id
                            == #[trigger] request_id(log.thread, k);
                    if all[i].request_id == all[j].request_id {
                        lemma_request_id_injective(log.thread, k, after.event_index);
                    }
                }
            }
        }
    }
}

/// No two calls out of one log have the same request id, as long as the events of
/// the log can be numbered.
pub proof fn law_request_ids_are_distinct(
    s: ParseView,
    log: LogContext,
    lines: Seq<Seq<char>>,
    history: int,
    i: int,
    j: int,
)
    requires
        scan_all(s, log, lines, history).0.event_index < u32::MAX,
        0 <= i < j < scan_all(s, log, lines, history).1.len(),
    ensures
        scan_all(s, log, lines, history).1[i].request_id != scan_all(
            s,
            log,
            lines,
            history,
        ).1[j].request_id,
{
    lemma_request_numbers(s, log, lines, history);
}

/// The signature of a line that counts.
pub open spec fn counted_signature(line: Seq<char>) -> Option<TokenUsageSignature> {
    if is_relevant(line) {
        match json::json_parsed(line) {
            Some(value) => if json::field_text(value, "type"@) == Some("turn_context"@) {
                None
            } else {
                match replay::token_info(value) {
                    Some(info) => tokens::signature_of(info),
                    None => None,
                }
            },
            None => None,
        }
    } else {
        None
    }
}

/// The signatures of the lines of a log that count.
pub open spec fn log_signatures(lines: Seq<Seq<char>>) -> Seq<TokenUsageSignature>
    decreases lines.len(),
{
    if lines.len() == 0 {
        Seq::empty()
    } else {
        let before = log_signatures(lines.drop_last());
        match counted_signature(lines.last()) {
            Some(signature) => before.push(signature),
            None => before,
        }
    }
}

/// How far a log has been told from the replay of its parent depends on the
/// signatures of its lines alone.
proof fn lemma_phase_of_scan(s: ParseView, log: LogContext, lines: Seq<Seq<char>>, history: int)
    ensures
        scan_all(s, log, lines, history).0.replay_phase == replay::phase_after(
            s.replay_phase,
            log.parent,
            log_signatures(lines),
        ),
    decreases lines.len(),
{
    if lines.len() > 0 {
        lemma_phase_of_scan(s, log, lines.drop_last(), history);
        if let Some(signature) = counted_signature(lines.last()) {
            let all = log_signatures(lines);
            assert(all.drop_last() =~= log_signatures(lines.drop_last()));
        }
    }
}

/// What is replayed is not billed.
proof fn lemma_replay_bills_nothing(s: ParseView, log: LogContext, lines: Seq<Seq<char>>, history: int)
    requires
        forall|i: int|
            0 <= i < log_signatures(lines).len() ==> #[trigger] replay::is_replayed(
                s.replay_phase,
                log.parent,
                log_signatures(lines),
                i,
            ),
    ensures
        scan_all(s, log, lines, history).1 == Seq::<EntryView>::empty(),
    decreases lines.len(),
{
    if lines.len() > 0 {
        let all = log_signatures(lines);
        let before = log_signatures(lines.drop_last());
        assert forall|i: int| 0 <= i < before.len() implies #[trigger] replay::is_replayed(
            s.replay_phase,
            log.parent,
            before,
            i,
        ) by {
            assert(replay::is_replayed(s.replay_phase, log.parent, all, i));
            assert(all.take(i) =~= before.take(i));
        }
        lemma_replay_bills_nothing(s, log, lines.drop_last(), history);
        lemma_phase_of_scan(s, log, lines.drop_last(), history);
        if let Some(signature) = counted_signature(lines.last()) {
            let n = before.len() as int;
            assert(replay::is_replayed(s.replay_phase, log.parent, all, n));
            assert(all.take(n) =~= before);
        }
    }
}

/// A forked log that holds nothing but what its parent holds, perhaps with events
/// left out, bills nothing: what it repeats was billed with the parent.
pub proof fn law_pure_replay_bills_nothing(
    log: LogContext,
    lines: Seq<Seq<char>>,
    history: int,
    positions: Seq<int>,
)
    requires
        log.parent.len() <= usize::MAX,
        positions.len() == log_signatures(lines).len(),
        forall|i: int|
            0 <= i < positions.len() ==> 0 <= #[trigger] positions[i] < log.parent.len()
                && log.parent[positions[i]] == log_signatures(lines)[i],
        forall|i: int, j: int| 0 <= i < j < positions.len() ==> positions[i] < positions[j],
    ensures
        scan_all(
            initial_state(ReplayPhase::Matching { parent_offset: 0 }),
            log,
            lines,
            history,
        ).1 == Seq::<EntryView>::empty(),
{
    replay::law_subsequences_are_replayed(log.parent, log_signatures(lines), positions);
    lemma_replay_bills_nothing(
        initial_state(ReplayPhase::Matching { parent_offset: 0 }),
        log,
        lines,
        history,
    );
}

} // verus!
