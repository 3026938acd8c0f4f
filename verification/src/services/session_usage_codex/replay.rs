//! Telling the replay at the beginning of a forked log from what is new in it.
//!
//! A forked log begins with events of its parent, perhaps not all of them. Its
//! events are matched with those of the parent, in order, until one does not
//! match; from there on the log is live.

use vstd::prelude::*;
use vstd::string::*;
use crate::json;
use crate::json::{Json, JsonView};
use crate::services::session_usage_codex::meta;
use crate::services::session_usage_codex::meta::Instant;
use crate::services::session_usage_codex::tokens;
use crate::services::session_usage_codex::tokens::TokenUsageSignature;
use crate::text;

verus! {

/// How far a log has been told from the replay of its parent.
#[derive(Debug, Clone, Copy, PartialEq, Eq, Structural)]
pub enum ReplayPhase {
    /// Its events are still those of the parent, up to `parent_offset`.
    Matching { parent_offset: usize },
    /// Its events are its own.
    Live,
}

/// Whether a phase is one that a parent with these events can be in.
pub open spec fn phase_fits(phase: ReplayPhase, parent: Seq<TokenUsageSignature>) -> bool {
    phase matches ReplayPhase::Matching { parent_offset } ==> parent_offset <= parent.len()
}

/// The first position, from `from` on, at which a signature stands.
pub open spec fn first_match(
    parent: Seq<TokenUsageSignature>,
    signature: TokenUsageSignature,
    from: int,
) -> Option<int>
    decreases parent.len() - from,
{
    if from < 0 || from >= parent.len() {
        None
    } else if parent[from] == signature {
        Some(from)
    } else {
        first_match(parent, signature, from + 1)
    }
}

/// The phase after an event, and whether the event is a replayed one.
pub open spec fn consume(
    phase: ReplayPhase,
    parent: Seq<TokenUsageSignature>,
    signature: TokenUsageSignature,
) -> (ReplayPhase, bool) {
    match phase {
        ReplayPhase::Matching { parent_offset } => match first_match(
            parent,
            signature,
            parent_offset as int,
        ) {
            Some(i) => (ReplayPhase::Matching { parent_offset: (i + 1) as usize }, true),
            None => (ReplayPhase::Live, false),
        },
        ReplayPhase::Live => (ReplayPhase::Live, false),
    }
}

/// Tells whether an event is a replayed one.
pub fn consume_replay_signature(
    phase: &mut ReplayPhase,
    parent: &Vec<TokenUsageSignature>,
    signature: &TokenUsageSignature,
) -> (replayed: bool)
    requires
        phase_fits(*old(phase), parent@),
    ensures
        (*final(phase), replayed) == consume(*old(phase), parent@, *signature),
        phase_fits(*final(phase), parent@),
{
    match *phase {
        ReplayPhase::Matching { parent_offset } => {
            let mut i: usize = parent_offset;
            while i < parent.len()
                invariant
                    parent_offset <= i <= parent@.len(),
                    *phase == *old(phase),
                    *phase == (ReplayPhase::Matching { parent_offset }),
                    first_match(parent@, *signature, parent_offset as int) == first_match(
                        parent@,
                        *signature,
                        i as int,
                    ),
                decreases parent@.len() - i,
            {
                if parent[i] == *signature {
                    *phase = ReplayPhase::Matching { parent_offset: i + 1 };
                    return true;
                }
                i = i + 1;
            }
            *phase = ReplayPhase::Live;
            false
        },
        ReplayPhase::Live => false,
    }
}

/// The `info` of a `token_count` line.
pub open spec fn token_info(value: JsonView) -> Option<JsonView> {
    if json::field_text(value, "type"@) == Some("event_msg"@) {
        match value.field("payload"@) {
            Some(payload) => if json::field_text(payload, "type"@) == Some("token_count"@) {
                match payload.field("info"@) {
                    Some(info) => if info is Null {
                        None
                    } else {
                        Some(info)
                    },
                    None => None,
                }
            } else {
                None
            },
            None => None,
        }
    } else {
        None
    }
}

/// The `info` of a `token_count` line.
pub fn token_count_info(value: &Json) -> (r: Option<&Json>)
    ensures
        json::option_model(r) == token_info(value@),
{
    let is_event = match value.get_str("type") {
        Some(kind) => text::same_text(kind, "event_msg"),
        None => false,
    };
    if !is_event {
        return None;
    }
    match value.get("payload") {
        Some(payload) => {
            let is_count = match payload.get_str("type") {
                Some(kind) => text::same_text(kind, "token_count"),
                None => false,
            };
            if !is_count {
                return None;
            }
            match payload.get("info") {
                Some(info) => if info.is_null() {
                    None
                } else {
                    Some(info)
                },
                None => None,
            }
        },
        None => None,
    }
}

/// The value of a line.
pub open spec fn line_value(line: Option<Seq<char>>) -> Option<JsonView> {
    match line {
        Some(line) => json::json_parsed(line),
        None => None,
    }
}

/// The instant of a line.
pub open spec fn instant_in(line: Option<Seq<char>>) -> Option<Instant> {
    match line_value(line) {
        Some(value) => meta::line_instant(value),
        None => None,
    }
}

/// The signature of a `token_count` line.
pub open spec fn signature_in(line: Option<Seq<char>>) -> Option<TokenUsageSignature> {
    match line_value(line) {
        Some(value) => match token_info(value) {
            Some(info) => tokens::signature_of(info),
            None => None,
        },
        None => None,
    }
}

/// Whether a `token_count` line does not say when it was written.
pub open spec fn is_untimed(line: Option<Seq<char>>) -> bool {
    signature_in(line) is Some && instant_in(line) is None
}

/// Whether a `token_count` line of a log does not say when it was written.
pub open spec fn has_untimed(lines: Seq<Option<Seq<char>>>) -> bool {
    exists|i: int| 0 <= i < lines.len() && is_untimed(#[trigger] lines[i])
}

/// The later of two instants.
pub open spec fn later(a: Option<Instant>, b: Option<Instant>) -> Option<Instant> {
    match (a, b) {
        (Some(x), Some(y)) => if x.before(y) {
            Some(y)
        } else {
            Some(x)
        },
        (None, b) => b,
        (a, None) => a,
    }
}

/// The latest instant in a log.
pub open spec fn latest(lines: Seq<Option<Seq<char>>>) -> Option<Instant>
    decreases lines.len(),
{
    if lines.len() == 0 {
        None
    } else {
        later(latest(lines.drop_last()), instant_in(lines.last()))
    }
}

/// The signatures of the `token_count` lines of a log up to an instant.
pub open spec fn signatures_until(lines: Seq<Option<Seq<char>>>, cutoff: Instant) -> Seq<
    TokenUsageSignature,
>
    decreases lines.len(),
{
    if lines.len() == 0 {
        Seq::empty()
    } else {
        let before = signatures_until(lines.drop_last(), cutoff);
        match (signature_in(lines.last()), instant_in(lines.last())) {
            (Some(signature), Some(instant)) => if cutoff.before(instant) {
                before
            } else {
                before.push(signature)
            },
            _ => before,
        }
    }
}

/// Whether a log has been written up to an instant.
pub open spec fn reaches(lines: Seq<Option<Seq<char>>>, cutoff: Instant) -> bool {
    latest(lines) matches Some(instant) && !instant.before(cutoff)
}

/// What was read of one of the logs of a parent.
pub type Snapshot = Result<Vec<TokenUsageSignature>, String>;

/// The model of a [`Snapshot`].
pub enum SnapshotView {
    Events(Seq<TokenUsageSignature>),
    Failure(Seq<char>),
}

/// The model of a snapshot.
pub open spec fn snapshot_view(snapshot: Snapshot) -> SnapshotView {
    match snapshot {
        Ok(signatures) => SnapshotView::Events(signatures@),
        Err(reason) => SnapshotView::Failure(reason@),
    }
}

/// The models of snapshots.
pub open spec fn snapshot_views(snapshots: Seq<Snapshot>) -> Seq<SnapshotView> {
    Seq::new(snapshots.len(), |i: int| snapshot_view(snapshots[i]))
}

/// What the log at `path` holds up to an instant: the signatures of its `token_count`
/// lines. They are not told where such a line does not say when it was written, nor
/// where the log has not been written up to the instant.
pub open spec fn snapshot_before(lines: Seq<Option<Seq<char>>>, cutoff: Instant, path: Seq<char>) -> SnapshotView {
    if has_untimed(lines) {
        SnapshotView::Failure("父 rollout "@ + path + " 的 token_count 缺少有效 timestamp"@)
    } else if !reaches(lines, cutoff) {
        SnapshotView::Failure("父 rollout "@ + path + " 尚未写到 child fork 时刻"@)
    } else {
        SnapshotView::Events(signatures_until(lines, cutoff))
    }
}

/// What the log at `path` holds up to an instant.
pub fn parent_signatures_before(lines: &Vec<Option<String>>, cutoff: Instant, path: &str) -> (r:
    Snapshot)
    ensures
        snapshot_view(r) == snapshot_before(meta::line_views(lines@), cutoff, path@),
{
    let ghost all = meta::line_views(lines@);
    let mut signatures: Vec<TokenUsageSignature> = Vec::new();
    let mut max_timestamp: Option<Instant> = None;
    let mut i: usize = 0;
    while i < lines.len()
        invariant
            i <= lines@.len() == all.len(),
            all == meta::line_views(lines@),
            signatures@ == signatures_until(all.take(i as int), cutoff),
            max_timestamp == latest(all.take(i as int)),
            forall|k: int| 0 <= k < i ==> !is_untimed(#[trigger] all[k]),
        decreases lines@.len() - i,
    {
        assert(all.take(i + 1).drop_last() == all.take(i as int));
        assert(all.take(i + 1).last() == all[i as int]);
        assert(all[i as int] == text::option_view(lines@[i as int]));
        let value = match &lines[i] {
            Some(line) => json::parse_json(line.as_str()),
            None => None,
        };
        if let Some(value) = value {
            let timestamp = meta::parse_timestamp(&value);
            max_timestamp = match (max_timestamp, timestamp) {
                (Some(x), Some(y)) => if x.is_before(&y) {
                    Some(y)
                } else {
                    Some(x)
                },
                (None, y) => y,
                (x, None) => x,
            };
            if let Some(info) = token_count_info(&value) {
                if let Some(signature) = tokens::parse_token_signature(info) {
                    match timestamp {
                        Some(instant) => {
                            if !cutoff.is_before(&instant) {
                                signatures.push(signature);
                            }
                        },
                        None => {
                            assert(is_untimed(all[i as int]));
                            return Err(
                                text::concat3(
                                    "父 rollout ",
                                    path,
                                    " 的 token_count 缺少有效 timestamp",
                                ),
                            );
                        },
                    }
                }
            }
        }
        i = i + 1;
    }
    assert(all.take(i as int) == all);
    let reached = match max_timestamp {
        Some(instant) => !instant.is_before(&cutoff),
        None => false,
    };
    if !reached {
        return Err(text::concat3("父 rollout ", path, " 尚未写到 child fork 时刻"));
    }
    Ok(signatures)
}

/// The first of the snapshots that failed.
pub open spec fn first_failure(snapshots: Seq<SnapshotView>) -> Option<Seq<char>>
    decreases snapshots.len(),
{
    if snapshots.len() == 0 {
        None
    } else {
        match snapshots[0] {
            SnapshotView::Failure(reason) => Some(reason),
            SnapshotView::Events(_) => first_failure(snapshots.drop_first()),
        }
    }
}

/// Whether every snapshot is of the same events as the first.
pub open spec fn all_agree(snapshots: Seq<SnapshotView>) -> bool {
    forall|i: int| 0 <= i < snapshots.len() ==> snapshots[0] == #[trigger] snapshots[i]
}

/// The events of a parent, out of what was read of each of its logs. They cannot be
/// told where it has no log, where one of them could not be read, and where they
/// differ.
pub open spec fn parent_events(parent_id: Seq<char>, snapshots: Option<Seq<SnapshotView>>) -> SnapshotView {
    match snapshots {
        Some(list) => if list.len() == 0 {
            SnapshotView::Failure("找不到父 rollout: "@ + parent_id)
        } else if first_failure(list) is Some {
            SnapshotView::Failure(first_failure(list).unwrap())
        } else if !all_agree(list) {
            SnapshotView::Failure("父 rollout UUID "@ + parent_id + " 对应多个内容不一致的文件"@)
        } else {
            list[0]
        },
        None => SnapshotView::Failure("找不到父 rollout: "@ + parent_id),
    }
}

/// The model of the snapshots of a parent that may have no log.
pub open spec fn parent_views(snapshots: Option<Vec<Snapshot>>) -> Option<Seq<SnapshotView>> {
    match snapshots {
        Some(list) => Some(snapshot_views(list@)),
        None => None,
    }
}

/// The events of a parent, out of what was read of each of its logs.
pub fn resolve_parent_signatures(parent_id: &str, snapshots: &Option<Vec<Snapshot>>) -> (r: Snapshot)
    ensures
        snapshot_view(r) == parent_events(parent_id@, parent_views(*snapshots)),
{
    let list = match snapshots {
        Some(list) => list,
        None => {
            return Err(text::concat2("找不到父 rollout: ", parent_id));
        },
    };
    if list.len() == 0 {
        return Err(text::concat2("找不到父 rollout: ", parent_id));
    }
    let ghost all = snapshot_views(list@);
    let mut i: usize = 0;
    assert(all.skip(0) == all);
    while i < list.len()
        invariant
            i <= list@.len() == all.len(),
            0 < list@.len(),
            *snapshots == Some(*list),
            all == snapshot_views(list@),
            first_failure(all) == first_failure(all.skip(i as int)),
            forall|k: int| 0 <= k < i ==> #[trigger] list@[k] is Ok,
        decreases list@.len() - i,
    {
        assert(all.skip(i as int).drop_first() == all.skip(i + 1));
        assert(all.skip(i as int)[0] == snapshot_view(list@[i as int]));
        if let Err(reason) = &list[i] {
            return Err(reason.clone());
        }
        i = i + 1;
    }
    assert(list@[0] is Ok);
    let first = match &list[0] {
        Ok(first) => first,
        Err(reason) => {
            return Err(reason.clone());
        },
    };
    let mut k: usize = 0;
    while k < list.len()
        invariant
            k <= list@.len() == all.len(),
            0 < list@.len(),
            list@[0] == Snapshot::Ok(*first),
            all == snapshot_views(list@),
            first_failure(all) is None,
            *snapshots == Some(*list),
            forall|j: int| 0 <= j < list@.len() ==> #[trigger] list@[j] is Ok,
            forall|j: int| 0 <= j < k ==> all[0] == #[trigger] all[j],
        decreases list@.len() - k,
    {
        let agrees = match &list[k] {
            Ok(other) => same_signatures(first, other),
            Err(_) => false,
        };
        assert(list@[k as int] is Ok);
        assert(all[k as int] == snapshot_view(list@[k as int]));
        if !agrees {
            assert(all[0] != all[k as int]);
            return Err(
                text::concat3("父 rollout UUID ", parent_id, " 对应多个内容不一致的文件"),
            );
        }
        k = k + 1;
    }
    Ok(copy_signatures(first))
}

/// Whether two lists of signatures are the same.
fn same_signatures(a: &Vec<TokenUsageSignature>, b: &Vec<TokenUsageSignature>) -> (r: bool)
    ensures
        r == (a@ == b@),
{
    if a.len() != b.len() {
        return false;
    }
    let mut i: usize = 0;
    while i < a.len()
        invariant
            i <= a@.len() == b@.len(),
            forall|k: int| 0 <= k < i ==> #[trigger] a@[k] == b@[k],
        decreases a@.len() - i,
    {
        if a[i] != b[i] {
            return false;
        }
        i = i + 1;
    }
    assert(a@ =~= b@);
    true
}

/// A copy of a list of signatures.
pub fn copy_signatures(list: &Vec<TokenUsageSignature>) -> (r: Vec<TokenUsageSignature>)
    ensures
        r@ == list@,
{
    let mut r: Vec<TokenUsageSignature> = Vec::new();
    let mut i: usize = 0;
    while i < list.len()
        invariant
            i <= list@.len(),
            r@ == list@.take(i as int),
        decreases list@.len() - i,
    {
        r.push(list[i]);
        assert(list@.take(i + 1) == list@.take(i as int).push(list@[i as int]));
        i = i + 1;
    }
    assert(list@.take(i as int) == list@);
    r
}

/// The phase after a list of events.
pub open spec fn phase_after(
    phase: ReplayPhase,
    parent: Seq<TokenUsageSignature>,
    events: Seq<TokenUsageSignature>,
) -> ReplayPhase
    decreases events.len(),
{
    if events.len() == 0 {
        phase
    } else {
        consume(phase_after(phase, parent, events.drop_last()), parent, events.last()).0
    }
}

/// Whether the event at position `i` is a replayed one.
pub open spec fn is_replayed(
    phase: ReplayPhase,
    parent: Seq<TokenUsageSignature>,
    events: Seq<TokenUsageSignature>,
    i: int,
) -> bool {
    consume(phase_after(phase, parent, events.take(i)), parent, events[i]).1
}

/// A match stands where it is said to stand, and at or after where the search
/// began.
proof fn lemma_first_match(parent: Seq<TokenUsageSignature>, signature: TokenUsageSignature, from: int)
    requires
        0 <= from,
    ensures
        match first_match(parent, signature, from) {
            Some(i) => {
                &&& from <= i < parent.len()
                &&& parent[i] == signature
                &&& forall|j: int| from <= j < i ==> parent[j] != signature
            },
            None => forall|j: int| from <= j < parent.len() ==> parent[j] != signature,
        },
    decreases parent.len() - from,
{
    if from < parent.len() && parent[from] != signature {
        lemma_first_match(parent, signature, from + 1);
    }
}

/// Once a log is live it stays so: no event after that is a replayed one.
pub proof fn law_live_stays_live(
    parent: Seq<TokenUsageSignature>,
    events: Seq<TokenUsageSignature>,
    i: int,
)
    requires
        0 <= i < events.len(),
    ensures
        phase_after(ReplayPhase::Live, parent, events) == ReplayPhase::Live,
        !is_replayed(ReplayPhase::Live, parent, events, i),
    decreases events.len(),
{
    if events.len() > 1 {
        law_live_stays_live(parent, events.drop_last(), 0);
    } else {
        assert(phase_after(ReplayPhase::Live, parent, events.drop_last()) == ReplayPhase::Live);
    }
    let head = events.take(i);
    if i > 0 && i < events.len() {
        law_live_stays_live(parent, head, 0);
    }
}

/// The replayed events are events of the parent, in the parent's order: each is
/// the parent's event just before the offset that it leaves behind, and the offset
/// only grows.
pub proof fn law_replayed_events_are_the_parents(
    phase: ReplayPhase,
    parent: Seq<TokenUsageSignature>,
    signature: TokenUsageSignature,
)
    requires
        phase_fits(phase, parent),
        parent.len() <= usize::MAX,
        consume(phase, parent, signature).1,
    ensures
        phase is Matching,
        match consume(phase, parent, signature).0 {
            ReplayPhase::Matching { parent_offset } => {
                &&& phase->parent_offset < parent_offset <= parent.len()
                &&& parent[parent_offset - 1] == signature
                &&& forall|j: int| phase->parent_offset <= j < parent_offset - 1
                    ==> parent[j] != signature
            },
            ReplayPhase::Live => false,
        },
{
    lemma_first_match(parent, signature, phase->parent_offset as int);
}

/// A log that holds what its parent holds, perhaps with events left out, is a
/// replay from end to end.
pub proof fn law_subsequences_are_replayed(
    parent: Seq<TokenUsageSignature>,
    events: Seq<TokenUsageSignature>,
    positions: Seq<int>,
)
    requires
        parent.len() <= usize::MAX,
        positions.len() == events.len(),
        forall|i: int|
            0 <= i < positions.len() ==> 0 <= #[trigger] positions[i] < parent.len()
                && parent[positions[i]] == events[i],
        forall|i: int, j: int| 0 <= i < j < positions.len() ==> positions[i] < positions[j],
    ensures
        match phase_after(ReplayPhase::Matching { parent_offset: 0 }, parent, events) {
            ReplayPhase::Matching { parent_offset } => if events.len() == 0 {
                parent_offset == 0
            } else {
                parent_offset <= positions.last() + 1
            },
            ReplayPhase::Live => false,
        },
        forall|i: int|
            0 <= i < events.len() ==> #[trigger] is_replayed(
                ReplayPhase::Matching { parent_offset: 0 },
                parent,
                events,
                i,
            ),
    decreases events.len(),
{
    let start = ReplayPhase::Matching { parent_offset: 0 };
    if events.len() > 0 {
        let n = events.len() - 1;
        let before = events.drop_last();
        law_subsequences_are_replayed(parent, before, positions.drop_last());
        let phase = phase_after(start, parent, before);
        let offset = phase->parent_offset as int;
        assert(offset <= positions[n]) by {
            if n > 0 {
                assert(positions.drop_last().last() == positions[n - 1]);
            }
        }
        lemma_first_match(parent, events[n], offset);
        assert forall|i: int| 0 <= i < events.len() implies #[trigger] is_replayed(
            start,
            parent,
            events,
            i,
        ) by {
            if i < n {
                assert(is_replayed(start, parent, before, i));
                assert(before.take(i) == events.take(i));
            } else {
                assert(events.take(i) == before);
            }
        }
    }
}

/// Whether a line of a log counts up to an instant: it gives token counts, and was not written
/// after that instant.
pub open spec fn counts_until(line: Option<Seq<char>>, cutoff: Instant, signature: TokenUsageSignature) -> bool {
    &&& signature_in(line) == Some(signature)
    &&& instant_in(line) matches Some(time)
    &&& time.seconds < cutoff.seconds || (time.seconds == cutoff.seconds && time.nanos
        <= cutoff.nanos)
}

/// Up to an instant a log holds just the events of the lines that were written by then, the
/// instant itself among it.
pub proof fn law_the_instant_decides(
    lines: Seq<Option<Seq<char>>>,
    cutoff: Instant,
    signature: TokenUsageSignature,
)
    ensures
        signatures_until(lines, cutoff).contains(signature) <==> exists|i: int|
            0 <= i < lines.len() && counts_until(#[trigger] lines[i], cutoff, signature),
    decreases lines.len(),
{
    if lines.len() > 0 {
        let head = lines.drop_last();
        law_the_instant_decides(head, cutoff, signature);
        let before = signatures_until(head, cutoff);
        let all = signatures_until(lines, cutoff);
        assert(lines[lines.len() - 1] == lines.last());
        if all.contains(signature) {
            let k = choose|k: int| 0 <= k < all.len() && all[k] == signature;
            if k < before.len() {
                assert(before[k] == signature);
                let i = choose|i: int|
                    0 <= i < head.len() && counts_until(#[trigger] head[i], cutoff, signature);
                assert(lines[i] == head[i]);
            } else {
                assert(counts_until(lines[lines.len() - 1], cutoff, signature));
            }
        }
        if exists|i: int|
            0 <= i < lines.len() && counts_until(#[trigger] lines[i], cutoff, signature) {
            let i = choose|i: int|
                0 <= i < lines.len() && counts_until(#[trigger] lines[i], cutoff, signature);
            if i < head.len() {
                assert(head[i] == lines[i]);
                let k = choose|k: int| 0 <= k < before.len() && before[k] == signature;
                assert(all[k] == signature);
            } else {
                assert(all[all.len() - 1] == signature);
            }
        }
    }
}

proof fn lemma_no_failure_among(list: Seq<SnapshotView>)
    ensures
        first_failure(list) is None <==> forall|i: int|
            0 <= i < list.len() ==> #[trigger] list[i] is Events,
    decreases list.len(),
{
    if list.len() > 0 {
        let tail = list.drop_first();
        lemma_no_failure_among(tail);
        assert(forall|i: int| 0 <= i < tail.len() ==> tail[i] == list[i + 1]);
        if first_failure(list) is None {
            assert forall|i: int| 0 <= i < list.len() implies #[trigger] list[i] is Events by {
                if i > 0 {
                    assert(tail[i - 1] is Events);
                }
            }
        } else if list[0] is Events {
            let i = choose|i: int| 0 <= i < tail.len() && !(#[trigger] tail[i] is Events);
            assert(!(list[i + 1] is Events));
        }
    }
}

/// The events of a parent are told just where it has a log, all of its logs could be told, and
/// all tell the same.
pub proof fn law_all_logs_of_a_parent_must_agree(
    parent_id: Seq<char>,
    list: Seq<SnapshotView>,
    events: Seq<TokenUsageSignature>,
)
    ensures
        parent_events(parent_id, Some(list)) == SnapshotView::Events(events) <==> list.len() > 0
            && forall|i: int|
            0 <= i < list.len() ==> #[trigger] list[i] == SnapshotView::Events(events),
        parent_events(parent_id, None) is Failure,
{
    lemma_no_failure_among(list);
    if list.len() > 0 && (forall|i: int|
        0 <= i < list.len() ==> #[trigger] list[i] == SnapshotView::Events(events)) {
        assert(list[0] == SnapshotView::Events(events));
        assert(all_agree(list));
    }
}

} // verus!
