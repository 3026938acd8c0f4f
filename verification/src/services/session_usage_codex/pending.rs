//! Session logs whose usage cannot be told yet, and what was read of the logs that
//! others were forked from.

use vstd::hash_map::StringHashMap;
use vstd::prelude::*;
use vstd::string::*;
use crate::services::session_usage_codex::meta;
use crate::services::session_usage_codex::meta::Instant;
use crate::services::session_usage_codex::replay;
use crate::services::session_usage_codex::rollout::RolloutIndex;
use crate::services::session_usage_codex::scan;
use crate::services::session_usage_codex::tokens::TokenUsageSignature;
use crate::text;

verus! {

/// Why the usage of a log cannot be told yet.
#[derive(Debug)]
pub enum PendingReason {
    /// The log that it was forked from is not there.
    MissingParent(String),
    /// Something that does not change unless the log does.
    Stable(String),
    /// Something that may change by itself.
    Retryable(String),
}

/// The model of [`PendingReason`].
pub enum ReasonView {
    MissingParent(Seq<char>),
    Stable(Seq<char>),
    Retryable(Seq<char>),
}

impl View for PendingReason {
    type V = ReasonView;

    open spec fn view(&self) -> ReasonView {
        match *self {
            PendingReason::MissingParent(parent) => ReasonView::MissingParent(parent@),
            PendingReason::Stable(reason) => ReasonView::Stable(reason@),
            PendingReason::Retryable(reason) => ReasonView::Retryable(reason@),
        }
    }
}

/// A log whose usage cannot be told yet, as it was when that was found.
#[derive(Debug)]
pub struct PendingEntry {
    pub modified: i64,
    pub size: u64,
    pub reason: PendingReason,
}

/// The model of [`PendingEntry`].
pub struct PendingView {
    pub modified: i64,
    pub size: u64,
    pub reason: ReasonView,
}

impl View for PendingEntry {
    type V = PendingView;

    open spec fn view(&self) -> PendingView {
        PendingView { modified: self.modified, size: self.size, reason: self.reason@ }
    }
}

/// What was read of a log up to an instant.
struct ParentEntry {
    path: String,
    micros: i128,
    signatures: Vec<TokenUsageSignature>,
}

/// What is remembered from one synchronisation to the next.
pub struct CodexReplayCaches {
    parents: Vec<ParentEntry>,
    pending: StringHashMap<PendingEntry>,
}

/// The logs whose usage cannot be told yet.
pub open spec fn pending_views(entries: Map<Seq<char>, PendingEntry>) -> Map<Seq<char>, PendingView> {
    entries.map_values(|entry: PendingEntry| entry@)
}

/// What was read of logs, the last of each log and instant.
spec fn parent_map(entries: Seq<ParentEntry>) -> Map<(Seq<char>, int), Seq<TokenUsageSignature>>
    decreases entries.len(),
{
    if entries.len() == 0 {
        Map::empty()
    } else {
        let last = entries.last();
        parent_map(entries.drop_last()).insert(
            (last.path@, last.micros as int),
            last.signatures@,
        )
    }
}

/// Whether a reason still holds of a log that has not changed.
pub open spec fn still_holds(reason: ReasonView, index: RolloutIndex) -> bool {
    match reason {
        ReasonView::MissingParent(parent) => !index.has(parent),
        ReasonView::Stable(_) => true,
        ReasonView::Retryable(_) => false,
    }
}

/// Whether what is remembered of a log is of the log as it is.
pub open spec fn is_current(entry: PendingView, modified: i64, size: u64) -> bool {
    entry.modified == modified && entry.size == size
}

/// What a reason says.
pub open spec fn reason_text(reason: ReasonView) -> Seq<char> {
    match reason {
        ReasonView::MissingParent(parent) => "找不到父 rollout "@ + parent,
        ReasonView::Stable(reason) => reason,
        ReasonView::Retryable(reason) => reason,
    }
}

impl PendingReason {
    /// What the reason says.
    pub fn text(&self) -> (r: String)
        ensures
            r@ == reason_text(self@),
    {
        match self {
            PendingReason::MissingParent(parent) => text::concat2(
                "找不到父 rollout ",
                parent.as_str(),
            ),
            PendingReason::Stable(reason) => reason.clone(),
            PendingReason::Retryable(reason) => reason.clone(),
        }
    }

    /// Whether the reason still holds of a log that has not changed.
    fn holds(&self, index: &RolloutIndex) -> (r: bool)
        ensures
            r == still_holds(self@, *index),
    {
        match self {
            PendingReason::MissingParent(parent) => !index.contains_thread(parent.as_str()),
            PendingReason::Stable(_) => true,
            PendingReason::Retryable(_) => false,
        }
    }

    /// Whether two reasons are the same.
    fn same(&self, other: &PendingReason) -> (r: bool)
        ensures
            r == (self@ == other@),
    {
        match (self, other) {
            (PendingReason::MissingParent(a), PendingReason::MissingParent(b)) => text::same_text(
                a.as_str(),
                b.as_str(),
            ),
            (PendingReason::Stable(a), PendingReason::Stable(b)) => text::same_text(
                a.as_str(),
                b.as_str(),
            ),
            (PendingReason::Retryable(a), PendingReason::Retryable(b)) => text::same_text(
                a.as_str(),
                b.as_str(),
            ),
            _ => false,
        }
    }
}

impl CodexReplayCaches {
    /// The logs whose usage cannot be told yet.
    pub closed spec fn pending(self) -> Map<Seq<char>, PendingView> {
        pending_views(self.pending@)
    }

    /// What was read of logs, each up to an instant in microseconds.
    pub closed spec fn parents(self) -> Map<(Seq<char>, int), Seq<TokenUsageSignature>> {
        parent_map(self.parents@)
    }

    /// Nothing is remembered.
    pub fn new() -> (r: CodexReplayCaches)
        ensures
            r.pending() == Map::<Seq<char>, PendingView>::empty(),
            r.parents() == Map::<(Seq<char>, int), Seq<TokenUsageSignature>>::empty(),
    {
        let r = CodexReplayCaches { parents: Vec::new(), pending: StringHashMap::new() };
        assert(r.pending() =~= Map::<Seq<char>, PendingView>::empty());
        r
    }

    /// Forgets everything.
    pub fn clear(&mut self)
        ensures
            final(self).pending() == Map::<Seq<char>, PendingView>::empty(),
            final(self).parents() == Map::<(Seq<char>, int), Seq<TokenUsageSignature>>::empty(),
    {
        *self = CodexReplayCaches::new();
    }

    /// What was read of a log up to an instant.
    pub fn parent_signatures(&self, path: &str, cutoff: &Instant) -> (r: Option<
        &Vec<TokenUsageSignature>,
    >)
        ensures
            match r {
                Some(signatures) => {
                    &&& self.parents().dom().contains((path@, cutoff.micros()))
                    &&& signatures@ == self.parents()[(path@, cutoff.micros())]
                },
                None => !self.parents().dom().contains((path@, cutoff.micros())),
            },
    {
        let micros: i128 = cutoff.timestamp_micros();
        let ghost key = (path@, micros as int);
        let mut i: usize = self.parents.len();
        assert(self.parents@.take(i as int) == self.parents@);
        while i > 0
            invariant
                i <= self.parents@.len(),
                key == (path@, micros as int),
                micros == cutoff.micros(),
                self.parents().dom().contains(key) == parent_map(
                    self.parents@.take(i as int),
                ).dom().contains(key),
                self.parents().dom().contains(key) ==> self.parents()[key] == parent_map(
                    self.parents@.take(i as int),
                )[key],
            decreases i,
        {
            let entry = &self.parents[i - 1];
            assert(self.parents@.take(i as int).drop_last() == self.parents@.take(i - 1));
            if entry.micros == micros && text::same_text(entry.path.as_str(), path) {
                return Some(&entry.signatures);
            }
            i = i - 1;
        }
        None
    }

    /// Remembers what was read of a log up to an instant.
    pub fn remember_parent(
        &mut self,
        path: &str,
        cutoff: &Instant,
        signatures: &Vec<TokenUsageSignature>,
    )
        ensures
            final(self).parents() == old(self).parents().insert(
                (path@, cutoff.micros()),
                signatures@,
            ),
            final(self).pending() == old(self).pending(),
    {
        let entry = ParentEntry {
            path: path.to_owned(),
            micros: cutoff.timestamp_micros(),
            signatures: replay::copy_signatures(signatures),
        };
        self.parents.push(entry);
        assert(self.parents@.drop_last() == old(self).parents@);
    }

    /// Whether the usage of a log still cannot be told. What is remembered of it is
    /// forgotten where it no longer holds.
    pub fn still_deferred(&mut self, path: &str, modified: i64, size: u64, index: &RolloutIndex)
        -> (r: bool)
        ensures
            final(self).parents() == old(self).parents(),
            r == (old(self).pending().dom().contains(path@) && is_current(
                old(self).pending()[path@],
                modified,
                size,
            ) && still_holds(old(self).pending()[path@].reason, *index)),
            final(self).pending() == if old(self).pending().dom().contains(path@) && is_current(
                old(self).pending()[path@],
                modified,
                size,
            ) && !r {
                old(self).pending().remove(path@)
            } else {
                old(self).pending()
            },
    {
        let (current, holds) = match self.pending.get(path) {
            Some(entry) => (
                entry.modified == modified && entry.size == size,
                entry.reason.holds(index),
            ),
            None => (false, false),
        };
        if current && !holds {
            self.pending.remove(path);
            assert(self.pending() =~= old(self).pending().remove(path@));
        }
        current && holds
    }

    /// Forgets that the usage of a log could not be told.
    pub fn settle(&mut self, path: &str)
        ensures
            final(self).parents() == old(self).parents(),
            final(self).pending() == old(self).pending().remove(path@),
    {
        self.pending.remove(path);
        assert(self.pending() =~= old(self).pending().remove(path@));
    }

    /// Remembers that the usage of a log cannot be told, and tells whether that is
    /// news.
    pub fn mark_deferred(&mut self, path: &str, modified: i64, size: u64, reason: PendingReason)
        -> (news: bool)
        ensures
            final(self).parents() == old(self).parents(),
            final(self).pending() == old(self).pending().insert(
                path@,
                (PendingView { modified, size, reason: reason@ }),
            ),
            news == !(old(self).pending().dom().contains(path@) && old(self).pending()[path@] == (
            PendingView { modified, size, reason: reason@ })),
    {
        let known = match self.pending.get(path) {
            Some(entry) => entry.modified == modified && entry.size == size && entry.reason.same(
                &reason,
            ),
            None => false,
        };
        let entry = PendingEntry { modified, size, reason };
        self.pending.insert(path.to_owned(), entry);
        assert(self.pending() =~= old(self).pending().insert(path@, entry@));
        !known
    }
}

/// What becomes of a log whose usage cannot be told.
#[derive(Debug, Clone, Copy, PartialEq, Eq, Structural)]
pub enum Deferral {
    /// It uses tokens: it is put off, which may be news.
    Deferred { news: bool },
    /// It uses none: it counts as read up to its last line.
    Advance { line_offset: i64 },
}

/// Puts off a log that uses tokens; one that uses none counts as read.
pub fn defer_billable_file_or_advance(
    lines: &Vec<Option<String>>,
    path: &str,
    modified: i64,
    size: u64,
    reason: PendingReason,
    caches: &mut CodexReplayCaches,
) -> (r: Deferral)
    requires
        lines@.len() <= i64::MAX,
    ensures
        final(caches).parents() == old(caches).parents(),
        if scan::counted(meta::line_views(lines@)).1 {
            &&& r is Deferred
            &&& final(caches).pending() == old(caches).pending().insert(
                path@,
                (PendingView { modified, size, reason: reason@ }),
            )
            &&& r->news == !(old(caches).pending().dom().contains(path@) && old(
                caches,
            ).pending()[path@] == (PendingView { modified, size, reason: reason@ }))
        } else {
            &&& r == (Deferral::Advance { line_offset: lines@.len() as i64 })
            &&& final(caches).pending() == old(caches).pending()
        },
{
    let parsed = scan::parse_codex_file(lines);
    if parsed.has_billable_tokens {
        Deferral::Deferred { news: caches.mark_deferred(path, modified, size, reason) }
    } else {
        Deferral::Advance { line_offset: parsed.line_offset }
    }
}

/// A log whose parent is missing is put off until there is a log of its parent; what may change
/// by itself is tried again each time, and what does not change is not.
pub proof fn law_a_log_is_put_off_for_as_long_as_its_reason_holds(
    index: RolloutIndex,
    parent: Seq<char>,
    words: Seq<char>,
)
    ensures
        still_holds(ReasonView::MissingParent(parent), index) <==> !index.has(parent),
        still_holds(ReasonView::Stable(words), index),
        !still_holds(ReasonView::Retryable(words), index),
{
}

/// What is remembered of a log counts only while neither its size nor the time of its last
/// change is another.
pub proof fn law_a_changed_log_is_looked_at_again(entry: PendingView, modified: i64, size: u64)
    ensures
        is_current(entry, modified, size) ==> entry.modified == modified,
        is_current(entry, modified, size) ==> entry.size == size,
        is_current(entry, entry.modified, entry.size),
{
}

} // verus!
