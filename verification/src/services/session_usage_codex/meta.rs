//! What a session log says of itself in its first `session_meta` line: when it
//! began, and which other log it was forked from.

use vstd::prelude::*;
use vstd::string::*;
use crate::json;
use crate::json::{Json, JsonView};
use crate::services::session_usage_codex::rollout;
use crate::text;

verus! {

/// A point in time: seconds since the Unix epoch, and nanoseconds.
#[derive(Debug, Clone, Copy, PartialEq, Eq, Structural)]
pub struct Instant {
    pub seconds: i64,
    pub nanos: u32,
}

impl Instant {
    /// Whether an instant comes before another one.
    pub open spec fn before(self, other: Instant) -> bool {
        self.seconds < other.seconds || (self.seconds == other.seconds && self.nanos < other.nanos)
    }

    /// Whether an instant comes before another one.
    pub fn is_before(&self, other: &Instant) -> (r: bool)
        ensures
            r == self.before(*other),
    {
        self.seconds < other.seconds || (self.seconds == other.seconds && self.nanos < other.nanos)
    }

    /// The microseconds since the Unix epoch.
    pub open spec fn micros(self) -> int {
        self.seconds * 1_000_000 + self.nanos as int / 1_000
    }

    /// The microseconds since the Unix epoch.
    pub fn timestamp_micros(&self) -> (r: i128)
        ensures
            r == self.micros(),
    {
        self.seconds as i128 * 1_000_000 + (self.nanos / 1_000) as i128
    }
}

/// The instant that `chrono` reads in a text, where the text is an RFC 3339 date
/// and time.
pub uninterp spec fn rfc3339_instant(value: Seq<char>) -> Option<Instant>;

/// `chrono::DateTime::parse_from_rfc3339`, and the seconds and nanoseconds of what
/// it gives: they depend on the text alone.
#[verifier::external_body]
pub(crate) fn parse_rfc3339(value: &str) -> (r: Option<Instant>)
    ensures
        r == rfc3339_instant(value@),
{
    chrono::DateTime::parse_from_rfc3339(value).ok().map(|time| Instant {
        seconds: time.timestamp(),
        nanos: time.timestamp_subsec_nanos(),
    })
}

/// The instant in the `timestamp` of a line.
pub open spec fn line_instant(value: JsonView) -> Option<Instant> {
    match json::field_text(value, "timestamp"@) {
        Some(timestamp) => rfc3339_instant(timestamp),
        None => None,
    }
}

/// The instant in the `timestamp` of a line.
pub fn parse_timestamp(value: &Json) -> (r: Option<Instant>)
    ensures
        r == line_instant(value@),
{
    match value.get_str("timestamp") {
        Some(timestamp) => parse_rfc3339(timestamp),
        None => None,
    }
}

/// The log that a log was forked from.
#[derive(Debug)]
pub enum ParentResolution {
    /// It was not forked.
    Root,
    /// That of this thread.
    Parent(String),
    /// It cannot be told, for this reason.
    Deferred(String),
}

/// The model of [`ParentResolution`].
pub enum ParentView {
    Root,
    Parent(Seq<char>),
    Deferred(Seq<char>),
}

impl View for ParentResolution {
    type V = ParentView;

    open spec fn view(&self) -> ParentView {
        match *self {
            ParentResolution::Root => ParentView::Root,
            ParentResolution::Parent(parent) => ParentView::Parent(parent@),
            ParentResolution::Deferred(reason) => ParentView::Deferred(reason@),
        }
    }
}

/// What a log says of itself.
#[derive(Debug)]
pub struct RootMeta {
    pub timestamp: Option<Instant>,
    pub parent: ParentResolution,
}

/// The model of [`RootMeta`].
pub struct RootMetaView {
    pub timestamp: Option<Instant>,
    pub parent: ParentView,
}

impl View for RootMeta {
    type V = RootMetaView;

    open spec fn view(&self) -> RootMetaView {
        RootMetaView { timestamp: self.timestamp, parent: self.parent@ }
    }
}

/// The text of a value, where it is one and is not empty.
pub open spec fn non_empty(value: Option<JsonView>) -> Option<Seq<char>> {
    match value {
        Some(JsonView::Text(t)) => if t.len() > 0 {
            Some(t)
        } else {
            None
        },
        _ => None,
    }
}

/// The field of an optional value.
pub open spec fn sub_field(value: Option<JsonView>, name: Seq<char>) -> Option<JsonView> {
    match value {
        Some(v) => v.field(name),
        None => None,
    }
}

/// The thread that a log says it was spawned from.
pub open spec fn spawned_from(payload: JsonView) -> Option<Seq<char>> {
    non_empty(
        sub_field(
            sub_field(sub_field(payload.field("source"@), "subagent"@), "thread_spawn"@),
            "parent_thread_id"@,
        ),
    )
}

/// The log that a log says it was forked from, in either of two ways.
pub open spec fn explicit_parent(payload: JsonView) -> ParentView {
    match (non_empty(payload.field("forked_from_id"@)), spawned_from(payload)) {
        (None, None) => ParentView::Root,
        (Some(parent), None) => ParentView::Parent(parent),
        (None, Some(parent)) => ParentView::Parent(parent),
        (Some(forked), Some(spawned)) => if forked == spawned {
            ParentView::Parent(forked)
        } else {
            ParentView::Deferred(
                "forked_from_id ("@ + forked + ") 与 thread_spawn.parent_thread_id ("@ + spawned
                    + ") 不一致"@,
            )
        },
    }
}

/// The thread that a log says it belongs to.
pub open spec fn stated_thread(payload: JsonView) -> Option<Seq<char>> {
    non_empty(
        match payload.field("id"@) {
            Some(id) => Some(id),
            None => match payload.field("thread_id"@) {
                Some(id) => Some(id),
                None => payload.field("threadId"@),
            },
        },
    )
}

/// The payload of a line; `null` where it has none.
pub open spec fn payload_of(value: JsonView) -> JsonView {
    match value.field("payload"@) {
        Some(payload) => payload,
        None => JsonView::Null,
    }
}

/// The parent of the log of a thread. It cannot be told where the log says it
/// belongs to another thread, where the parent's thread is no UUID, or where it is
/// the log's own.
pub open spec fn resolved_parent(value: JsonView, thread: Option<Seq<char>>) -> ParentView {
    let payload = payload_of(value);
    match (thread, stated_thread(payload)) {
        (Some(own), Some(stated)) if own != stated => ParentView::Deferred(
            "文件名线程 ID ("@ + own + ") 与 root meta ID ("@ + stated + ") 不一致"@,
        ),
        _ => match explicit_parent(payload) {
            ParentView::Parent(parent) => match rollout::uuid_hyphenated(parent) {
                Some(id) => if thread == Some(id) {
                    ParentView::Deferred("parent_thread_id 与 root_thread_id 相同"@)
                } else {
                    ParentView::Parent(id)
                },
                None => ParentView::Deferred(
                    "显式 parent_thread_id 不是有效 UUID: "@ + parent,
                ),
            },
            other => other,
        },
    }
}

/// What a log says of itself in a `session_meta` line.
pub open spec fn root_meta(value: JsonView, thread: Option<Seq<char>>) -> RootMetaView {
    RootMetaView { timestamp: line_instant(value), parent: resolved_parent(value, thread) }
}

/// The text of a value, where it is one and is not empty.
pub fn non_empty_string(value: Option<&Json>) -> (r: Option<String>)
    ensures
        text::option_view(r) == non_empty(json::option_model(value)),
{
    match value {
        Some(value) => match value.as_str() {
            Some(t) => if t.is_empty() {
                None
            } else {
                Some(t.to_owned())
            },
            None => None,
        },
        None => None,
    }
}

/// The field of an optional value.
fn get_in<'a>(value: Option<&'a Json>, name: &str) -> (r: Option<&'a Json>)
    ensures
        json::option_model(r) == sub_field(json::option_model(value), name@),
{
    match value {
        Some(value) => value.get(name),
        None => None,
    }
}

/// The log that a log says it was forked from.
pub fn explicit_parent_from_meta(payload: &Json) -> (r: ParentResolution)
    ensures
        r@ == explicit_parent(payload@),
{
    let forked_from = non_empty_string(payload.get("forked_from_id"));
    let subagent = get_in(payload.get("source"), "subagent");
    let spawned_from = non_empty_string(
        get_in(get_in(subagent, "thread_spawn"), "parent_thread_id"),
    );
    match (forked_from, spawned_from) {
        (None, None) => ParentResolution::Root,
        (Some(parent), None) => ParentResolution::Parent(parent),
        (None, Some(parent)) => ParentResolution::Parent(parent),
        (Some(forked), Some(spawned)) => if text::same_text(forked.as_str(), spawned.as_str()) {
            ParentResolution::Parent(forked)
        } else {
            let head = text::concat3(
                "forked_from_id (",
                forked.as_str(),
                ") 与 thread_spawn.parent_thread_id (",
            );
            ParentResolution::Deferred(
                text::concat3(head.as_str(), spawned.as_str(), ") 不一致"),
            )
        },
    }
}

/// The thread that a log says it belongs to.
fn meta_thread_id(payload: &Json) -> (r: Option<String>)
    ensures
        text::option_view(r) == stated_thread(payload@),
{
    let id = match payload.get("id") {
        Some(id) => Some(id),
        None => match payload.get("thread_id") {
            Some(id) => Some(id),
            None => payload.get("threadId"),
        },
    };
    non_empty_string(id)
}

/// The parent of the log of a thread, out of a payload.
fn resolve_parent(payload: &Json, root_thread_id: Option<&str>) -> (r: ParentResolution)
    ensures
        forall|value: JsonView|
            payload_of(value) == payload@ ==> r@ == #[trigger] resolved_parent(
                value,
                json::option_text(root_thread_id),
            ),
{
    let stated = meta_thread_id(payload);
    if let Some(own) = root_thread_id {
        if let Some(stated) = &stated {
            if !text::same_text(own, stated.as_str()) {
                let head = text::concat3("文件名线程 ID (", own, ") 与 root meta ID (");
                return ParentResolution::Deferred(
                    text::concat3(head.as_str(), stated.as_str(), ") 不一致"),
                );
            }
        }
    }
    match explicit_parent_from_meta(payload) {
        ParentResolution::Parent(parent) => match rollout::hyphenated_uuid(parent.as_str()) {
            Some(id) => {
                let own = match root_thread_id {
                    Some(own) => text::same_text(own, id.as_str()),
                    None => false,
                };
                if own {
                    ParentResolution::Deferred(
                        "parent_thread_id 与 root_thread_id 相同".to_owned(),
                    )
                } else {
                    ParentResolution::Parent(id)
                }
            },
            None => ParentResolution::Deferred(
                text::concat2("显式 parent_thread_id 不是有效 UUID: ", parent.as_str()),
            ),
        },
        other => other,
    }
}

/// What a log says of itself in a `session_meta` line.
pub fn root_meta_from_value(value: &Json, root_thread_id: Option<&str>) -> (r: RootMeta)
    ensures
        r@ == root_meta(value@, json::option_text(root_thread_id)),
{
    let parent = match value.get("payload") {
        Some(payload) => resolve_parent(payload, root_thread_id),
        None => resolve_parent(&Json::Null, root_thread_id),
    };
    RootMeta { timestamp: parse_timestamp(value), parent }
}

/// The lines of a file, without those that are not text.
pub open spec fn line_views(lines: Seq<Option<String>>) -> Seq<Option<Seq<char>>> {
    Seq::new(lines.len(), |i: int| text::option_view(lines[i]))
}

/// The value of a `session_meta` line.
pub open spec fn meta_line(line: Option<Seq<char>>) -> Option<JsonView> {
    match line {
        Some(line) => if text::contains(line, "\"session_meta\""@) {
            match json::json_parsed(line) {
                Some(value) => if json::field_text(value, "type"@) == Some("session_meta"@) {
                    Some(value)
                } else {
                    None
                },
                None => None,
            }
        } else {
            None
        },
        None => None,
    }
}

/// The value of the first `session_meta` line.
pub open spec fn first_meta(lines: Seq<Option<Seq<char>>>) -> Option<JsonView>
    decreases lines.len(),
{
    if lines.len() == 0 {
        None
    } else {
        match meta_line(lines[0]) {
            Some(value) => Some(value),
            None => first_meta(lines.drop_first()),
        }
    }
}

/// What the log of a thread says of itself; nothing where it has no
/// `session_meta` line.
pub fn read_root_meta(lines: &Vec<Option<String>>, root_thread_id: Option<&str>) -> (r: Option<
    RootMeta,
>)
    ensures
        match (r, first_meta(line_views(lines@))) {
            (Some(meta), Some(value)) => meta@ == root_meta(
                value,
                json::option_text(root_thread_id),
            ),
            (None, None) => true,
            _ => false,
        },
{
    let ghost all = line_views(lines@);
    let mut i: usize = 0;
    assert(all.skip(0) == all);
    while i < lines.len()
        invariant
            i <= lines@.len(),
            all == line_views(lines@),
            first_meta(all) == first_meta(all.skip(i as int)),
        decreases lines@.len() - i,
    {
        assert(all.skip(i as int).drop_first() == all.skip(i + 1));
        assert(all[i as int] == text::option_view(lines@[i as int]));
        if let Some(line) = &lines[i] {
            if text::has_part(line.as_str(), "\"session_meta\"") {
                if let Some(value) = json::parse_json(line.as_str()) {
                    let is_meta = match value.get_str("type") {
                        Some(kind) => text::same_text(kind, "session_meta"),
                        None => false,
                    };
                    if is_meta {
                        return Some(root_meta_from_value(&value, root_thread_id));
                    }
                }
            }
        }
        i = i + 1;
    }
    None
}

/// A log is never its own parent: where a parent is told, it is that of another
/// thread, and its thread is a UUID in its hyphenated form.
pub proof fn law_parent_is_another_thread(value: JsonView, thread: Seq<char>)
    ensures
        match resolved_parent(value, Some(thread)) {
            ParentView::Parent(parent) => parent != thread && exists|given: Seq<char>|
                #[trigger] rollout::uuid_hyphenated(given) == Some(parent),
            _ => true,
        },
{
}

} // verus!
