//! Noticing that another process has changed the database.

use vstd::prelude::*;
use vstd::string::*;
use crate::json;
use crate::json::Json;
#[allow(unused_imports)]
use crate::json::JsonView;

verus! {

/// How many seconds pass between two looks at the database.
pub const POLL_SECONDS: u64 = 1;

/// The version of the database that was last seen.
#[derive(Debug)]
pub struct DbWatcher {
    pub last: i64,
}

/// The version that a watcher starts from.
pub open spec fn first_version(version: Option<i64>) -> i64 {
    match version {
        Some(version) => version,
        None => 0,
    }
}

/// What is said of a database that has changed.
pub open spec fn db_changed() -> JsonView {
    JsonView::empty_object().with("event"@, JsonView::Text("db-changed"@))
}

impl DbWatcher {
    /// A watcher that has seen the database once.
    pub fn new(version: Option<i64>) -> (r: DbWatcher)
        ensures
            r.last == first_version(version),
    {
        match version {
            Some(version) => DbWatcher { last: version },
            None => DbWatcher { last: 0 },
        }
    }

    /// Looks at the version of the database, which may be unreadable: whether it has
    /// changed since the last look, so that what is in memory is to be read again and
    /// the dashboard told.
    pub fn observe(&mut self, version: Option<i64>) -> (changed: bool)
        ensures
            changed == (version is Some && version->Some_0 != old(self).last),
            final(self).last == (match version {
                Some(version) => version,
                None => old(self).last,
            }),
    {
        match version {
            Some(current) => {
                if current == self.last {
                    return false;
                }
                self.last = current;
                true
            },
            None => false,
        }
    }
}

/// What the dashboard is told of a database that has changed.
pub fn change_event() -> (r: String)
    ensures
        r@ == json::json_written(db_changed()),
{
    let event = Json::empty_object().with("event", Json::from_text("db-changed"));
    json::write_json(&event)
}

/// How many of a sequence of looks find a change.
pub open spec fn changes(last: i64, versions: Seq<Option<i64>>) -> nat
    decreases versions.len(),
{
    if versions.len() == 0 {
        0
    } else {
        match versions[0] {
            Some(version) => (if version == last {
                0nat
            } else {
                1nat
            }) + changes(version, versions.skip(1)),
            None => changes(last, versions.skip(1)),
        }
    }
}

/// The dashboard is not told of a change while the version stays what it was, whether
/// it can be read or not.
pub proof fn law_no_change_is_not_told(last: i64, versions: Seq<Option<i64>>)
    requires
        forall|i: int|
            0 <= i < versions.len() && #[trigger] versions[i] is Some ==> versions[i]->Some_0
                == last,
    ensures
        changes(last, versions) == 0,
    decreases versions.len(),
{
    if versions.len() > 0 {
        assert(versions[0] is Some ==> versions[0]->Some_0 == last);
        assert forall|i: int|
            0 <= i < versions.skip(1).len() && #[trigger] versions.skip(1)[i] is Some implies versions.skip(
            1,
        )[i]->Some_0 == last by {
            assert(versions.skip(1)[i] == versions[i + 1]);
        }
        law_no_change_is_not_told(last, versions.skip(1));
    }
}

/// A version that differs from all that were seen before is told, once.
pub proof fn law_every_new_version_is_told(last: i64, versions: Seq<Option<i64>>, version: i64)
    requires
        forall|i: int|
            0 <= i < versions.len() && #[trigger] versions[i] is Some ==> versions[i]->Some_0
                != version,
        last != version,
    ensures
        changes(last, versions.push(Some(version))) == changes(last, versions) + 1,
        changes(last, versions.push(None)) == changes(last, versions),
    decreases versions.len(),
{
    let told = versions.push(Some(version));
    let unread = versions.push(None);
    if versions.len() == 0 {
        assert(told.skip(1) =~= seq![]);
        assert(unread.skip(1) =~= seq![]);
        assert(told[0] == Some(version));
        assert(changes(version, told.skip(1)) == 0);
        assert(changes(last, unread.skip(1)) == 0);
    } else {
        let rest = versions.skip(1);
        assert(told.skip(1) =~= rest.push(Some(version)));
        assert(unread.skip(1) =~= rest.push(None));
        assert(told[0] == versions[0] && unread[0] == versions[0]);
        assert forall|i: int| 0 <= i < rest.len() && #[trigger] rest[i] is Some implies rest[i]->Some_0
            != version by {
            assert(rest[i] == versions[i + 1]);
        }
        law_every_new_version_is_told(
            match versions[0] {
                Some(seen) => seen,
                None => last,
            },
            rest,
            version,
        );
    }
}

/// A database that has changed is told of by the event of that name.
pub proof fn law_a_change_is_told_by_name()
    ensures
        db_changed().field("event"@) == Some(JsonView::Text("db-changed"@)),
{
}

} // verus!
