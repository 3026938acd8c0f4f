//! Enabling MCP servers for applications, and deleting them.

use vstd::prelude::*;
use crate::app_type::{AppType, EnabledApps};
use crate::cli::tui::notice::{Notice, Toast, ToastKind};
#[allow(unused_imports)]
use crate::cli::tui::notice::{NoticeView, ToastView};
use crate::cli::tui::ui::mcp;
use crate::cli::tui::ui::mcp::McpRow;

verus! {

/// A server that is to be enabled or disabled for an application.
#[derive(Debug, Clone, Copy, PartialEq, Eq, Structural)]
pub struct Toggle {
    pub app: AppType,
    pub enabled: bool,
}

/// The applications that a server can be enabled for, in the order in which they are
/// dealt with.
pub open spec fn mcp_apps() -> Seq<AppType> {
    seq![
        AppType::Claude,
        AppType::Codex,
        AppType::Gemini,
        AppType::OpenCode,
        AppType::Hermes,
    ]
}

/// What has to be done, for the first `n` applications, so that a server is enabled
/// where it should be.
pub open spec fn toggles_between(before: EnabledApps, after: EnabledApps, n: int) -> Seq<Toggle>
    decreases n,
{
    if n <= 0 || n > mcp_apps().len() {
        seq![]
    } else {
        let app = mcp_apps()[n - 1];
        let earlier = toggles_between(before, after, n - 1);
        if before.has(app) == after.has(app) {
            earlier
        } else {
            earlier.push(Toggle { app, enabled: after.has(app) })
        }
    }
}

/// What has to be done so that a server is enabled where it should be.
pub open spec fn toggles(before: EnabledApps, after: EnabledApps) -> Seq<Toggle> {
    toggles_between(before, after, mcp_apps().len() as int)
}

/// What has to be done so that the server `id` is enabled where it should be; none
/// where there is no such server.
pub fn set_apps(rows: &Vec<McpRow>, id: &str, apps: EnabledApps) -> (r: Option<Vec<Toggle>>)
    ensures
        match mcp::apps_of(mcp::row_views(rows@), id@, 0) {
            Some(before) => r is Some && r->Some_0@ == toggles(before, apps),
            None => r is None,
        },
{
    let before = match mcp::find_apps(rows, id) {
        Some(before) => before,
        None => {
            return None;
        },
    };
    let order: [AppType; 5] = [
        AppType::Claude,
        AppType::Codex,
        AppType::Gemini,
        AppType::OpenCode,
        AppType::Hermes,
    ];
    assert(order@ =~= mcp_apps());
    let mut r: Vec<Toggle> = Vec::new();
    let mut i: usize = 0;
    while i < 5
        invariant
            i <= 5,
            order@ == mcp_apps(),
            r@ == toggles_between(before, apps, i as int),
        decreases 5 - i,
    {
        let app = order[i];
        let enabled = apps.is_enabled_for(app);
        if before.is_enabled_for(app) != enabled {
            r.push(Toggle { app, enabled });
        }
        i = i + 1;
    }
    Some(r)
}

/// The applications, of those that something was done for, whose configurations were
/// left as they were.
pub open spec fn left_alone(done: Seq<Toggle>, live: Seq<bool>) -> Seq<AppType>
    decreases done.len(),
{
    if done.len() == 0 {
        seq![]
    } else {
        let earlier = left_alone(done.drop_last(), live);
        let last = done.len() - 1;
        if last < live.len() && !live[last] {
            earlier.push(done.last().app)
        } else {
            earlier
        }
    }
}

/// What is told once a server is enabled where it should be.
pub open spec fn set_apps_notice(done: Seq<Toggle>, live: Seq<bool>) -> ToastView {
    let skipped = left_alone(done, live);
    if skipped.len() == 0 {
        ToastView { notice: NoticeView::McpUpdated, kind: ToastKind::Success }
    } else {
        ToastView {
            notice: NoticeView::McpUpdatedWithoutLiveSync(skipped),
            kind: ToastKind::Warning,
        }
    }
}

/// What is told once a server is enabled where it should be; `live` says, for each
/// thing done, whether the configuration of the application itself follows.
pub fn set_apps_toast(done: &Vec<Toggle>, live: &Vec<bool>) -> (r: Toast)
    ensures
        r@ == set_apps_notice(done@, live@),
{
    let mut skipped: Vec<AppType> = Vec::new();
    let mut i: usize = 0;
    while i < done.len()
        invariant
            i <= done@.len(),
            skipped@ == left_alone(done@.take(i as int), live@),
        decreases done@.len() - i,
    {
        assert(done@.take(i + 1).drop_last() =~= done@.take(i as int));
        if i < live.len() && !live[i] {
            skipped.push(done[i].app);
        }
        i = i + 1;
    }
    assert(done@.take(i as int) =~= done@);
    if skipped.len() == 0 {
        Toast { notice: Notice::McpUpdated, kind: ToastKind::Success }
    } else {
        Toast { notice: Notice::McpUpdatedWithoutLiveSync(skipped), kind: ToastKind::Warning }
    }
}

/// What is told where there is no such server.
pub fn not_found_toast() -> (r: Toast)
    ensures
        r@ == (ToastView { notice: NoticeView::McpServerNotFound, kind: ToastKind::Warning }),
{
    Toast { notice: Notice::McpServerNotFound, kind: ToastKind::Warning }
}

/// What is told once a server has been enabled or disabled for one application;
/// `live` says whether the configuration of the application itself follows.
pub fn toggle(app: AppType, live: bool) -> (r: Toast)
    ensures
        r@ == (if live {
            ToastView { notice: NoticeView::McpUpdated, kind: ToastKind::Success }
        } else {
            ToastView {
                notice: NoticeView::McpUpdatedUninitialized(app),
                kind: ToastKind::Warning,
            }
        }),
{
    if live {
        Toast { notice: Notice::McpUpdated, kind: ToastKind::Success }
    } else {
        Toast { notice: Notice::McpUpdatedUninitialized(app), kind: ToastKind::Warning }
    }
}

/// What is told once a server was to be deleted.
pub fn delete(deleted: bool) -> (r: Toast)
    ensures
        r@ == (if deleted {
            ToastView { notice: NoticeView::McpServerDeleted, kind: ToastKind::Success }
        } else {
            ToastView { notice: NoticeView::McpServerNotFound, kind: ToastKind::Warning }
        }),
{
    if deleted {
        Toast { notice: Notice::McpServerDeleted, kind: ToastKind::Success }
    } else {
        not_found_toast()
    }
}

/// Whether a server is enabled for an application once things have been done.
pub open spec fn enabled_once(before: bool, app: AppType, done: Seq<Toggle>) -> bool
    decreases done.len(),
{
    if done.len() == 0 {
        before
    } else if done.last().app == app {
        done.last().enabled
    } else {
        enabled_once(before, app, done.drop_last())
    }
}

proof fn lemma_toggles_lead_there(before: EnabledApps, after: EnabledApps, app: AppType, n: int)
    requires
        0 <= n <= 5,
    ensures
        enabled_once(before.has(app), app, toggles_between(before, after, n)) == (if exists|i: int|
            0 <= i < n && #[trigger] mcp_apps()[i] == app {
            after.has(app)
        } else {
            before.has(app)
        }),
    decreases n,
{
    if n > 0 {
        lemma_toggles_lead_there(before, after, app, n - 1);
        let earlier = toggles_between(before, after, n - 1);
        let last = mcp_apps()[n - 1];
        assert(earlier.push(Toggle { app: last, enabled: after.has(last) }).drop_last() =~= earlier);
        if exists|i: int| 0 <= i < n - 1 && #[trigger] mcp_apps()[i] == app {
            let i = choose|i: int| 0 <= i < n - 1 && #[trigger] mcp_apps()[i] == app;
            assert(0 <= i < n && mcp_apps()[i] == app);
        } else if last == app {
            assert(0 <= n - 1 < n && mcp_apps()[n - 1] == app);
        } else {
            assert forall|i: int| !(0 <= i < n && #[trigger] mcp_apps()[i] == app) by {
                if 0 <= i < n - 1 {
                    assert(!(mcp_apps()[i] == app));
                }
            }
        }
    }
}

/// What is done leads to what was asked for: once all of it is done, the server is
/// enabled for just the applications that it should be enabled for.
pub proof fn law_toggles_lead_to_what_was_asked(before: EnabledApps, after: EnabledApps, app: AppType)
    ensures
        enabled_once(before.has(app), app, toggles(before, after)) == after.has(app),
{
    lemma_toggles_lead_there(before, after, app, 5);
    assert(mcp_apps()[0] == AppType::Claude);
    assert(mcp_apps()[1] == AppType::Codex);
    assert(mcp_apps()[2] == AppType::Gemini);
    assert(mcp_apps()[3] == AppType::OpenCode);
    assert(mcp_apps()[4] == AppType::Hermes);
}

proof fn lemma_only_changes(before: EnabledApps, after: EnabledApps, n: int, k: int)
    requires
        0 <= n <= 5,
        0 <= k < toggles_between(before, after, n).len(),
    ensures
        ({
            let done = toggles_between(before, after, n)[k];
            done.enabled == after.has(done.app) && before.has(done.app) != done.enabled
        }),
    decreases n,
{
    if n > 0 {
        let earlier = toggles_between(before, after, n - 1);
        if k < earlier.len() {
            lemma_only_changes(before, after, n - 1, k);
        }
    }
}

/// Nothing is done for an application that the server is enabled or disabled for
/// already, as it should be.
pub proof fn law_nothing_is_done_twice(before: EnabledApps, after: EnabledApps, k: int)
    requires
        0 <= k < toggles(before, after).len(),
    ensures
        before.has(toggles(before, after)[k].app) != after.has(toggles(before, after)[k].app),
{
    lemma_only_changes(before, after, 5, k);
}

} // verus!
