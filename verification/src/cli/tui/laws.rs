//! What holds of what the terminal interface shows, asks and tells.

use vstd::prelude::*;
use vstd::string::*;
#[allow(unused_imports)]
use crate::app_type::{AppLabels, AppType, EnabledApps};
#[allow(unused_imports)]
use crate::cli::tui::lines;
#[allow(unused_imports)]
use crate::cli::tui::lines::{CheckLabel, CheckLineView, StreamCheckResult};
#[allow(unused_imports)]
use crate::cli::tui::model_fetch;
#[allow(unused_imports)]
use crate::cli::tui::model_fetch::{ModelFetchStrategy, ProviderAddField};
#[allow(unused_imports)]
use crate::cli::tui::notice::{NoticeView, ToastKind, ToastView};
#[allow(unused_imports)]
use crate::cli::tui::runtime_actions::mcp as mcp_actions;
#[allow(unused_imports)]
use crate::cli::tui::runtime_actions::mcp::Toggle;
#[allow(unused_imports)]
use crate::cli::tui::screen;
#[allow(unused_imports)]
use crate::cli::tui::screen::{OverlayView, UpdateMsg};
#[allow(unused_imports)]
use crate::cli::tui::ui::editor;
#[allow(unused_imports)]
use crate::cli::tui::ui::editor::{EditorKey, EditorKind, SnippetSource};
#[allow(unused_imports)]
use crate::cli::tui::ui::mcp;
#[allow(unused_imports)]
use crate::cli::tui::ui::mcp::{McpKey, McpRowView};
#[allow(unused_imports)]
use crate::cli::tui::ui::skills;
#[allow(unused_imports)]
use crate::cli::tui::ui::skills::{
    DetailLabel, LineView, RepoKey, RepoView, SkillKey, SkillView,
};
#[allow(unused_imports)]
use crate::cli::tui::webdav;
#[allow(unused_imports)]
use crate::json;
#[allow(unused_imports)]
use crate::json::JsonView;
#[allow(unused_imports)]
use crate::text;

verus! {

proof fn lemma_rows_shown(rows: Seq<McpRowView>, query: Option<Seq<char>>, n: int, row: int)
    requires
        0 <= n <= rows.len(),
    ensures
        mcp::shown(rows, query, n).contains(row) <==> 0 <= row < n && mcp::row_matches(
            rows[row],
            query,
        ),
        forall|i: int, j: int|
            0 <= i < j < mcp::shown(rows, query, n).len() ==> #[trigger] mcp::shown(
                rows,
                query,
                n,
            )[i] < #[trigger] mcp::shown(rows, query, n)[j],
        forall|i: int|
            0 <= i < mcp::shown(rows, query, n).len() ==> 0 <= #[trigger] mcp::shown(
                rows,
                query,
                n,
            )[i] < n,
    decreases n,
{
    if n > 0 {
        lemma_rows_shown(rows, query, n - 1, row);
        let earlier = mcp::shown(rows, query, n - 1);
        let all = mcp::shown(rows, query, n);
        if all.contains(row) {
            let i = choose|i: int| 0 <= i < all.len() && all[i] == row;
            if i < earlier.len() {
                assert(earlier[i] == row);
            }
        }
        if earlier.contains(row) {
            let i = choose|i: int| 0 <= i < earlier.len() && earlier[i] == row;
            assert(all[i] == row);
        }
        if row == n - 1 && mcp::row_matches(rows[row], query) {
            assert(all[all.len() - 1] == row);
        }
    }
}

/// A server is shown while a search is on just where its name or its identifier holds what is
/// searched for, whatever the case of its letters; without a search every server is shown. The
/// servers stay in their order.
pub proof fn law_servers_are_found_by_name_and_identifier(
    rows: Seq<McpRowView>,
    part: Seq<char>,
    row: int,
)
    requires
        0 <= row < rows.len(),
    ensures
        mcp::shown(rows, None, rows.len() as int).contains(row),
        mcp::shown(rows, Some(part), rows.len() as int).contains(row) <==> text::contains(
            text::lowercase(rows[row].name),
            part,
        ) || text::contains(text::lowercase(rows[row].id), part),
        forall|i: int, j: int|
            0 <= i < j < mcp::shown(rows, Some(part), rows.len() as int).len()
                ==> #[trigger] mcp::shown(rows, Some(part), rows.len() as int)[i]
                < #[trigger] mcp::shown(rows, Some(part), rows.len() as int)[j],
{
    lemma_rows_shown(rows, None, rows.len() as int, row);
    lemma_rows_shown(rows, Some(part), rows.len() as int, row);
}

proof fn lemma_enabled_is_counted(rows: Seq<McpRowView>, app: AppType, n: int)
    requires
        0 <= n <= rows.len(),
    ensures
        mcp::enabled_for(rows, app, n) == rows.take(n).filter(
            |row: McpRowView| row.apps.has(app),
        ).len(),
    decreases n,
{
    reveal(Seq::filter);
    if n > 0 {
        lemma_enabled_is_counted(rows, app, n - 1);
        assert(rows.take(n).drop_last() =~= rows.take(n - 1));
        assert(rows.take(n).last() == rows[n - 1]);
    }
}

/// As many servers are counted for an application as there are servers that are enabled for it.
pub proof fn law_servers_are_counted_where_they_are_enabled(rows: Seq<McpRowView>, app: AppType)
    ensures
        mcp::enabled_for(rows, app, rows.len() as int) == rows.filter(
            |row: McpRowView| row.apps.has(app),
        ).len(),
{
    lemma_enabled_is_counted(rows, app, rows.len() as int);
    assert(rows.take(rows.len() as int) =~= rows);
}

proof fn lemma_first_with_identifier(rows: Seq<McpRowView>, from: int, row: int)
    requires
        0 <= from <= row < rows.len(),
        forall|i: int| from <= i < row ==> (#[trigger] rows[i]).id != rows[row].id,
    ensures
        mcp::apps_of(rows, rows[row].id, from) == Some(rows[row].apps),
    decreases row - from,
{
    if from < row {
        assert(rows[from].id != rows[row].id);
        lemma_first_with_identifier(rows, from + 1, row);
    }
}

/// A server is looked up by its identifier.
pub proof fn law_a_server_is_looked_up_by_its_identifier(rows: Seq<McpRowView>, row: int)
    requires
        0 <= row < rows.len(),
        forall|i: int| 0 <= i < row ==> (#[trigger] rows[i]).id != rows[row].id,
    ensures
        mcp::apps_of(rows, rows[row].id, 0) == Some(rows[row].apps),
{
    lemma_first_with_identifier(rows, 0, row);
}

proof fn lemma_left_alone(done: Seq<Toggle>, live: Seq<bool>, app: AppType)
    requires
        live.len() == done.len(),
    ensures
        mcp_actions::left_alone(done, live).contains(app) <==> exists|i: int|
            0 <= i < done.len() && (#[trigger] done[i]).app == app && !live[i],
    decreases done.len(),
{
    if done.len() > 0 {
        let head = done.drop_last();
        let last = done.len() - 1;
        lemma_left_alone(head, live.drop_last(), app);
        lemma_left_alone_ignores(head, live, live.drop_last());
        let earlier = mcp_actions::left_alone(head, live);
        let all = mcp_actions::left_alone(done, live);
        if all.contains(app) {
            let k = choose|k: int| 0 <= k < all.len() && all[k] == app;
            if k < earlier.len() {
                assert(earlier[k] == app);
                let i = choose|i: int|
                    0 <= i < head.len() && (#[trigger] head[i]).app == app
                        && !live.drop_last()[i];
                assert(done[i].app == app && !live[i]);
            } else {
                assert(done[last].app == app && !live[last]);
            }
        }
        if exists|i: int| 0 <= i < done.len() && (#[trigger] done[i]).app == app && !live[i] {
            let i = choose|i: int|
                0 <= i < done.len() && (#[trigger] done[i]).app == app && !live[i];
            if i < last {
                assert(head[i].app == app && !live.drop_last()[i]);
                let k = choose|k: int| 0 <= k < earlier.len() && earlier[k] == app;
                assert(all[k] == app);
            } else {
                assert(all[all.len() - 1] == app);
            }
        }
    }
}

proof fn lemma_left_alone_ignores(done: Seq<Toggle>, live: Seq<bool>, other: Seq<bool>)
    requires
        done.len() <= live.len(),
        done.len() <= other.len(),
        forall|i: int| 0 <= i < done.len() ==> #[trigger] live[i] == other[i],
    ensures
        mcp_actions::left_alone(done, live) == mcp_actions::left_alone(done, other),
    decreases done.len(),
{
    if done.len() > 0 {
        lemma_left_alone_ignores(done.drop_last(), live, other);
    }
}

/// Just the applications whose configurations did not follow are warned of; where all of them
/// followed, that is told as a success.
pub proof fn law_just_what_did_not_follow_is_warned_of(
    done: Seq<Toggle>,
    live: Seq<bool>,
    app: AppType,
)
    requires
        live.len() == done.len(),
    ensures
        match mcp_actions::set_apps_notice(done, live).notice {
            NoticeView::McpUpdated => {
                &&& mcp_actions::set_apps_notice(done, live).kind == ToastKind::Success
                &&& forall|i: int| 0 <= i < live.len() ==> #[trigger] live[i]
            },
            NoticeView::McpUpdatedWithoutLiveSync(apps) => {
                &&& mcp_actions::set_apps_notice(done, live).kind == ToastKind::Warning
                &&& apps.contains(app) <==> exists|i: int|
                    0 <= i < done.len() && (#[trigger] done[i]).app == app && !live[i]
            },
            _ => false,
        },
{
    lemma_left_alone(done, live, app);
    let skipped = mcp_actions::left_alone(done, live);
    if skipped.len() == 0 {
        assert forall|i: int| 0 <= i < live.len() implies #[trigger] live[i] by {
            if !live[i] {
                lemma_left_alone(done, live, done[i].app);
                assert(done[i].app == done[i].app);
            }
        }
    }
}

proof fn lemma_skills_shown(all: Seq<SkillView>, query: Option<Seq<char>>, n: int, k: int)
    requires
        0 <= n <= all.len(),
    ensures
        skills::skills_shown(all, query, n).contains(k) <==> 0 <= k < n && skills::skill_matches(
            all[k],
            query,
        ),
    decreases n,
{
    if n > 0 {
        lemma_skills_shown(all, query, n - 1, k);
        let earlier = skills::skills_shown(all, query, n - 1);
        let shown = skills::skills_shown(all, query, n);
        if shown.contains(k) {
            let i = choose|i: int| 0 <= i < shown.len() && shown[i] == k;
            if i < earlier.len() {
                assert(earlier[i] == k);
            }
        }
        if earlier.contains(k) {
            let i = choose|i: int| 0 <= i < earlier.len() && earlier[i] == k;
            assert(shown[i] == k);
        }
        if k == n - 1 && skills::skill_matches(all[k], query) {
            assert(shown[shown.len() - 1] == k);
        }
    }
}

/// A skill is shown while a search is on just where its name, its directory or its identifier
/// holds what is searched for, whatever the case of its letters; without a search every skill
/// is shown.
pub proof fn law_skills_are_found_by_name_directory_and_identifier(
    all: Seq<SkillView>,
    part: Seq<char>,
    k: int,
)
    requires
        0 <= k < all.len(),
    ensures
        skills::skills_shown(all, None, all.len() as int).contains(k),
        skills::skills_shown(all, Some(part), all.len() as int).contains(k) <==> {
            ||| text::contains(text::lowercase(all[k].name), part)
            ||| text::contains(text::lowercase(all[k].directory), part)
            ||| text::contains(text::lowercase(all[k].id), part)
        },
{
    lemma_skills_shown(all, None, all.len() as int, k);
    lemma_skills_shown(all, Some(part), all.len() as int, k);
}

/// A repository is shown while a search is on just where its owner, its name or its branch
/// holds what is searched for; it is shown as its owner and its name, with its branch and its
/// mark.
pub proof fn law_repositories_are_found_by_owner_name_and_branch(repo: RepoView, part: Seq<char>)
    ensures
        skills::repo_matches(repo, None),
        skills::repo_matches(repo, Some(part)) <==> {
            ||| text::contains(text::lowercase(repo.owner), part)
            ||| text::contains(text::lowercase(repo.name), part)
            ||| text::contains(text::lowercase(repo.branch), part)
        },
        skills::repo_row(repo).repository == repo.owner + "/"@ + repo.name,
        skills::repo_row(repo).branch == repo.branch,
        skills::repo_row(repo).enabled == repo.enabled,
{
}

proof fn lemma_repos_shown(repos: Seq<RepoView>, query: Option<Seq<char>>, n: int)
    requires
        0 <= n <= repos.len(),
    ensures
        skills::repos_shown(repos, query, n) == repos.take(n).filter(
            |repo: RepoView| skills::repo_matches(repo, query),
        ).map_values(|repo: RepoView| skills::repo_row(repo)),
    decreases n,
{
    reveal(Seq::filter);
    let p = |repo: RepoView| skills::repo_matches(repo, query);
    let f = |repo: RepoView| skills::repo_row(repo);
    if n > 0 {
        lemma_repos_shown(repos, query, n - 1);
        assert(repos.take(n).drop_last() =~= repos.take(n - 1));
        let earlier = repos.take(n - 1).filter(p);
        assert(earlier.push(repos[n - 1]).map_values(f) =~= earlier.map_values(f).push(
            skills::repo_row(repos[n - 1]),
        ));
    } else {
        assert(repos.take(0).filter(p).map_values(f) =~= seq![]);
    }
}

/// Each repository that is found has a row, in the order of the repositories.
pub proof fn law_every_repository_that_is_found_has_a_row(
    repos: Seq<RepoView>,
    query: Option<Seq<char>>,
)
    ensures
        skills::repos_shown(repos, query, repos.len() as int) == repos.filter(
            |repo: RepoView| skills::repo_matches(repo, query),
        ).map_values(|repo: RepoView| skills::repo_row(repo)),
{
    lemma_repos_shown(repos, query, repos.len() as int);
    assert(repos.take(repos.len() as int) =~= repos);
}

/// A skill that is enabled for one application is shown with the name of that application; one
/// that is enabled for none is shown with no name.
pub proof fn law_a_skill_is_shown_with_its_applications(labels: AppLabels)
    ensures
        ({
            let nowhere = EnabledApps {
                claude: false,
                codex: false,
                gemini: false,
                opencode: false,
                hermes: false,
            };
            &&& skills::enabled_names(nowhere, labels).len() == 0
            &&& skills::enabled_names(EnabledApps { claude: true, ..nowhere }, labels)
                == seq![labels.claude@]
            &&& skills::enabled_names(EnabledApps { codex: true, ..nowhere }, labels)
                == seq![labels.codex@]
            &&& skills::enabled_names(EnabledApps { gemini: true, ..nowhere }, labels)
                == seq![labels.gemini@]
            &&& skills::enabled_names(EnabledApps { opencode: true, ..nowhere }, labels)
                == seq![labels.opencode@]
            &&& skills::enabled_names(EnabledApps { hermes: true, ..nowhere }, labels)
                == seq![labels.hermes@]
        }),
{
    let nowhere = EnabledApps {
        claude: false,
        codex: false,
        gemini: false,
        opencode: false,
        hermes: false,
    };
    assert(skills::enabled_names(EnabledApps { claude: true, ..nowhere }, labels)
        =~= seq![labels.claude@]);
    assert(skills::enabled_names(EnabledApps { codex: true, ..nowhere }, labels)
        =~= seq![labels.codex@]);
    assert(skills::enabled_names(EnabledApps { gemini: true, ..nowhere }, labels)
        =~= seq![labels.gemini@]);
    assert(skills::enabled_names(EnabledApps { opencode: true, ..nowhere }, labels)
        =~= seq![labels.opencode@]);
    assert(skills::enabled_names(EnabledApps { hermes: true, ..nowhere }, labels)
        =~= seq![labels.hermes@]);
}

/// What is said of a skill begins with its directory and its name; a repository is named where
/// both its owner and its name are known, and a blank description or address is left out.
pub proof fn law_a_skill_is_described_by_what_is_known(skill: SkillView, labels: AppLabels)
    ensures
        skills::detail(skill, labels)[0] == LineView::Field(DetailLabel::Directory, skill.directory),
        skills::detail(skill, labels)[1] == LineView::Field(DetailLabel::Name, skill.name),
        skill.repo_owner is Some && skill.repo_name is Some ==> skills::repository_lines(
            skill.repo_owner,
            skill.repo_name,
        ) == seq![
            LineView::Field(
                DetailLabel::Repository,
                skill.repo_owner->Some_0 + "/"@ + skill.repo_name->Some_0,
            ),
        ],
        skill.repo_owner is None || skill.repo_name is None ==> skills::repository_lines(
            skill.repo_owner,
            skill.repo_name,
        ).len() == 0,
        skill.readme_url matches Some(url) ==> if text::is_blank(url) {
            skills::readme_lines(skill.readme_url).len() == 0
        } else {
            skills::readme_lines(skill.readme_url) == seq![LineView::Field(DetailLabel::Readme, url)]
        },
        skill.description matches Some(words) ==> (skills::description_lines(
            skill.description,
        ).len() == 0 <==> text::is_blank(words)),
{
}

proof fn lemma_first_in_directory(all: Seq<SkillView>, directory: Seq<char>, from: int, k: int)
    requires
        0 <= from <= k < all.len(),
        forall|i: int|
            from <= i < k ==> !text::same_but_for_case((#[trigger] all[i]).directory, directory),
        text::same_but_for_case(all[k].directory, directory),
    ensures
        skills::skill_in(all, directory, from) == Some(all[k]),
    decreases k - from,
{
    if from < k {
        assert(!text::same_but_for_case(all[from].directory, directory));
        lemma_first_in_directory(all, directory, from + 1, k);
    }
}

/// A skill is looked up by its directory, whose name may differ in the case of ASCII letters.
pub proof fn law_a_skill_is_looked_up_by_its_directory(
    all: Seq<SkillView>,
    directory: Seq<char>,
    k: int,
)
    requires
        0 <= k < all.len(),
        text::same_but_for_case(all[k].directory, directory),
        forall|i: int|
            0 <= i < k ==> !text::same_but_for_case((#[trigger] all[i]).directory, directory),
    ensures
        skills::skill_in(all, directory, 0) == Some(all[k]),
{
    lemma_first_in_directory(all, directory, 0, k);
}

proof fn lemma_names_listed(items: Seq<JsonView>, gemini: bool, n: int, name: Seq<char>)
    requires
        0 <= n <= items.len(),
    ensures
        model_fetch::model_names(items, gemini, n).contains(name) <==> exists|i: int|
            0 <= i < n && model_fetch::model_name(#[trigger] items[i], gemini) == Some(name),
    decreases n,
{
    if n > 0 {
        lemma_names_listed(items, gemini, n - 1, name);
        let earlier = model_fetch::model_names(items, gemini, n - 1);
        let all = model_fetch::model_names(items, gemini, n);
        if all.contains(name) {
            let k = choose|k: int| 0 <= k < all.len() && all[k] == name;
            if k < earlier.len() {
                assert(earlier[k] == name);
                let i = choose|i: int|
                    0 <= i < n - 1 && model_fetch::model_name(#[trigger] items[i], gemini) == Some(
                        name,
                    );
                assert(0 <= i < n);
            } else {
                assert(model_fetch::model_name(items[n - 1], gemini) == Some(name));
            }
        }
        if exists|i: int|
            0 <= i < n && model_fetch::model_name(#[trigger] items[i], gemini) == Some(name) {
            let i = choose|i: int|
                0 <= i < n && model_fetch::model_name(#[trigger] items[i], gemini) == Some(name);
            if i < n - 1 {
                let k = choose|k: int| 0 <= k < earlier.len() && earlier[k] == name;
                assert(all[k] == name);
            } else if earlier.contains(name) {
                let k = choose|k: int| 0 <= k < earlier.len() && earlier[k] == name;
                assert(all[k] == name);
            } else {
                assert(all[all.len() - 1] == name);
            }
        }
    }
}

/// Just the models that an answer lists are offered: by their identifiers where it lists them
/// as data.
pub proof fn law_every_listed_model_is_offered(
    answer: JsonView,
    items: Seq<JsonView>,
    name: Seq<char>,
)
    requires
        answer.field("data"@) == Some(JsonView::Array(items)),
    ensures
        model_fetch::models_in(answer).contains(name) <==> exists|i: int|
            0 <= i < items.len() && json::field_text(#[trigger] items[i], "id"@) == Some(name),
{
    lemma_names_listed(items, false, items.len() as int, name);
    if exists|i: int|
        0 <= i < items.len() && json::field_text(#[trigger] items[i], "id"@) == Some(name) {
        let i = choose|i: int|
            0 <= i < items.len() && json::field_text(#[trigger] items[i], "id"@) == Some(name);
        assert(model_fetch::model_name(items[i], false) == Some(name));
    }
}

/// Where an answer lists models by resource names, they are offered without the path before
/// them.
pub proof fn law_resource_names_are_shortened(
    answer: JsonView,
    items: Seq<JsonView>,
    i: int,
    name: Seq<char>,
)
    requires
        list_is_absent(answer),
        answer.field("models"@) == Some(JsonView::Array(items)),
        0 <= i < items.len(),
        json::field_text(items[i], "name"@) == Some("models/"@ + name),
    ensures
        model_fetch::models_in(answer).contains(name),
{
    lemma_names_listed(items, true, items.len() as int, name);
    let full = "models/"@ + name;
    assert(full.take("models/"@.len() as int) =~= "models/"@);
    assert(full.skip("models/"@.len() as int) =~= name);
    assert(model_fetch::model_name(items[i], true) == Some(name));
}

/// Whether an answer lists no models as data.
pub open spec fn list_is_absent(answer: JsonView) -> bool {
    !(answer.field("data"@) matches Some(JsonView::Array(_)))
}

/// Models are asked for below the address of the provider, and where they are not listed
/// behind the path of Anthropic's protocol, beside it; Google is asked in one place only.
pub proof fn law_models_are_asked_for_below_the_address(base: Seq<char>)
    ensures
        model_fetch::candidates(base, ModelFetchStrategy::GoogleApiKey) == seq![
            base + "/models"@,
        ],
        model_fetch::candidates(base, ModelFetchStrategy::Bearer) == seq![
            base + "/v1/models"@,
            base + "/models"@,
        ],
        model_fetch::candidates(base + "/anthropic"@, ModelFetchStrategy::Anthropic) == seq![
            base + "/anthropic"@ + "/v1/models"@,
            base + "/v1/models"@,
            base + "/models"@,
        ],
        !text::ends_with(base, "/anthropic"@) ==> model_fetch::candidates(
            base,
            ModelFetchStrategy::Anthropic,
        ) == model_fetch::candidates(base, ModelFetchStrategy::Bearer),
{
    let below = base + "/anthropic"@;
    assert(below.take(below.len() - "/anthropic"@.len()) =~= base);
    assert(below.skip(below.len() - "/anthropic"@.len()) =~= "/anthropic"@);
}

/// An answer that is waited for is shown with both versions; any other changes nothing. An
/// update that was installed is shown as a success, one that failed with its reason.
pub proof fn law_what_is_heard_is_shown(
    overlay: OverlayView,
    active: Option<u64>,
    request_id: u64,
    current: String,
    latest: String,
)
    ensures
        ({
            let msg = UpdateMsg::CheckFinished { request_id, current, latest };
            &&& active == Some(request_id) ==> screen::overlay_after(overlay, active, msg) == (
            OverlayView::UpdateAvailable { current: current@, latest: latest@, selected: 0 })
                && screen::active_after(active, msg) is None
            &&& active != Some(request_id) ==> screen::overlay_after(overlay, active, msg)
                == overlay && screen::active_after(active, msg) == active
        }),
        screen::overlay_after(overlay, active, UpdateMsg::DownloadFinished(Ok(latest))) == (
        OverlayView::UpdateResult { success: true, message: latest@ }),
        screen::overlay_after(overlay, active, UpdateMsg::DownloadFinished(Err(current))) == (
        OverlayView::UpdateResult { success: false, message: current@ }),
{
}

/// A text can be formatted just where it is a snippet, and extracted just where that was opened
/// from the form of a provider; any text can be saved and left.
pub proof fn law_snippets_can_be_formatted(snippet: Option<SnippetSource>)
    ensures
        editor::editor_keys(snippet).contains(EditorKey::Format) <==> snippet is Some,
        editor::editor_keys(snippet).contains(EditorKey::Extract) <==> snippet == Some(
            SnippetSource::ProviderForm,
        ),
        editor::editor_keys(snippet).contains(EditorKey::Save),
        editor::editor_keys(snippet).contains(EditorKey::Close),
{
    let keys = editor::editor_keys(snippet);
    assert(keys[keys.len() - 2] == EditorKey::Save);
    assert(keys[keys.len() - 1] == EditorKey::Close);
    if snippet is Some {
        assert(keys[2] == EditorKey::Format);
    }
    if snippet == Some(SnippetSource::ProviderForm) {
        assert(keys[3] == EditorKey::Extract);
    }
}

/// No more is shown than there is room for, and what is shown begins with the line at the top.
pub proof fn law_no_more_is_shown_than_fits(
    wrapped: Seq<Seq<Seq<char>>>,
    scroll: int,
    height: int,
)
    requires
        0 <= scroll < wrapped.len(),
        0 <= height,
    ensures
        editor::visible(wrapped, scroll, height).len() <= height,
        editor::visible(wrapped, scroll, height).is_prefix_of(editor::flat(wrapped.skip(scroll))),
        editor::flat(wrapped.skip(scroll)).len() <= height ==> editor::visible(
            wrapped,
            scroll,
            height,
        ) == editor::flat(wrapped.skip(scroll)),
{
}

/// Jianguoyun is set up with what was typed, without white space around it, and switched on
/// with no error to tell of.
pub proof fn law_jianguoyun_is_set_up_as_typed(username: Seq<char>, password: Seq<char>)
    ensures
        webdav::jianguoyun(username, password).username == text::trim(username),
        webdav::jianguoyun(username, password).password == text::trim(password),
        webdav::jianguoyun(username, password).enabled,
        webdav::jianguoyun(username, password).last_error is None,
        webdav::jianguoyun(username, password).base_url == "https://dav.jianguoyun.com/dav"@,
        webdav::jianguoyun(username, password).remote_root == "cc-switch-sync"@,
        webdav::jianguoyun(username, password).profile == "default"@,
{
}

/// Each field is filled from a provider that is asked in its own way.
pub proof fn law_a_provider_is_asked_in_its_own_way(field: ProviderAddField)
    ensures
        model_fetch::strategy_of(field) == ModelFetchStrategy::Anthropic <==> field
            == ProviderAddField::ClaudeModelConfig,
        model_fetch::strategy_of(field) == ModelFetchStrategy::GoogleApiKey <==> field
            == ProviderAddField::GeminiModel,
{
}

/// The proxy is started at the address and the port that programs are told to use.
pub proof fn law_the_proxy_is_started_where_programs_look_for_it(address: Seq<char>, port: u16)
    ensures
        lines::proxy_help(address, port).len() == 2,
        lines::proxy_help(address, port)[0] == "cc-switch proxy serve --listen-address "@ + address
            + " --listen-port "@ + text::decimal(port as nat),
        lines::proxy_help(address, port)[1] == "ANTHROPIC_BASE_URL=http://"@ + address + ":"@
            + text::decimal(port as nat),
{
}

/// The test of a provider is told with the provider and the model first and the message last;
/// the status and the time of the answer are told just where they are known.
pub proof fn law_a_test_is_told_with_what_is_known(provider: Seq<char>, result: StreamCheckResult)
    ensures
        ({
            let told = lines::check_lines(provider, result);
            let known: int = (if result.http_status is Some {
                1int
            } else {
                0
            }) + (if result.response_time_ms is Some {
                1int
            } else {
                0
            });
            &&& told.len() == 3 + known
            &&& told[0] == (CheckLineView { label: CheckLabel::Provider, value: provider })
            &&& told[1] == (CheckLineView { label: CheckLabel::Model, value: result.model_used@ })
            &&& told.last() == (CheckLineView {
                label: CheckLabel::Message,
                value: result.message@,
            })
            &&& result.http_status matches Some(status) ==> told[2] == (CheckLineView {
                label: CheckLabel::HttpStatus,
                value: text::decimal(status as nat),
            })
            &&& result.response_time_ms matches Some(millis) ==> told[told.len() - 2] == (
            CheckLineView { label: CheckLabel::ResponseTime, value: text::decimal(millis as nat) })
        }),
{
}

/// What stands above a text says what kind of text it is.
pub proof fn law_a_heading_says_the_kind(kind: EditorKind)
    ensures
        editor::heading_of(kind) is JsonText <==> kind is Json,
        editor::heading_of(kind) is TomlText <==> kind is Toml,
        editor::heading_of(kind) is PlainText <==> kind is Plain,
{
}

/// Keys are shown only while the page has the focus, each of them under one name.
pub proof fn law_keys_are_shown_with_the_focus(focused: bool, key: McpKey)
    ensures
        mcp::list_keys(focused).len() > 0 <==> focused,
        skills::skill_keys(focused).len() > 0 <==> focused,
        skills::repo_keys(focused).len() > 0 <==> focused,
        mcp::list_keys(true).contains(key),
        mcp::key_name(McpKey::Toggle) == "Space"@,
        mcp::key_name(McpKey::Apps) == "m"@,
        mcp::key_name(McpKey::Add) == "a"@,
        mcp::key_name(McpKey::Edit) == "e"@,
        mcp::key_name(McpKey::ImportExisting) == "i"@,
        mcp::key_name(McpKey::Delete) == "d"@,
        skills::skill_key_name(SkillKey::Toggle) == "Space"@,
        skills::skill_key_name(SkillKey::Apps) == "m"@,
        skills::skill_key_name(SkillKey::Uninstall) == "d"@,
        skills::skill_key_name(SkillKey::Sync) == "s"@,
        skills::repo_key_name(RepoKey::Add) == "a"@,
        skills::repo_key_name(RepoKey::Delete) == "d"@,
        skills::repo_key_name(RepoKey::Toggle) == "Space"@,
        editor::key_name(EditorKey::Save) == "Ctrl+S"@,
        editor::key_name(EditorKey::Close) == "Esc"@,
        editor::key_name(EditorKey::ExternalEditor) == "Ctrl+O"@,
        editor::key_name(EditorKey::Format) == "F2"@,
        editor::key_name(EditorKey::Extract) == "F4"@,
{
    let keys = mcp::list_keys(true);
    assert(keys[0] == McpKey::Toggle);
    assert(keys[1] == McpKey::Apps);
    assert(keys[2] == McpKey::Add);
    assert(keys[3] == McpKey::Edit);
    assert(keys[4] == McpKey::ImportExisting);
    assert(keys[5] == McpKey::Delete);
}

} // verus!
