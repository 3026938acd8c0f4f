use cc_switch::app_type::{AppLabels, AppType, EnabledApps};
use cc_switch::cli::tui::editor::EditorState;
use cc_switch::cli::tui::lines::{
    build_stream_check_result_lines, proxy_help_lines, CheckLabel, StreamCheckResult,
};
use cc_switch::cli::tui::model_fetch::{
    build_model_fetch_candidate_urls, model_fetch_strategy_for_field,
    parse_model_ids_from_response, ModelFetchStrategy, ProviderAddField,
};
use cc_switch::cli::tui::notice::{
    mcp_import_toast, skills_import_toast, unmanaged_scan_toast, Notice, ToastKind,
};
use cc_switch::cli::tui::runtime_actions::mcp::{
    delete, not_found_toast, set_apps, set_apps_toast, toggle, Toggle,
};
use cc_switch::cli::tui::screen::{
    handle_update_msg, open_skills_import_picker, queue_managed_proxy_action, LoadingKind, Overlay,
    RequestTracker, Screen, UnmanagedSkill, UpdateMsg, TUI_TICK_MILLIS,
};
use cc_switch::cli::tui::ui::editor::{
    cursor_cell, field_heading, render_editor, visible_pieces, EditorArea, EditorKey, EditorKind,
    FieldHeading, SnippetSource,
};
use cc_switch::cli::tui::ui::mcp::{mcp_rows_filtered, render_mcp, McpKey, McpRow};
use cc_switch::cli::tui::ui::skills::{
    enabled_skill_apps_text, render_skill_detail, render_skills_repos, skill_display_name,
    skills_installed_filtered, DetailLabel, DetailLine, InstalledSkill, RepoKey, SkillKey,
    SkillRepo,
};
use cc_switch::cli::tui::webdav::{
    apply_webdav_jianguoyun_quick_setup, drain_latest_webdav_req, update_webdav_last_error,
    QuickSetup, WebDavReq, WebDavReqKind, WebDavSyncSettings,
};
use cc_switch::json::parse_json;

fn label(app: AppType) -> String {
    format!("{app:?}")
}

fn labels() -> AppLabels {
    AppLabels {
        claude: label(AppType::Claude),
        codex: label(AppType::Codex),
        gemini: label(AppType::Gemini),
        opencode: label(AppType::OpenCode),
        hermes: label(AppType::Hermes),
    }
}

fn nowhere() -> EnabledApps {
    EnabledApps::nowhere()
}

#[test]
fn mcp_import_uses_info_toast_kind() {
    let toast = mcp_import_toast(0);
    assert_eq!(toast.kind, ToastKind::Info);
    assert!(matches!(toast.notice, Notice::McpImported(0)));
}

#[test]
fn tui_tick_rate_returns_to_200ms() {
    assert_eq!(std::time::Duration::from_millis(TUI_TICK_MILLIS), std::time::Duration::from_millis(200));
}

#[test]
fn skills_scan_unmanaged_uses_info_toast_kind() {
    let toast = unmanaged_scan_toast(0);
    assert_eq!(toast.kind, ToastKind::Info);
    assert!(matches!(toast.notice, Notice::UnmanagedScanned(0)));
}

#[test]
fn opening_skills_import_picker_selects_all_by_default() {
    let mut screen = Screen::new();
    let origin = label(AppType::Claude).to_lowercase();
    open_skills_import_picker(
        &mut screen,
        vec![UnmanagedSkill {
            directory: "hello-skill".to_string(),
            name: "Hello Skill".to_string(),
            description: Some("A local skill".to_string()),
            found_in: vec![origin],
        }],
    );
    assert!(matches!(
        &screen.overlay,
        Overlay::SkillsImportPicker { skills, selected_idx: 0, chosen }
            if skills.len() == 1
                && skills[0].directory == "hello-skill"
                && chosen.contains(&"hello-skill".to_string())
    ));
}

#[test]
fn skills_import_from_apps_uses_info_toast_kind() {
    let toast = skills_import_toast(0);
    assert_eq!(toast.kind, ToastKind::Info);
    assert!(matches!(toast.notice, Notice::UnmanagedImported(0)));
}

#[test]
fn proxy_help_overlay_uses_on_demand_proxy_config() {
    let joined = proxy_help_lines("127.0.0.1", 3456).join("\n");
    assert!(joined.contains("cc-switch proxy serve --listen-address 127.0.0.1 --listen-port 3456"));
    assert!(joined.contains("ANTHROPIC_BASE_URL=http://127.0.0.1:3456"));
}

#[test]
fn managed_proxy_action_enqueues_background_request_and_shows_loading_overlay() {
    let mut screen = Screen::new();
    let mut loading = RequestTracker::new();
    let req = queue_managed_proxy_action(&mut screen, true, &mut loading, AppType::Claude, true)
        .expect("proxy request should be queued");
    assert_eq!(req.request_id, 1);
    assert_eq!(req.app_type, AppType::Claude);
    assert!(req.enabled);
    assert_eq!(loading.active, Some(1));
    assert!(matches!(screen.overlay, Overlay::Loading(LoadingKind::Proxy)));
    assert!(screen.toast.is_none());
}

#[test]
fn managed_proxy_action_warns_when_worker_is_unavailable() {
    let mut screen = Screen::new();
    let mut loading = RequestTracker::new();
    let req = queue_managed_proxy_action(&mut screen, false, &mut loading, AppType::Claude, true);
    assert!(req.is_none());
    let toast = screen.toast.as_ref().expect("warning toast should be shown");
    assert_eq!(toast.kind, ToastKind::Warning);
    assert!(matches!(toast.notice, Notice::ProxyWorkerUnavailable));
    assert!(matches!(screen.overlay, Overlay::Hidden));
    assert_eq!(loading.active, None);
}

#[test]
fn request_numbers_go_on() {
    let mut tracker = RequestTracker::new();
    assert_eq!(tracker.start(), 1);
    assert_eq!(tracker.start(), 2);
    assert_eq!(tracker.active, Some(2));
    let mut last = RequestTracker { last: u64::MAX, active: None };
    assert_eq!(last.start(), 0);
}

#[test]
fn quick_setup_helper_saves_preset_and_runs_connection_check() {
    let step = apply_webdav_jianguoyun_quick_setup(" demo@nutstore.com ", " app-password ", None, None);
    let saved = match step {
        QuickSetup::Save(saved) => saved,
        other => panic!("settings should be saved, not {other:?}"),
    };
    assert!(saved.enabled);
    assert_eq!(saved.base_url, "https://dav.jianguoyun.com/dav");
    assert_eq!(saved.remote_root, "cc-switch-sync");
    assert_eq!(saved.profile, "default");
    assert_eq!(saved.username, "demo@nutstore.com");
    assert_eq!(saved.password, "app-password");
    assert!(matches!(
        apply_webdav_jianguoyun_quick_setup("u", "p", Some(Ok(())), None),
        QuickSetup::CheckConnection
    ));
    assert!(matches!(
        apply_webdav_jianguoyun_quick_setup("u", "p", Some(Ok(())), Some(Ok(()))),
        QuickSetup::Finished(Ok(()))
    ));
}

#[test]
fn quick_setup_helper_stops_when_save_fails() {
    let step = apply_webdav_jianguoyun_quick_setup(
        "u",
        "p",
        Some(Err("save failed".to_string())),
        None,
    );
    assert!(matches!(step, QuickSetup::Finished(Err(err)) if err.contains("save failed")));
}

#[test]
fn stream_check_result_lines_include_core_fields() {
    let result = StreamCheckResult {
        message: "slow but working".to_string(),
        response_time_ms: Some(6789),
        http_status: Some(200),
        model_used: "gpt-5.1-codex".to_string(),
    };
    let lines = build_stream_check_result_lines("Provider One", &result);
    let joined =
        lines.iter().map(|line| line.value.clone()).collect::<Vec<String>>().join("\n");
    assert!(joined.contains("Provider One"));
    assert!(joined.contains("gpt-5.1-codex"));
    assert!(joined.contains("200"));
    assert!(joined.contains("6789"));
    assert!(joined.contains("slow but working"));
    let unknown = StreamCheckResult { response_time_ms: None, http_status: None, ..result };
    let lines = build_stream_check_result_lines("Provider One", &unknown);
    assert_eq!(lines.len(), 3);
    assert_eq!(lines[2].label, CheckLabel::Message);
}

#[test]
fn external_editor_helper_replaces_editor_buffer_and_keeps_initial_text() {
    let mut editor = EditorState::new("Prompt", EditorKind::Plain, "hello");
    assert_eq!(editor.text(), "hello");
    editor
        .run_external_editor(Ok("hello from external\neditor".to_string()))
        .expect("external editor helper should succeed");
    assert_eq!(editor.text(), "hello from external\neditor");
    assert_eq!(editor.lines.len(), 2);
    assert_eq!(editor.initial_text, "hello");
    assert!(editor.is_dirty(), "updated buffer should remain unsaved");
}

#[test]
fn external_editor_helper_preserves_buffer_on_error() {
    let mut editor = EditorState::new("Prompt", EditorKind::Plain, "hello");
    let err = editor
        .run_external_editor(Err("boom".to_string()))
        .expect_err("external editor helper should surface the edit error");
    assert!(err.contains("boom"));
    assert_eq!(editor.text(), "hello");
    assert_eq!(editor.initial_text, "hello");
    assert!(!editor.is_dirty(), "failed external edit must not dirty the buffer");
}

#[test]
fn drain_latest_webdav_req_prefers_last_enqueued_request() {
    let first = WebDavReq { request_id: 1, kind: WebDavReqKind::CheckConnection };
    let rest = vec![
        WebDavReq { request_id: 2, kind: WebDavReqKind::Upload },
        WebDavReq {
            request_id: 3,
            kind: WebDavReqKind::JianguoyunQuickSetup {
                username: "u@example.com".to_string(),
                password: "p".to_string(),
            },
        },
    ];
    let latest = drain_latest_webdav_req(first, rest);
    assert!(matches!(
        latest,
        WebDavReq {
            request_id: 3,
            kind: WebDavReqKind::JianguoyunQuickSetup { username, password },
        } if username == "u@example.com" && password == "p"
    ));
    let only = WebDavReq { request_id: 9, kind: WebDavReqKind::Download };
    assert_eq!(drain_latest_webdav_req(only, vec![]).request_id, 9);
}

fn webdav_settings() -> WebDavSyncSettings {
    WebDavSyncSettings {
        enabled: false,
        base_url: String::new(),
        remote_root: String::new(),
        profile: String::new(),
        username: String::new(),
        password: String::new(),
        last_error: None,
    }
}

#[test]
fn update_webdav_last_error_with_updates_status_when_present() {
    let saved = update_webdav_last_error(Some("network timeout".to_string()), Some(webdav_settings()))
        .expect("expected settings to be saved");
    assert_eq!(saved.last_error.as_deref(), Some("network timeout"));
}

#[test]
fn update_webdav_last_error_with_skips_when_settings_absent() {
    let saved = update_webdav_last_error(Some("network timeout".to_string()), None);
    assert!(saved.is_none(), "nothing should be saved when webdav settings are missing");
}

#[test]
fn update_success_does_not_force_exit_when_overlay_hidden() {
    let mut screen = Screen::new();
    let mut update_check = RequestTracker::new();
    handle_update_msg(
        &mut screen,
        &mut update_check,
        UpdateMsg::DownloadFinished(Ok("v9.9.9".to_string())),
    );
    assert!(!screen.should_quit, "successful update should not force exit without user confirmation");
    assert!(matches!(screen.overlay, Overlay::UpdateResult { success: true, .. }));
}

fn check_finished(request_id: u64, latest: &str) -> UpdateMsg {
    UpdateMsg::CheckFinished {
        request_id,
        current: "4.7.0".to_string(),
        latest: latest.to_string(),
    }
}

#[test]
fn update_check_finished_is_ignored_when_canceled() {
    let mut screen = Screen::new();
    let mut update_check = RequestTracker::new();
    handle_update_msg(&mut screen, &mut update_check, check_finished(1, "v9.9.9"));
    assert!(matches!(screen.overlay, Overlay::Hidden));
}

#[test]
fn update_check_finished_is_processed_when_request_id_matches() {
    let mut screen = Screen::new();
    screen.overlay = Overlay::Loading(LoadingKind::UpdateCheck);
    let mut update_check = RequestTracker::new();
    update_check.active = Some(7);
    handle_update_msg(&mut screen, &mut update_check, check_finished(7, "v9.9.9"));
    assert_eq!(update_check.active, None);
    assert!(matches!(
        screen.overlay,
        Overlay::UpdateAvailable { latest, selected: 0, .. } if latest == "v9.9.9"
    ));
}

#[test]
fn update_check_finished_is_ignored_when_request_id_mismatch() {
    let mut screen = Screen::new();
    let mut update_check = RequestTracker::new();
    update_check.active = Some(2);
    handle_update_msg(&mut screen, &mut update_check, check_finished(1, "v1.0.0"));
    assert_eq!(update_check.active, Some(2));
    assert!(matches!(screen.overlay, Overlay::Hidden));

    handle_update_msg(&mut screen, &mut update_check, check_finished(2, "v9.9.9"));
    assert_eq!(update_check.active, None);
    assert!(matches!(screen.overlay, Overlay::UpdateAvailable { .. }));
}

#[test]
fn a_failed_update_is_shown() {
    let mut screen = Screen::new();
    let mut update_check = RequestTracker::new();
    handle_update_msg(
        &mut screen,
        &mut update_check,
        UpdateMsg::DownloadFinished(Err("no space".to_string())),
    );
    assert!(matches!(
        screen.overlay,
        Overlay::UpdateResult { success: false, message } if message == "no space"
    ));
}

#[test]
fn model_fetch_strategy_matches_provider_field() {
    assert_eq!(
        model_fetch_strategy_for_field(ProviderAddField::CodexModel),
        ModelFetchStrategy::Bearer
    );
    assert_eq!(
        model_fetch_strategy_for_field(ProviderAddField::GeminiModel),
        ModelFetchStrategy::GoogleApiKey
    );
    assert_eq!(
        model_fetch_strategy_for_field(ProviderAddField::ClaudeModelConfig),
        ModelFetchStrategy::Anthropic
    );
    assert_eq!(
        model_fetch_strategy_for_field(ProviderAddField::HermesModels),
        ModelFetchStrategy::Bearer
    );
}

#[test]
fn model_fetch_candidate_urls_prefers_v1_for_anthropic_base() {
    let urls = build_model_fetch_candidate_urls(
        "https://api.anthropic.com",
        ModelFetchStrategy::Anthropic,
    );
    assert_eq!(
        urls,
        vec![
            "https://api.anthropic.com/v1/models".to_string(),
            "https://api.anthropic.com/models".to_string()
        ]
    );
}

#[test]
fn model_fetch_candidate_urls_strip_anthropic_compat_suffix() {
    let urls = build_model_fetch_candidate_urls(
        "https://api.deepseek.com/anthropic",
        ModelFetchStrategy::Anthropic,
    );
    assert_eq!(
        urls,
        vec![
            "https://api.deepseek.com/anthropic/v1/models".to_string(),
            "https://api.deepseek.com/v1/models".to_string(),
            "https://api.deepseek.com/models".to_string(),
        ]
    );
}

#[test]
fn model_fetch_candidate_urls_for_gemini_v1beta_keeps_models_endpoint() {
    let urls = build_model_fetch_candidate_urls(
        "https://generativelanguage.googleapis.com/v1beta",
        ModelFetchStrategy::GoogleApiKey,
    );
    assert_eq!(
        urls,
        vec!["https://generativelanguage.googleapis.com/v1beta/models".to_string()]
    );
}

#[test]
fn parse_model_ids_supports_multiple_shapes_and_dedups_stably() {
    let data_payload = parse_json(
        r#"{"data":[{"id":"gpt-4o"},{"id":"gpt-4o-mini"},{"id":"gpt-4o"},{"id":"o3"}]}"#,
    )
    .unwrap();
    assert_eq!(
        parse_model_ids_from_response(&data_payload),
        vec!["gpt-4o", "gpt-4o-mini", "o3"]
    );
    let gemini_payload = parse_json(
        r#"{"models":[{"name":"models/gemini-2.0-pro"},{"name":"models/gemini-2.0-flash"}]}"#,
    )
    .unwrap();
    assert_eq!(
        parse_model_ids_from_response(&gemini_payload),
        vec!["gemini-2.0-pro", "gemini-2.0-flash"]
    );
    assert!(parse_model_ids_from_response(&parse_json("[]").unwrap()).is_empty());
}

fn row(id: &str, name: &str, apps: EnabledApps) -> McpRow {
    McpRow { id: id.to_string(), name: name.to_string(), apps }
}

#[test]
fn servers_are_enabled_where_they_should_be() {
    let before = EnabledApps { claude: true, codex: false, gemini: true, opencode: false, hermes: true };
    let after = EnabledApps { claude: true, codex: true, gemini: false, opencode: false, hermes: false };
    let rows = vec![row("a", "A", nowhere()), row("b", "B", before)];
    let done = set_apps(&rows, "b", after).expect("known server");
    assert_eq!(
        done,
        vec![
            Toggle { app: AppType::Codex, enabled: true },
            Toggle { app: AppType::Gemini, enabled: false },
            Toggle { app: AppType::Hermes, enabled: false },
        ]
    );
    let mut now = before;
    for toggle in &done {
        now.set_enabled_for(toggle.app, toggle.enabled);
    }
    assert_eq!(now, after);
    assert!(set_apps(&rows, "c", after).is_none());
    assert!(set_apps(&rows, "a", nowhere()).unwrap().is_empty());

    let all_live = set_apps_toast(&done, &vec![true, true, true]);
    assert_eq!(all_live.kind, ToastKind::Success);
    assert!(matches!(all_live.notice, Notice::McpUpdated));
    let some = set_apps_toast(&done, &vec![true, false, false]);
    assert_eq!(some.kind, ToastKind::Warning);
    assert!(matches!(
        some.notice,
        Notice::McpUpdatedWithoutLiveSync(apps) if apps == vec![AppType::Gemini, AppType::Hermes]
    ));
}

#[test]
fn changes_of_servers_are_told() {
    assert!(matches!(toggle(AppType::Codex, true).notice, Notice::McpUpdated));
    let skipped = toggle(AppType::Codex, false);
    assert_eq!(skipped.kind, ToastKind::Warning);
    assert!(matches!(skipped.notice, Notice::McpUpdatedUninitialized(AppType::Codex)));
    assert!(matches!(delete(true).notice, Notice::McpServerDeleted));
    assert!(matches!(delete(false).notice, Notice::McpServerNotFound));
    assert_eq!(not_found_toast().kind, ToastKind::Warning);
}

#[test]
fn servers_are_listed() {
    let codex = EnabledApps { codex: true, ..nowhere() };
    let rows = vec![row("srv-1", "Files", codex), row("WEB", "Browser", nowhere())];
    assert_eq!(mcp_rows_filtered(&rows, &None), vec![0, 1]);
    assert_eq!(mcp_rows_filtered(&rows, &Some("web".to_string())), vec![1]);
    assert_eq!(mcp_rows_filtered(&rows, &Some("file".to_string())), vec![0]);
    let screen = render_mcp(&rows, &Some("brow".to_string()), true, 4);
    assert_eq!(screen.counts, [0, 1, 0, 0, 0]);
    assert_eq!(screen.table.len(), 1);
    assert_eq!(screen.table[0].name, "Browser");
    assert_eq!(screen.selected, 4);
    assert_eq!(
        screen.keys.iter().map(|key| key.name()).collect::<Vec<_>>(),
        vec!["Space", "m", "a", "e", "i", "d"]
    );
    assert_eq!(screen.keys[4], McpKey::ImportExisting);
    assert!(render_mcp(&rows, &None, false, 0).keys.is_empty());
}

fn skill() -> InstalledSkill {
    InstalledSkill {
        id: "local:hello".to_string(),
        name: "  ".to_string(),
        directory: "Hello-Skill".to_string(),
        description: Some("First\nSecond\n".to_string()),
        apps: EnabledApps { claude: true, hermes: true, ..nowhere() },
        repo_owner: Some("owner".to_string()),
        repo_name: Some("repo".to_string()),
        readme_url: Some(" ".to_string()),
    }
}

#[test]
fn skills_are_described() {
    let skills = vec![skill()];
    let lines = render_skill_detail(&skills, "hello-SKILL", &labels(), false).expect("known skill").lines;
    assert_eq!(lines.len(), 9);
    assert!(matches!(&lines[0], DetailLine::Field(DetailLabel::Directory, d) if d == "Hello-Skill"));
    assert!(matches!(&lines[1], DetailLine::Field(DetailLabel::Name, n) if n == "  "));
    assert!(matches!(lines[2], DetailLine::Blank));
    assert!(matches!(lines[3], DetailLine::DescriptionLabel));
    assert!(matches!(&lines[4], DetailLine::Plain(l) if l == "First"));
    assert!(matches!(&lines[5], DetailLine::Plain(l) if l == "Second"));
    assert!(matches!(lines[6], DetailLine::Blank));
    let names = format!("{:?}, {:?}", AppType::Claude, AppType::Hermes);
    assert!(matches!(&lines[7], DetailLine::EnabledFor(Some(text)) if *text == names));
    assert!(
        matches!(&lines[8], DetailLine::Field(DetailLabel::Repository, r) if r == "owner/repo")
    );
    assert!(render_skill_detail(&skills, "other", &labels(), true).is_none());
    assert_eq!(enabled_skill_apps_text(&nowhere(), &labels()), None);
    assert_eq!(skill_display_name("  ", "Hello-Skill"), "Hello-Skill");
    assert_eq!(skill_display_name(" Hello ", "Hello-Skill"), "Hello");
    assert_eq!(skills_installed_filtered(&skills, &Some("hello".to_string())), vec![0]);
    assert!(skills_installed_filtered(&skills, &Some("zzz".to_string())).is_empty());
}

#[test]
fn repositories_are_listed() {
    let repos = vec![
        SkillRepo {
            owner: "Anna".to_string(),
            name: "tools".to_string(),
            branch: "main".to_string(),
            enabled: true,
        },
        SkillRepo {
            owner: "bert".to_string(),
            name: "more".to_string(),
            branch: "DEV".to_string(),
            enabled: false,
        },
    ];
    let rows = render_skills_repos(&repos, &Some("anna".to_string()), true, 0).rows;
    assert_eq!(rows.len(), 1);
    assert_eq!(rows[0].repository, "Anna/tools");
    assert!(rows[0].enabled);
    let dev = render_skills_repos(&repos, &Some("dev".to_string()), true, 0);
    assert_eq!(dev.rows[0].branch, "DEV");
    let names: Vec<&str> = dev.keys.iter().map(|key| key.name()).collect();
    assert_eq!(names, vec!["a", "d", "Space"]);
    assert_eq!(dev.keys, vec![RepoKey::Add, RepoKey::Delete, RepoKey::Toggle]);
    let all = render_skills_repos(&repos, &None, false, 1);
    assert_eq!(all.rows.len(), 2);
    assert_eq!(all.selected, Some(1));
    assert!(all.keys.is_empty());
    let none = render_skills_repos(&repos, &Some("x".to_string()), true, 1);
    assert!(none.rows.is_empty());
    assert_eq!(none.selected, None);
}

#[test]
fn a_skill_has_keys_while_its_page_has_the_focus() {
    let skills = vec![skill()];
    let focused = render_skill_detail(&skills, "hello-skill", &labels(), true).expect("known");
    let names: Vec<&str> = focused.keys.iter().map(|key| key.name()).collect();
    assert_eq!(names, vec!["Space", "m", "d", "s"]);
    assert_eq!(
        focused.keys,
        vec![SkillKey::Toggle, SkillKey::Apps, SkillKey::Uninstall, SkillKey::Sync]
    );
    let other = render_skill_detail(&skills, "hello-skill", &labels(), false).expect("known");
    assert!(other.keys.is_empty());
}

#[test]
fn the_applications_are_called_by_their_names() {
    let given = AppLabels::after(label(AppType::Claude));
    let own = labels();
    assert_eq!(given.claude, own.claude);
    assert_eq!(given.codex, own.codex);
    assert_eq!(given.gemini, own.gemini);
    assert_eq!(given.opencode, own.opencode);
    assert_eq!(given.hermes, own.hermes);
}

#[test]
fn the_text_is_cut_into_lines() {
    let mut editor = EditorState::new("Prompt", EditorKind::Plain, "one\n\ntwo\r\n");
    assert_eq!(editor.lines, vec!["one", "", "two\r", ""]);
    editor.run_external_editor(Ok("a\nb".to_string())).expect("edited");
    assert_eq!(editor.lines, vec!["a", "b"]);
}

#[test]
fn the_picker_keeps_all_that_is_known_of_a_skill() {
    let mut screen = Screen::new();
    open_skills_import_picker(
        &mut screen,
        vec![UnmanagedSkill {
            directory: "d".to_string(),
            name: "n".to_string(),
            description: Some("about".to_string()),
            found_in: vec!["codex".to_string(), "gemini".to_string()],
        }],
    );
    match &screen.overlay {
        Overlay::SkillsImportPicker { skills, .. } => {
            assert_eq!(skills[0].name, "n");
            assert_eq!(skills[0].description.as_deref(), Some("about"));
            assert_eq!(skills[0].found_in, vec!["codex", "gemini"]);
        }
        other => panic!("{other:?}"),
    }
}

#[test]
fn the_editor_shows_what_there_is_room_for() {
    let wrapped = vec![
        vec!["one".to_string()],
        vec!["two-".to_string(), "two".to_string()],
        vec!["three".to_string()],
    ];
    assert_eq!(visible_pieces(&wrapped, 0, 3), vec!["one", "two-", "two"]);
    assert_eq!(visible_pieces(&wrapped, 1, 9), vec!["two-", "two", "three"]);
    assert_eq!(visible_pieces(&wrapped, 99, 9), vec!["three"]);
    assert!(visible_pieces(&vec![], 3, 9).is_empty());
    assert_eq!(cursor_cell(2, 3, 10, 5, 1, 4), Some((6, 4)));
    assert_eq!(cursor_cell(2, 3, 10, 5, 1, 99), Some((11, 4)));
    assert_eq!(cursor_cell(2, 3, 0, 5, 1, 4), Some((2, 4)));
    assert_eq!(cursor_cell(2, 3, 10, 5, 5, 4), None);
    let area =
        EditorArea { x: 0, y: 0, width: 5, height: 2, cursor_row: 0, cursor_column: 1 };
    let screen =
        render_editor("Prompt", EditorKind::Json, Some(SnippetSource::ProviderForm), &wrapped, 0, area);
    assert_eq!(screen.title, " Prompt ");
    assert_eq!(screen.pieces, vec!["one", "two-"]);
    assert_eq!(screen.cursor, Some((1, 0)));
    assert_eq!(
        screen.keys,
        vec![
            EditorKey::Move,
            EditorKey::ExternalEditor,
            EditorKey::Format,
            EditorKey::Extract,
            EditorKey::Save,
            EditorKey::Close,
        ]
    );
    assert_eq!(screen.heading, FieldHeading::JsonText);
    let toml = render_editor("", EditorKind::Toml, None, &wrapped, 0, area);
    assert_eq!(toml.keys.len(), 4);
    assert_eq!(toml.heading, FieldHeading::TomlText);
    assert_eq!(field_heading(EditorKind::Plain), FieldHeading::PlainText);
    assert_eq!(
        render_editor("", EditorKind::Plain, Some(SnippetSource::Elsewhere), &wrapped, 0, area).keys[2].name(),
        "F2"
    );
}
