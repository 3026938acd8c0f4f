use std::collections::HashSet;

use cc_switch::app_type::{AppType, EnabledApps};
use cc_switch::json::{parse_json, write_json, Json};
use cc_switch::services::session_usage::SessionSyncResult;
use cc_switch::web::dispatch::emit_side_effects;
use cc_switch::web::handlers::common::{
    parsed_arg, Argument, ArgKind, NextStep, Shape, WebError,
};
use cc_switch::web::handlers::db_backup::{backup_answer, restore_answer};
use cc_switch::web::handlers::deeplink::{import_unified, Resource};
use cc_switch::web::handlers::dispatch;
use cc_switch::web::handlers::mcp_config::{config_response, server_of_app, McpServer};
use cc_switch::web::handlers::model_test::check_provider;
use cc_switch::web::handlers::proxy::check_target;
use cc_switch::web::handlers::usage::{
    sync_failure, sync_session_usage, UsageSource, UsageStep,
};
use cc_switch::web::sync::{change_event, DbWatcher};

fn value(text: &str) -> Json {
    parse_json(text).expect("JSON")
}

fn resolve(command: &str, args: &str) -> Result<Vec<Argument>, WebError> {
    let args = value(args);
    dispatch(command, &args)?.resolve(&args, &vec![])
}

fn bad_request(result: Result<Vec<Argument>, WebError>) -> String {
    match result {
        Err(WebError::BadRequest(message)) => message,
        other => panic!("not a bad request: {other:?}"),
    }
}

#[test]
fn unknown_commands_are_not_implemented() {
    assert!(matches!(
        dispatch("open_workspace_directory", &Json::Null),
        Err(WebError::NotImplemented(command)) if command == "open_workspace_directory"
    ));
}

#[test]
fn arguments_are_checked_in_order() {
    assert_eq!(bad_request(resolve("switch_provider", "{}")), "missing 'app' argument");
    assert_eq!(
        bad_request(resolve("switch_provider", r#"{"app":"codex","id":7}"#)),
        "missing 'id' argument"
    );
    let args = value(r#"{"app":"nobody","id":"p"}"#);
    let plan = dispatch("switch_provider", &args).unwrap();
    assert!(matches!(
        plan.resolve(&args, &vec![Some("unknown app".to_string()), None]),
        Err(WebError::Domain(message)) if message == "unknown app"
    ));
    let args = value(r#"{"config":1}"#);
    let plan = dispatch("update_proxy_config", &args).unwrap();
    assert!(matches!(
        plan.resolve(&args, &vec![Some("expected a struct".to_string())]),
        Err(WebError::BadRequest(message))
            if message == "invalid 'config' argument: expected a struct"
    ));
    assert_eq!(
        bad_request(resolve("set_auto_failover_enabled", r#"{"appType":"codex"}"#)),
        "missing 'enabled' argument"
    );
    assert_eq!(
        bad_request(resolve("upsert_claude_mcp_server", r#"{"id":"x"}"#)),
        "missing 'spec' argument"
    );
}

#[test]
fn arguments_that_may_be_left_out_have_defaults() {
    let given = resolve(
        "testUsageScript",
        r#"{"app":"codex","providerId":"p","scriptCode":"s","baseUrl":"u"}"#,
    )
    .unwrap();
    assert_eq!(given.len(), 9);
    assert!(matches!(&given[0], Argument::Text(app) if app == "codex"));
    assert!(matches!(given[3], Argument::Unsigned(10)));
    assert!(matches!(given[4], Argument::OptionalText(None)));
    assert!(matches!(&given[5], Argument::OptionalText(Some(url)) if url == "u"));
    let given =
        resolve("get_request_logs", r#"{"filters":{},"page":4294967298}"#).unwrap();
    assert!(matches!(given[1], Argument::Unsigned(2)));
    assert!(matches!(given[2], Argument::Unsigned(20)));
    let given = resolve("get_usage_summary", r#"{"startDate":-5}"#).unwrap();
    assert!(matches!(given[0], Argument::Signed(Some(-5))));
    assert!(matches!(given[1], Argument::Signed(None)));
    let given = resolve("toggle_mcp_app", r#"{"serverId":"s","app":"codex"}"#).unwrap();
    assert!(matches!(given[2], Argument::Truth(false)));
    let given =
        resolve("test_api_endpoints", r#"{"urls":[],"timeoutSecs":null}"#).unwrap();
    assert!(matches!(given[1], Argument::OptionalValue(None)));
    let given = resolve("install_skill", r#"{"directory":"d"}"#).unwrap();
    assert!(matches!(given[0], Argument::App(AppType::Claude)));
    let given = resolve("uninstall_skill_for_app", r#"{"app":"codex","directory":"d"}"#).unwrap();
    assert!(matches!(given[2], Argument::Truth(false)));
}

fn answer(command: &str, args: &str, results: Vec<Result<Json, String>>) -> String {
    match dispatch(command, &value(args)).unwrap().next(&results) {
        NextStep::Answer(value) => write_json(&value),
        NextStep::Run(name) => format!("run {name}"),
        NextStep::Refuse(error) => format!("refuse {error:?}"),
    }
}

#[test]
fn results_are_shaped() {
    assert_eq!(answer("switch_provider", "{}", vec![]), "run providers.switch");
    assert_eq!(answer("switch_provider", "{}", vec![Ok(Json::Null)]), "{\"warnings\":[]}");
    assert_eq!(answer("is_portable_mode", "{}", vec![]), "false");
    assert_eq!(answer("update_tray_menu", "{}", vec![]), "true");
    assert_eq!(answer("get_circuit_breaker_stats", "{}", vec![]), "null");
    assert_eq!(answer("uninstall_skill", "{}", vec![Ok(Json::Null)]), "{}");
    assert_eq!(answer("copilot_poll_for_auth", "{}", vec![Ok(Json::Null)]), "false");
    assert_eq!(answer("copilot_poll_for_auth", "{}", vec![Ok(value("{}"))]), "true");
    assert_eq!(
        answer("import_config_from_file", "{}", vec![Ok(Json::from_text("b1"))]),
        "{\"backupId\":\"b1\",\"message\":\"SQL imported successfully\",\"success\":true}"
    );
    assert_eq!(
        answer("sync_current_providers_live", "{}", vec![Ok(Json::Null)]),
        "{\"message\":\"Live configuration synchronized\",\"success\":true}"
    );
    assert_eq!(
        answer("apply_claude_plugin_config", r#"{"official":true}"#, vec![]),
        "run claude_plugin.clear"
    );
    assert_eq!(
        answer("apply_claude_plugin_config", "{}", vec![]),
        "run claude_plugin.write"
    );
    assert_eq!(
        answer("extract_common_config_snippet", r#"{"settingsConfig":"{}"}"#, vec![]),
        "run providers.extract_common_config_snippet_from_settings"
    );
    assert_eq!(Shape::Presence.apply(Json::Null).as_bool(), Some(false));
}

#[test]
fn a_configuration_is_read_as_json() {
    let given = resolve(
        "extract_common_config_snippet",
        r#"{"appType":"codex","settingsConfig":"{\"env\":{\"A\":1}}"}"#,
    )
    .expect("JSON");
    match &given[1] {
        Argument::OptionalValue(Some(value)) => {
            assert_eq!(write_json(value), r#"{"env":{"A":1}}"#);
        }
        other => panic!("{other:?}"),
    }
    assert_eq!(
        bad_request(resolve(
            "extract_common_config_snippet",
            r#"{"appType":"codex","settingsConfig":"not json"}"#,
        )),
        "invalid 'settingsConfig' argument: expected ident at line 1 column 2"
    );
    let none = resolve("extract_common_config_snippet", r#"{"appType":"codex"}"#).expect("none");
    assert!(matches!(none[1], Argument::OptionalValue(None)));
    let empty = resolve(
        "extract_common_config_snippet",
        r#"{"appType":"codex","settingsConfig":""}"#,
    );
    assert_eq!(
        bad_request(empty),
        "invalid 'settingsConfig' argument: EOF while parsing a value at line 1 column 0"
    );
}

#[test]
fn what_came_of_reading_an_argument_is_given_or_told() {
    assert!(matches!(parsed_arg("k", None), Ok(None)));
    assert!(matches!(parsed_arg("k", Some(Ok(Json::Bool(true)))), Ok(Some(Json::Bool(true)))));
    assert!(matches!(
        parsed_arg("k", Some(Err("bad".to_string()))),
        Err(WebError::BadRequest(message)) if message == "invalid 'k' argument: bad"
    ));
}

#[test]
fn operations_run_until_one_that_matters_fails() {
    let message = || Ok(Json::from_text("done"));
    assert_eq!(answer("webdav_sync_download", "{}", vec![]), "run webdav.download");
    assert_eq!(
        answer("webdav_sync_download", "{}", vec![message()]),
        "run providers.sync_current_to_live"
    );
    let fails = || Err("offline".to_string());
    assert_eq!(
        answer("webdav_sync_download", "{}", vec![message(), fails()]),
        "{\"status\":\"done\"}"
    );
    assert_eq!(
        answer("webdav_sync_download", "{}", vec![message(), Ok(Json::Null)]),
        "{\"status\":\"done\"}"
    );
    assert_eq!(
        answer("webdav_sync_download", "{}", vec![fails()]),
        "refuse Domain(\"offline\")"
    );
    assert_eq!(
        answer("reset_circuit_breaker", "{}", vec![Ok(Json::Null), fails()]),
        "refuse Domain(\"offline\")"
    );
    assert_eq!(
        answer("reset_circuit_breaker", "{}", vec![fails(), Ok(Json::Null)]),
        "refuse Domain(\"offline\")"
    );
}

#[test]
fn a_command_has_one_plan() {
    let names = [
        "get_settings", "get_providers", "get_opencode_live_provider_ids", "auth_logout",
        "webdav_sync_upload", "get_claude_code_config_path", "copilot_logout", "create_db_backup",
        "parse_deeplink", "delete_env_vars", "get_failover_queue", "get_global_proxy_url",
        "get_hermes_memory", "get_mcp_servers", "get_mcp_config", "get_codex_oauth_models",
        "get_stream_check_config", "get_openclaw_env", "get_codex_oauth_quota", "get_prompts",
        "get_proxy_status", "stop_proxy_server", "list_sessions", "get_log_config", "get_skills",
        "get_balance", "get_model_stats", "get_custom_endpoints", "read_workspace_file",
    ];
    let mut operations = HashSet::new();
    for name in names {
        let plan = dispatch(name, &Json::empty_object()).expect(name);
        assert_eq!(plan.operations.len(), 1);
        assert!(operations.insert(plan.operations[0].name));
    }
    let plan = dispatch("get_hermes_memory", &Json::empty_object()).unwrap();
    assert_eq!(plan.args[0].kind, ArgKind::Typed);
}

#[test]
fn switching_providers_is_told() {
    let event = emit_side_effects("switch_provider", &value(r#"{"app":"codex","id":"p"}"#));
    assert_eq!(
        event.as_deref(),
        Some("{\"event\":\"provider-switched\",\"payload\":{\"appType\":\"codex\",\"providerId\":\"p\"}}")
    );
    assert!(emit_side_effects("add_provider", &Json::Null).is_none());
}

#[test]
fn changes_of_the_database_are_noticed_once() {
    let mut watcher = DbWatcher::new(Some(3));
    assert!(!watcher.observe(Some(3)));
    assert!(!watcher.observe(None));
    assert!(watcher.observe(Some(4)));
    assert!(!watcher.observe(Some(4)));
    assert_eq!(DbWatcher::new(None).last, 0);
    assert_eq!(change_event(), "{\"event\":\"db-changed\"}");
}

#[test]
fn imports_are_told_apart() {
    assert_eq!(import_unified("provider").unwrap(), Resource::Provider);
    let mcp = import_unified("mcp").unwrap();
    assert_eq!(
        write_json(&mcp.answer(value(r#"{"importedCount":2}"#))),
        "{\"importedCount\":2,\"type\":\"mcp\"}"
    );
    let skill = import_unified("skill").unwrap();
    assert_eq!(
        write_json(&skill.answer(Json::from_text("k"))),
        "{\"key\":\"k\",\"type\":\"skill\"}"
    );
    assert!(matches!(
        import_unified("other"),
        Err(WebError::BadRequest(message)) if message == "Unsupported resource type: other"
    ));
}

#[test]
fn backups_and_targets_are_checked() {
    assert_eq!(backup_answer(Some("b.db".to_string())).unwrap().as_str(), Some("b.db"));
    assert!(matches!(
        backup_answer(None),
        Err(WebError::Domain(message)) if message == "Database file not found, backup skipped"
    ));
    assert_eq!(
        write_json(&restore_answer(
            Json::from_number(1),
            Json::from_number(2),
            &Some("none".to_string())
        )),
        "{\"restoredJsonlFiles\":1,\"restoredStateRows\":2,\"skippedReason\":\"none\"}"
    );
    assert!(check_target("p", &Some(None)).is_ok());
    assert!(check_target("p", &Some(Some("custom".to_string()))).is_ok());
    assert!(check_target("p", &Some(Some("official".to_string()))).is_err());
    assert!(matches!(
        check_target("p", &None),
        Err(WebError::Domain(message)) if message == "供应商不存在: p"
    ));
    assert!(check_provider("p", true).is_ok());
    assert!(matches!(
        check_provider("p", false),
        Err(WebError::Domain(message)) if message == "Provider 'p' not found"
    ));
    assert_eq!(sync_failure(UsageSource::Gemini, "x"), "Gemini sync failed: x");
}

#[test]
fn a_source_that_fails_does_not_keep_the_others_back() {
    let steps = sync_session_usage(
        Err("locked".to_string()),
        Ok(SessionSyncResult::empty(3)),
        Err("gone".to_string()),
    );
    assert_eq!(steps.len(), 3);
    assert!(matches!(&steps[0], UsageStep::Note(note) if note == "Codex sync failed: locked"));
    assert!(matches!(&steps[1], UsageStep::Merge(result) if result.files_scanned == 3));
    assert!(matches!(&steps[2], UsageStep::Note(note) if note == "OpenCode sync failed: gone"));
}

#[test]
fn servers_are_put_into_configurations() {
    let definition = value(r#"{"name":"Files","command":"npx"}"#);
    let fresh = server_of_app(None, AppType::Codex, "files", &definition, false);
    assert_eq!((fresh.id.as_str(), fresh.name.as_str()), ("files", "Files"));
    assert_eq!(fresh.apps, EnabledApps { codex: true, ..EnabledApps::nowhere() });
    let unnamed = server_of_app(None, AppType::Hermes, "files", &value("{}"), true);
    assert_eq!(unnamed.name, "files");
    assert_eq!(
        unnamed.apps,
        EnabledApps { claude: true, codex: true, gemini: true, opencode: true, hermes: true }
    );
    let before = McpServer { description: Some("kept".to_string()), ..fresh };
    let after = server_of_app(Some(before), AppType::Gemini, "ignored", &value("{}"), false);
    assert_eq!(after.name, "Files");
    assert_eq!(after.description.as_deref(), Some("kept"));
    assert!(after.apps.codex && after.apps.gemini && !after.apps.claude);
    assert!(after.server.is_object() && after.server.get("command").is_none());
    assert_eq!(
        write_json(&config_response("/c", value("{}"))),
        "{\"config_path\":\"/c\",\"servers\":{}}"
    );
}
