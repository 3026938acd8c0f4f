use cc_switch::cli::commands::config_openclaw::agents::{
    AgentsEdit, AgentsForm, OpenClawRuntimeField,
};
use cc_switch::cli::commands::config_openclaw::env::{
    json_argument, read_json_arg, EnvEdit, JsonInputArgs, JsonSource,
};
use cc_switch::cli::commands::config_openclaw::health::{
    openclaw_health_warnings, OpenClawHealthWarning, SliceLoad,
};
use cc_switch::cli::commands::config_openclaw::listing;
use cc_switch::cli::commands::config_openclaw::listing::{
    DailyMemoryFileInfo, DailyMemorySearchResult, Listing, WorkspaceFileInfo,
};
use cc_switch::cli::commands::config_openclaw::show::{
    delete_memory, print_write_outcome, set_dir_report, show_agents, show_dir, show_health,
    show_path, show_tools, DeleteStep, LiveSync,
};
use cc_switch::cli::commands::config_openclaw::tools::{
    normalize_tools_config, OpenClawToolsConfig, OpenClawToolsProfile, ToolsEdit, ToolsRuleKind,
};
use cc_switch::cli::commands::config_openclaw::{
    execute, OpenClawAction, OpenClawAgentsCommand, OpenClawAgentsRuntimeCommand, OpenClawCommand,
    OpenClawDirCommand, OpenClawEnvCommand, OpenClawFallbackCommand, OpenClawMemoryCommand,
    OpenClawRuleListCommand, OpenClawToolsCommand,
};
use cc_switch::cli::commands::hermes;
use cc_switch::cli::commands::hermes::{
    HermesCommand, MemoryAction, MemoryCommand, MemoryKindArg, MemoryLimits, MemoryText,
};
use cc_switch::cli::commands::report::{CommandError, Language, LineStyle, Report};
use cc_switch::cli::commands::web;
use cc_switch::cli::commands::web::{TunnelMode, TunnelProvider, WebCommand};
use cc_switch::json::{parse_json, write_json, Json};

fn value(text: &str) -> Json {
    parse_json(text).expect("JSON")
}

fn texts(report: &Report) -> Vec<&str> {
    report.lines.iter().map(|line| line.text.as_str()).collect()
}

fn list(items: &[&str]) -> Vec<String> {
    items.iter().map(|item| item.to_string()).collect()
}

fn refusal(result: Result<OpenClawAction, CommandError>) -> String {
    match result {
        Err(CommandError::InvalidInput(message)) => message,
        other => panic!("not refused: {other:?}"),
    }
}

#[test]
fn config_openclaw_env_put_stores_json_values() {
    let put = OpenClawEnvCommand::Put {
        key: "OPENCLAW_DEBUG".to_string(),
        value: "true".to_string(),
    };
    let vars = match execute(OpenClawCommand::Env(put)) {
        Ok(OpenClawAction::EditEnv(edit)) => edit.apply(Json::empty_object()),
        other => panic!("put env: {other:?}"),
    };
    assert_eq!(vars.get_bool("OPENCLAW_DEBUG"), Some(true));
}

#[test]
fn what_is_no_json_is_a_text() {
    let put = OpenClawEnvCommand::Put { key: " KEY ".to_string(), value: "a b".to_string() };
    match execute(OpenClawCommand::Env(put)) {
        Ok(OpenClawAction::EditEnv(edit)) => {
            let vars = edit.apply(value(r#"{"OLD":1}"#));
            assert_eq!(vars.get_str("KEY"), Some("a b"));
            assert_eq!(vars.get_u64("OLD"), Some(1));
            let gone = EnvEdit::Unset("OLD".to_string()).apply(vars);
            assert!(gone.get("OLD").is_none());
            assert_eq!(write_json(&gone), "{\"KEY\":\"a b\"}");
        }
        other => panic!("put env: {other:?}"),
    }
    let blank = OpenClawEnvCommand::Unset { key: " ".to_string() };
    assert_eq!(refusal(execute(OpenClawCommand::Env(blank))), "key cannot be empty.");
}

fn tools(profile: Option<&str>, allow: &[&str], deny: &[&str]) -> OpenClawToolsConfig {
    OpenClawToolsConfig {
        profile: profile.map(|profile| profile.to_string()),
        allow: list(allow),
        deny: list(deny),
        extra: Json::empty_object(),
    }
}

#[test]
fn config_openclaw_tools_set_normalizes_rules() {
    let source = OpenClawToolsCommand::Replace(JsonInputArgs {
        json: Some(
            r#"{"profile":"coding","allow":[" Read ",""],"deny":[" Bash(rm*) "]}"#.to_string(),
        ),
        file: None,
    });
    assert!(matches!(
        execute(OpenClawCommand::Tools(source)),
        Ok(OpenClawAction::ReplaceTools(JsonSource::Inline(_)))
    ));
    let saved = normalize_tools_config(tools(Some("coding"), &[" Read ", ""], &[" Bash(rm*) "]));
    assert_eq!(saved.profile.as_deref(), Some("coding"));
    assert_eq!(saved.allow, vec!["Read"]);
    assert_eq!(saved.deny, vec!["Bash(rm*)"]);
}

#[test]
fn rules_are_added_and_removed() {
    let start = || tools(None, &["Read", " Bash "], &["Write"]);
    let added = ToolsEdit::Add(ToolsRuleKind::Allow, "Edit".to_string()).apply(start());
    assert_eq!(added.allow, vec!["Read", "Bash", "Edit"]);
    assert_eq!(added.deny, vec!["Write"]);
    let removed = ToolsEdit::Remove(ToolsRuleKind::Allow, "Bash".to_string()).apply(start());
    assert_eq!(removed.allow, vec!["Read", "Bash"], "only an exact value is removed");
    let removed = ToolsEdit::Remove(ToolsRuleKind::Deny, "Write".to_string()).apply(start());
    assert!(removed.deny.is_empty());
    assert!(ToolsEdit::Clear(ToolsRuleKind::Allow).apply(start()).allow.is_empty());
    let full = ToolsEdit::Profile(Some(OpenClawToolsProfile::Full)).apply(start());
    assert_eq!(full.profile.as_deref(), Some("full"));
    assert_eq!(ToolsEdit::Profile(None).apply(full).profile, None);
    let rule = OpenClawRuleListCommand::Add { rule: " x ".to_string() };
    assert!(matches!(
        execute(OpenClawCommand::Tools(OpenClawToolsCommand::Deny(rule))),
        Ok(OpenClawAction::EditTools(ToolsEdit::Add(ToolsRuleKind::Deny, rule))) if rule == "x"
    ));
    let nothing = OpenClawToolsCommand::Profile { profile: None, clear: false };
    assert_eq!(
        refusal(execute(OpenClawCommand::Tools(nothing))),
        "Provide a profile value or --clear."
    );
}

#[test]
fn config_openclaw_health_reports_typed_slice_parse_warnings() {
    let warnings = openclaw_health_warnings(
        vec![],
        &SliceLoad::Loaded,
        &SliceLoad::Malformed("invalid type: string".to_string()),
        &SliceLoad::Loaded,
    )
    .expect("scan health");
    assert!(warnings.iter().any(|warning| {
        warning.code == "config_parse_failed" && warning.path.as_deref() == Some("tools")
    }));
    let report = show_health("/dir", "/dir/openclaw.json", &warnings);
    assert_eq!(
        texts(&report)[4],
        "config_parse_failed [tools]: invalid type: string"
    );
    assert_eq!(report.lines[4].style, LineStyle::Warning);
    assert_eq!(texts(&show_health("/dir", "/f", &vec![]))[4], "No warnings.");
    let failed = openclaw_health_warnings(
        vec![],
        &SliceLoad::Loaded,
        &SliceLoad::Failed("io".to_string()),
        &SliceLoad::Failed("later".to_string()),
    );
    assert_eq!(failed.expect_err("unreadable"), "io");
}

fn form() -> AgentsForm {
    AgentsForm {
        primary_model: "m".to_string(),
        fallbacks: list(&["a", "b"]),
        workspace: "existing-workspace".to_string(),
        timeout: "manual-value".to_string(),
        timeout_seconds_seed: None,
        has_legacy_timeout: true,
        context_tokens: String::new(),
        context_tokens_seed: Some(Json::from_number(7)),
        max_concurrent: "3".to_string(),
        max_concurrent_seed: None,
    }
}

#[test]
fn config_openclaw_agents_runtime_set_allows_unrelated_legacy_timeout_strings() {
    let set = OpenClawAgentsRuntimeCommand::Assign {
        field: OpenClawRuntimeField::Workspace,
        value: "next-workspace".to_string(),
    };
    let edit = match execute(OpenClawCommand::Agents(OpenClawAgentsCommand::Runtime(set))) {
        Ok(OpenClawAction::EditAgents(edit)) => edit,
        other => panic!("set runtime: {other:?}"),
    };
    let after = edit.apply(form()).expect("set runtime");
    assert_eq!(after.workspace, "next-workspace");
    assert_eq!(after.timeout, "manual-value");
    assert!(edit.check_save(true).is_ok());
    let other = AgentsEdit::ClearFallbacks;
    assert!(matches!(
        other.check_save(true),
        Err(CommandError::InvalidInput(message))
            if message == "Legacy agents.defaults.timeout must be numeric before saving."
    ));
    assert!(other.check_save(false).is_ok());
}

#[test]
fn agents_defaults_are_changed() {
    let unset = AgentsEdit::UnsetRuntime(OpenClawRuntimeField::TimeoutSeconds)
        .apply(form())
        .unwrap();
    assert_eq!(unset.timeout, "");
    assert!(!unset.has_legacy_timeout);
    let unset = AgentsEdit::UnsetRuntime(OpenClawRuntimeField::ContextTokens)
        .apply(form())
        .unwrap();
    assert!(unset.context_tokens_seed.is_none());
    let added = AgentsEdit::AddFallback("c".to_string()).apply(form()).unwrap();
    assert_eq!(added.fallbacks, vec!["a", "b", "c"]);
    let removed = AgentsEdit::RemoveFallback("a".to_string()).apply(form()).unwrap();
    assert_eq!(removed.fallbacks, vec!["b"]);
    assert!(AgentsEdit::ClearFallbacks.apply(form()).unwrap().fallbacks.is_empty());
    let primary = AgentsEdit::Primary(Some(" x ".to_string())).apply(form()).unwrap();
    assert_eq!(primary.primary_model, "x");
    assert_eq!(AgentsEdit::Primary(None).apply(form()).unwrap().primary_model, "");
    assert!(matches!(
        AgentsEdit::Primary(Some(" ".to_string())).apply(form()),
        Err(CommandError::InvalidInput(message)) if message == "model cannot be empty."
    ));
    let none = OpenClawAgentsCommand::Primary { model: None, clear: false };
    assert_eq!(
        refusal(execute(OpenClawCommand::Agents(none))),
        "Provide a primary model or --clear."
    );
    let blank = OpenClawFallbackCommand::Add { model: "".to_string() };
    assert_eq!(
        refusal(execute(OpenClawCommand::Agents(OpenClawAgentsCommand::Fallback(blank)))),
        "model cannot be empty."
    );
}

#[test]
fn json_comes_from_one_place() {
    let args = |json: Option<&str>, file: Option<&str>| {
        OpenClawCommand::Agents(OpenClawAgentsCommand::Replace(JsonInputArgs {
            json: json.map(|text| text.to_string()),
            file: file.map(|text| text.to_string()),
        }))
    };
    assert!(matches!(
        execute(args(None, Some("f"))),
        Ok(OpenClawAction::ReplaceAgents(JsonSource::File(file))) if file == "f"
    ));
    assert_eq!(
        refusal(execute(args(None, None))),
        "OpenClaw agents defaults JSON is required."
    );
    assert_eq!(
        refusal(execute(args(Some("{}"), Some("f")))),
        "Use either --json or --file, not both."
    );
    assert!(matches!(
        execute(OpenClawCommand::Dir(OpenClawDirCommand::Clear)),
        Ok(OpenClawAction::SetDir(None))
    ));
    assert!(matches!(
        execute(OpenClawCommand::Memory(OpenClawMemoryCommand::List { json: true })),
        Ok(OpenClawAction::Memory(OpenClawMemoryCommand::List { json: true }))
    ));
}

#[test]
fn what_is_configured_is_shown() {
    let rule = "=".repeat(50);
    assert_eq!(
        texts(&show_path("/d", "/d/openclaw.json", &None, true)),
        vec![
            "OpenClaw Configuration Paths",
            rule.as_str(),
            "Config dir:   /d",
            "Config file:  /d/openclaw.json",
            "Override dir: N/A",
            "Exists:       yes",
        ]
    );
    assert_eq!(texts(&show_dir("/d", &Some("/o".to_string())))[3], "Override:  /o");
    let plain = OpenClawToolsConfig { extra: value("{}"), ..tools(None, &["Read"], &[]) };
    assert!(!plain.has_extra());
    assert_eq!(texts(&show_tools(&plain))[2..], ["Profile: N/A", "Allow:", "  - Read", "Deny: N/A"]);
    let more = OpenClawToolsConfig { extra: value(r#"{"x":1}"#), ..tools(None, &["Read"], &[]) };
    assert!(more.has_extra());
    assert_eq!(
        texts(&show_tools(&more))[2..],
        ["Profile: N/A", "Allow:", "  - Read", "Deny: N/A", "", "Extra:"]
    );
    assert_eq!(
        texts(&show_agents(&form(), false))[2..],
        [
            "Primary model:  m",
            "Fallbacks:",
            "  - a",
            "  - b",
            "Workspace:      existing-workspace",
            "Timeout:        manual-value",
            "Context tokens: N/A",
            "Max concurrent: 3",
        ]
    );
    let warnings = vec![OpenClawHealthWarning {
        code: "c".to_string(),
        message: "m".to_string(),
        path: None,
    }];
    let report = print_write_outcome("saved", &Some("/b".to_string()), &warnings);
    assert_eq!(texts(&report), vec!["saved", "Backup: /b", "c: m"]);
    assert_eq!(
        texts(&set_dir_report(&LiveSync::Failed("e".to_string())))[1],
        "OpenClaw live config sync failed after directory change: e"
    );
    assert_eq!(texts(&set_dir_report(&LiveSync::Done)).len(), 1);
    assert_eq!(texts(&set_dir_report(&LiveSync::Skipped))[1], "OpenClaw live config sync skipped.");
    assert!(matches!(
        delete_memory("f", false, None),
        DeleteStep::Ask(question) if question == "Delete daily memory file 'f'?"
    ));
    assert!(matches!(delete_memory("f", false, Some(false)), DeleteStep::Cancelled));
    assert!(matches!(delete_memory("f", true, None), DeleteStep::Delete));
}

#[test]
fn given_json_is_read_or_refused() {
    assert_eq!(write_json(&read_json_arg(r#"{"a":[1]}"#).expect("JSON")), r#"{"a":[1]}"#);
    assert!(matches!(
        read_json_arg("{"),
        Err(CommandError::InvalidInput(message))
            if message == "Invalid JSON: EOF while parsing an object at line 1 column 1"
    ));
    assert!(matches!(json_argument(Ok(Json::Null)), Ok(Json::Null)));
    assert!(matches!(
        json_argument(Err("bad".to_string())),
        Err(CommandError::InvalidInput(message)) if message == "Invalid JSON: bad"
    ));
}

fn table(listing: Listing) -> (Vec<String>, Vec<Vec<String>>) {
    match listing {
        Listing::Table(table) => (table.header, table.rows),
        other => panic!("{other:?}"),
    }
}

fn only_line(listing: Listing) -> (LineStyle, String) {
    match listing {
        Listing::Lines(mut report) if report.lines.len() == 1 => {
            let line = report.lines.remove(0);
            (line.style, line.text)
        }
        other => panic!("{other:?}"),
    }
}

#[test]
fn files_are_listed() {
    let files = vec![
        WorkspaceFileInfo { filename: "AGENTS.md".to_string(), exists: true },
        WorkspaceFileInfo { filename: "SOUL.md".to_string(), exists: false },
    ];
    let (header, rows) = table(listing::list_workspace(&files, false));
    assert_eq!(header, list(&["File", "Exists"]));
    assert_eq!(rows, vec![list(&["AGENTS.md", "yes"]), list(&["SOUL.md", "no"])]);
    assert!(matches!(listing::list_workspace(&files, true), Listing::Json));
    assert!(table(listing::list_workspace(&vec![], false)).1.is_empty());
    assert_eq!(
        only_line(listing::workspace_exists(false, false)),
        (LineStyle::Plain, "no".to_string())
    );
    assert!(matches!(listing::workspace_exists(true, true), Listing::Json));
    assert!(matches!(
        listing::show_workspace_file(Some("x".to_string())),
        Listing::Content(content) if content == "x"
    ));
    assert_eq!(
        only_line(listing::show_workspace_file(None)),
        (LineStyle::Info, "Workspace file does not exist.".to_string())
    );
}

#[test]
fn daily_notes_are_listed() {
    let files = vec![DailyMemoryFileInfo {
        filename: "2026-01-02.md".to_string(),
        date: "2026-01-02".to_string(),
        size_bytes: 1205,
        preview: "p".to_string(),
    }];
    let (header, rows) = table(listing::list_memory(&files, false));
    assert_eq!(header, list(&["File", "Date", "Size", "Preview"]));
    assert_eq!(rows, vec![list(&["2026-01-02.md", "2026-01-02", "1205", "p"])]);
    assert!(matches!(listing::list_memory(&files, true), Listing::Json));
    assert!(matches!(listing::list_memory(&vec![], true), Listing::Json));
    assert_eq!(
        only_line(listing::list_memory(&vec![], false)),
        (LineStyle::Info, "No daily memory files found.".to_string())
    );
    let found = vec![DailyMemorySearchResult {
        filename: "f".to_string(),
        match_count: 3,
        snippet: "s".to_string(),
    }];
    let (header, rows) = table(listing::search_memory(&found, false));
    assert_eq!(header, list(&["File", "Matches", "Snippet"]));
    assert_eq!(rows, vec![list(&["f", "3", "s"])]);
    assert!(matches!(listing::search_memory(&found, true), Listing::Json));
    assert_eq!(
        only_line(listing::search_memory(&vec![], false)),
        (LineStyle::Info, "No daily memory matches found.".to_string())
    );
    assert_eq!(
        only_line(listing::show_memory_file(None)),
        (LineStyle::Info, "Daily memory file does not exist.".to_string())
    );
    assert_eq!(
        only_line(listing::list_texts("Fallbacks", &vec![], false)),
        (LineStyle::Plain, "Fallbacks: N/A".to_string())
    );
    assert!(matches!(listing::list_texts("Fallbacks", &vec![], true), Listing::Json));
}

fn memory(cmd: MemoryCommand) -> MemoryAction {
    hermes::execute(HermesCommand::Memory(cmd), "/h", true, Language::English).expect("there")
}

#[test]
fn memory_is_not_erased_unasked() {
    let kind = MemoryKindArg::User;
    assert!(matches!(
        memory(MemoryCommand::Clear { kind, yes: false }),
        MemoryAction::RefuseToErase(MemoryKindArg::User)
    ));
    assert!(matches!(
        memory(MemoryCommand::Clear { kind, yes: true }),
        MemoryAction::Erase(MemoryKindArg::User)
    ));
    assert!(matches!(
        memory(MemoryCommand::Disable { kind }),
        MemoryAction::Enable(MemoryKindArg::User, false)
    ));
    assert!(matches!(
        memory(MemoryCommand::Write { kind, content: None }),
        MemoryAction::WriteInput(MemoryKindArg::User)
    ));
    let missing =
        hermes::execute(HermesCommand::Memory(MemoryCommand::Limits), "/h", false, Language::English);
    assert!(matches!(
        missing,
        Err(CommandError::Message(message)) if message == "Hermes config dir not found: /h"
    ));
}

#[test]
fn memory_is_shown() {
    let kind = MemoryKindArg::Memory;
    assert!(matches!(
        hermes::show_memory(kind, ""),
        MemoryText::Hint(hint) if hint == "Hermes memory memory is empty (file not created yet)"
    ));
    assert!(matches!(hermes::show_memory(kind, "a"), MemoryText::Content(text) if text == "a\n"));
    assert!(matches!(hermes::show_memory(kind, "a\n"), MemoryText::Content(text) if text == "a\n"));
    assert_eq!(
        texts(&hermes::write_report(kind, "né")),
        vec!["✓ Wrote 3 bytes to Hermes memory memory"]
    );
    assert_eq!(
        texts(&hermes::clear_report(kind, false)),
        vec!["Refusing to clear Hermes memory memory without --yes"]
    );
    assert_eq!(
        texts(&hermes::toggle_report(kind, true)),
        vec!["✓ Enabled Hermes memory memory"]
    );
    let limits =
        MemoryLimits { memory: 10, user: 20, memory_enabled: true, user_enabled: false };
    let report = hermes::print_limits(limits, 5, 6);
    assert_eq!(texts(&report)[1], "  memory:  10 chars  (enabled: true)");
    assert_eq!(texts(&report)[2], "  user:    20 chars  (enabled: false)");
    assert_eq!(texts(&report)[6], "  user:    6 bytes");
}

fn serve(token: Option<&str>, tunnel: bool, tunnel_public: bool) -> WebCommand {
    WebCommand::Serve {
        port: 8080,
        assets: "/assets".to_string(),
        token: token.map(|token| token.to_string()),
        tunnel: if tunnel { Some(TunnelProvider::Tailscale) } else { None },
        tunnel_public,
    }
}

#[test]
fn the_dashboard_listens_on_this_machine_only() {
    let plan = web::execute(serve(Some("t"), true, false), true).expect("assets");
    assert_eq!(plan.address, "127.0.0.1:8080");
    assert_eq!(plan.token, "t");
    assert_eq!(plan.tunnel, Some(TunnelMode::Serve));
    let open = web::execute(serve(None, true, true), true).expect("assets");
    assert_eq!(open.tunnel, Some(TunnelMode::Funnel));
    let characters: Vec<char> = open.token.chars().collect();
    assert_eq!(characters.len(), 36);
    for (i, c) in characters.iter().enumerate() {
        match i {
            8 | 13 | 18 | 23 => assert_eq!(*c, '-'),
            14 => assert_eq!(*c, '4'),
            19 => assert!("89ab".contains(*c)),
            _ => assert!("0123456789abcdef".contains(*c)),
        }
    }
    let other = web::execute(serve(None, false, true), true).expect("assets");
    assert_eq!(other.tunnel, None);
    assert_ne!(open.token, other.token);
    assert!(matches!(
        web::execute(serve(None, false, false), false),
        Err(CommandError::Message(message))
            if message == "assets directory '/assets' has no index.html — build the frontend first (pnpm build:web)"
    ));
    assert_eq!(web::local_url(8080, "t"), "http://127.0.0.1:8080/?token=t");
    let report = web::serving_report(Language::English, "https://x/?token=t", Some("http://l"));
    assert_eq!(
        texts(&report),
        vec![
            "Local Web Dashboard",
            "https://x/?token=t",
            "Local: http://l",
            "This URL grants full control of your providers and settings — do not share it.",
            "Press Ctrl-C to stop.",
        ]
    );
    assert_eq!(texts(&web::serving_report(Language::Chinese, "u", None)).len(), 4);
    assert!(web::public_warning(Language::English).contains("ANYONE"));
    let last = web::teardown_report(Language::English);
    assert_eq!(last.lines.len(), 1);
    assert_eq!(last.lines[0].text, "Tearing down tunnel…");
    assert_eq!(last.lines[0].style, LineStyle::Info);
}
