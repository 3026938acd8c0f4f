//! Commands on the MCP servers of one application.

use vstd::prelude::*;
use vstd::string::*;
use crate::app_type::{AppType, EnabledApps};
use crate::json;
use crate::json::Json;
use crate::json::JsonView;
use crate::text;
use crate::web::handlers::common;
use crate::web::handlers::common::{ArgKind, CommandPlan, Shape};
#[allow(unused_imports)]
use crate::web::handlers::common::PlanView;

verus! {

/// What a command does, if it is one of these.
pub open spec fn plan_of(command: Seq<char>) -> Option<PlanView> {
    if command == "get_claude_mcp_status"@ {
        Some(common::calls("claude_mcp.status"@, Shape::Value))
    } else if command == "read_claude_mcp_config"@ {
        Some(common::calls("claude_mcp.read_json"@, Shape::Value))
    } else if command == "upsert_claude_mcp_server"@ {
        Some(
            common::calls("claude_mcp.upsert_server"@, Shape::Value)
                .takes(ArgKind::Text, "id"@)
                .takes(ArgKind::Present, "spec"@),
        )
    } else if command == "delete_claude_mcp_server"@ {
        Some(common::calls("claude_mcp.delete_server"@, Shape::Value).takes(ArgKind::Text, "id"@))
    } else if command == "get_mcp_config"@ {
        Some(common::calls("mcp.config_of_app"@, Shape::Value).takes(ArgKind::App, "app"@))
    } else if command == "upsert_mcp_server_in_config"@ {
        Some(
            common::calls("mcp.upsert_server_of_app"@, Shape::True)
                .takes(ArgKind::App, "app"@)
                .takes(ArgKind::Text, "id"@)
                .takes(ArgKind::Present, "spec"@)
                .takes(ArgKind::Flag, "syncOtherSide"@),
        )
    } else if command == "delete_mcp_server_in_config"@ {
        Some(common::calls("mcp.delete_server"@, Shape::Value).takes(ArgKind::Text, "id"@))
    } else if command == "set_mcp_enabled"@ {
        Some(
            common::calls("mcp.set_enabled"@, Shape::Value)
                .takes(ArgKind::App, "app"@)
                .takes(ArgKind::Text, "id"@)
                .takes(ArgKind::Flag, "enabled"@),
        )
    } else {
        None
    }
}

/// What a command does, if it is one of these.
pub fn dispatch(command: &str) -> (r: Option<CommandPlan>)
    ensures
        common::plan_view(r) == plan_of(command@),
{
    if text::same_text(command, "get_claude_mcp_status") {
        Some(CommandPlan::calls("claude_mcp.status", Shape::Value))
    } else if text::same_text(command, "read_claude_mcp_config") {
        Some(CommandPlan::calls("claude_mcp.read_json", Shape::Value))
    } else if text::same_text(command, "upsert_claude_mcp_server") {
        Some(
            CommandPlan::calls("claude_mcp.upsert_server", Shape::Value)
                .takes(ArgKind::Text, "id")
                .takes(ArgKind::Present, "spec"),
        )
    } else if text::same_text(command, "delete_claude_mcp_server") {
        Some(
            CommandPlan::calls("claude_mcp.delete_server", Shape::Value)
                .takes(ArgKind::Text, "id"),
        )
    } else if text::same_text(command, "get_mcp_config") {
        Some(CommandPlan::calls("mcp.config_of_app", Shape::Value).takes(ArgKind::App, "app"))
    } else if text::same_text(command, "upsert_mcp_server_in_config") {
        Some(
            CommandPlan::calls("mcp.upsert_server_of_app", Shape::True)
                .takes(ArgKind::App, "app")
                .takes(ArgKind::Text, "id")
                .takes(ArgKind::Present, "spec")
                .takes(ArgKind::Flag, "syncOtherSide"),
        )
    } else if text::same_text(command, "delete_mcp_server_in_config") {
        Some(CommandPlan::calls("mcp.delete_server", Shape::Value).takes(ArgKind::Text, "id"))
    } else if text::same_text(command, "set_mcp_enabled") {
        Some(
            CommandPlan::calls("mcp.set_enabled", Shape::Value)
                .takes(ArgKind::App, "app")
                .takes(ArgKind::Text, "id")
                .takes(ArgKind::Flag, "enabled"),
        )
    } else {
        None
    }
}

/// An MCP server.
#[derive(Debug)]
pub struct McpServer {
    pub id: String,
    pub name: String,
    pub server: Json,
    pub apps: EnabledApps,
    pub description: Option<String>,
    pub homepage: Option<String>,
    pub docs: Option<String>,
    pub tags: Vec<String>,
}

/// The model of [`McpServer`].
pub struct McpServerView {
    pub id: Seq<char>,
    pub name: Seq<char>,
    pub server: JsonView,
    pub apps: EnabledApps,
    pub description: Option<Seq<char>>,
    pub homepage: Option<Seq<char>>,
    pub docs: Option<Seq<char>>,
    pub tags: Seq<Seq<char>>,
}

impl View for McpServer {
    type V = McpServerView;

    open spec fn view(&self) -> McpServerView {
        McpServerView {
            id: self.id@,
            name: self.name@,
            server: self.server@,
            apps: self.apps,
            description: text::option_view(self.description),
            homepage: text::option_view(self.homepage),
            docs: text::option_view(self.docs),
            tags: text::views(self.tags@),
        }
    }
}

/// Whether a server is enabled for an application once it has been put into the
/// configuration of `app`, and into that of the others where that is asked for.
pub open spec fn enabled_after(
    before: bool,
    app: AppType,
    other: AppType,
    sync_other_side: bool,
) -> bool {
    if other == AppType::OpenClaw {
        false
    } else if other == app {
        true
    } else if sync_other_side && other != AppType::Hermes {
        true
    } else {
        before
    }
}

/// The name of a new server: the one that it gives itself, else its identifier.
pub open spec fn new_name(id: Seq<char>, spec_json: JsonView) -> Seq<char> {
    match json::field_text(spec_json, "name"@) {
        Some(name) => name,
        None => id,
    }
}

/// The server that is stored where one is put into the configuration of an
/// application: the one that is there already, with the new definition, else a new
/// one.
pub fn server_of_app(
    existing: Option<McpServer>,
    app: AppType,
    id: &str,
    definition: &Json,
    sync_other_side: bool,
) -> (r: McpServer)
    ensures
        r@.server == definition@,
        match existing {
            Some(before) => {
                &&& r@.id == before@.id
                &&& r@.name == before@.name
                &&& r@.description == before@.description
                &&& r@.homepage == before@.homepage
                &&& r@.docs == before@.docs
                &&& r@.tags == before@.tags
                &&& forall|other: AppType| #[trigger]
                    r@.apps.has(other) == enabled_after(
                        before@.apps.has(other),
                        app,
                        other,
                        sync_other_side,
                    )
            },
            None => {
                &&& r@.id == id@
                &&& r@.name == new_name(id@, definition@)
                &&& r@.description is None
                &&& r@.homepage is None
                &&& r@.docs is None
                &&& r@.tags.len() == 0
                &&& forall|other: AppType| #[trigger]
                    r@.apps.has(other) == enabled_after(false, app, other, sync_other_side)
            },
        },
{
    let mut server = match existing {
        Some(mut before) => {
            before.server = definition.duplicate();
            before
        },
        None => McpServer {
            id: id.to_owned(),
            name: match definition.get_str("name") {
                Some(name) => name.to_owned(),
                None => id.to_owned(),
            },
            server: definition.duplicate(),
            apps: EnabledApps::nowhere(),
            description: None,
            homepage: None,
            docs: None,
            tags: Vec::new(),
        },
    };
    let mut apps = server.apps;
    apps.set_enabled_for(app, true);
    if sync_other_side {
        apps.set_enabled_for(AppType::Claude, true);
        apps.set_enabled_for(AppType::Codex, true);
        apps.set_enabled_for(AppType::Gemini, true);
        apps.set_enabled_for(AppType::OpenCode, true);
    }
    server.apps = apps;
    server
}

/// What is sent as the configuration of an application.
pub fn config_response(config_path: &str, servers: Json) -> (r: Json)
    ensures
        r@ == JsonView::empty_object().with("config_path"@, JsonView::Text(config_path@)).with(
            "servers"@,
            servers@,
        ),
{
    Json::empty_object().with("config_path", Json::from_text(config_path)).with("servers", servers)
}

} // verus!
