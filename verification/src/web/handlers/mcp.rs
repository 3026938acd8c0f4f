//! Commands on MCP servers.

use vstd::prelude::*;
use crate::text;
use crate::web::handlers::common;
use crate::web::handlers::common::{ArgKind, CommandPlan, Shape};
#[allow(unused_imports)]
use crate::web::handlers::common::PlanView;

verus! {

/// What a command does, if it is one of these.
pub open spec fn plan_of(command: Seq<char>) -> Option<PlanView> {
    if command == "get_mcp_servers"@ {
        Some(common::calls("mcp.all_servers"@, Shape::Value))
    } else if command == "upsert_mcp_server"@ {
        Some(common::calls("mcp.upsert_server"@, Shape::Null).takes(ArgKind::Typed, "server"@))
    } else if command == "delete_mcp_server"@ {
        Some(common::calls("mcp.delete_server"@, Shape::Value).takes(ArgKind::Text, "id"@))
    } else if command == "toggle_mcp_app"@ {
        Some(
            common::calls("mcp.toggle_app"@, Shape::Null)
                .takes(ArgKind::Text, "serverId"@)
                .takes(ArgKind::App, "app"@)
                .takes(ArgKind::Flag, "enabled"@),
        )
    } else if command == "import_mcp_from_apps"@ {
        Some(common::calls("mcp.import_from_supported_apps"@, Shape::Value))
    } else if command == "validate_mcp_command"@ {
        Some(common::calls("mcp.command_is_on_path"@, Shape::Value).takes(ArgKind::Text, "cmd"@))
    } else {
        None
    }
}

/// What a command does, if it is one of these.
pub fn dispatch(command: &str) -> (r: Option<CommandPlan>)
    ensures
        common::plan_view(r) == plan_of(command@),
{
    if text::same_text(command, "get_mcp_servers") {
        Some(CommandPlan::calls("mcp.all_servers", Shape::Value))
    } else if text::same_text(command, "upsert_mcp_server") {
        Some(CommandPlan::calls("mcp.upsert_server", Shape::Null).takes(ArgKind::Typed, "server"))
    } else if text::same_text(command, "delete_mcp_server") {
        Some(CommandPlan::calls("mcp.delete_server", Shape::Value).takes(ArgKind::Text, "id"))
    } else if text::same_text(command, "toggle_mcp_app") {
        Some(
            CommandPlan::calls("mcp.toggle_app", Shape::Null)
                .takes(ArgKind::Text, "serverId")
                .takes(ArgKind::App, "app")
                .takes(ArgKind::Flag, "enabled"),
        )
    } else if text::same_text(command, "import_mcp_from_apps") {
        Some(CommandPlan::calls("mcp.import_from_supported_apps", Shape::Value))
    } else if text::same_text(command, "validate_mcp_command") {
        Some(CommandPlan::calls("mcp.command_is_on_path", Shape::Value).takes(ArgKind::Text, "cmd"))
    } else {
        None
    }
}

} // verus!
