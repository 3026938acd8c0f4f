//! Commands on settings.

use vstd::prelude::*;
#[allow(unused_imports)]
use crate::json::Json;
#[allow(unused_imports)]
use crate::json::JsonView;
use crate::text;
use crate::web::handlers::common;
use crate::web::handlers::common::{ArgKind, CommandPlan, Shape};
#[allow(unused_imports)]
use crate::web::handlers::common::PlanView;

verus! {

/// What a command does, if it is one of these.
pub open spec fn plan_of(command: Seq<char>, args: JsonView) -> Option<PlanView> {
    if command == "export_config_to_file"@ {
        Some(
            common::calls("config.export_to_file"@, Shape::Value)
                .takes(ArgKind::Text, "filePath"@),
        )
    } else if command == "import_config_from_file"@ {
        Some(
            common::calls("config.import_from_path"@, Shape::Imported)
                .takes(ArgKind::Text, "filePath"@),
        )
    } else if command == "sync_current_providers_live"@ {
        Some(common::calls("providers.sync_current_to_live"@, Shape::Synchronized))
    } else if command == "apply_claude_plugin_config"@ {
        if common::truth_or(args, "official"@, false) {
            Some(common::calls("claude_plugin.clear"@, Shape::Value))
        } else {
            Some(common::calls("claude_plugin.write"@, Shape::Value))
        }
    } else if command == "apply_claude_onboarding_skip"@ {
        Some(common::calls("claude_mcp.set_completed_onboarding"@, Shape::Value))
    } else if command == "clear_claude_onboarding_skip"@ {
        Some(common::calls("claude_mcp.clear_completed_onboarding"@, Shape::Value))
    } else if command == "get_rectifier_config"@ {
        Some(common::calls("settings.rectifier_config"@, Shape::Value))
    } else if command == "set_rectifier_config"@ {
        Some(
            common::calls("settings.set_rectifier_config"@, Shape::True)
                .takes(ArgKind::Typed, "config"@),
        )
    } else if command == "get_optimizer_config"@ {
        Some(common::calls("settings.optimizer_config"@, Shape::Value))
    } else if command == "set_optimizer_config"@ {
        Some(
            common::calls("settings.set_optimizer_config"@, Shape::True)
                .takes(ArgKind::Typed, "config"@),
        )
    } else if command == "get_log_config"@ {
        Some(common::calls("settings.log_config"@, Shape::Value))
    } else if command == "set_log_config"@ {
        Some(
            common::calls("settings.set_log_config"@, Shape::True)
                .takes(ArgKind::Typed, "config"@),
        )
    } else {
        None
    }
}

/// What a command does, if it is one of these.
pub fn dispatch(command: &str, args: &Json) -> (r: Option<CommandPlan>)
    ensures
        common::plan_view(r) == plan_of(command@, args@),
{
    if text::same_text(command, "export_config_to_file") {
        Some(
            CommandPlan::calls("config.export_to_file", Shape::Value)
                .takes(ArgKind::Text, "filePath"),
        )
    } else if text::same_text(command, "import_config_from_file") {
        Some(
            CommandPlan::calls("config.import_from_path", Shape::Imported)
                .takes(ArgKind::Text, "filePath"),
        )
    } else if text::same_text(command, "sync_current_providers_live") {
        Some(CommandPlan::calls("providers.sync_current_to_live", Shape::Synchronized))
    } else if text::same_text(command, "apply_claude_plugin_config") {
        if common::bool_arg(args, "official", false) {
            Some(CommandPlan::calls("claude_plugin.clear", Shape::Value))
        } else {
            Some(CommandPlan::calls("claude_plugin.write", Shape::Value))
        }
    } else if text::same_text(command, "apply_claude_onboarding_skip") {
        Some(CommandPlan::calls("claude_mcp.set_completed_onboarding", Shape::Value))
    } else if text::same_text(command, "clear_claude_onboarding_skip") {
        Some(CommandPlan::calls("claude_mcp.clear_completed_onboarding", Shape::Value))
    } else if text::same_text(command, "get_rectifier_config") {
        Some(CommandPlan::calls("settings.rectifier_config", Shape::Value))
    } else if text::same_text(command, "set_rectifier_config") {
        Some(
            CommandPlan::calls("settings.set_rectifier_config", Shape::True)
                .takes(ArgKind::Typed, "config"),
        )
    } else if text::same_text(command, "get_optimizer_config") {
        Some(CommandPlan::calls("settings.optimizer_config", Shape::Value))
    } else if text::same_text(command, "set_optimizer_config") {
        Some(
            CommandPlan::calls("settings.set_optimizer_config", Shape::True)
                .takes(ArgKind::Typed, "config"),
        )
    } else if text::same_text(command, "get_log_config") {
        Some(CommandPlan::calls("settings.log_config", Shape::Value))
    } else if text::same_text(command, "set_log_config") {
        Some(
            CommandPlan::calls("settings.set_log_config", Shape::True)
                .takes(ArgKind::Typed, "config"),
        )
    } else {
        None
    }
}

} // verus!
