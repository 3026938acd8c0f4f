//! Commands on OpenClaw.

use vstd::prelude::*;
use crate::text;
use crate::web::handlers::common;
use crate::web::handlers::common::{ArgKind, CommandPlan, Shape};
#[allow(unused_imports)]
use crate::web::handlers::common::PlanView;

verus! {

/// What a command does, if it is one of these.
pub open spec fn plan_of(command: Seq<char>) -> Option<PlanView> {
    if command == "get_openclaw_default_model"@ {
        Some(common::calls("openclaw.default_model"@, Shape::Value))
    } else if command == "set_openclaw_default_model"@ {
        Some(
            common::calls("openclaw.set_default_model"@, Shape::Value)
                .takes(ArgKind::Typed, "model"@),
        )
    } else if command == "get_openclaw_model_catalog"@ {
        Some(common::calls("openclaw.model_catalog"@, Shape::Value))
    } else if command == "set_openclaw_model_catalog"@ {
        Some(
            common::calls("openclaw.set_model_catalog"@, Shape::Value)
                .takes(ArgKind::Typed, "catalog"@),
        )
    } else if command == "get_openclaw_agents_defaults"@ {
        Some(common::calls("openclaw.agents_defaults"@, Shape::Value))
    } else if command == "set_openclaw_agents_defaults"@ {
        Some(
            common::calls("openclaw.set_agents_defaults"@, Shape::Value)
                .takes(ArgKind::Typed, "defaults"@),
        )
    } else if command == "get_openclaw_env"@ {
        Some(common::calls("openclaw.env"@, Shape::Value))
    } else if command == "set_openclaw_env"@ {
        Some(common::calls("openclaw.set_env"@, Shape::Value).takes(ArgKind::Typed, "env"@))
    } else if command == "get_openclaw_tools"@ {
        Some(common::calls("openclaw.tools"@, Shape::Value))
    } else if command == "set_openclaw_tools"@ {
        Some(common::calls("openclaw.set_tools"@, Shape::Value).takes(ArgKind::Typed, "tools"@))
    } else if command == "scan_openclaw_config_health"@ {
        Some(common::calls("openclaw.scan_health"@, Shape::Value))
    } else if command == "get_openclaw_live_provider"@ {
        Some(common::calls("openclaw.provider"@, Shape::Value).takes(ArgKind::Text, "providerId"@))
    } else {
        None
    }
}

/// What a command does, if it is one of these.
pub fn dispatch(command: &str) -> (r: Option<CommandPlan>)
    ensures
        common::plan_view(r) == plan_of(command@),
{
    if text::same_text(command, "get_openclaw_default_model") {
        Some(CommandPlan::calls("openclaw.default_model", Shape::Value))
    } else if text::same_text(command, "set_openclaw_default_model") {
        Some(
            CommandPlan::calls("openclaw.set_default_model", Shape::Value)
                .takes(ArgKind::Typed, "model"),
        )
    } else if text::same_text(command, "get_openclaw_model_catalog") {
        Some(CommandPlan::calls("openclaw.model_catalog", Shape::Value))
    } else if text::same_text(command, "set_openclaw_model_catalog") {
        Some(
            CommandPlan::calls("openclaw.set_model_catalog", Shape::Value)
                .takes(ArgKind::Typed, "catalog"),
        )
    } else if text::same_text(command, "get_openclaw_agents_defaults") {
        Some(CommandPlan::calls("openclaw.agents_defaults", Shape::Value))
    } else if text::same_text(command, "set_openclaw_agents_defaults") {
        Some(
            CommandPlan::calls("openclaw.set_agents_defaults", Shape::Value)
                .takes(ArgKind::Typed, "defaults"),
        )
    } else if text::same_text(command, "get_openclaw_env") {
        Some(CommandPlan::calls("openclaw.env", Shape::Value))
    } else if text::same_text(command, "set_openclaw_env") {
        Some(CommandPlan::calls("openclaw.set_env", Shape::Value).takes(ArgKind::Typed, "env"))
    } else if text::same_text(command, "get_openclaw_tools") {
        Some(CommandPlan::calls("openclaw.tools", Shape::Value))
    } else if text::same_text(command, "set_openclaw_tools") {
        Some(CommandPlan::calls("openclaw.set_tools", Shape::Value).takes(ArgKind::Typed, "tools"))
    } else if text::same_text(command, "scan_openclaw_config_health") {
        Some(CommandPlan::calls("openclaw.scan_health", Shape::Value))
    } else if text::same_text(command, "get_openclaw_live_provider") {
        Some(
            CommandPlan::calls("openclaw.provider", Shape::Value)
                .takes(ArgKind::Text, "providerId"),
        )
    } else {
        None
    }
}

} // verus!
