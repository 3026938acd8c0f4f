//! Commands on Hermes.

use vstd::prelude::*;
use crate::text;
use crate::web::handlers::common;
use crate::web::handlers::common::{ArgKind, CommandPlan, Shape};
#[allow(unused_imports)]
use crate::web::handlers::common::PlanView;

verus! {

/// What a command does, if it is one of these.
pub open spec fn plan_of(command: Seq<char>) -> Option<PlanView> {
    if command == "get_hermes_model_config"@ {
        Some(common::calls("hermes.model_config"@, Shape::Value))
    } else if command == "get_hermes_memory"@ {
        Some(common::calls("hermes.read_memory"@, Shape::Value).takes(ArgKind::Typed, "kind"@))
    } else if command == "set_hermes_memory"@ {
        Some(
            common::calls("hermes.write_memory"@, Shape::Null)
                .takes(ArgKind::Typed, "kind"@)
                .takes(ArgKind::Text, "content"@),
        )
    } else if command == "get_hermes_memory_limits"@ {
        Some(common::calls("hermes.read_memory_limits"@, Shape::Value))
    } else if command == "set_hermes_memory_enabled"@ {
        Some(
            common::calls("hermes.set_memory_enabled"@, Shape::Null)
                .takes(ArgKind::Typed, "kind"@)
                .takes(ArgKind::Flag, "enabled"@),
        )
    } else {
        None
    }
}

/// What a command does, if it is one of these.
pub fn dispatch(command: &str) -> (r: Option<CommandPlan>)
    ensures
        common::plan_view(r) == plan_of(command@),
{
    if text::same_text(command, "get_hermes_model_config") {
        Some(CommandPlan::calls("hermes.model_config", Shape::Value))
    } else if text::same_text(command, "get_hermes_memory") {
        Some(CommandPlan::calls("hermes.read_memory", Shape::Value).takes(ArgKind::Typed, "kind"))
    } else if text::same_text(command, "set_hermes_memory") {
        Some(
            CommandPlan::calls("hermes.write_memory", Shape::Null)
                .takes(ArgKind::Typed, "kind")
                .takes(ArgKind::Text, "content"),
        )
    } else if text::same_text(command, "get_hermes_memory_limits") {
        Some(CommandPlan::calls("hermes.read_memory_limits", Shape::Value))
    } else if text::same_text(command, "set_hermes_memory_enabled") {
        Some(
            CommandPlan::calls("hermes.set_memory_enabled", Shape::Null)
                .takes(ArgKind::Typed, "kind")
                .takes(ArgKind::Flag, "enabled"),
        )
    } else {
        None
    }
}

} // verus!
