//! Commands on failing over from one provider to another.

use vstd::prelude::*;
use crate::text;
use crate::web::handlers::common;
use crate::web::handlers::common::{ArgKind, CommandPlan, Shape};
#[allow(unused_imports)]
use crate::web::handlers::common::PlanView;

verus! {

/// What a command does, if it is one of these.
pub open spec fn plan_of(command: Seq<char>) -> Option<PlanView> {
    if command == "get_provider_health"@ {
        Some(
            common::calls("failover.provider_health"@, Shape::Value)
                .takes(ArgKind::Text, "providerId"@)
                .takes(ArgKind::App, "appType"@),
        )
    } else if command == "reset_circuit_breaker"@ {
        Some(
            common::calls("failover.mark_healthy"@, Shape::Null)
                .then_calls("failover.reset_breaker"@)
                .takes(ArgKind::Text, "providerId"@)
                .takes(ArgKind::App, "appType"@),
        )
    } else if command == "get_circuit_breaker_config"@ {
        Some(common::calls("failover.breaker_config"@, Shape::Value))
    } else if command == "update_circuit_breaker_config"@ {
        Some(
            common::calls("failover.save_breaker_config"@, Shape::Null)
                .then_calls("failover.apply_breaker_config"@)
                .takes(ArgKind::Typed, "config"@),
        )
    } else if command == "get_circuit_breaker_stats"@ {
        Some(
            common::answers(Shape::Null)
                .takes(ArgKind::Text, "providerId"@)
                .takes(ArgKind::App, "appType"@),
        )
    } else if command == "get_failover_queue"@ {
        Some(common::calls("failover.queue"@, Shape::Value).takes(ArgKind::App, "appType"@))
    } else if command == "get_available_providers_for_failover"@ {
        Some(
            common::calls("failover.available_providers"@, Shape::Value)
                .takes(ArgKind::App, "appType"@),
        )
    } else if command == "add_to_failover_queue"@ {
        Some(
            common::calls("failover.add_to_queue"@, Shape::Null)
                .takes(ArgKind::App, "appType"@)
                .takes(ArgKind::Text, "providerId"@),
        )
    } else if command == "remove_from_failover_queue"@ {
        Some(
            common::calls("failover.remove_from_queue"@, Shape::Null)
                .takes(ArgKind::App, "appType"@)
                .takes(ArgKind::Text, "providerId"@),
        )
    } else if command == "get_auto_failover_enabled"@ {
        Some(common::calls("failover.auto_enabled"@, Shape::Value).takes(ArgKind::App, "appType"@))
    } else if command == "set_auto_failover_enabled"@ {
        Some(
            common::calls("failover.set_auto_for_app"@, Shape::Null)
                .takes(ArgKind::App, "appType"@)
                .takes(ArgKind::Truth, "enabled"@),
        )
    } else {
        None
    }
}

/// What a command does, if it is one of these.
pub fn dispatch(command: &str) -> (r: Option<CommandPlan>)
    ensures
        common::plan_view(r) == plan_of(command@),
{
    if text::same_text(command, "get_provider_health") {
        Some(
            CommandPlan::calls("failover.provider_health", Shape::Value)
                .takes(ArgKind::Text, "providerId")
                .takes(ArgKind::App, "appType"),
        )
    } else if text::same_text(command, "reset_circuit_breaker") {
        Some(
            CommandPlan::calls("failover.mark_healthy", Shape::Null)
                .then_calls("failover.reset_breaker")
                .takes(ArgKind::Text, "providerId")
                .takes(ArgKind::App, "appType"),
        )
    } else if text::same_text(command, "get_circuit_breaker_config") {
        Some(CommandPlan::calls("failover.breaker_config", Shape::Value))
    } else if text::same_text(command, "update_circuit_breaker_config") {
        Some(
            CommandPlan::calls("failover.save_breaker_config", Shape::Null)
                .then_calls("failover.apply_breaker_config")
                .takes(ArgKind::Typed, "config"),
        )
    } else if text::same_text(command, "get_circuit_breaker_stats") {
        Some(
            CommandPlan::answers(Shape::Null)
                .takes(ArgKind::Text, "providerId")
                .takes(ArgKind::App, "appType"),
        )
    } else if text::same_text(command, "get_failover_queue") {
        Some(CommandPlan::calls("failover.queue", Shape::Value).takes(ArgKind::App, "appType"))
    } else if text::same_text(command, "get_available_providers_for_failover") {
        Some(
            CommandPlan::calls("failover.available_providers", Shape::Value)
                .takes(ArgKind::App, "appType"),
        )
    } else if text::same_text(command, "add_to_failover_queue") {
        Some(
            CommandPlan::calls("failover.add_to_queue", Shape::Null)
                .takes(ArgKind::App, "appType")
                .takes(ArgKind::Text, "providerId"),
        )
    } else if text::same_text(command, "remove_from_failover_queue") {
        Some(
            CommandPlan::calls("failover.remove_from_queue", Shape::Null)
                .takes(ArgKind::App, "appType")
                .takes(ArgKind::Text, "providerId"),
        )
    } else if text::same_text(command, "get_auto_failover_enabled") {
        Some(
            CommandPlan::calls("failover.auto_enabled", Shape::Value)
                .takes(ArgKind::App, "appType"),
        )
    } else if text::same_text(command, "set_auto_failover_enabled") {
        Some(
            CommandPlan::calls("failover.set_auto_for_app", Shape::Null)
                .takes(ArgKind::App, "appType")
                .takes(ArgKind::Truth, "enabled"),
        )
    } else {
        None
    }
}

} // verus!
