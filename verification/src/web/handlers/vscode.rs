//! Commands on endpoints.

use vstd::prelude::*;
use crate::text;
use crate::web::handlers::common;
use crate::web::handlers::common::{ArgKind, CommandPlan, Shape};
#[allow(unused_imports)]
use crate::web::handlers::common::PlanView;

verus! {

/// What a command does, if it is one of these.
pub open spec fn plan_of(command: Seq<char>) -> Option<PlanView> {
    if command == "read_live_provider_settings"@ {
        Some(
            common::calls("providers.read_live_settings"@, Shape::Value)
                .takes(ArgKind::App, "app"@),
        )
    } else if command == "test_api_endpoints"@ {
        Some(
            common::calls("speedtest.test_endpoints"@, Shape::Value)
                .takes(ArgKind::Typed, "urls"@)
                .takes(ArgKind::OptionalTyped, "timeoutSecs"@),
        )
    } else if command == "get_custom_endpoints"@ {
        Some(
            common::calls("providers.custom_endpoints"@, Shape::Value)
                .takes(ArgKind::App, "app"@)
                .takes(ArgKind::Text, "providerId"@),
        )
    } else if command == "add_custom_endpoint"@ {
        Some(
            common::calls("providers.add_custom_endpoint"@, Shape::Null)
                .takes(ArgKind::App, "app"@)
                .takes(ArgKind::Text, "providerId"@)
                .takes(ArgKind::Text, "url"@),
        )
    } else if command == "remove_custom_endpoint"@ {
        Some(
            common::calls("providers.remove_custom_endpoint"@, Shape::Null)
                .takes(ArgKind::App, "app"@)
                .takes(ArgKind::Text, "providerId"@)
                .takes(ArgKind::Text, "url"@),
        )
    } else if command == "update_endpoint_last_used"@ {
        Some(
            common::calls("providers.update_endpoint_last_used"@, Shape::Null)
                .takes(ArgKind::App, "app"@)
                .takes(ArgKind::Text, "providerId"@)
                .takes(ArgKind::Text, "url"@),
        )
    } else {
        None
    }
}

/// What a command does, if it is one of these.
pub fn dispatch(command: &str) -> (r: Option<CommandPlan>)
    ensures
        common::plan_view(r) == plan_of(command@),
{
    if text::same_text(command, "read_live_provider_settings") {
        Some(
            CommandPlan::calls("providers.read_live_settings", Shape::Value)
                .takes(ArgKind::App, "app"),
        )
    } else if text::same_text(command, "test_api_endpoints") {
        Some(
            CommandPlan::calls("speedtest.test_endpoints", Shape::Value)
                .takes(ArgKind::Typed, "urls")
                .takes(ArgKind::OptionalTyped, "timeoutSecs"),
        )
    } else if text::same_text(command, "get_custom_endpoints") {
        Some(
            CommandPlan::calls("providers.custom_endpoints", Shape::Value)
                .takes(ArgKind::App, "app")
                .takes(ArgKind::Text, "providerId"),
        )
    } else if text::same_text(command, "add_custom_endpoint") {
        Some(
            CommandPlan::calls("providers.add_custom_endpoint", Shape::Null)
                .takes(ArgKind::App, "app")
                .takes(ArgKind::Text, "providerId")
                .takes(ArgKind::Text, "url"),
        )
    } else if text::same_text(command, "remove_custom_endpoint") {
        Some(
            CommandPlan::calls("providers.remove_custom_endpoint", Shape::Null)
                .takes(ArgKind::App, "app")
                .takes(ArgKind::Text, "providerId")
                .takes(ArgKind::Text, "url"),
        )
    } else if text::same_text(command, "update_endpoint_last_used") {
        Some(
            CommandPlan::calls("providers.update_endpoint_last_used", Shape::Null)
                .takes(ArgKind::App, "app")
                .takes(ArgKind::Text, "providerId")
                .takes(ArgKind::Text, "url"),
        )
    } else {
        None
    }
}

} // verus!
