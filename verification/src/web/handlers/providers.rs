//! Commands on providers.

use vstd::prelude::*;
use crate::text;
use crate::web::handlers::common;
use crate::web::handlers::common::{ArgKind, CommandPlan, Shape};
#[allow(unused_imports)]
use crate::web::handlers::common::PlanView;

verus! {

/// What a command does, if it is one of these.
pub open spec fn plan_of(command: Seq<char>) -> Option<PlanView> {
    if command == "get_providers"@ {
        Some(common::calls("providers.list"@, Shape::Value).takes(ArgKind::App, "app"@))
    } else if command == "get_current_provider"@ {
        Some(common::calls("providers.current"@, Shape::Value).takes(ArgKind::App, "app"@))
    } else if command == "switch_provider"@ {
        Some(
            common::calls("providers.switch"@, Shape::Warnings)
                .takes(ArgKind::App, "app"@)
                .takes(ArgKind::Text, "id"@),
        )
    } else if command == "add_provider"@ {
        Some(
            common::calls("providers.add"@, Shape::Value)
                .takes(ArgKind::App, "app"@)
                .takes(ArgKind::Typed, "provider"@),
        )
    } else if command == "update_provider"@ {
        Some(
            common::calls("providers.update"@, Shape::Value)
                .takes(ArgKind::App, "app"@)
                .takes(ArgKind::Typed, "provider"@),
        )
    } else if command == "delete_provider"@ {
        Some(
            common::calls("providers.delete"@, Shape::True)
                .takes(ArgKind::App, "app"@)
                .takes(ArgKind::Text, "id"@),
        )
    } else if command == "remove_provider_from_live_config"@ {
        Some(
            common::calls("providers.remove_from_live_config"@, Shape::True)
                .takes(ArgKind::App, "app"@)
                .takes(ArgKind::Text, "id"@),
        )
    } else if command == "import_default_config"@ {
        Some(
            common::calls("providers.import_default_config"@, Shape::Value)
                .takes(ArgKind::App, "app"@),
        )
    } else if command == "update_providers_sort_order"@ {
        Some(
            common::calls("providers.update_sort_order"@, Shape::Value)
                .takes(ArgKind::App, "app"@)
                .takes(ArgKind::Typed, "updates"@),
        )
    } else if command == "import_opencode_providers_from_live"@ {
        Some(common::calls("providers.import_opencode_from_live"@, Shape::Value))
    } else if command == "import_openclaw_providers_from_live"@ {
        Some(common::calls("providers.import_openclaw_from_live"@, Shape::Value))
    } else if command == "import_hermes_providers_from_live"@ {
        Some(common::calls("providers.import_hermes_from_live"@, Shape::Value))
    } else {
        None
    }
}

/// What a command does, if it is one of these.
pub fn dispatch(command: &str) -> (r: Option<CommandPlan>)
    ensures
        common::plan_view(r) == plan_of(command@),
{
    if text::same_text(command, "get_providers") {
        Some(CommandPlan::calls("providers.list", Shape::Value).takes(ArgKind::App, "app"))
    } else if text::same_text(command, "get_current_provider") {
        Some(CommandPlan::calls("providers.current", Shape::Value).takes(ArgKind::App, "app"))
    } else if text::same_text(command, "switch_provider") {
        Some(
            CommandPlan::calls("providers.switch", Shape::Warnings)
                .takes(ArgKind::App, "app")
                .takes(ArgKind::Text, "id"),
        )
    } else if text::same_text(command, "add_provider") {
        Some(
            CommandPlan::calls("providers.add", Shape::Value)
                .takes(ArgKind::App, "app")
                .takes(ArgKind::Typed, "provider"),
        )
    } else if text::same_text(command, "update_provider") {
        Some(
            CommandPlan::calls("providers.update", Shape::Value)
                .takes(ArgKind::App, "app")
                .takes(ArgKind::Typed, "provider"),
        )
    } else if text::same_text(command, "delete_provider") {
        Some(
            CommandPlan::calls("providers.delete", Shape::True)
                .takes(ArgKind::App, "app")
                .takes(ArgKind::Text, "id"),
        )
    } else if text::same_text(command, "remove_provider_from_live_config") {
        Some(
            CommandPlan::calls("providers.remove_from_live_config", Shape::True)
                .takes(ArgKind::App, "app")
                .takes(ArgKind::Text, "id"),
        )
    } else if text::same_text(command, "import_default_config") {
        Some(
            CommandPlan::calls("providers.import_default_config", Shape::Value)
                .takes(ArgKind::App, "app"),
        )
    } else if text::same_text(command, "update_providers_sort_order") {
        Some(
            CommandPlan::calls("providers.update_sort_order", Shape::Value)
                .takes(ArgKind::App, "app")
                .takes(ArgKind::Typed, "updates"),
        )
    } else if text::same_text(command, "import_opencode_providers_from_live") {
        Some(CommandPlan::calls("providers.import_opencode_from_live", Shape::Value))
    } else if text::same_text(command, "import_openclaw_providers_from_live") {
        Some(CommandPlan::calls("providers.import_openclaw_from_live", Shape::Value))
    } else if text::same_text(command, "import_hermes_providers_from_live") {
        Some(CommandPlan::calls("providers.import_hermes_from_live", Shape::Value))
    } else {
        None
    }
}

} // verus!
