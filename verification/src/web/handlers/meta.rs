//! Commands on the program itself and its settings.

use vstd::prelude::*;
use crate::text;
use crate::web::handlers::common;
use crate::web::handlers::common::{ArgKind, CommandPlan, Shape};
#[allow(unused_imports)]
use crate::web::handlers::common::PlanView;

verus! {

/// What a command does, if it is one of these.
pub open spec fn plan_of(command: Seq<char>) -> Option<PlanView> {
    if command == "get_settings"@ {
        Some(common::calls("settings.get"@, Shape::Value))
    } else if command == "save_settings"@ {
        Some(common::calls("settings.update"@, Shape::True).takes(ArgKind::Typed, "settings"@))
    } else if command == "get_config_dir"@ {
        Some(common::calls("config.dir"@, Shape::Value).takes(ArgKind::App, "app"@))
    } else if command == "get_common_config_snippet"@ {
        Some(common::calls("config.common_snippet"@, Shape::Value).takes(ArgKind::App, "appType"@))
    } else if command == "get_app_config_path"@ {
        Some(common::calls("config.app_config_path"@, Shape::Value))
    } else if command == "is_portable_mode"@ {
        Some(common::answers(Shape::False))
    } else if command == "update_tray_menu"@ {
        Some(common::answers(Shape::True))
    } else if command == "get_app_version"@ {
        Some(common::calls("program.version"@, Shape::Value))
    } else {
        None
    }
}

/// What a command does, if it is one of these.
pub fn dispatch(command: &str) -> (r: Option<CommandPlan>)
    ensures
        common::plan_view(r) == plan_of(command@),
{
    if text::same_text(command, "get_settings") {
        Some(CommandPlan::calls("settings.get", Shape::Value))
    } else if text::same_text(command, "save_settings") {
        Some(CommandPlan::calls("settings.update", Shape::True).takes(ArgKind::Typed, "settings"))
    } else if text::same_text(command, "get_config_dir") {
        Some(CommandPlan::calls("config.dir", Shape::Value).takes(ArgKind::App, "app"))
    } else if text::same_text(command, "get_common_config_snippet") {
        Some(
            CommandPlan::calls("config.common_snippet", Shape::Value)
                .takes(ArgKind::App, "appType"),
        )
    } else if text::same_text(command, "get_app_config_path") {
        Some(CommandPlan::calls("config.app_config_path", Shape::Value))
    } else if text::same_text(command, "is_portable_mode") {
        Some(CommandPlan::answers(Shape::False))
    } else if text::same_text(command, "update_tray_menu") {
        Some(CommandPlan::answers(Shape::True))
    } else if text::same_text(command, "get_app_version") {
        Some(CommandPlan::calls("program.version", Shape::Value))
    } else {
        None
    }
}

} // verus!
