//! Commands on shared configuration and its synchronisation.

use vstd::prelude::*;
use crate::app_type::AppType;
#[allow(unused_imports)]
use crate::json;
use crate::json::Json;
#[allow(unused_imports)]
use crate::json::JsonView;
use crate::text;
use crate::web::handlers::common;
use crate::web::handlers::common::{ArgKind, CommandPlan, Shape};
#[allow(unused_imports)]
use crate::web::handlers::common::PlanView;

verus! {

/// What a command does, if it is one of these.
pub open spec fn plan_of(command: Seq<char>, args: JsonView) -> Option<PlanView> {
    if command == "get_claude_common_config_snippet"@ {
        Some(
            common::calls("config.common_snippet"@, Shape::Value)
                .takes(ArgKind::FixedApp(AppType::Claude), "app"@),
        )
    } else if command == "set_claude_common_config_snippet"@ {
        Some(
            common::calls("providers.set_common_config_snippet"@, Shape::Null)
                .takes(ArgKind::FixedApp(AppType::Claude), "app"@)
                .takes(ArgKind::Text, "snippet"@),
        )
    } else if command == "set_common_config_snippet"@ {
        Some(
            common::calls("providers.set_common_config_snippet"@, Shape::Null)
                .takes(ArgKind::App, "appType"@)
                .takes(ArgKind::Text, "snippet"@),
        )
    } else if command == "extract_common_config_snippet"@ {
        if json::field_text(args, "settingsConfig"@) is Some {
            Some(
                common::calls("providers.extract_common_config_snippet_from_settings"@, Shape::Value)
                    .takes(ArgKind::App, "appType"@)
                    .takes(ArgKind::OptionalJson, "settingsConfig"@),
            )
        } else {
            Some(
                common::calls("providers.extract_common_config_snippet"@, Shape::Value)
                    .takes(ArgKind::App, "appType"@)
                    .takes(ArgKind::OptionalJson, "settingsConfig"@),
            )
        }
    } else if command == "webdav_sync_upload"@ {
        Some(common::calls("webdav.upload"@, Shape::Status))
    } else if command == "webdav_sync_download"@ {
        Some(
            common::calls("webdav.download"@, Shape::Status)
                .then_tries("providers.sync_current_to_live"@),
        )
    } else {
        None
    }
}

/// What a command does, if it is one of these.
pub fn dispatch(command: &str, args: &Json) -> (r: Option<CommandPlan>)
    ensures
        common::plan_view(r) == plan_of(command@, args@),
{
    if text::same_text(command, "get_claude_common_config_snippet") {
        Some(
            CommandPlan::calls("config.common_snippet", Shape::Value)
                .takes(ArgKind::FixedApp(AppType::Claude), "app"),
        )
    } else if text::same_text(command, "set_claude_common_config_snippet") {
        Some(
            CommandPlan::calls("providers.set_common_config_snippet", Shape::Null)
                .takes(ArgKind::FixedApp(AppType::Claude), "app")
                .takes(ArgKind::Text, "snippet"),
        )
    } else if text::same_text(command, "set_common_config_snippet") {
        Some(
            CommandPlan::calls("providers.set_common_config_snippet", Shape::Null)
                .takes(ArgKind::App, "appType")
                .takes(ArgKind::Text, "snippet"),
        )
    } else if text::same_text(command, "extract_common_config_snippet") {
        if common::opt_str_arg(args, "settingsConfig").is_some() {
            Some(
                CommandPlan::calls("providers.extract_common_config_snippet_from_settings", Shape::Value)
                    .takes(ArgKind::App, "appType")
                    .takes(ArgKind::OptionalJson, "settingsConfig"),
            )
        } else {
            Some(
                CommandPlan::calls("providers.extract_common_config_snippet", Shape::Value)
                    .takes(ArgKind::App, "appType")
                    .takes(ArgKind::OptionalJson, "settingsConfig"),
            )
        }
    } else if text::same_text(command, "webdav_sync_upload") {
        Some(CommandPlan::calls("webdav.upload", Shape::Status))
    } else if text::same_text(command, "webdav_sync_download") {
        Some(
            CommandPlan::calls("webdav.download", Shape::Status)
                .then_tries("providers.sync_current_to_live"),
        )
    } else {
        None
    }
}

} // verus!
